//! The signature that a signing round gives out, and the check that it
//! passes before it leaves the server.

use vstd::prelude::*;
use crate::number::{be_value, is_zero, less};
use crate::routes::session::ProtocolError;

verus! {

/// The order of the group of the curve secp256k1.
pub open spec fn group_order() -> nat {
    0xffffffff_ffffffff_ffffffff_fffffffe_baaedce6_af48a03b_bfd25e8c_d0364141nat
}

/// Half the order of the group, rounded down.
pub open spec fn half_order() -> nat {
    0x7fffffff_ffffffff_ffffffff_ffffffff_5d576e73_57a4501d_dfe92f46_681b20a0nat
}

/// The order of the group, as bytes.
pub open spec fn order_bytes() -> Seq<u8> {
    seq![
        0xffu8, 0xffu8, 0xffu8, 0xffu8, 0xffu8, 0xffu8, 0xffu8, 0xffu8,
        0xffu8, 0xffu8, 0xffu8, 0xffu8, 0xffu8, 0xffu8, 0xffu8, 0xfeu8,
        0xbau8, 0xaeu8, 0xdcu8, 0xe6u8, 0xafu8, 0x48u8, 0xa0u8, 0x3bu8,
        0xbfu8, 0xd2u8, 0x5eu8, 0x8cu8, 0xd0u8, 0x36u8, 0x41u8, 0x41u8,
    ]
}

/// The number after half the order of the group, as bytes.
pub open spec fn above_half_order_bytes() -> Seq<u8> {
    seq![
        0x7fu8, 0xffu8, 0xffu8, 0xffu8, 0xffu8, 0xffu8, 0xffu8, 0xffu8,
        0xffu8, 0xffu8, 0xffu8, 0xffu8, 0xffu8, 0xffu8, 0xffu8, 0xffu8,
        0x5du8, 0x57u8, 0x6eu8, 0x73u8, 0x57u8, 0xa4u8, 0x50u8, 0x1du8,
        0xdfu8, 0xe9u8, 0x2fu8, 0x46u8, 0x68u8, 0x1bu8, 0x20u8, 0xa1u8,
    ]
}

/// One more byte at the end is one more digit.
proof fn lemma_value_push(bytes: Seq<u8>, last: u8)
    ensures
        be_value(bytes.push(last)) == be_value(bytes) * 256 + last,
{
    assert(bytes.push(last).drop_last() =~= bytes);
}

/// The bytes of the order write the order.
pub proof fn lemma_order_bytes()
    ensures
        be_value(order_bytes()) == group_order(),
{
    let b0 = Seq::<u8>::empty();
    let b1 = b0.push(0xffu8);
    lemma_value_push(b0, 0xffu8);
    let b2 = b1.push(0xffu8);
    lemma_value_push(b1, 0xffu8);
    let b3 = b2.push(0xffu8);
    lemma_value_push(b2, 0xffu8);
    let b4 = b3.push(0xffu8);
    lemma_value_push(b3, 0xffu8);
    let b5 = b4.push(0xffu8);
    lemma_value_push(b4, 0xffu8);
    let b6 = b5.push(0xffu8);
    lemma_value_push(b5, 0xffu8);
    let b7 = b6.push(0xffu8);
    lemma_value_push(b6, 0xffu8);
    let b8 = b7.push(0xffu8);
    lemma_value_push(b7, 0xffu8);
    let b9 = b8.push(0xffu8);
    lemma_value_push(b8, 0xffu8);
    let b10 = b9.push(0xffu8);
    lemma_value_push(b9, 0xffu8);
    let b11 = b10.push(0xffu8);
    lemma_value_push(b10, 0xffu8);
    let b12 = b11.push(0xffu8);
    lemma_value_push(b11, 0xffu8);
    let b13 = b12.push(0xffu8);
    lemma_value_push(b12, 0xffu8);
    let b14 = b13.push(0xffu8);
    lemma_value_push(b13, 0xffu8);
    let b15 = b14.push(0xffu8);
    lemma_value_push(b14, 0xffu8);
    let b16 = b15.push(0xfeu8);
    lemma_value_push(b15, 0xfeu8);
    let b17 = b16.push(0xbau8);
    lemma_value_push(b16, 0xbau8);
    let b18 = b17.push(0xaeu8);
    lemma_value_push(b17, 0xaeu8);
    let b19 = b18.push(0xdcu8);
    lemma_value_push(b18, 0xdcu8);
    let b20 = b19.push(0xe6u8);
    lemma_value_push(b19, 0xe6u8);
    let b21 = b20.push(0xafu8);
    lemma_value_push(b20, 0xafu8);
    let b22 = b21.push(0x48u8);
    lemma_value_push(b21, 0x48u8);
    let b23 = b22.push(0xa0u8);
    lemma_value_push(b22, 0xa0u8);
    let b24 = b23.push(0x3bu8);
    lemma_value_push(b23, 0x3bu8);
    let b25 = b24.push(0xbfu8);
    lemma_value_push(b24, 0xbfu8);
    let b26 = b25.push(0xd2u8);
    lemma_value_push(b25, 0xd2u8);
    let b27 = b26.push(0x5eu8);
    lemma_value_push(b26, 0x5eu8);
    let b28 = b27.push(0x8cu8);
    lemma_value_push(b27, 0x8cu8);
    let b29 = b28.push(0xd0u8);
    lemma_value_push(b28, 0xd0u8);
    let b30 = b29.push(0x36u8);
    lemma_value_push(b29, 0x36u8);
    let b31 = b30.push(0x41u8);
    lemma_value_push(b30, 0x41u8);
    let b32 = b31.push(0x41u8);
    lemma_value_push(b31, 0x41u8);
    assert(b32 == order_bytes());
}

/// The bytes of the number after half the order write that number.
pub proof fn lemma_above_half_order_bytes()
    ensures
        be_value(above_half_order_bytes()) == half_order() + 1,
{
    let b0 = Seq::<u8>::empty();
    let b1 = b0.push(0x7fu8);
    lemma_value_push(b0, 0x7fu8);
    let b2 = b1.push(0xffu8);
    lemma_value_push(b1, 0xffu8);
    let b3 = b2.push(0xffu8);
    lemma_value_push(b2, 0xffu8);
    let b4 = b3.push(0xffu8);
    lemma_value_push(b3, 0xffu8);
    let b5 = b4.push(0xffu8);
    lemma_value_push(b4, 0xffu8);
    let b6 = b5.push(0xffu8);
    lemma_value_push(b5, 0xffu8);
    let b7 = b6.push(0xffu8);
    lemma_value_push(b6, 0xffu8);
    let b8 = b7.push(0xffu8);
    lemma_value_push(b7, 0xffu8);
    let b9 = b8.push(0xffu8);
    lemma_value_push(b8, 0xffu8);
    let b10 = b9.push(0xffu8);
    lemma_value_push(b9, 0xffu8);
    let b11 = b10.push(0xffu8);
    lemma_value_push(b10, 0xffu8);
    let b12 = b11.push(0xffu8);
    lemma_value_push(b11, 0xffu8);
    let b13 = b12.push(0xffu8);
    lemma_value_push(b12, 0xffu8);
    let b14 = b13.push(0xffu8);
    lemma_value_push(b13, 0xffu8);
    let b15 = b14.push(0xffu8);
    lemma_value_push(b14, 0xffu8);
    let b16 = b15.push(0xffu8);
    lemma_value_push(b15, 0xffu8);
    let b17 = b16.push(0x5du8);
    lemma_value_push(b16, 0x5du8);
    let b18 = b17.push(0x57u8);
    lemma_value_push(b17, 0x57u8);
    let b19 = b18.push(0x6eu8);
    lemma_value_push(b18, 0x6eu8);
    let b20 = b19.push(0x73u8);
    lemma_value_push(b19, 0x73u8);
    let b21 = b20.push(0x57u8);
    lemma_value_push(b20, 0x57u8);
    let b22 = b21.push(0xa4u8);
    lemma_value_push(b21, 0xa4u8);
    let b23 = b22.push(0x50u8);
    lemma_value_push(b22, 0x50u8);
    let b24 = b23.push(0x1du8);
    lemma_value_push(b23, 0x1du8);
    let b25 = b24.push(0xdfu8);
    lemma_value_push(b24, 0xdfu8);
    let b26 = b25.push(0xe9u8);
    lemma_value_push(b25, 0xe9u8);
    let b27 = b26.push(0x2fu8);
    lemma_value_push(b26, 0x2fu8);
    let b28 = b27.push(0x46u8);
    lemma_value_push(b27, 0x46u8);
    let b29 = b28.push(0x68u8);
    lemma_value_push(b28, 0x68u8);
    let b30 = b29.push(0x1bu8);
    lemma_value_push(b29, 0x1bu8);
    let b31 = b30.push(0x20u8);
    lemma_value_push(b30, 0x20u8);
    let b32 = b31.push(0xa1u8);
    lemma_value_push(b31, 0xa1u8);
    assert(b32 == above_half_order_bytes());
}

/// A signature with the bit that tells which of the candidate keys signed.
/// The two halves are big-endian numbers.
#[derive(Debug, Clone)]
pub struct SignatureRecid {
    pub s: Vec<u8>,
    pub r: Vec<u8>,
    pub recid: u8,
}

/// Whether `(r, s, recid)` may be given out: both halves are in the scalar
/// field and not zero, `s` is in the lower half of the field, and the
/// recovery id is one of the four that there are.
pub open spec fn presentable(r: Seq<u8>, s: Seq<u8>, recid: u8) -> bool {
    &&& 0 < be_value(r) < group_order()
    &&& 0 < be_value(s) <= half_order()
    &&& recid <= 3
}

/// The order of the group, as bytes.
fn order() -> (bytes: Vec<u8>)
    ensures
        bytes@ == order_bytes(),
{
    vec![
        0xffu8, 0xffu8, 0xffu8, 0xffu8, 0xffu8, 0xffu8, 0xffu8, 0xffu8,
        0xffu8, 0xffu8, 0xffu8, 0xffu8, 0xffu8, 0xffu8, 0xffu8, 0xfeu8,
        0xbau8, 0xaeu8, 0xdcu8, 0xe6u8, 0xafu8, 0x48u8, 0xa0u8, 0x3bu8,
        0xbfu8, 0xd2u8, 0x5eu8, 0x8cu8, 0xd0u8, 0x36u8, 0x41u8, 0x41u8,
    ]
}

/// The number after half the order of the group, as bytes.
fn above_half_order() -> (bytes: Vec<u8>)
    ensures
        bytes@ == above_half_order_bytes(),
{
    vec![
        0x7fu8, 0xffu8, 0xffu8, 0xffu8, 0xffu8, 0xffu8, 0xffu8, 0xffu8,
        0xffu8, 0xffu8, 0xffu8, 0xffu8, 0xffu8, 0xffu8, 0xffu8, 0xffu8,
        0x5du8, 0x57u8, 0x6eu8, 0x73u8, 0x57u8, 0xa4u8, 0x50u8, 0x1du8,
        0xdfu8, 0xe9u8, 0x2fu8, 0x46u8, 0x68u8, 0x1bu8, 0x20u8, 0xa1u8,
    ]
}

impl SignatureRecid {
    /// The signature `(r, s, recid)`, if it may be given out. A signature
    /// that may not is a fault of the server, whatever made it.
    pub fn checked(r: Vec<u8>, s: Vec<u8>, recid: u8) -> (signature: Result<
        SignatureRecid,
        ProtocolError,
    >)
        ensures
            match signature {
                Ok(signature) => {
                    &&& presentable(r@, s@, recid)
                    &&& signature.r == r
                    &&& signature.s == s
                    &&& signature.recid == recid
                },
                Err(e) => e == ProtocolError::InvariantViolation && !presentable(r@, s@, recid),
            },
    {
        proof {
            lemma_order_bytes();
            lemma_above_half_order_bytes();
        }
        if recid > 3 || is_zero(&r) || is_zero(&s) {
            return Err(ProtocolError::InvariantViolation);
        }
        if !less(&r, &order()) || !less(&s, &above_half_order()) {
            return Err(ProtocolError::InvariantViolation);
        }
        Ok(SignatureRecid { s, r, recid })
    }
}

} // verus!
