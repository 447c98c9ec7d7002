//! What goes into a payment: the amounts, and the signature of each input.

use vstd::prelude::*;
use crate::number::{first_digit, leading_zeros};
use crate::wallet::{GetListUnspentResponse, WalletError};
use crate::wallet::chain::{der_of_compact, der_signature};
use crate::wallet::coins::total_value;

verus! {

/// The two outputs of a payment, in satoshi.
#[derive(Debug, Clone, Copy, PartialEq, Eq, Structural)]
pub struct Payment {
    /// What the payee gets.
    pub amount: u64,
    /// What comes back to the wallet.
    pub change: u64,
}

/// The mark that a signature covers all inputs and outputs.
pub const SIGHASH_ALL: u8 = 1;

/// The value of a run of outputs is at most their number times the largest
/// value that an output can have, and grows with the run.
proof fn lemma_total_value_bounded(coins: Seq<GetListUnspentResponse>, i: int)
    requires
        0 <= i <= coins.len(),
    ensures
        0 <= total_value(coins.take(i)) <= total_value(coins),
        total_value(coins) <= coins.len() * 0xffff_ffff_ffff_ffff,
    decreases coins.len(),
{
    if coins.len() > 0 {
        assert(coins.len() * 0xffff_ffff_ffff_ffff == (coins.len() - 1) * 0xffff_ffff_ffff_ffff
            + 0xffff_ffff_ffff_ffff) by (nonlinear_arith);
        if i == coins.len() {
            assert(coins.take(i) =~= coins);
            lemma_total_value_bounded(coins.drop_last(), i - 1);
            lemma_total_value_bounded(coins.take(i - 1), 0);
        } else {
            lemma_total_value_bounded(coins.drop_last(), i);
            assert(coins.drop_last().take(i) =~= coins.take(i));
        }
    }
}

/// Why `selected` cannot pay `amount`, if it cannot.
pub open spec fn unfunded(selected: Seq<GetListUnspentResponse>, amount: u64) -> Option<
    WalletError,
> {
    if selected.len() == 0 {
        Some(WalletError::NotEnoughFunds)
    } else if total_value(selected) > u64::MAX {
        Some(WalletError::AmountOverflow)
    } else if total_value(selected) < amount {
        Some(WalletError::NotEnoughFunds)
    } else {
        None
    }
}

/// Splits the value of the outputs `selected` into the amount to pay and the
/// change. There must be an output, and the outputs must cover the amount.
pub fn fund(selected: &Vec<GetListUnspentResponse>, amount_satoshi: u64) -> (r: Result<
    Payment,
    WalletError,
>)
    ensures
        match r {
            Ok(payment) => {
                &&& unfunded(selected@, amount_satoshi) is None
                &&& payment.amount == amount_satoshi
                &&& payment.change == total_value(selected@) - amount_satoshi
            },
            Err(e) => unfunded(selected@, amount_satoshi) == Some(e),
        },
{
    if selected.len() == 0 {
        return Err(WalletError::NotEnoughFunds);
    }
    let mut total: u64 = 0;
    let mut i: usize = 0;
    while i < selected.len()
        invariant
            i <= selected.len(),
            total == total_value(selected@.take(i as int)),
        decreases selected.len() - i,
    {
        proof {
            assert(selected@.take(i + 1).drop_last() =~= selected@.take(i as int));
            lemma_total_value_bounded(selected@, i + 1);
        }
        let value = selected[i].value as u64;
        if value > u64::MAX - total {
            return Err(WalletError::AmountOverflow);
        }
        total = total + value;
        i += 1;
    }
    assert(selected@.take(i as int) =~= selected@);
    if total < amount_satoshi {
        return Err(WalletError::NotEnoughFunds);
    }
    Ok(Payment { amount: amount_satoshi, change: total - amount_satoshi })
}

/// The position of an output in its transaction, as a transaction input
/// names it: in 32 bits.
pub fn output_index(tx_pos: usize) -> (r: Result<u32, WalletError>)
    ensures
        match r {
            Ok(vout) => vout == tx_pos,
            Err(e) => e == WalletError::OutputIndexTooLarge && tx_pos > u32::MAX,
        },
{
    if tx_pos > u32::MAX as usize {
        Err(WalletError::OutputIndexTooLarge)
    } else {
        Ok(tx_pos as u32)
    }
}

/// The big-endian number `bytes` in exactly 32 bytes: without its leading
/// zeros, then with as many as make up 32 bytes. None if the number needs
/// more than 32 bytes.
pub open spec fn in_32_bytes(bytes: Seq<u8>) -> Option<Seq<u8>> {
    let digits = bytes.skip(leading_zeros(bytes) as int);
    if digits.len() > 32 {
        None
    } else {
        Some(Seq::new((32 - digits.len()) as nat, |i: int| 0u8) + digits)
    }
}

/// The compact encoding of the signature `(r, s)`: `r` in 32 bytes, then `s`
/// in 32 bytes.
pub open spec fn compact_of(r: Seq<u8>, s: Seq<u8>) -> Option<Seq<u8>> {
    match (in_32_bytes(r), in_32_bytes(s)) {
        (Some(r), Some(s)) => Some(r + s),
        _ => None,
    }
}

/// The signature `(r, s)` as it stands in the witness of an input: its DER
/// encoding, then the mark [`SIGHASH_ALL`]. None if `r` or `s` does not fit
/// in 32 bytes or the two are no signature.
pub open spec fn witness_signature(r: Seq<u8>, s: Seq<u8>) -> Option<Seq<u8>> {
    match compact_of(r, s) {
        Some(compact) => match der_signature(compact) {
            Some(der) => Some(der.push(SIGHASH_ALL)),
            None => None,
        },
        None => None,
    }
}

/// Appends the big-endian number `bytes`, in exactly 32 bytes, to `out`.
/// Leaves `out` as it is and says no if the number needs more.
fn push_32_bytes(out: &mut Vec<u8>, bytes: &Vec<u8>) -> (fits: bool)
    ensures
        match in_32_bytes(bytes@) {
            Some(padded) => fits && final(out)@ == old(out)@ + padded,
            None => !fits && final(out)@ == old(out)@,
        },
{
    let start = first_digit(bytes);
    let digits = bytes.len() - start;
    if digits > 32 {
        return false;
    }
    let ghost before = out@;
    let ghost padded = in_32_bytes(bytes@).unwrap();
    let mut k: usize = 0;
    while k < 32 - digits
        invariant
            digits <= 32,
            k <= 32 - digits,
            digits == bytes.len() - start,
            start <= bytes.len(),
            padded == Seq::new((32 - digits) as nat, |i: int| 0u8) + bytes@.skip(start as int),
            out@ == before + padded.take(k as int),
        decreases 32 - digits - k,
    {
        out.push(0u8);
        k += 1;
    }
    let mut j: usize = start;
    while j < bytes.len()
        invariant
            digits <= 32,
            digits == bytes.len() - start,
            start <= j <= bytes.len(),
            padded == Seq::new((32 - digits) as nat, |i: int| 0u8) + bytes@.skip(start as int),
            out@ == before + padded.take(32 - digits + (j - start)),
        decreases bytes.len() - j,
    {
        out.push(bytes[j]);
        j += 1;
    }
    true
}

/// Writes the signature `(r, s)`, each half a big-endian number, as it stands
/// in the witness of an input.
pub fn assemble_signature(r: &Vec<u8>, s: &Vec<u8>) -> (signature: Result<Vec<u8>, WalletError>)
    ensures
        match signature {
            Ok(bytes) => witness_signature(r@, s@) == Some(bytes@),
            Err(e) => e == WalletError::SignatureAssembly && witness_signature(r@, s@) is None,
        },
{
    let mut compact: Vec<u8> = Vec::new();
    if !push_32_bytes(&mut compact, r) {
        return Err(WalletError::SignatureAssembly);
    }
    if !push_32_bytes(&mut compact, s) {
        return Err(WalletError::SignatureAssembly);
    }
    match der_of_compact(compact.as_slice()) {
        Some(mut der) => {
            der.push(SIGHASH_ALL);
            Ok(der)
        },
        None => Err(WalletError::SignatureAssembly),
    }
}

} // verus!
