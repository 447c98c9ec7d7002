//! Natural numbers written as bytes, the most significant byte first.

use vstd::prelude::*;

verus! {

/// The number that `bytes` write.
pub open spec fn be_value(bytes: Seq<u8>) -> nat
    decreases bytes.len(),
{
    if bytes.len() == 0 {
        0
    } else {
        be_value(bytes.drop_last()) * 256 + bytes.last() as nat
    }
}

/// 256 to the power of `n`.
pub open spec fn pow256(n: nat) -> nat
    decreases n,
{
    if n == 0 {
        1
    } else {
        256 * pow256((n - 1) as nat)
    }
}

/// How many zero bytes `bytes` begins with.
pub open spec fn leading_zeros(bytes: Seq<u8>) -> nat
    decreases bytes.len(),
{
    if bytes.len() > 0 && bytes[0] == 0 {
        1 + leading_zeros(bytes.drop_first())
    } else {
        0
    }
}

/// The leading zeros are at most all bytes; the byte after them, if there is
/// one, is not zero.
pub proof fn lemma_leading_zeros(bytes: Seq<u8>)
    ensures
        leading_zeros(bytes) <= bytes.len(),
        leading_zeros(bytes) < bytes.len() ==> bytes[leading_zeros(bytes) as int] != 0,
        forall|i: int| 0 <= i < leading_zeros(bytes) ==> bytes[i] == 0,
    decreases bytes.len(),
{
    if bytes.len() > 0 && bytes[0] == 0 {
        let rest = bytes.drop_first();
        lemma_leading_zeros(rest);
        assert forall|i: int| 0 <= i < leading_zeros(bytes) implies bytes[i] == 0 by {
            if i > 0 {
                assert(bytes[i] == rest[i - 1]);
            }
        }
    }
}

/// A number of `n` bytes is less than 256 to the `n`.
pub proof fn lemma_value_below_power(bytes: Seq<u8>)
    ensures
        be_value(bytes) < pow256(bytes.len()),
    decreases bytes.len(),
{
    if bytes.len() > 0 {
        lemma_value_below_power(bytes.drop_last());
    }
}

/// A number whose first byte is not zero is at least 256 to the number of
/// the bytes that follow.
pub proof fn lemma_value_reaches_power(bytes: Seq<u8>)
    requires
        bytes.len() > 0,
        bytes[0] != 0,
    ensures
        be_value(bytes) >= pow256((bytes.len() - 1) as nat),
    decreases bytes.len(),
{
    if bytes.len() > 1 {
        lemma_value_reaches_power(bytes.drop_last());
    }
}

/// The powers of 256 grow.
pub proof fn lemma_powers_grow(m: nat, n: nat)
    requires
        m <= n,
    ensures
        pow256(m) <= pow256(n),
        pow256(m) >= 1,
    decreases n,
{
    if m < n {
        lemma_powers_grow(m, (n - 1) as nat);
    } else if n > 0 {
        lemma_powers_grow((m - 1) as nat, (n - 1) as nat);
    }
}

/// Zeros in front do not change the number.
pub proof fn lemma_zeros_in_front(bytes: Seq<u8>, k: int)
    requires
        0 <= k <= bytes.len(),
        forall|i: int| 0 <= i < k ==> bytes[i] == 0,
    ensures
        be_value(bytes) == be_value(bytes.skip(k)),
    decreases bytes.len(),
{
    if k == bytes.len() {
        if bytes.len() > 0 {
            lemma_zeros_in_front(bytes.drop_last(), k - 1);
        }
    } else {
        lemma_zeros_in_front(bytes.drop_last(), k);
        assert(bytes.skip(k).drop_last() =~= bytes.drop_last().skip(k));
    }
}

/// Of two numbers of equal length that agree up to a byte, the one with the
/// smaller byte there is the smaller.
pub proof fn lemma_first_difference_decides(a: Seq<u8>, b: Seq<u8>, at: int)
    requires
        a.len() == b.len(),
        0 <= at < a.len(),
        forall|i: int| 0 <= i < at ==> a[i] == b[i],
        a[at] < b[at],
    ensures
        be_value(a) < be_value(b),
    decreases a.len(),
{
    if at == a.len() - 1 {
        assert(a.drop_last() =~= b.drop_last());
    } else {
        lemma_first_difference_decides(a.drop_last(), b.drop_last(), at);
    }
}

/// How [`be_value`] orders `a` and `b`, read off the bytes: the number with
/// fewer bytes after its leading zeros is the smaller; of two with equally
/// many, the one that is smaller at the first byte in which they differ.
pub open spec fn be_less(a: Seq<u8>, b: Seq<u8>) -> bool {
    be_value(a) < be_value(b)
}

/// Whether the number `a` is less than the number `b`.
pub fn less(a: &Vec<u8>, b: &Vec<u8>) -> (r: bool)
    ensures
        r == be_less(a@, b@),
{
    let a0 = first_digit(a);
    let b0 = first_digit(b);
    let ghost da = a@.skip(a0 as int);
    let ghost db = b@.skip(b0 as int);
    proof {
        lemma_leading_zeros(a@);
        lemma_leading_zeros(b@);
        lemma_zeros_in_front(a@, a0 as int);
        lemma_zeros_in_front(b@, b0 as int);
    }
    let na = a.len() - a0;
    let nb = b.len() - b0;
    if na != nb {
        proof {
            lemma_value_below_power(da);
            lemma_value_below_power(db);
            if na < nb {
                lemma_value_reaches_power(db);
                lemma_powers_grow(na as nat, (nb - 1) as nat);
            } else {
                lemma_value_reaches_power(da);
                lemma_powers_grow(nb as nat, (na - 1) as nat);
            }
        }
        return na < nb;
    }
    let mut i: usize = 0;
    while i < na
        invariant
            i <= na,
            na == nb,
            na == a.len() - a0,
            nb == b.len() - b0,
            a0 <= a.len(),
            b0 <= b.len(),
            da == a@.skip(a0 as int),
            db == b@.skip(b0 as int),
            be_value(a@) == be_value(da),
            be_value(b@) == be_value(db),
            forall|j: int| 0 <= j < i ==> da[j] == db[j],
        decreases na - i,
    {
        let x = a[a0 + i];
        let y = b[b0 + i];
        if x != y {
            proof {
                if x < y {
                    lemma_first_difference_decides(da, db, i as int);
                } else {
                    lemma_first_difference_decides(db, da, i as int);
                }
            }
            return x < y;
        }
        i += 1;
    }
    assert(da =~= db);
    false
}

/// The index of the first byte of `bytes` that is not zero; the length of
/// `bytes` if all are zero.
pub fn first_digit(bytes: &Vec<u8>) -> (start: usize)
    ensures
        start == leading_zeros(bytes@),
        start <= bytes.len(),
{
    let mut start: usize = 0;
    assert(bytes@.skip(0) =~= bytes@);
    while start < bytes.len() && bytes[start] == 0
        invariant
            start <= bytes.len(),
            leading_zeros(bytes@) == start + leading_zeros(bytes@.skip(start as int)),
        decreases bytes.len() - start,
    {
        proof {
            let rest = bytes@.skip(start as int);
            assert(rest.drop_first() =~= bytes@.skip(start + 1));
        }
        start += 1;
    }
    start
}

/// Whether the number `bytes` is zero.
pub fn is_zero(bytes: &Vec<u8>) -> (r: bool)
    ensures
        r == (be_value(bytes@) == 0),
{
    let start = first_digit(bytes);
    proof {
        lemma_leading_zeros(bytes@);
        lemma_zeros_in_front(bytes@, start as int);
        let digits = bytes@.skip(start as int);
        if start < bytes.len() {
            lemma_value_reaches_power(digits);
            lemma_powers_grow(0, (digits.len() - 1) as nat);
        }
    }
    start == bytes.len()
}

} // verus!
