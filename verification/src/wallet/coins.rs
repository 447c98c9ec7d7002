//! Adding up balances and choosing the outputs that pay for an amount.

use vstd::prelude::*;
use crate::wallet::{
    GetBalanceResponse, GetListUnspentResponse, GetListUnspentResponseView,
    GetWalletBalanceResponse, Wallet,
};

verus! {

/// The confirmed amounts of `balances`, added up.
pub open spec fn total_confirmed(balances: Seq<GetBalanceResponse>) -> int
    decreases balances.len(),
{
    if balances.len() == 0 {
        0
    } else {
        total_confirmed(balances.drop_last()) + balances.last().confirmed
    }
}

/// The unconfirmed amounts of `balances`, added up.
pub open spec fn total_unconfirmed(balances: Seq<GetBalanceResponse>) -> int
    decreases balances.len(),
{
    if balances.len() == 0 {
        0
    } else {
        total_unconfirmed(balances.drop_last()) + balances.last().unconfirmed
    }
}

/// Each confirmed total lies between zero and `n` times the largest amount,
/// each unconfirmed total within `n` times the largest amount either way.
proof fn lemma_totals_bounded(balances: Seq<GetBalanceResponse>)
    ensures
        0 <= total_confirmed(balances) <= balances.len() * 0xffff_ffff_ffff_ffff,
        -(balances.len() * 0x8000_0000_0000_0000) <= total_unconfirmed(balances) <= balances.len()
            * 0x8000_0000_0000_0000,
    decreases balances.len(),
{
    if balances.len() > 0 {
        lemma_totals_bounded(balances.drop_last());
        assert(balances.len() * 0xffff_ffff_ffff_ffff == (balances.len() - 1) * 0xffff_ffff_ffff_ffff
            + 0xffff_ffff_ffff_ffff) by (nonlinear_arith);
        assert(balances.len() * 0x8000_0000_0000_0000 == (balances.len() - 1) * 0x8000_0000_0000_0000
            + 0x8000_0000_0000_0000) by (nonlinear_arith);
    }
}


/// The test that an output is worth `value`.
pub open spec fn worth(value: usize) -> spec_fn(GetListUnspentResponse) -> bool {
    |coin: GetListUnspentResponse| coin.value == value
}

/// Whether `coins` are in ascending order of value.
pub open spec fn ascending(coins: Seq<GetListUnspentResponse>) -> bool {
    forall|i: int, j: int| 0 <= i <= j < coins.len() ==> coins[i].value <= coins[j].value
}

/// Whether `sorted` is `coins` in ascending order of value, outputs of equal
/// value in the order in which they stand in `coins`.
pub open spec fn sorted_by_value(
    coins: Seq<GetListUnspentResponse>,
    sorted: Seq<GetListUnspentResponse>,
) -> bool {
    &&& sorted.len() == coins.len()
    &&& ascending(sorted)
    &&& forall|value: usize| #[trigger] sorted.filter(worth(value)) == coins.filter(worth(value))
}

/// Filtering a sequence that ends in `x` keeps `x` at the end if `x` passes,
/// and is the filter of the rest.
proof fn lemma_filter_push(
    s: Seq<GetListUnspentResponse>,
    x: GetListUnspentResponse,
    p: spec_fn(GetListUnspentResponse) -> bool,
)
    ensures
        s.push(x).filter(p) == if p(x) {
            s.filter(p).push(x)
        } else {
            s.filter(p)
        },
{
    reveal(Seq::filter);
    assert(s.push(x).drop_last() =~= s);
}

/// Where nothing passes, nothing is kept.
proof fn lemma_filter_none(
    s: Seq<GetListUnspentResponse>,
    p: spec_fn(GetListUnspentResponse) -> bool,
)
    requires
        forall|k: int| 0 <= k < s.len() ==> !p(s[k]),
    ensures
        s.filter(p) == Seq::<GetListUnspentResponse>::empty(),
    decreases s.len(),
{
    reveal(Seq::filter);
    if s.len() > 0 {
        lemma_filter_none(s.drop_last(), p);
    }
}

/// With `x` put in at `at`, before outputs that are all worth more than `x`,
/// the outputs worth `value` are those that were there, and `x` after them if
/// it is worth `value`.
proof fn lemma_filter_insert(
    s: Seq<GetListUnspentResponse>,
    at: int,
    x: GetListUnspentResponse,
    value: usize,
)
    requires
        0 <= at <= s.len(),
        forall|k: int| at <= k < s.len() ==> s[k].value > x.value,
    ensures
        s.insert(at, x).filter(worth(value)) == if x.value == value {
            s.filter(worth(value)).push(x)
        } else {
            s.filter(worth(value))
        },
{
    let p = worth(value);
    let head = s.take(at);
    let tail = s.skip(at);
    assert(s =~= head + tail);
    Seq::filter_distributes_over_add(head, tail, p);
    Seq::filter_distributes_over_add(head.push(x), tail, p);
    lemma_filter_push(head, x, p);
    if x.value == value {
        lemma_filter_none(tail, p);
    }
}

/// Puts `coins` in ascending order of value. Outputs of equal value keep the
/// order in which they came.
pub fn sort_by_value(coins: Vec<GetListUnspentResponse>) -> (sorted: Vec<GetListUnspentResponse>)
    ensures
        sorted_by_value(coins@, sorted@),
{
    let ghost given = coins@;
    let mut v = coins;
    let mut i: usize = 0;
    while i < v.len()
        invariant
            i <= v.len(),
            v.len() == given.len(),
            v@.skip(i as int) == given.skip(i as int),
            ascending(v@.take(i as int)),
            forall|value: usize| #[trigger]
                v@.take(i as int).filter(worth(value)) == given.take(i as int).filter(worth(value)),
        decreases v.len() - i,
    {
        let ghost before = v@;
        let ghost prefix = v@.take(i as int);
        assert(v@[i as int] == v@.skip(i as int)[0]);
        let x = v.remove(i);
        let mut at: usize = i;
        while at > 0 && v[at - 1].value > x.value
            invariant
                at <= i < before.len(),
                v@ == before.remove(i as int),
                prefix == before.take(i as int),
                ascending(prefix),
                forall|k: int| at <= k < i ==> prefix[k].value > x.value,
            decreases at,
        {
            at -= 1;
        }
        v.insert(at, x);
        proof {
            let grown = prefix.insert(at as int, x);
            assert(v@.take(i + 1) =~= grown);
            assert forall|k: int| i < k < given.len() implies #[trigger] v@[k] == given[k] by {
                assert(before[k] == before.skip(i as int)[k - i]);
            }
            assert(given.take(i + 1) =~= given.take(i as int).push(x));
            assert(ascending(grown));
            assert forall|value: usize| #[trigger]
                grown.filter(worth(value)) == given.take(i + 1).filter(worth(value)) by {
                lemma_filter_insert(prefix, at as int, x, value);
                lemma_filter_push(given.take(i as int), x, worth(value));
            }
        }
        i += 1;
    }
    proof {
        assert(v@.take(i as int) =~= v@);
        assert(given.take(i as int) =~= given);
    }
    v
}

/// Whatever is kept stood in the sequence.
proof fn lemma_filter_member(
    s: Seq<GetListUnspentResponse>,
    p: spec_fn(GetListUnspentResponse) -> bool,
    i: int,
)
    requires
        0 <= i < s.filter(p).len(),
    ensures
        s.contains(s.filter(p)[i]),
        p(s.filter(p)[i]),
    decreases s.len(),
{
    reveal(Seq::filter);
    if s.len() > 0 {
        let rest = s.drop_last();
        if p(s.last()) && i == rest.filter(p).len() {
            assert(s[s.len() - 1] == s.filter(p)[i]);
        } else {
            lemma_filter_member(rest, p, i);
            let k = choose|k: int| 0 <= k < rest.len() && rest[k] == rest.filter(p)[i];
            assert(s[k] == s.filter(p)[i]);
        }
    }
}

/// If `b` is in ascending order and keeps the outputs that are worth as much
/// as the last of `a`, then the last of `b` is worth at least as much as the
/// last of `a`.
proof fn lemma_last_is_largest(
    a: Seq<GetListUnspentResponse>,
    b: Seq<GetListUnspentResponse>,
)
    requires
        a.len() > 0,
        b.len() > 0,
        ascending(b),
        a.filter(worth(a.last().value)) == b.filter(worth(a.last().value)),
    ensures
        a.last().value <= b.last().value,
{
    let p = worth(a.last().value);
    assert(a =~= a.drop_last().push(a.last()));
    lemma_filter_push(a.drop_last(), a.last(), p);
    let kept = b.filter(p);
    lemma_filter_member(b, p, 0);
    let k = choose|k: int| 0 <= k < b.len() && b[k] == kept[0];
    assert(b[k].value <= b[b.len() - 1].value);
}

/// Sorting has one result: two sequences in ascending order that keep the
/// same outputs of each value, in the same order, are the same sequence.
pub proof fn lemma_sorted_is_unique(
    coins: Seq<GetListUnspentResponse>,
    a: Seq<GetListUnspentResponse>,
    b: Seq<GetListUnspentResponse>,
)
    requires
        sorted_by_value(coins, a),
        sorted_by_value(coins, b),
    ensures
        a == b,
    decreases a.len(),
{
    if a.len() > 0 {
        let la = a.last();
        let lb = b.last();
        let ra = a.drop_last();
        let rb = b.drop_last();
        assert(a =~= ra.push(la));
        assert(b =~= rb.push(lb));
        lemma_last_is_largest(a, b);
        lemma_last_is_largest(b, a);
        let m = la.value;
        lemma_filter_push(ra, la, worth(m));
        lemma_filter_push(rb, lb, worth(m));
        let fa = ra.filter(worth(m));
        let fb = rb.filter(worth(m));
        assert(fa.push(la).last() == la);
        assert(fa.push(la).drop_last() =~= fa);
        assert forall|value: usize| #[trigger] ra.filter(worth(value)) == rb.filter(worth(value)) by {
            lemma_filter_push(ra, la, worth(value));
            lemma_filter_push(rb, lb, worth(value));
        }
        assert(ascending(ra));
        assert(ascending(rb));
        lemma_sorted_is_unique(rb, ra, rb);
    }
}

/// What `coins` are worth together.
pub open spec fn total_value(coins: Seq<GetListUnspentResponse>) -> int
    decreases coins.len(),
{
    if coins.len() == 0 {
        0
    } else {
        total_value(coins.drop_last()) + coins.last().value
    }
}

/// How many of `coins` are taken, from the front, to pay `amount`: as many
/// as it takes for their value to exceed the amount, and all of them if it
/// never does.
pub open spec fn taken(coins: Seq<GetListUnspentResponse>, amount: int) -> nat
    decreases coins.len(),
{
    if coins.len() == 0 {
        0
    } else if coins[0].value > amount {
        1
    } else {
        1 + taken(coins.drop_first(), amount - coins[0].value)
    }
}

/// The count of [`taken`] never exceeds the number of outputs.
pub proof fn lemma_taken_bounded(coins: Seq<GetListUnspentResponse>, amount: int)
    ensures
        taken(coins, amount) <= coins.len(),
        coins.len() > 0 ==> taken(coins, amount) >= 1,
    decreases coins.len(),
{
    if coins.len() > 0 && coins[0].value <= amount {
        lemma_taken_bounded(coins.drop_first(), amount - coins[0].value);
    }
}

/// The outputs chosen to pay `amount` satoshi out of `unspent`: the cheapest
/// first, one after the other until what is chosen is worth more than the
/// amount. If all together are not worth more, all are chosen.
pub open spec fn selected(
    unspent: Seq<GetListUnspentResponse>,
    amount: int,
    chosen: Seq<GetListUnspentResponse>,
) -> bool {
    exists|sorted: Seq<GetListUnspentResponse>|
        #![auto]
        sorted_by_value(unspent, sorted) && chosen == sorted.take(taken(sorted, amount) as int)
}

/// The choice is determined: what [`selected`] holds of is one sequence.
pub proof fn lemma_selection_is_unique(
    unspent: Seq<GetListUnspentResponse>,
    amount: int,
    a: Seq<GetListUnspentResponse>,
    b: Seq<GetListUnspentResponse>,
)
    requires
        selected(unspent, amount, a),
        selected(unspent, amount, b),
    ensures
        a == b,
{
    let sorted_a = choose|sorted: Seq<GetListUnspentResponse>|
        #![auto]
        sorted_by_value(unspent, sorted) && a == sorted.take(taken(sorted, amount) as int);
    let sorted_b = choose|sorted: Seq<GetListUnspentResponse>|
        #![auto]
        sorted_by_value(unspent, sorted) && b == sorted.take(taken(sorted, amount) as int);
    lemma_sorted_is_unique(unspent, sorted_a, sorted_b);
}

/// What the lists `per_address` hold, one list after the other.
pub open spec fn flattened(per_address: Seq<Vec<GetListUnspentResponse>>) -> Seq<
    GetListUnspentResponse,
>
    decreases per_address.len(),
{
    if per_address.len() == 0 {
        Seq::empty()
    } else {
        flattened(per_address.drop_last()) + per_address.last()@
    }
}

/// An unspent output as the block explorer reports it for an address.
#[derive(Debug, Clone)]
pub struct TxRef {
    pub tx_hash: String,
    pub block_height: isize,
    pub tx_output_n: usize,
    pub value: usize,
}

/// The unspent output that the report `tx_ref` for `address` tells of.
pub open spec fn reported(address: Seq<char>, tx_ref: TxRef) -> GetListUnspentResponseView {
    GetListUnspentResponseView {
        height: tx_ref.block_height,
        tx_hash: tx_ref.tx_hash@,
        tx_pos: tx_ref.tx_output_n,
        value: tx_ref.value,
        address,
    }
}

impl Wallet {
    /// Adds up what the addresses of a wallet hold. There is no total if the
    /// confirmed or the unconfirmed amounts do not add up to a 64-bit number.
    pub fn get_balance(balances: &Vec<GetBalanceResponse>) -> (total: Option<GetWalletBalanceResponse>)
        ensures
            match total {
                Some(t) => t.confirmed == total_confirmed(balances@) && t.unconfirmed
                    == total_unconfirmed(balances@),
                None => total_confirmed(balances@) > u64::MAX || total_unconfirmed(balances@) > i64::MAX
                    || total_unconfirmed(balances@) < i64::MIN,
            },
    {
        let mut confirmed: u128 = 0;
        let mut unconfirmed: i128 = 0;
        let mut i: usize = 0;
        while i < balances.len()
            invariant
                i <= balances.len(),
                confirmed == total_confirmed(balances@.take(i as int)),
                unconfirmed == total_unconfirmed(balances@.take(i as int)),
            decreases balances.len() - i,
        {
            proof {
                let before = balances@.take(i as int);
                let after = balances@.take(i + 1);
                assert(after.drop_last() =~= before);
                lemma_totals_bounded(before);
                assert(before.len() * 0xffff_ffff_ffff_ffff <= 0xffff_ffff_ffff_ffff
                    * 0xffff_ffff_ffff_ffff) by (nonlinear_arith)
                    requires
                        before.len() <= 0xffff_ffff_ffff_ffff,
                ;
                assert(before.len() * 0x8000_0000_0000_0000 <= 0xffff_ffff_ffff_ffff
                    * 0x8000_0000_0000_0000) by (nonlinear_arith)
                    requires
                        before.len() <= 0xffff_ffff_ffff_ffff,
                ;
            }
            confirmed = confirmed + balances[i].confirmed as u128;
            unconfirmed = unconfirmed + balances[i].unconfirmed as i128;
            i += 1;
        }
        assert(balances@.take(i as int) =~= balances@);
        if confirmed > u64::MAX as u128 || unconfirmed > i64::MAX as i128 || unconfirmed
            < i64::MIN as i128 {
            None
        } else {
            Some(
                GetWalletBalanceResponse {
                    confirmed: confirmed as u64,
                    unconfirmed: unconfirmed as i64,
                },
            )
        }
    }

    /// The unspent outputs of `address`, from what the block explorer reports
    /// for it. Where it reports no list, there are none.
    pub fn list_unspent_for_addresss(address: &str, tx_refs: Option<Vec<TxRef>>) -> (unspent: Vec<
        GetListUnspentResponse,
    >)
        ensures
            match tx_refs {
                Some(refs) => {
                    &&& unspent.len() == refs.len()
                    &&& forall|i: int|
                        0 <= i < refs.len() ==> (#[trigger] unspent[i])@ == reported(address@, refs[i])
                },
                None => unspent.len() == 0,
            },
    {
        let mut unspent: Vec<GetListUnspentResponse> = Vec::new();
        if let Some(refs) = tx_refs {
            let mut i: usize = 0;
            while i < refs.len()
                invariant
                    i <= refs.len(),
                    unspent.len() == i,
                    forall|j: int|
                        0 <= j < i ==> (#[trigger] unspent[j])@ == reported(address@, refs[j]),
                decreases refs.len() - i,
            {
                unspent.push(
                    GetListUnspentResponse {
                        value: refs[i].value,
                        height: refs[i].block_height,
                        tx_hash: refs[i].tx_hash.clone(),
                        tx_pos: refs[i].tx_output_n,
                        address: String::from_str(address),
                    },
                );
                i += 1;
            }
        }
        unspent
    }

    /// All unspent outputs of the wallet: those of its addresses, address by
    /// address.
    pub fn list_unspent(per_address: Vec<Vec<GetListUnspentResponse>>) -> (all: Vec<
        GetListUnspentResponse,
    >)
        ensures
            all@ == flattened(per_address@),
    {
        let mut lists = per_address;
        let ghost given = lists@;
        let mut all: Vec<GetListUnspentResponse> = Vec::new();
        let mut i: usize = 0;
        while i < lists.len()
            invariant
                i <= lists.len(),
                lists.len() == given.len(),
                forall|j: int| i <= j < given.len() ==> lists[j] == given[j],
                all@ == flattened(given.take(i as int)),
            decreases lists.len() - i,
        {
            let mut list: Vec<GetListUnspentResponse> = Vec::new();
            std::mem::swap(&mut lists[i], &mut list);
            proof {
                assert(given.take(i + 1).drop_last() =~= given.take(i as int));
            }
            all.append(&mut list);
            i += 1;
        }
        assert(given.take(i as int) =~= given);
        all
    }

    /// Chooses the outputs that pay `amount_satoshi` out of `unspent`.
    pub fn select_tx_in(unspent: Vec<GetListUnspentResponse>, amount_satoshi: i64) -> (chosen: Vec<
        GetListUnspentResponse,
    >)
        ensures
            selected(unspent@, amount_satoshi as int, chosen@),
    {
        let mut v = sort_by_value(unspent);
        let ghost sorted = v@;
        let mut remaining: i128 = amount_satoshi as i128;
        let mut n: usize = 0;
        let mut enough = false;
        assert(sorted.skip(0) =~= sorted);
        while n < v.len() && !enough
            invariant
                v@ == sorted,
                n <= v.len(),
                enough ==> taken(sorted, amount_satoshi as int) == n,
                !enough ==> taken(sorted, amount_satoshi as int) == n + taken(
                    sorted.skip(n as int),
                    remaining as int,
                ),
                amount_satoshi - n * 0xffff_ffff_ffff_ffff <= remaining <= amount_satoshi,
            decreases v.len() - n,
        {
            let value = v[n].value;
            proof {
                let rest = sorted.skip(n as int);
                assert(rest.drop_first() =~= sorted.skip(n + 1));
                assert(n * 0xffff_ffff_ffff_ffff <= 0xffff_ffff_ffff_ffff * 0xffff_ffff_ffff_ffff)
                    by (nonlinear_arith)
                    requires
                        n <= 0xffff_ffff_ffff_ffff,
                ;
                assert((n + 1) * 0xffff_ffff_ffff_ffff == n * 0xffff_ffff_ffff_ffff
                    + 0xffff_ffff_ffff_ffff) by (nonlinear_arith);
            }
            n += 1;
            if value as i128 > remaining {
                enough = true;
            } else {
                remaining = remaining - value as i128;
            }
        }
        proof {
            if !enough {
                lemma_taken_bounded(sorted.skip(n as int), remaining as int);
            }
        }
        v.truncate(n);
        v
    }
}

} // verus!
