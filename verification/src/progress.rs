//! Progress fractions and their aggregation over the links of a pin.
//!
//! A progress value is a fraction of completion counted in millionths, so that
//! `0` means "not started" and [`COMPLETE`] means "done". The progress of a pin
//! is the arithmetic mean of what its links last reported, every link weighing
//! the same.

use std::collections::HashMap;
use vstd::prelude::*;
use vstd::std_specs::iter::IteratorSpec;

verus! {

/// The progress value of a finished computation: one million millionths.
pub const COMPLETE: u32 = 1_000_000;

/// The sum of the progress values of the links whose identifiers are in `keys`.
pub open spec fn sum_over(links: Map<u128, u32>, keys: Set<u128>) -> nat {
    keys.fold(0nat, |acc: nat, k: u128| acc + links[k] as nat)
}

/// The sum of all progress values in `links`.
pub open spec fn total(links: Map<u128, u32>) -> nat {
    sum_over(links, links.dom())
}

/// The arithmetic mean of the progress values in `links`, rounded down.
/// A pin without links has no mean.
pub open spec fn mean(links: Map<u128, u32>) -> Option<u32> {
    if links.dom().finite() && links.len() > 0 {
        Some((total(links) / links.len()) as u32)
    } else {
        None
    }
}

/// Adding a link that was not counted yet adds its value to the sum.
pub proof fn lemma_sum_over_insert(links: Map<u128, u32>, keys: Set<u128>, k: u128)
    requires
        keys.finite(),
        !keys.contains(k),
    ensures
        sum_over(links, keys.insert(k)) == sum_over(links, keys) + links[k] as nat,
{
    let f = |acc: nat, k: u128| acc + links[k] as nat;
    assert(vstd::set::fold::is_fun_commutative(f));
    vstd::set::fold::lemma_fold_insert(keys, 0nat, f, k);
}

/// The sum over no links is zero.
pub proof fn lemma_sum_over_empty(links: Map<u128, u32>)
    ensures
        sum_over(links, Set::empty()) == 0,
{
    let f = |acc: nat, k: u128| acc + links[k] as nat;
    vstd::set::fold::lemma_fold_empty(0nat, f);
}

/// A sum of `n` values of 32 bits is at most `n` times the largest of them.
pub proof fn lemma_sum_over_bound(links: Map<u128, u32>, keys: Set<u128>, bound: nat)
    requires
        keys.finite(),
        forall|k: u128| keys.contains(k) ==> links[k] <= bound,
    ensures
        sum_over(links, keys) <= keys.len() * bound,
    decreases keys.len(),
{
    if keys.len() == 0 {
        assert(keys =~= Set::empty());
        lemma_sum_over_empty(links);
    } else {
        let k = keys.choose();
        let rest = keys.remove(k);
        lemma_sum_over_bound(links, rest, bound);
        lemma_sum_over_insert(links, rest, k);
        assert(rest.insert(k) =~= keys);
        assert(keys.len() * bound == rest.len() * bound + bound) by (nonlinear_arith)
            requires
                keys.len() == rest.len() + 1,
        ;
    }
}

/// The sum over some links depends on the values of those links only.
pub proof fn lemma_sum_over_agree(a: Map<u128, u32>, b: Map<u128, u32>, keys: Set<u128>)
    requires
        keys.finite(),
        forall|k: u128| keys.contains(k) ==> a[k] == b[k],
    ensures
        sum_over(a, keys) == sum_over(b, keys),
    decreases keys.len(),
{
    if keys.len() == 0 {
        assert(keys =~= Set::empty());
        lemma_sum_over_empty(a);
        lemma_sum_over_empty(b);
    } else {
        let k = keys.choose();
        let rest = keys.remove(k);
        lemma_sum_over_agree(a, b, rest);
        lemma_sum_over_insert(a, rest, k);
        lemma_sum_over_insert(b, rest, k);
        assert(rest.insert(k) =~= keys);
    }
}

/// A new report of a link takes the place of the last one in the sum: the
/// sum changes by the difference of the two.
pub proof fn lemma_total_insert(links: Map<u128, u32>, k: u128, v: u32)
    requires
        links.dom().finite(),
        links.contains_key(k),
    ensures
        total(links.insert(k, v)) + links[k] == total(links) + v,
        links.insert(k, v).len() == links.len(),
{
    let others = links.dom().remove(k);
    let after = links.insert(k, v);
    assert(others.insert(k) =~= links.dom());
    assert(after.dom() =~= links.dom());
    lemma_sum_over_insert(links, others, k);
    lemma_sum_over_insert(after, others, k);
    lemma_sum_over_agree(links, after, others);
}

/// The link that is the first to be recorded makes the whole sum.
pub proof fn lemma_total_first(k: u128, v: u32)
    ensures
        total(Map::<u128, u32>::empty().insert(k, v)) == v,
        Map::<u128, u32>::empty().insert(k, v).len() == 1,
{
    let links = Map::<u128, u32>::empty().insert(k, v);
    assert(links.dom() =~= Set::<u128>::empty().insert(k));
    lemma_sum_over_empty(links);
    lemma_sum_over_insert(links, Set::empty(), k);
}

/// A further link adds its report to the sum.
pub proof fn lemma_total_further(links: Map<u128, u32>, k: u128, v: u32)
    requires
        links.dom().finite(),
        !links.contains_key(k),
    ensures
        total(links.insert(k, v)) == total(links) + v,
        links.insert(k, v).len() == links.len() + 1,
{
    let after = links.insert(k, v);
    assert(after.dom() =~= links.dom().insert(k));
    lemma_sum_over_insert(after, links.dom(), k);
    lemma_sum_over_agree(links, after, links.dom());
}

/// The mean of the reports lies between nothing and the largest of them: where
/// no report is above `bound`, the mean is not above it either.
pub proof fn lemma_mean_bound(links: Map<u128, u32>, bound: u32)
    requires
        forall|k: u128| links.contains_key(k) ==> links[k] <= bound,
    ensures
        mean(links) matches Some(m) ==> m <= bound && m == total(links) / links.len(),
{
    if links.dom().finite() && links.len() > 0 {
        lemma_sum_over_bound(links, links.dom(), bound as nat);
        let t = total(links);
        let n = links.len();
        assert(t / n <= bound) by (nonlinear_arith)
            requires
                t <= n * bound,
                n > 0,
        ;
    }
}

/// The identifiers among the first `n` entries of a walk over the links.
spec fn walked(entries: Seq<(&u128, &u32)>, n: int) -> Set<u128> {
    Set::new(|k: u128| exists|j: int| 0 <= j < n && *(#[trigger] entries[j]).0 == k)
}

/// A walk over the links visits every link once: a sequence of entries without
/// repetition that holds exactly the pairs of `links`.
spec fn is_walk_of(entries: Seq<(&u128, &u32)>, links: Map<u128, u32>) -> bool {
    &&& entries.no_duplicates()
    &&& entries.len() == links.dom().len()
    &&& forall|j: int|
        0 <= j < entries.len() ==> links.contains_key(*(#[trigger] entries[j]).0) && links[*entries[j].0]
            == *entries[j].1
    &&& forall|k: u128| #[trigger]
        links.contains_key(k) ==> exists|j: int|
            0 <= j < entries.len() && *(#[trigger] entries[j]).0 == k
}

/// One more step of a walk counts one more link, which was not counted before.
proof fn lemma_walked_step(entries: Seq<(&u128, &u32)>, links: Map<u128, u32>, n: int)
    requires
        is_walk_of(entries, links),
        0 <= n < entries.len(),
        walked(entries, n).finite(),
    ensures
        walked(entries, n + 1) == walked(entries, n).insert(*entries[n].0),
        !walked(entries, n).contains(*entries[n].0),
        walked(entries, n + 1).finite(),
        sum_over(links, walked(entries, n + 1)) == sum_over(links, walked(entries, n))
            + *entries[n].1 as nat,
{
    let k = *entries[n].0;
    assert(walked(entries, n + 1) =~= walked(entries, n).insert(k)) by {
        assert forall|x: u128| walked(entries, n).insert(k).contains(x) implies walked(
            entries,
            n + 1,
        ).contains(x) by {
            if x == k {
                assert(*entries[n].0 == x);
            } else {
                let j = choose|j: int| 0 <= j < n && *(#[trigger] entries[j]).0 == x;
                assert(0 <= j < n + 1 && *entries[j].0 == x);
            }
        }
    }
    if walked(entries, n).contains(k) {
        let j = choose|j: int| 0 <= j < n && *(#[trigger] entries[j]).0 == k;
        assert(entries[j] == entries[n]);
    }
    lemma_sum_over_insert(links, walked(entries, n), k);
}

/// A finished walk has counted every link.
proof fn lemma_walked_all(entries: Seq<(&u128, &u32)>, links: Map<u128, u32>)
    requires
        is_walk_of(entries, links),
    ensures
        walked(entries, entries.len() as int) == links.dom(),
{
    assert(walked(entries, entries.len() as int) =~= links.dom());
}

/// The mean of what the links of a pin last reported, or `None` for a pin
/// without links.
pub fn mean_progress(links: &HashMap<u128, u32>) -> (r: Option<u32>)
    ensures
        r == mean(links@),
{
    broadcast use vstd::std_specs::hash::group_hash_axioms;

    let count: usize = links.len();
    if count == 0 {
        return None;
    }
    let walk = links.iter();
    let ghost entries = walk.remaining();
    proof {
        assert(is_walk_of(entries, links@)) by {
            assert forall|k: u128| #[trigger] links@.contains_key(k) implies exists|j: int|
                0 <= j < entries.len() && *(#[trigger] entries[j]).0 == k by {
                assert(entries.contains((&k, &links@[k])));
                let j = choose|j: int| 0 <= j < entries.len() && entries[j] == (&k, &links@[k]);
                assert(*entries[j].0 == k);
            }
        }
        assert(walked(entries, 0) =~= Set::empty());
        lemma_sum_over_empty(links@);
    }
    let mut sum: u128 = 0;
    for entry in it: walk
        invariant
            it.seq() == entries,
            is_walk_of(entries, links@),
            entries.len() == count,
            walked(entries, it.index()).finite(),
            sum == sum_over(links@, walked(entries, it.index())),
            sum <= it.index() * 0xffff_ffff,
    {
        proof {
            lemma_walked_step(entries, links@, it.index());
            assert((it.index() + 1) * 0xffff_ffff == it.index() * 0xffff_ffff + 0xffff_ffff)
                by (nonlinear_arith);
            assert(it.index() * 0xffff_ffff <= count * 0xffff_ffff) by (nonlinear_arith)
                requires
                    it.index() <= count,
            ;
        }
        sum = sum + *entry.1 as u128;
    }
    proof {
        lemma_walked_all(entries, links@);
        assert(sum <= count * 0xffff_ffff);
        assert(sum / (count as u128) <= 0xffff_ffff) by (nonlinear_arith)
            requires
                sum <= count * 0xffff_ffff,
                count > 0,
        ;
    }
    Some((sum / count as u128) as u32)
}

} // verus!
