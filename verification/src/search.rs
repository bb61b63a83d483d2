//! The maximum of a sequence of ordered items, found by one scan.

use std::cmp::Ordering;
use vstd::prelude::*;
use vstd::laws_cmp::obeys_cmp;
use vstd::laws_cmp::obeys_cmp_ord;
use vstd::laws_cmp::obeys_cmp_partial_ord;
use vstd::laws_cmp::obeys_partial_cmp_spec_properties;
use vstd::laws_eq::obeys_concrete_eq;
use vstd::laws_eq::obeys_eq_spec_properties;
use vstd::std_specs::cmp::OrdSpec;
use vstd::std_specs::cmp::PartialEqSpec;
use vstd::std_specs::cmp::PartialOrdIs;
use vstd::std_specs::cmp::PartialOrdSpec;

verus! {

/// Whether the comparison operators of `T` mean what its order says.
pub open spec fn comparable<T: PartialOrd>() -> bool {
    T::obeys_partial_cmp_spec()
}

/// Whether `a` is strictly greater than `b` in the order of `T`.
pub open spec fn exceeds<T: PartialOrd>(a: T, b: T) -> bool {
    a.is_gt(&b)
}

/// Whether `a` is less than or equal to `b` in the order of `T`.
pub open spec fn at_most<T: PartialOrd>(a: T, b: T) -> bool {
    a.is_le(&b)
}

/// Whether the order of `T` says nothing of `a` against `b`.
pub open spec fn unordered<T: PartialOrd>(a: T, b: T) -> bool {
    a.partial_cmp_spec(&b) is None
}

/// Whether the order of `T` is total and its equality is identity, as it
/// is for the integer types.
pub open spec fn totally_ordered<T: Ord>() -> bool {
    obeys_cmp::<T>() && obeys_concrete_eq::<T>()
}

/// The first `n` items of `items`.
pub open spec fn prefix<T>(items: Seq<T>, n: usize) -> Seq<T> {
    items.take(n as int)
}

/// The item that a scan from the front retains: the first item, replaced
/// by each later item that is strictly greater than the one retained so
/// far. `None` for an empty sequence, and as soon as an item and the one
/// retained before it are unordered.
pub open spec fn scan_max<T: PartialOrd>(items: Seq<T>) -> Option<T>
    decreases items.len(),
{
    if items.len() == 0 {
        None
    } else if items.len() == 1 {
        Some(items[0])
    } else {
        match scan_max(items.drop_last()) {
            None => None,
            Some(best) => if unordered(items.last(), best) {
                None
            } else if exceeds(items.last(), best) {
                Some(items.last())
            } else {
                Some(best)
            },
        }
    }
}

/// Whether `m` occurs in `items` and no item of it is greater.
pub open spec fn is_maximum<T: PartialOrd>(items: Seq<T>, m: T) -> bool {
    &&& items.contains(m)
    &&& forall|i: int| 0 <= i < items.len() ==> at_most(#[trigger] items[i], m)
}

/// Once the scan of the first `n` items has met an unordered pair, the
/// scan of all items has no result either.
proof fn lemma_scan_stays_undecided<T: PartialOrd>(items: Seq<T>, n: int)
    requires
        2 <= n <= items.len(),
        scan_max(items.take(n)) is None,
    ensures
        scan_max(items) is None,
    decreases items.len() - n,
{
    if n == items.len() {
        assert(items.take(n) =~= items);
    } else {
        assert(items.drop_last().take(n) =~= items.take(n));
        lemma_scan_stays_undecided(items.drop_last(), n);
    }
}

/// Returns the maximum of `items`, or `None` where there are none. Of
/// several items that compare as equal maxima the first is returned.
/// Where an item cannot be ordered against the greatest before it, there
/// is no maximum to return, and the result is `None`.
pub fn find_max<T: PartialOrd + Copy>(items: &[T]) -> (found: Option<T>)
    ensures
        items@.len() == 0 ==> found is None,
        found is Some ==> items@.contains(found.unwrap()),
        comparable::<T>() ==> found == scan_max(items@),
{
    if items.len() == 0 {
        return None;
    }
    let mut best: T = items[0];
    let mut i: usize = 1;
    assert(prefix(items@, 1)[0] == best);
    while i < items.len()
        invariant
            1 <= i <= items.len(),
            items@.contains(best),
            comparable::<T>() ==> scan_max(prefix(items@, i)) == Some(best),
        decreases items.len() - i,
    {
        let item: T = items[i];
        let next: usize = i + 1;
        assert(prefix(items@, next).drop_last() =~= prefix(items@, i));
        assert(prefix(items@, next).last() == item);
        match item.partial_cmp(&best) {
            None => {
                proof {
                    if comparable::<T>() {
                        lemma_scan_stays_undecided(items@, i + 1);
                    }
                }
                return None;
            },
            Some(Ordering::Greater) => {
                best = item;
            },
            Some(_) => {},
        }
        i = next;
    }
    assert(prefix(items@, i) =~= items@);
    Some(best)
}

/// In a total order any two items compare one way or the other, two
/// items that each are at most the other are the same item, and "at most"
/// carries over a middle item.
proof fn lemma_total_order_facts<T: Ord>()
    requires
        totally_ordered::<T>(),
    ensures
        forall|a: T, b: T| !#[trigger] unordered(a, b),
        forall|a: T, b: T| #[trigger] exceeds(a, b) <==> !at_most(a, b),
        forall|a: T, b: T| #[trigger] at_most(a, b) || at_most(b, a),
        forall|a: T, b: T| #[trigger] at_most(a, b) && at_most(b, a) ==> a == b,
        forall|a: T, b: T, c: T| #[trigger]
            at_most(a, b) && #[trigger] at_most(b, c) ==> at_most(a, c),
{
    reveal(obeys_cmp_ord);
    reveal(obeys_cmp_partial_ord);
    reveal(obeys_partial_cmp_spec_properties);
    reveal(obeys_concrete_eq);
    reveal(obeys_eq_spec_properties);
    assert forall|a: T, b: T| !#[trigger] unordered(a, b) by {
        assert(a.partial_cmp_spec(&b) == Some(a.cmp_spec(&b)));
    }
    assert forall|a: T, b: T| #[trigger] exceeds(a, b) <==> !at_most(a, b) by {
        assert(a.partial_cmp_spec(&b) == Some(a.cmp_spec(&b)));
    }
    assert forall|a: T, b: T| #[trigger] at_most(a, b) || at_most(b, a) by {
        assert(a.partial_cmp_spec(&b) == Some(a.cmp_spec(&b)));
        assert(b.partial_cmp_spec(&a) == Some(b.cmp_spec(&a)));
    }
    assert forall|a: T, b: T| #[trigger] at_most(a, b) && at_most(b, a) implies a == b by {
        assert(a.partial_cmp_spec(&b) == Some(a.cmp_spec(&b)));
        assert(b.partial_cmp_spec(&a) == Some(b.cmp_spec(&a)));
        assert(a.eq_spec(&b) <==> a == b);
    }
    assert forall|a: T, b: T, c: T| #[trigger]
        at_most(a, b) && #[trigger] at_most(b, c) implies at_most(a, c) by {
        assert(a.eq_spec(&b) <==> a == b);
        assert(b.eq_spec(&c) <==> b == c);
        assert(a.partial_cmp_spec(&c) == Some(a.cmp_spec(&c)));
    }
}

/// The integer types are totally ordered.
pub proof fn lemma_integers_totally_ordered()
    ensures
        totally_ordered::<u8>(),
        totally_ordered::<u16>(),
        totally_ordered::<u32>(),
        totally_ordered::<u64>(),
        totally_ordered::<u128>(),
        totally_ordered::<usize>(),
        totally_ordered::<i8>(),
        totally_ordered::<i16>(),
        totally_ordered::<i32>(),
        totally_ordered::<i64>(),
        totally_ordered::<i128>(),
        totally_ordered::<isize>(),
{
    broadcast use vstd::laws_cmp::group_laws_cmp;
    broadcast use vstd::laws_eq::group_laws_eq;
}

/// In a total order the scan of a non-empty sequence retains its maximum:
/// an item of the sequence that no item of it exceeds.
pub proof fn lemma_scan_max_is_maximum<T: Ord>(items: Seq<T>)
    requires
        totally_ordered::<T>(),
        items.len() > 0,
    ensures
        scan_max(items) is Some,
        is_maximum(items, scan_max(items).unwrap()),
    decreases items.len(),
{
    lemma_total_order_facts::<T>();
    let front = items.drop_last();
    let m = scan_max(items).unwrap();
    if front.len() == 0 {
        assert(items[0] == m);
    } else {
        lemma_scan_max_is_maximum(front);
        let before = scan_max(front).unwrap();
        assert(at_most(before, m));
        let k = choose|k: int| 0 <= k < front.len() && front[k] == before;
        assert(items[k] == before);
        assert(items[items.len() - 1] == items.last());
        assert forall|i: int| 0 <= i < items.len() implies at_most(#[trigger] items[i], m) by {
            if i < front.len() {
                assert(front[i] == items[i]);
                assert(at_most(front[i], before));
            }
        }
    }
}

/// In a total order a sequence has one maximum only.
pub proof fn lemma_maximum_unique<T: Ord>(items: Seq<T>, m1: T, m2: T)
    requires
        totally_ordered::<T>(),
        is_maximum(items, m1),
        is_maximum(items, m2),
    ensures
        m1 == m2,
{
    lemma_total_order_facts::<T>();
    let i1 = choose|i: int| 0 <= i < items.len() && items[i] == m1;
    let i2 = choose|i: int| 0 <= i < items.len() && items[i] == m2;
    assert(at_most(items[i1], m2));
    assert(at_most(items[i2], m1));
}

/// In a total order the scan retains the same item whatever the order in
/// which the items stand: two sequences that hold the same items equally
/// often have the same result.
pub proof fn lemma_scan_max_of_permutation<T: Ord>(first: Seq<T>, second: Seq<T>)
    requires
        totally_ordered::<T>(),
        first.to_multiset() == second.to_multiset(),
    ensures
        scan_max(first) == scan_max(second),
{
    first.to_multiset_ensures();
    second.to_multiset_ensures();
    if first.len() == 0 {
        assert(scan_max(first) is None);
        assert(scan_max(second) is None);
    } else {
        lemma_scan_max_is_maximum(first);
        lemma_scan_max_is_maximum(second);
        let m1 = scan_max(first).unwrap();
        let m2 = scan_max(second).unwrap();
        assert forall|i: int| 0 <= i < first.len() implies at_most(#[trigger] first[i], m2) by {
            assert(first.contains(first[i]));
            assert(second.to_multiset().count(first[i]) > 0);
            assert(second.contains(first[i]));
        }
        assert(second.to_multiset().count(m2) > 0);
        assert(first.contains(m2));
        lemma_maximum_unique(first, m1, m2);
    }
}

} // verus!
