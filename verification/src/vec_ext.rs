//! Removing many items from a list in one pass.

use vstd::prelude::*;
use itertools::Itertools;

verus! {

/// The items at or after index `at`, without those whose index is in
/// `removed`, in their order.
pub open spec fn kept_from<T>(items: Seq<T>, removed: Set<int>, at: int) -> Seq<T>
    decreases items.len() - at,
{
    if at < 0 || at >= items.len() {
        Seq::empty()
    } else if removed.contains(at) {
        kept_from(items, removed, at + 1)
    } else {
        seq![items[at]] + kept_from(items, removed, at + 1)
    }
}

/// The indices that a list names.
pub open spec fn index_set(indices: Seq<usize>) -> Set<int> {
    Set::new(|i: int| exists|k: int| 0 <= k < indices.len() && #[trigger] indices[k] == i)
}

/// Each value is larger than the one before it.
pub open spec fn strictly_increasing(values: Seq<usize>) -> bool {
    forall|i: int, j: int| 0 <= i < j < values.len() ==> #[trigger] values[i] < #[trigger] values[j]
}

/// No value is smaller than one before it.
pub open spec fn ascending(values: Seq<usize>) -> bool {
    forall|i: int, j: int| 0 <= i < j < values.len() ==> #[trigger] values[i] <= #[trigger] values[j]
}

/// The values without repetitions: of equal values the first stays, and
/// the order of what stays is kept.
pub open spec fn first_occurrences(values: Seq<usize>) -> Seq<usize>
    decreases values.len(),
{
    if values.len() == 0 {
        Seq::empty()
    } else {
        let before = first_occurrences(values.drop_last());
        if before.contains(values.last()) {
            before
        } else {
            before.push(values.last())
        }
    }
}

/// `Itertools::sorted`: the values in ascending order, each as often as
/// it was given.
#[verifier::external_body]
pub(crate) fn sorted(values: Vec<usize>) -> (ordered: Vec<usize>)
    ensures
        ascending(ordered@),
        ordered@.to_multiset() == values@.to_multiset(),
{
    values.into_iter().sorted().collect()
}

/// `Itertools::unique`: the values without repetitions, the first of
/// equal values retained, in the order in which they came.
#[verifier::external_body]
pub(crate) fn unique(values: Vec<usize>) -> (distinct: Vec<usize>)
    ensures
        distinct@ == first_occurrences(values@),
{
    values.into_iter().unique().collect()
}

/// What stays of ascending values are the same values, each once, in
/// strictly increasing order.
pub proof fn lemma_first_occurrences(values: Seq<usize>)
    requires
        ascending(values),
    ensures
        strictly_increasing(first_occurrences(values)),
        forall|x: usize| first_occurrences(values).contains(x) <==> values.contains(x),
        first_occurrences(values).len() > 0 ==> first_occurrences(values).last() == values.last(),
        first_occurrences(values).len() == 0 <==> values.len() == 0,
    decreases values.len(),
{
    if values.len() > 0 {
        let front = values.drop_last();
        let before = first_occurrences(front);
        lemma_first_occurrences(front);
        let last = values.last();
        let result = first_occurrences(values);
        assert forall|x: usize| result.contains(x) <==> values.contains(x) by {
            assert(before.contains(x) <==> front.contains(x));
            if values.contains(x) && x != last {
                let k = choose|k: int| 0 <= k < values.len() && values[k] == x;
                assert(front[k] == x);
                assert(front.contains(x));
                let m = choose|m: int| 0 <= m < before.len() && before[m] == x;
                assert(result[m] == x);
            }
            if values.contains(x) && x == last {
                if before.contains(last) {
                } else {
                    assert(result[before.len() as int] == last);
                }
            }
            if result.contains(x) && x != last {
                let m = choose|m: int| 0 <= m < result.len() && result[m] == x;
                assert(before[m] == x);
                assert(before.contains(x));
                assert(front.contains(x));
                let k = choose|k: int| 0 <= k < front.len() && front[k] == x;
                assert(values[k] == x);
            }
            if x == last {
                assert(values[values.len() - 1] == x);
            }
        }
        if !before.contains(last) {
            assert forall|i: int, j: int| 0 <= i < j < before.push(last).len() implies (
            #[trigger] before.push(last)[i]) < (#[trigger] before.push(last)[j]) by {
                if j == before.len() {
                    let x = before[i];
                    assert(before.contains(x));
                    assert(front.contains(x));
                    let k = choose|k: int| 0 <= k < front.len() && front[k] == x;
                    assert(values[k] <= values[values.len() - 1]);
                }
            }
        } else {
            if front.len() > 0 {
                assert(before.len() > 0);
                assert(front.last() == values[values.len() - 2]);
                assert(front.contains(last));
                let k = choose|k: int| 0 <= k < front.len() && front[k] == last;
                assert(values[k] <= values[values.len() - 2]);
                assert(values[values.len() - 2] <= values[values.len() - 1]);
            }
        }
    }
}

/// The values in ascending order, each once.
pub fn sorted_unique(values: Vec<usize>) -> (distinct: Vec<usize>)
    ensures
        strictly_increasing(distinct@),
        index_set(distinct@) == index_set(values@),
{
    let ghost given = values@;
    let ordered = sorted(values);
    let distinct = unique(ordered);
    proof {
        lemma_first_occurrences(ordered@);
        broadcast use vstd::seq_lib::group_to_multiset_ensures;

        assert(index_set(distinct@) =~= index_set(given)) by {
            assert forall|x: int| index_set(distinct@).contains(x) <==> index_set(given).contains(
                x,
            ) by {
                if index_set(distinct@).contains(x) {
                    let a = choose|a: int| 0 <= a < distinct@.len() && distinct@[a] == x;
                    assert(distinct@.contains(distinct@[a]));
                    assert(ordered@.contains(distinct@[a]));
                    assert(ordered@.to_multiset().count(distinct@[a]) > 0);
                    assert(given.contains(distinct@[a]));
                    let b = choose|b: int| 0 <= b < given.len() && given[b] == distinct@[a];
                }
                if index_set(given).contains(x) {
                    let b = choose|b: int| 0 <= b < given.len() && given[b] == x;
                    assert(given.contains(given[b]));
                    assert(given.to_multiset().count(given[b]) > 0);
                    assert(ordered@.contains(given[b]));
                    assert(distinct@.contains(given[b]));
                    let a = choose|a: int| 0 <= a < distinct@.len() && distinct@[a] == given[b];
                }
            }
        }
    }
    distinct
}

/// Removes the items at the given indices in one pass. The indices are
/// in strictly increasing order.
pub fn remove_indices<T: Copy>(items: &mut Vec<T>, to_remove: &Vec<usize>)
    requires
        strictly_increasing(to_remove@),
    ensures
        final(items)@ == kept_from(old(items)@, index_set(to_remove@), 0),
{
    let mut kept: Vec<T> = Vec::new();
    let mut next: usize = 0;
    let mut i: usize = 0;
    let ghost removed = index_set(to_remove@);
    while i < items.len()
        invariant
            i <= items@.len(),
            next <= to_remove@.len(),
            items@ == old(items)@,
            removed == index_set(to_remove@),
            strictly_increasing(to_remove@),
            forall|k: int| 0 <= k < next ==> (#[trigger] to_remove@[k]) < i,
            forall|k: int| next <= k < to_remove@.len() ==> (#[trigger] to_remove@[k]) >= i,
            kept_from(items@, removed, 0) == kept@ + kept_from(items@, removed, i as int),
        decreases items@.len() - i,
    {
        let ghost before = kept@;
        if next < to_remove.len() && to_remove[next] == i {
            assert(removed.contains(i as int));
            next = next + 1;
        } else {
            assert(!removed.contains(i as int)) by {
                if removed.contains(i as int) {
                    let k = choose|k: int| 0 <= k < to_remove@.len() && to_remove@[k] == i;
                    if k > next {
                        assert(to_remove@[next as int] < to_remove@[k]);
                    }
                }
            }
            kept.push(items[i]);
            assert(before + (seq![items@[i as int]] + kept_from(items@, removed, i + 1))
                =~= kept@ + kept_from(items@, removed, i + 1));
        }
        i = i + 1;
    }
    assert(kept@ + Seq::<T>::empty() =~= kept@);
    *items = kept;
}

} // verus!
