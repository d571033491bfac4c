//! Sorting that keeps apart what the order does not tell apart: items come
//! out by the order `before`, and two items of which neither comes before the
//! other stay as they stood.

use vstd::prelude::*;
use vstd::seq_lib::to_multiset_build;
use vstd::seq_lib::to_multiset_insert;

verus! {

/// Where `item` goes in `sorted`: behind every item of the tail that it
/// comes before, and no further to the front.
pub open spec fn insert_position<T>(sorted: Seq<T>, item: T, before: spec_fn(T, T) -> bool) -> int
    decreases sorted.len(),
{
    if sorted.len() > 0 && before(item, sorted.last()) {
        insert_position(sorted.drop_last(), item, before)
    } else {
        sorted.len() as int
    }
}

/// The sequence `sorted` with `item` put in at its position.
pub open spec fn stable_insert<T>(sorted: Seq<T>, item: T, before: spec_fn(T, T) -> bool) -> Seq<T> {
    sorted.insert(insert_position(sorted, item, before), item)
}

/// The items of `items` sorted by `before`: each item, from the first on, is
/// put in among those before it.
pub open spec fn stable_sort<T>(items: Seq<T>, before: spec_fn(T, T) -> bool) -> Seq<T>
    decreases items.len(),
{
    if items.len() == 0 {
        items
    } else {
        stable_insert(stable_sort(items.drop_last(), before), items.last(), before)
    }
}

/// Whether no item of `items` comes before one that stands in front of it.
pub open spec fn sorted_by<T>(items: Seq<T>, before: spec_fn(T, T) -> bool) -> bool {
    forall|i: int, j: int| 0 <= i < j < items.len() ==> !before(#[trigger] items[j], #[trigger] items[i])
}

/// Whether `before` orders as a ranking does: of two items at most one comes
/// before the other, and an item that does not come before a second, which
/// does not come before a third, does not come before the third.
pub open spec fn ranks<T>(before: spec_fn(T, T) -> bool) -> bool {
    &&& forall|a: T, b: T| #[trigger] before(a, b) ==> !before(b, a)
    &&& forall|a: T, b: T, c: T|
        !#[trigger] before(a, b) && !#[trigger] before(b, c) ==> !before(a, c)
}

/// The position at which an item goes lies within the sequence or at its
/// end; the item comes before everything behind the position and not before
/// what stands just in front of it.
pub proof fn lemma_insert_position<T>(sorted: Seq<T>, item: T, before: spec_fn(T, T) -> bool)
    ensures
        0 <= insert_position(sorted, item, before) <= sorted.len(),
        forall|j: int|
            insert_position(sorted, item, before) <= j < sorted.len() ==> before(
                item,
                #[trigger] sorted[j],
            ),
        insert_position(sorted, item, before) > 0 ==> !before(
            item,
            sorted[insert_position(sorted, item, before) - 1],
        ),
    decreases sorted.len(),
{
    if sorted.len() > 0 && before(item, sorted.last()) {
        let rest = sorted.drop_last();
        lemma_insert_position(rest, item, before);
        assert forall|j: int| insert_position(sorted, item, before) <= j < sorted.len() implies before(
            item,
            #[trigger] sorted[j],
        ) by {
            if j < rest.len() {
                assert(sorted[j] == rest[j]);
            }
        }
        if insert_position(sorted, item, before) > 0 {
            assert(sorted[insert_position(sorted, item, before) - 1] == rest[insert_position(
                rest,
                item,
                before,
            ) - 1]);
        }
    }
}

/// A position that has the item before everything behind it, and not before
/// what stands just in front of it, is the position at which the item goes.
pub proof fn lemma_insert_position_is<T>(
    sorted: Seq<T>,
    item: T,
    before: spec_fn(T, T) -> bool,
    at: int,
)
    requires
        0 <= at <= sorted.len(),
        forall|j: int| at <= j < sorted.len() ==> before(item, #[trigger] sorted[j]),
        at > 0 ==> !before(item, sorted[at - 1]),
    ensures
        insert_position(sorted, item, before) == at,
    decreases sorted.len(),
{
    if sorted.len() > 0 && before(item, sorted.last()) {
        let rest = sorted.drop_last();
        assert forall|j: int| at <= j < rest.len() implies before(item, #[trigger] rest[j]) by {
            assert(rest[j] == sorted[j]);
        }
        if at > 0 {
            assert(rest[at - 1] == sorted[at - 1]);
        }
        lemma_insert_position_is(rest, item, before, at);
    }
}

/// Sorting neither loses an item nor makes one up.
pub proof fn lemma_stable_sort_permutes<T>(items: Seq<T>, before: spec_fn(T, T) -> bool)
    ensures
        stable_sort(items, before).to_multiset() == items.to_multiset(),
        stable_sort(items, before).len() == items.len(),
    decreases items.len(),
{
    if items.len() > 0 {
        let rest = stable_sort(items.drop_last(), before);
        lemma_stable_sort_permutes(items.drop_last(), before);
        lemma_insert_position(rest, items.last(), before);
        to_multiset_insert(rest, insert_position(rest, items.last(), before), items.last());
        to_multiset_build(items.drop_last(), items.last());
        assert(items.drop_last().push(items.last()) =~= items);
    }
}

/// Putting an item in at its position keeps a sorted sequence sorted, where
/// the order is a ranking.
pub proof fn lemma_stable_insert_sorted<T>(sorted: Seq<T>, item: T, before: spec_fn(T, T) -> bool)
    requires
        ranks(before),
        sorted_by(sorted, before),
    ensures
        sorted_by(stable_insert(sorted, item, before), before),
{
    let at = insert_position(sorted, item, before);
    let grown = stable_insert(sorted, item, before);
    lemma_insert_position(sorted, item, before);
    assert forall|i: int, j: int| 0 <= i < j < grown.len() implies !before(
        #[trigger] grown[j],
        #[trigger] grown[i],
    ) by {
        if j < at {
            assert(grown[i] == sorted[i] && grown[j] == sorted[j]);
        } else if j == at {
            assert(grown[i] == sorted[i]);
            if i < at - 1 {
                assert(!before(sorted[at - 1], sorted[i]));
            }
            assert(!before(item, sorted[at - 1]));
        } else if i == at {
            assert(grown[j] == sorted[j - 1]);
            assert(before(item, sorted[j - 1]));
        } else if i < at {
            assert(grown[i] == sorted[i] && grown[j] == sorted[j - 1]);
        } else {
            assert(grown[i] == sorted[i - 1] && grown[j] == sorted[j - 1]);
        }
    }
}

/// What comes out of sorting is sorted, where the order is a ranking.
pub proof fn lemma_stable_sort_sorted<T>(items: Seq<T>, before: spec_fn(T, T) -> bool)
    requires
        ranks(before),
    ensures
        sorted_by(stable_sort(items, before), before),
    decreases items.len(),
{
    if items.len() > 0 {
        lemma_stable_sort_sorted(items.drop_last(), before);
        lemma_stable_insert_sorted(stable_sort(items.drop_last(), before), items.last(), before);
    }
}

} // verus!
