//! The first item of a sequence that is as wanted.

use vstd::prelude::*;

verus! {

/// Whether the item at `at` is as wanted and none before it is.
pub open spec fn is_first_where<T>(items: Seq<T>, wanted: spec_fn(T) -> bool, at: int) -> bool {
    &&& 0 <= at < items.len()
    &&& wanted(items[at])
    &&& forall|before: int| 0 <= before < at ==> !wanted(#[trigger] items[before])
}

/// The first item of `items` that is as wanted, if there is one.
pub open spec fn first_where<T>(items: Seq<T>, wanted: spec_fn(T) -> bool) -> Option<T> {
    if exists|at: int| is_first_where(items, wanted, at) {
        Some(items[choose|at: int| is_first_where(items, wanted, at)])
    } else {
        None
    }
}

/// The first item that is as wanted is one item and no other.
pub proof fn lemma_first_where<T>(items: Seq<T>, wanted: spec_fn(T) -> bool, at: int)
    requires
        is_first_where(items, wanted, at),
    ensures
        first_where(items, wanted) == Some(items[at]),
{
    let chosen = choose|at: int| is_first_where(items, wanted, at);
    assert(is_first_where(items, wanted, chosen));
    if chosen < at {
        assert(!wanted(items[chosen]));
    }
    if at < chosen {
        assert(!wanted(items[at]));
    }
}

/// Where no item is as wanted, there is no first one; and where there is a
/// first one, it is an item of the sequence and as wanted.
pub proof fn lemma_first_where_is_wanted<T>(items: Seq<T>, wanted: spec_fn(T) -> bool)
    ensures
        first_where(items, wanted) is None <==> forall|i: int|
            0 <= i < items.len() ==> !wanted(#[trigger] items[i]),
        first_where(items, wanted) matches Some(item) ==> wanted(item) && items.contains(item),
{
    if exists|at: int| is_first_where(items, wanted, at) {
        let chosen = choose|at: int| is_first_where(items, wanted, at);
        assert(wanted(items[chosen]));
    } else {
        if exists|i: int| 0 <= i < items.len() && wanted(#[trigger] items[i]) {
            let i = choose|i: int| 0 <= i < items.len() && wanted(#[trigger] items[i]);
            lemma_least_wanted(items, wanted, i);
        }
    }
}

/// Where an item is as wanted, one of them is the first.
pub proof fn lemma_least_wanted<T>(items: Seq<T>, wanted: spec_fn(T) -> bool, i: int)
    requires
        0 <= i < items.len(),
        wanted(items[i]),
    ensures
        exists|at: int| is_first_where(items, wanted, at),
    decreases i,
{
    if exists|before: int| 0 <= before < i && wanted(#[trigger] items[before]) {
        let before = choose|before: int| 0 <= before < i && wanted(#[trigger] items[before]);
        lemma_least_wanted(items, wanted, before);
    } else {
        assert(is_first_where(items, wanted, i));
    }
}

/// Two ways of wanting that agree on every item of a sequence have the same
/// first item in it.
pub proof fn lemma_first_where_same<T>(
    items: Seq<T>,
    wanted: spec_fn(T) -> bool,
    also_wanted: spec_fn(T) -> bool,
)
    requires
        forall|i: int| 0 <= i < items.len() ==> wanted(#[trigger] items[i]) == also_wanted(items[i]),
    ensures
        first_where(items, wanted) == first_where(items, also_wanted),
{
    if exists|at: int| is_first_where(items, wanted, at) {
        let at = choose|at: int| is_first_where(items, wanted, at);
        assert(is_first_where(items, also_wanted, at));
        lemma_first_where(items, wanted, at);
        lemma_first_where(items, also_wanted, at);
    } else if exists|at: int| is_first_where(items, also_wanted, at) {
        let at = choose|at: int| is_first_where(items, also_wanted, at);
        assert(is_first_where(items, wanted, at));
    }
}

} // verus!
