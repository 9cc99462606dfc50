//! First and last positions in a sequence at which a predicate holds.

use vstd::prelude::*;

verus! {

/// `i` is the first position of `items` at which `pred` holds.
pub open spec fn is_first<T>(items: Seq<T>, pred: spec_fn(T) -> bool, i: int) -> bool {
    &&& 0 <= i < items.len()
    &&& pred(items[i])
    &&& forall|j: int| 0 <= j < i ==> !pred(#[trigger] items[j])
}

/// `i` is the last position of `items` at which `pred` holds.
pub open spec fn is_last<T>(items: Seq<T>, pred: spec_fn(T) -> bool, i: int) -> bool {
    &&& 0 <= i < items.len()
    &&& pred(items[i])
    &&& forall|j: int| i < j < items.len() ==> !pred(#[trigger] items[j])
}

/// The first position of `items` at which `pred` holds, if there is one.
pub open spec fn first_index<T>(items: Seq<T>, pred: spec_fn(T) -> bool) -> Option<int> {
    if exists|i: int| is_first(items, pred, i) {
        Some(choose|i: int| is_first(items, pred, i))
    } else {
        None
    }
}

/// The last position of `items` at which `pred` holds, if there is one.
pub open spec fn last_index<T>(items: Seq<T>, pred: spec_fn(T) -> bool) -> Option<int> {
    if exists|i: int| is_last(items, pred, i) {
        Some(choose|i: int| is_last(items, pred, i))
    } else {
        None
    }
}

/// A first position is the first position.
pub proof fn lemma_first_index<T>(items: Seq<T>, pred: spec_fn(T) -> bool, i: int)
    requires
        is_first(items, pred, i),
    ensures
        first_index(items, pred) == Some(i),
{
    let k = choose|k: int| is_first(items, pred, k);
    assert(is_first(items, pred, k));
    if k < i {
        assert(!pred(items[k]));
    } else if i < k {
        assert(!pred(items[i]));
    }
}

/// Where `pred` holds nowhere, there is no first position.
pub proof fn lemma_first_index_none<T>(items: Seq<T>, pred: spec_fn(T) -> bool)
    requires
        forall|j: int| 0 <= j < items.len() ==> !pred(#[trigger] items[j]),
    ensures
        first_index(items, pred) is None,
{
}

/// A last position is the last position.
pub proof fn lemma_last_index<T>(items: Seq<T>, pred: spec_fn(T) -> bool, i: int)
    requires
        is_last(items, pred, i),
    ensures
        last_index(items, pred) == Some(i),
{
    let k = choose|k: int| is_last(items, pred, k);
    assert(is_last(items, pred, k));
    if k < i {
        assert(!pred(items[i]));
    } else if i < k {
        assert(!pred(items[k]));
    }
}

/// Where `pred` holds nowhere, there is no last position.
pub proof fn lemma_last_index_none<T>(items: Seq<T>, pred: spec_fn(T) -> bool)
    requires
        forall|j: int| 0 <= j < items.len() ==> !pred(#[trigger] items[j]),
    ensures
        last_index(items, pred) is None,
{
}

/// What `first_index` finds is a first position; where it finds nothing,
/// `pred` holds nowhere.
pub proof fn lemma_first_index_is_first<T>(items: Seq<T>, pred: spec_fn(T) -> bool)
    ensures
        first_index(items, pred) matches Some(i) ==> is_first(items, pred, i),
        first_index(items, pred) is None ==> forall|j: int|
            0 <= j < items.len() ==> !pred(#[trigger] items[j]),
{
    if first_index(items, pred) is None {
        assert forall|j: int| 0 <= j < items.len() implies !pred(#[trigger] items[j]) by {
            if pred(items[j]) {
                lemma_some_first(items, pred, j);
            }
        }
    }
}

/// Where `pred` holds at `j`, there is a first position at or before `j`.
pub proof fn lemma_some_first<T>(items: Seq<T>, pred: spec_fn(T) -> bool, j: int)
    requires
        0 <= j < items.len(),
        pred(items[j]),
    ensures
        exists|i: int| is_first(items, pred, i) && i <= j,
    decreases j,
{
    if forall|k: int| 0 <= k < j ==> !pred(#[trigger] items[k]) {
        assert(is_first(items, pred, j));
    } else {
        let k = choose|k: int| 0 <= k < j && pred(#[trigger] items[k]);
        lemma_some_first(items, pred, k);
    }
}

/// What `last_index` finds is a last position; where it finds nothing,
/// `pred` holds nowhere.
pub proof fn lemma_last_index_is_last<T>(items: Seq<T>, pred: spec_fn(T) -> bool)
    ensures
        last_index(items, pred) matches Some(i) ==> is_last(items, pred, i),
        last_index(items, pred) is None ==> forall|j: int|
            0 <= j < items.len() ==> !pred(#[trigger] items[j]),
{
    if last_index(items, pred) is None {
        assert forall|j: int| 0 <= j < items.len() implies !pred(#[trigger] items[j]) by {
            if pred(items[j]) {
                lemma_some_last(items, pred, j);
            }
        }
    }
}

/// Where `pred` holds at `j`, there is a last position at or after `j`.
pub proof fn lemma_some_last<T>(items: Seq<T>, pred: spec_fn(T) -> bool, j: int)
    requires
        0 <= j < items.len(),
        pred(items[j]),
    ensures
        exists|i: int| is_last(items, pred, i) && j <= i,
    decreases items.len() - j,
{
    if forall|k: int| j < k < items.len() ==> !pred(#[trigger] items[k]) {
        assert(is_last(items, pred, j));
    } else {
        let k = choose|k: int| j < k < items.len() && pred(#[trigger] items[k]);
        lemma_some_last(items, pred, k);
    }
}

} // verus!
