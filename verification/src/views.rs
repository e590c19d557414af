//! Helpers for the mathematical views of strings and vectors.

use vstd::prelude::*;

verus! {

/// A user name, chat identifier or other text, as the contracts see it.
pub type Text = Seq<char>;

/// The deep view of a vector after a push is the old deep view with the new
/// element's view pushed.
pub proof fn lemma_deep_push<T: DeepView>(before: Vec<T>, after: Vec<T>, x: T)
    requires
        after@ == before@.push(x),
    ensures
        after.deep_view() == before.deep_view().push(x.deep_view()),
{
}

/// The deep view of a vector has the views of its elements, index by index.
pub proof fn lemma_deep_index<T: DeepView>(v: Vec<T>, i: int)
    requires
        0 <= i < v@.len(),
    ensures
        v.deep_view().len() == v@.len(),
        v.deep_view()[i] == v@[i].deep_view(),
{
}

/// Replacing one element replaces its view in the deep view.
pub proof fn lemma_deep_update<T: DeepView>(before: Vec<T>, after: Vec<T>, i: int, x: T)
    requires
        0 <= i < before@.len(),
        after@ == before@.update(i, x),
    ensures
        after.deep_view() == before.deep_view().update(i, x.deep_view()),
{
}

/// Removing one element removes its view from the deep view.
pub proof fn lemma_deep_remove<T: DeepView>(before: Vec<T>, after: Vec<T>, i: int)
    requires
        0 <= i < before@.len(),
        after@ == before@.remove(i),
    ensures
        after.deep_view() == before.deep_view().remove(i),
{
}

/// `i` is the first place in `keys` that holds `key`.
pub open spec fn is_first_index(keys: Seq<Text>, key: Text, i: int) -> bool {
    &&& 0 <= i < keys.len()
    &&& keys[i] == key
    &&& forall|j: int| 0 <= j < i ==> keys[j] != key
}

/// The first place in `keys` that holds `key`, if there is one.
pub open spec fn first_index(keys: Seq<Text>, key: Text) -> Option<int> {
    if exists|i: int| is_first_index(keys, key, i) {
        Some(choose|i: int| is_first_index(keys, key, i))
    } else {
        None
    }
}

/// A first place, once found, is the one that `first_index` names.
pub proof fn lemma_first_index_found(keys: Seq<Text>, key: Text, i: int)
    requires
        is_first_index(keys, key, i),
    ensures
        first_index(keys, key) == Some(i),
{
}

/// `first_index` names a place exactly when `keys` contains `key`, and the
/// place it names is a first one.
pub proof fn lemma_first_index(keys: Seq<Text>, key: Text)
    ensures
        first_index(keys, key) is Some <==> keys.contains(key),
        first_index(keys, key) matches Some(i) ==> is_first_index(keys, key, i),
    decreases keys.len(),
{
    if keys.contains(key) {
        let w = choose|w: int| 0 <= w < keys.len() && keys[w] == key;
        lemma_least_match(keys, key, w);
    } else {
        if first_index(keys, key) is Some {
            let c = choose|c: int| is_first_index(keys, key, c);
        }
    }
}

/// Below any place that holds `key` there is a first one.
proof fn lemma_least_match(keys: Seq<Text>, key: Text, w: int)
    requires
        0 <= w < keys.len(),
        keys[w] == key,
    ensures
        exists|i: int| is_first_index(keys, key, i),
    decreases w,
{
    if forall|j: int| 0 <= j < w ==> keys[j] != key {
        assert(is_first_index(keys, key, w));
    } else {
        let j = choose|j: int| 0 <= j < w && keys[j] == key;
        lemma_least_match(keys, key, j);
    }
}

} // verus!
