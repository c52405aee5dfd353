//! How the deep view of a vector follows the vector's own operations.

use vstd::prelude::*;

verus! {

/// Pushing an element pushes its view.
pub proof fn lemma_deep_view_push<T: DeepView>(before: Vec<T>, after: Vec<T>, x: T)
    requires
        after@ == before@.push(x),
    ensures
        after.deep_view() == before.deep_view().push(x.deep_view()),
{
    assert(after.deep_view() =~= before.deep_view().push(x.deep_view()));
}

/// Inserting an element inserts its view at the same index.
pub proof fn lemma_deep_view_insert<T: DeepView>(before: Vec<T>, after: Vec<T>, i: int, x: T)
    requires
        0 <= i <= before@.len(),
        after@ == before@.insert(i, x),
    ensures
        after.deep_view() == before.deep_view().insert(i, x.deep_view()),
{
    assert(after.deep_view() =~= before.deep_view().insert(i, x.deep_view()));
}

/// Cutting a vector down to its first `n` elements cuts its deep view down
/// to the first `n` views.
pub proof fn lemma_deep_view_truncate<T: DeepView>(before: Vec<T>, after: Vec<T>, n: int)
    requires
        0 <= n <= before@.len(),
        after@ == before@.subrange(0, n),
    ensures
        after.deep_view() == before.deep_view().take(n),
{
    assert(after.deep_view() =~= before.deep_view().take(n));
}

/// A vector without elements has the empty deep view.
pub proof fn lemma_deep_view_empty<T: DeepView>(v: Vec<T>)
    requires
        v@.len() == 0,
    ensures
        v.deep_view() == Seq::<T::V>::empty(),
{
    assert(v.deep_view() =~= Seq::<T::V>::empty());
}

/// The first `i + 1` views are the first `i` views and the view of the
/// element at `i`.
pub proof fn lemma_deep_view_take_next<T: DeepView>(v: Vec<T>, i: int)
    requires
        0 <= i < v@.len(),
    ensures
        v.deep_view().take(i + 1).drop_last() == v.deep_view().take(i),
        v.deep_view().take(i + 1).last() == v@[i].deep_view(),
        v.deep_view().take(i + 1) == v.deep_view().take(i).push(v@[i].deep_view()),
{
    assert(v.deep_view().take(i + 1).drop_last() =~= v.deep_view().take(i));
    assert(v.deep_view().take(i + 1) =~= v.deep_view().take(i).push(v@[i].deep_view()));
}

/// Taking all elements takes nothing away.
pub proof fn lemma_deep_view_take_all<T: DeepView>(v: Vec<T>)
    ensures
        v.deep_view().take(v@.len() as int) == v.deep_view(),
{
    assert(v.deep_view().take(v@.len() as int) =~= v.deep_view());
}

} // verus!
