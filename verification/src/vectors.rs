//! Two facts about vectors and their values that the proofs of this library
//! use wherever a vector grows.

use vstd::prelude::*;

verus! {

/// What a vector holds after a push, item by item as values.
pub proof fn lemma_deep_view_push<T: DeepView>(before: Seq<T>, after: Vec<T>, x: T)
    requires
        after@ == before.push(x),
    ensures
        after.deep_view() == Seq::new(before.len(), |i: int| before[i].deep_view()).push(
            x.deep_view(),
        ),
{
    assert(after.deep_view() =~= Seq::new(before.len(), |i: int| before[i].deep_view()).push(
        x.deep_view(),
    ));
}

/// What a vector holds after another is appended to it, item by item as
/// values.
pub proof fn lemma_deep_view_append<T: DeepView>(first: Seq<T>, second: Seq<T>, after: Vec<T>)
    requires
        after@ == first + second,
    ensures
        after.deep_view() == Seq::new(first.len(), |i: int| first[i].deep_view()) + Seq::new(
            second.len(),
            |i: int| second[i].deep_view(),
        ),
{
    assert(after.deep_view() =~= Seq::new(first.len(), |i: int| first[i].deep_view()) + Seq::new(
        second.len(),
        |i: int| second[i].deep_view(),
    ));
}

} // verus!
