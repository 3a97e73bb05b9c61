//! Facts about `Seq::flat_map` that the proofs of the rules share.

use vstd::prelude::*;
use vstd::seq_lib::lemma_flatten_concat;

verus! {

/// Flat-mapping a prefix that is one element longer appends that element's image.
pub proof fn lemma_flat_map_take_next<A, B>(s: Seq<A>, f: spec_fn(A) -> Seq<B>, i: int)
    requires
        0 <= i < s.len(),
    ensures
        s.take(i + 1).flat_map(f) == s.take(i).flat_map(f) + f(s[i]),
{
    assert(s.take(i + 1).map_values(f) =~= s.take(i).map_values(f).push(f(s[i])));
    s.take(i).map_values(f).lemma_flatten_push(f(s[i]));
}

/// A flat map is the flat map of the elements before `i`, then the image of
/// element `i`, then the flat map of the elements after it.
pub proof fn lemma_flat_map_split<A, B>(s: Seq<A>, f: spec_fn(A) -> Seq<B>, i: int)
    requires
        0 <= i < s.len(),
    ensures
        s.flat_map(f) == s.take(i).flat_map(f) + f(s[i]) + s.skip(i + 1).flat_map(f),
{
    let before = s.take(i).map_values(f);
    let after = s.skip(i + 1).map_values(f);
    assert(s.map_values(f) =~= before.push(f(s[i])) + after);
    lemma_flatten_concat(before.push(f(s[i])), after);
    before.lemma_flatten_push(f(s[i]));
}

/// The flat map of nothing is nothing.
pub proof fn lemma_flat_map_empty<A, B>(s: Seq<A>, f: spec_fn(A) -> Seq<B>)
    requires
        s.len() == 0,
    ensures
        s.flat_map(f) == Seq::<B>::empty(),
{
    assert(s.map_values(f) =~= Seq::empty());
}

} // verus!
