use vstd::prelude::*;

verus! {

/// Draws an index below `bound` with `rand::Rng::gen_range(0..bound)` on the thread-local
/// generator. The contract claims only what the documentation of `gen_range` gives for every
/// draw: the value lies in the half-open range. The value itself depends on chance.
#[verifier::external_body]
pub(crate) fn random_index(bound: usize) -> (r: usize)
    requires
        bound > 0,
    ensures
        r < bound,
{
    rand::Rng::gen_range(&mut rand::thread_rng(), 0..bound)
}

/// Picks one element of `values` with `rand::seq::SliceRandom::choose` on the thread-local
/// generator. The contract claims what the documentation of `choose` gives: `None` exactly
/// when the slice is empty, and otherwise one of its elements. Which element depends on chance.
#[verifier::external_body]
pub(crate) fn choose_value(values: &Vec<usize>) -> (r: Option<usize>)
    ensures
        r is None <==> values@.len() == 0,
        r matches Some(v) ==> values@.contains(v),
{
    rand::seq::SliceRandom::choose(values.as_slice(), &mut rand::thread_rng()).copied()
}

} // verus!
