//! The random draws of the training loop, taken from rand's thread-local
//! generator. Nothing is promised of which values come out, only the range
//! they come from.
use rand::seq::SliceRandom;
use rand::Rng;
use vstd::prelude::*;

verus! {

/// Relies on `rand::Rng::gen_range` over `thread_rng()`: a value drawn from
/// `0..len`. An empty range panics, hence `len > 0`.
#[verifier::external_body]
pub(crate) fn random_index(len: usize) -> (r: usize)
    requires
        len > 0,
    ensures
        r < len,
{
    rand::thread_rng().gen_range(0..len)
}

/// Relies on `rand::seq::SliceRandom::shuffle` over `thread_rng()`: it only
/// swaps elements, so the result holds the same elements in some order.
#[verifier::external_body]
pub(crate) fn shuffle<T>(v: &mut Vec<T>)
    ensures
        final(v)@.to_multiset() == old(v)@.to_multiset(),
{
    v.shuffle(&mut rand::thread_rng());
}

} // verus!
