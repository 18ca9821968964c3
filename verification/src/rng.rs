//! The engine's only sources of randomness: a uniform roll and an in-place
//! shuffle, both drawn from the process-wide generator. Every rule that
//! consumes a roll takes it as a plain argument, so the combat logic itself
//! is deterministic and verified for every possible outcome.
use vstd::prelude::*;

verus! {

/// Relies on rand's `Rng::gen_range` over `0..n`: a uniform draw in
/// `[0, n)`; it panics on an empty range, so `n` must be positive. Nothing
/// more can be promised of a random value than its range.
#[verifier::external_body]
pub fn roll_below(n: u32) -> (r: u32)
    requires
        n >= 1,
    ensures
        r < n,
{
    rand::Rng::gen_range(&mut rand::thread_rng(), 0..n)
}

/// Relies on rand's `SliceRandom::shuffle`: a Fisher-Yates pass that only
/// swaps elements in place, so the result is a permutation of the input.
/// Which permutation comes out is left entirely open.
#[verifier::external_body]
pub fn shuffle_vec<T>(v: &mut Vec<T>)
    ensures
        final(v)@.len() == old(v)@.len(),
        final(v)@.to_multiset() == old(v)@.to_multiset(),
{
    rand::seq::SliceRandom::shuffle(v.as_mut_slice(), &mut rand::thread_rng())
}

} // verus!
