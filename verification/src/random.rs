//! The source of chance. Nothing here is proved: each item states what the
//! `rand` crate documents of the function it calls.

use rand::rngs::ThreadRng;
use rand::Rng;
use vstd::prelude::*;

verus! {

/// `rand::rngs::ThreadRng`, the handle to the generator of the running
/// thread. Nothing is known of its state.
#[verifier::external_type_specification]
#[verifier::external_body]
pub struct ExThreadRng(rand::rngs::ThreadRng);

/// Calls `rand::rng`, which hands out the generator of the running thread.
/// Nothing is claimed of the generator. The call panics where the operating
/// system has no seed to give when a thread first asks; no argument of this
/// library brings that about or prevents it.
#[verifier::external_body]
pub(crate) fn thread_rng() -> ThreadRng {
    rand::rng()
}

/// Calls `rand::Rng::random_ratio`, which draws `true` with probability
/// `numerator / denominator`.
///
/// Claimed of it: the two outcomes that `rand` documents as certain. With a
/// numerator of zero the draw is `false`, with a numerator equal to the
/// denominator it is `true`. Of every other ratio either outcome may come.
/// The call panics on a zero denominator and on a ratio above one, which the
/// precondition leaves out.
#[verifier::external_body]
pub(crate) fn random_ratio(rng: &mut ThreadRng, numerator: u32, denominator: u32) -> (hit: bool)
    requires
        denominator > 0,
        numerator <= denominator,
    ensures
        numerator == 0 ==> !hit,
        numerator == denominator ==> hit,
{
    rng.random_ratio(numerator, denominator)
}

} // verus!
