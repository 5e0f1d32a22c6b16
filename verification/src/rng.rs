//! The randomness source behind the randomized constructors, kept behind
//! two small trusted wrappers so the rest of the library is verified for
//! every value the generator can hand back.

use vstd::prelude::*;
use rand::Rng;

verus! {

#[verifier::external_type_specification]
#[verifier::external_body]
pub struct ExThreadRng(rand::rngs::ThreadRng);

/// Relies on rand::thread_rng: a handle to the thread-local generator.
/// Nothing is promised of it; every draw is specified at `sample_range`.
#[verifier::external_body]
pub(crate) fn new_rng() -> rand::rngs::ThreadRng {
    rand::thread_rng()
}

/// Relies on rand::Rng::gen_range over the half-open range `lo..hi` of
/// `i64`: the sample always lies inside the range (it panics only on an
/// empty range, which the precondition rules out).  Nothing more is
/// promised of a random value.
#[verifier::external_body]
pub(crate) fn sample_range(rng: &mut rand::rngs::ThreadRng, lo: i64, hi: i64) -> (r: i64)
    requires
        lo < hi,
    ensures
        lo <= r < hi,
{
    rng.gen_range(lo..hi)
}

} // verus!
