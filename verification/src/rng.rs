use vstd::prelude::*;
use rand::Rng;

verus! {

/// The thread-local generator type of the `rand` crate. It is opaque here: a
/// handle is carried in the game state so food can be respawned each tick.
#[verifier::external_type_specification]
#[verifier::external_body]
pub struct ExThreadRng(rand::rngs::ThreadRng);

/// Relies on `rand::thread_rng`: returns a handle to the calling thread's
/// generator. Nothing is assumed about the handle itself.
pub assume_specification[ rand::thread_rng ]() -> rand::rngs::ThreadRng;

/// Relies on `rand::Rng::gen_range` on the range `0..bound`: it panics only
/// on an empty range and otherwise samples uniformly from the range, so with
/// a positive `bound` the sample lies in `[0, bound)`. Nothing relates one
/// sample to the next, so callers must hold for every such value.
#[verifier::external_body]
pub(crate) fn gen_range_below(rng: &mut rand::rngs::ThreadRng, bound: i32) -> (r: i32)
    requires
        0 < bound,
    ensures
        0 <= r < bound,
{
    rng.gen_range(0..bound)
}

} // verus!
