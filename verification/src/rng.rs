//! The simulation's one randomness source: the jitter applied to the
//! initial grid layout.

use vstd::prelude::*;

verus! {

/// Relies on `rand::Rng::gen_range` over the integer range
/// `-bound..bound`, with `rand::thread_rng` as the generator: the sample
/// lies in `[-bound, bound)`, and the range is non-empty (`bound >= 1`),
/// so the call does not panic.
#[verifier::external_body]
pub(crate) fn random_jitter(bound: i64) -> (r: i64)
    requires
        1 <= bound,
    ensures
        -bound <= r < bound,
{
    let mut rng = rand::thread_rng();
    rand::Rng::gen_range(&mut rng, -bound..bound)
}

} // verus!
