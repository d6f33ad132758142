//! The drone's single source of chance: a uniform draw that decides whether
//! a message fragment is dropped.

use vstd::prelude::*;
use rand::RngExt;

verus! {

/// Scale of the drop probability: `Drone::pdr` counts parts per million,
/// so a `pdr` of `PPM_SCALE` drops every fragment.
pub const PPM_SCALE: u32 = 1000000;

/// Relies on rand's `rng()` and `RngExt::random_range`: a value drawn
/// uniformly from the half-open range handed to it, here `[0, PPM_SCALE)`,
/// which is never empty, so the call does not panic.
#[verifier::external_body]
pub fn sample_ppm() -> (r: u32)
    ensures
        r < PPM_SCALE,
{
    rand::rng().random_range(0..PPM_SCALE)
}

} // verus!
