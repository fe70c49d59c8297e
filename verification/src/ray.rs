//! The state of a light ray in the equatorial plane.

use crate::binary64::Binary64;
use vstd::prelude::*;

verus! {

/// Where a photon is and how it moves, in units where the black hole's mass
/// is one: the radial coordinate `r`, the azimuthal angle `phi` that it has
/// swept, and its radial momentum `pr` (negative towards the hole).
///
/// The fields are values of the integration, which the host computes; the
/// library reads `r` to decide when a trace ends.
#[derive(Clone, Copy, Debug, PartialEq, Eq, Structural)]
pub struct RayState {
    pub r: Binary64,
    pub phi: Binary64,
    pub pr: Binary64,
}

} // verus!
