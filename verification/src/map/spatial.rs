use vstd::prelude::*;

use crate::geometry::{Coordinate, Elevation};

verus! {

/// Where a spatial script blueprint triggers: a position, a trigger
/// radius and an elevation.
#[derive(Clone, Copy, Debug, Hash, PartialEq, Eq, Structural)]
pub struct Instance {
    pub position: Coordinate,
    pub distance: u16,
    pub elevation: Elevation,
}

} // verus!
