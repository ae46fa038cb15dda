use vstd::prelude::*;

use crate::geometry::{Coordinate, Elevation, Orientation};

verus! {

/// Where a player entering the map starts: default position, elevation
/// and orientation.
#[derive(Clone, Copy, Debug, PartialEq, Eq, Structural)]
pub struct Instance {
    pub position: Coordinate,
    pub elevation: Elevation,
    pub orientation: Orientation,
}

} // verus!
