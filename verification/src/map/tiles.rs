use vstd::prelude::*;

verus! {

/// Cells per side of one elevation's tile grid.
pub const SIDE_SIZE: usize = 100;

/// Cells in one elevation's tile grid.
pub const GRID_CELLS: usize = 10000;

/// The raw tile id that marks an empty cell.
pub const TILE_SENTINEL: u16 = 0xFFFF;

/// The tile grids of one elevation: a roof and a floor surface, each a
/// row-major `100 x 100` grid of optional tile ids, stored as flat
/// buffers of exactly `100 * 100` cells.
#[derive(Debug, PartialEq)]
pub struct Instance {
    pub roof: Vec<Option<u16>>,
    pub floor: Vec<Option<u16>>,
}

/// The grids a decoded instance models, for stating the parse contract.
pub struct TilesModel {
    pub roof: Seq<Option<u16>>,
    pub floor: Seq<Option<u16>>,
}

/// The model of one elevation's decoded grids.
pub open spec fn instance_model(i: Instance) -> TilesModel {
    TilesModel { roof: i.roof@, floor: i.floor@ }
}

impl Instance {
    /// Both surfaces hold exactly `100 * 100` cells.
    pub open spec fn wf(self) -> bool {
        self.roof@.len() == GRID_CELLS && self.floor@.len() == GRID_CELLS
    }
}

} // verus!
