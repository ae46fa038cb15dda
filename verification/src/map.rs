use vstd::prelude::*;

use crate::map::defaults as map_defaults;
use crate::map::prototype as map_prototype;
use crate::map::script as map_script;
use crate::map::tiles as map_tiles;

pub mod defaults;
pub mod parse;
pub mod prototype;
pub mod script;
pub mod spatial;
pub mod tiles;
pub mod time;

verus! {

/// A map-wide flag decoded from the combined flags word.
#[derive(Clone, Copy, Debug, Hash, PartialEq, Eq, Structural)]
pub enum Flag {
    Save,
}

/// Which of the three elevations the combined flags word marks as
/// present; tile grids and placed objects exist only for those.
#[derive(Clone, Copy, Debug, PartialEq, Eq, Structural)]
pub struct Elevations {
    pub first: bool,
    pub second: bool,
    pub third: bool,
}

/// The map's script variable tables, each the set of its declared
/// values: duplicates collapse onto their first occurrence, so a table
/// may hold fewer entries than its declared count.
#[derive(Debug, PartialEq)]
pub struct Variables {
    pub local: Vec<i32>,
    pub global: Vec<i32>,
}

/// A fully decoded map file: an immutable snapshot produced once by
/// parsing. Its set-valued collections (the flags, the variable tables,
/// the script blueprints and the placed objects) are duplicate-free
/// sequences in first-occurrence order.
#[derive(Debug, PartialEq)]
pub struct MapFile {
    pub id: u32,
    pub version: u32,
    pub filename: String,
    pub flags: Vec<Flag>,
    pub defaults: map_defaults::Instance,
    pub variables: Variables,
    pub ticks: u32,
    pub darkness: u32,
    pub tiles: Vec<Option<map_tiles::Instance>>,
    pub scripts: Vec<map_script::Instance>,
    pub prototypes: Vec<map_prototype::Instance>,
}

/// The map a decoded value models, for stating the parse contract: every
/// container abstracted to its sequence of values.
pub struct MapModel {
    pub id: u32,
    pub version: u32,
    pub filename: Seq<char>,
    pub flags: Seq<Flag>,
    pub defaults: map_defaults::Instance,
    pub local: Seq<i32>,
    pub global: Seq<i32>,
    pub ticks: u32,
    pub darkness: u32,
    pub tiles: Seq<Option<map_tiles::TilesModel>>,
    pub scripts: Seq<map_script::Instance>,
    pub prototypes: Seq<map_prototype::Instance>,
}

/// The model of one optional elevation grid pair.
pub open spec fn tiles_opt_model(t: Option<map_tiles::Instance>) -> Option<map_tiles::TilesModel> {
    match t {
        Some(i) => Some(map_tiles::instance_model(i)),
        None => None,
    }
}

/// The models of a sequence of optional elevation grid pairs.
pub open spec fn tiles_vec_model(v: Seq<Option<map_tiles::Instance>>) -> Seq<
    Option<map_tiles::TilesModel>,
> {
    Seq::new(v.len(), |i: int| tiles_opt_model(v[i]))
}

/// The model of a decoded map.
pub open spec fn map_model(m: MapFile) -> MapModel {
    MapModel {
        id: m.id,
        version: m.version,
        filename: m.filename@,
        flags: m.flags@,
        defaults: m.defaults,
        local: m.variables.local@,
        global: m.variables.global@,
        ticks: m.ticks,
        darkness: m.darkness,
        tiles: tiles_vec_model(m.tiles@),
        scripts: m.scripts@,
        prototypes: m.prototypes@,
    }
}

} // verus!
