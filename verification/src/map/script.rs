use vstd::prelude::*;

use crate::map::spatial;
use crate::map::time;

verus! {

/// What a script blueprint is attached to, with the payload the
/// attachment carries.
#[derive(Clone, Copy, Debug, Hash, PartialEq, Eq, Structural)]
pub enum Type {
    System,
    Spatial(spatial::Instance),
    Time(time::Instance),
    Item,
    Critter,
}

/// How a blueprint is wired up: its program and, optionally, the object
/// it is bound to.
#[derive(Clone, Copy, Debug, Hash, PartialEq, Eq, Structural)]
pub struct Connections {
    pub program_id: u32,
    pub object_id: Option<u32>,
}

/// The slice of the global variable table a blueprint owns.
#[derive(Clone, Copy, Debug, Hash, PartialEq, Eq, Structural)]
pub struct Variables {
    pub offset: u32,
    pub count: u32,
}

/// One script blueprint bound to the map.
#[derive(Clone, Copy, Debug, Hash, PartialEq, Eq, Structural)]
pub struct Instance {
    pub id: u16,
    pub kind: Type,
    pub variables: Option<Variables>,
    pub connections: Connections,
}

} // verus!
