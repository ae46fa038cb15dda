use vstd::prelude::*;

use crate::errors::{Error, Format};
use crate::source::{be32, be_i32, can_read, Source};

verus! {

/// A destination cell reference carried by ladders and stairs, kept as
/// read; the all-ones bit pattern is its absence sentinel.
#[derive(Clone, Copy, Debug, PartialEq, Eq, Structural)]
pub struct Destination {
    pub value: u32,
}

/// The absence sentinel of a destination field: four `0xFF` bytes.
pub const DESTINATION_SENTINEL: u32 = 0xFFFF_FFFF;

impl Destination {
    /// What an optional destination decodes to: the all-ones sentinel
    /// means absent, anything else is kept as read.
    pub open spec fn spec_from_optional(raw: u32) -> Option<Destination> {
        if raw == DESTINATION_SENTINEL {
            None
        } else {
            Some(Destination { value: raw })
        }
    }

    /// Resolves the all-ones sentinel of a destination field before the
    /// (infallible) conversion.
    pub fn try_from_optional(raw: u32) -> (r: Option<Destination>)
        ensures
            r == Self::spec_from_optional(raw),
    {
        if raw == DESTINATION_SENTINEL {
            None
        } else {
            Some(Destination { value: raw })
        }
    }
}

/// A reference to another map by its number; decoded from a signed field
/// whose negative values are invalid except for a per-field sentinel.
#[derive(Clone, Copy, Debug, PartialEq, Eq, Structural)]
pub struct MapRef {
    pub id: u32,
}

impl MapRef {
    /// What an optional map reference decodes to: the field's sentinel
    /// means absent, a non-negative value is a map number, and any other
    /// negative value is a data failure.
    pub open spec fn spec_from_optional(raw: i32, sentinel: i32) -> Result<Option<MapRef>, Error> {
        if raw == sentinel {
            Ok(None)
        } else if raw >= 0 {
            Ok(Some(MapRef { id: raw as u32 }))
        } else {
            Err(Error::Format(Format::Data))
        }
    }

    /// Resolves a per-field sentinel before ordinary conversion,
    /// propagating the conversion's failure.
    pub fn try_from_optional(raw: i32, sentinel: i32) -> (r: Result<Option<MapRef>, Error>)
        ensures
            r == Self::spec_from_optional(raw, sentinel),
    {
        if raw == sentinel {
            Ok(None)
        } else if raw >= 0 {
            Ok(Some(MapRef { id: raw as u32 }))
        } else {
            Err(Error::Format(Format::Data))
        }
    }
}

/// The ladder fields patched in while placing scenery on a map: an
/// optional destination cell and, only when the caller asks for it, an
/// optional map reference.
#[derive(Clone, Copy, Debug, PartialEq, Eq, Structural)]
pub struct Patch {
    pub map: Option<MapRef>,
    pub destination: Option<Destination>,
}

/// The absence sentinel of the ladder's map field.
pub const LADDER_MAP_SENTINEL: i32 = -2;

/// What a ladder patch parse of `b` at `pos` yields, together with the
/// position after it.
pub open spec fn spec_patch(b: Seq<u8>, pos: int, read_map: bool) -> Result<(Patch, int), Error> {
    if !can_read(b, pos, 4) {
        Err(Error::Read)
    } else {
        let destination = Destination::spec_from_optional(be32(b, pos) as u32);
        if !read_map {
            Ok((Patch { map: None, destination }, pos + 4))
        } else if !can_read(b, pos + 4, 4) {
            Err(Error::Read)
        } else {
            match MapRef::spec_from_optional(be_i32(b, pos + 4), LADDER_MAP_SENTINEL) {
                Err(e) => Err(e),
                Ok(map) => Ok((Patch { map, destination }, pos + 8)),
            }
        }
    }
}

/// Decodes a ladder patch: a 4-byte optional destination (sentinel
/// all-`0xFF`), then, only when `read_map` is set, a 4-byte optional map
/// reference (sentinel `-2`). The `read_map` switch is a caller
/// contract, not derivable from the bytes themselves.
pub fn patch(source: &mut Source, read_map: bool) -> (r: Result<Patch, Error>)
    ensures
        final(source).bytes@ == old(source).bytes@,
        match spec_patch(old(source).bytes@, old(source).pos as int, read_map) {
            Ok((p, end)) => r == Ok::<Patch, Error>(p) && final(source).pos == end,
            Err(e) => r == Err::<Patch, Error>(e),
        },
{
    let destination_raw = match source.read_u32() {
        Ok(v) => v,
        Err(e) => {
            return Err(e);
        },
    };

    let destination = Destination::try_from_optional(destination_raw);

    let map = if read_map {
        let map_raw = match source.read_i32() {
            Ok(v) => v,
            Err(e) => {
                return Err(e);
            },
        };
        match MapRef::try_from_optional(map_raw, LADDER_MAP_SENTINEL) {
            Ok(v) => v,
            Err(e) => {
                return Err(e);
            },
        }
    } else {
        None
    };

    Ok(Patch { map, destination })
}

} // verus!
