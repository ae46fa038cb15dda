use vstd::prelude::*;

use crate::errors::{Error, Format};

verus! {

/// The kind of object a prototype describes, encoded in the top byte of a
/// raw identifier.
#[derive(Clone, Copy, Debug, Hash, PartialEq, Eq, Structural)]
pub enum Kind {
    Item,
    Critter,
    Scenery,
    Wall,
    Tile,
    Misc,
}

/// A (kind, numeric value) reference to a prototype. The raw 32-bit form
/// holds the kind in its top byte and the value in its low 24 bits.
#[derive(Clone, Copy, Debug, Hash, PartialEq, Eq, Structural)]
pub struct Identifier {
    pub kind: Kind,
    pub value: u32,
}

impl Identifier {
    /// A raw identifier is valid exactly when its top byte names one of
    /// the six kinds.
    pub open spec fn valid_raw(raw: u32) -> bool {
        raw / 0x100_0000 < 6
    }

    /// The kind a valid top byte decodes to.
    pub open spec fn spec_kind(top: int) -> Kind {
        if top == 0 {
            Kind::Item
        } else if top == 1 {
            Kind::Critter
        } else if top == 2 {
            Kind::Scenery
        } else if top == 3 {
            Kind::Wall
        } else if top == 4 {
            Kind::Tile
        } else {
            Kind::Misc
        }
    }

    /// The identifier a valid raw value decodes to.
    pub open spec fn spec_from(raw: u32) -> Identifier {
        Identifier {
            kind: Self::spec_kind(raw as int / 0x100_0000),
            value: (raw % 0x100_0000) as u32,
        }
    }

    /// Decodes a raw identifier: the top byte must name a kind, the low
    /// 24 bits are the numeric value.
    pub fn try_from(raw: u32) -> (r: Result<Identifier, Error>)
        ensures
            Self::valid_raw(raw) ==> r == Ok::<Identifier, Error>(Self::spec_from(raw)),
            !Self::valid_raw(raw) ==> r == Err::<Identifier, Error>(Error::Format(Format::Data)),
    {
        let top: u32 = raw / 0x100_0000;
        let value: u32 = raw % 0x100_0000;
        let kind = match top {
            0 => Kind::Item,
            1 => Kind::Critter,
            2 => Kind::Scenery,
            3 => Kind::Wall,
            4 => Kind::Tile,
            5 => Kind::Misc,
            _ => {
                return Err(Error::Format(Format::Data));
            },
        };
        Ok(Identifier { kind, value })
    }

    /// What an optional decode yields: the field-specific sentinel means
    /// absent, anything else converts as [`Identifier::try_from`] does.
    pub open spec fn spec_from_optional(raw: u32, sentinel: u32) -> Result<
        Option<Identifier>,
        Error,
    > {
        if raw == sentinel {
            Ok(None)
        } else if Self::valid_raw(raw) {
            Ok(Some(Self::spec_from(raw)))
        } else {
            Err(Error::Format(Format::Data))
        }
    }

    /// Resolves a per-field sentinel before ordinary conversion: a raw
    /// value that bit-equals `sentinel` is absent; any other raw value is
    /// converted, propagating its failure.
    pub fn try_from_optional(raw: u32, sentinel: u32) -> (r: Result<Option<Identifier>, Error>)
        ensures
            r == Self::spec_from_optional(raw, sentinel),
    {
        if raw == sentinel {
            Ok(None)
        } else {
            match Self::try_from(raw) {
                Ok(id) => Ok(Some(id)),
                Err(e) => Err(e),
            }
        }
    }
}

} // verus!
