use vstd::prelude::*;

use crate::errors::{Error, Format};

verus! {

/// A numeric value paired with the half-open range it was validated
/// against. The invariant [`Scaled::wf`] holds for every value built by
/// the conversions in this module.
#[derive(Clone, Copy, Debug, Hash, PartialEq, Eq, Structural)]
pub struct Scaled {
    pub value: u8,
    pub start: u8,
    pub end: u8,
}

impl Scaled {
    /// The value lies inside its declared range.
    pub open spec fn wf(self) -> bool {
        self.start <= self.value < self.end
    }
}

/// A cell position on the 200 x 200 grid, decoded from a row-major linear
/// index: `x` is the row, `y` the column.
#[derive(Clone, Copy, Debug, Hash, PartialEq, Eq, Structural)]
pub struct Coordinate {
    pub x: Scaled,
    pub y: Scaled,
}

/// One of the up to three vertical map levels.
#[derive(Clone, Copy, Debug, Hash, PartialEq, Eq, Structural)]
pub struct Elevation {
    pub level: Scaled,
}

/// One of the six hex-grid facing directions.
#[derive(Clone, Copy, Debug, Hash, PartialEq, Eq, Structural)]
pub struct Orientation {
    pub value: Scaled,
}

impl Coordinate {
    /// A linear index is valid exactly when it is below 200 * 200.
    pub open spec fn valid_raw(raw: u32) -> bool {
        raw < 40000
    }

    /// The coordinate a valid linear index decodes to.
    pub open spec fn spec_from(raw: u32) -> Coordinate {
        Coordinate {
            x: Scaled { value: (raw / 200) as u8, start: 0, end: 200 },
            y: Scaled { value: (raw % 200) as u8, start: 0, end: 200 },
        }
    }

    /// Decodes a row-major linear cell index: valid iff `raw < 200 * 200`,
    /// with `x = raw / 200` and `y = raw % 200`, so `x * 200 + y == raw`.
    pub fn try_from(raw: u32) -> (r: Result<Coordinate, Error>)
        ensures
            Self::valid_raw(raw) ==> r == Ok::<Coordinate, Error>(Self::spec_from(raw)),
            !Self::valid_raw(raw) ==> r == Err::<Coordinate, Error>(Error::Format(Format::Data)),
            r matches Ok(c) ==> c.x.wf() && c.y.wf() && c.x.value * 200 + c.y.value == raw,
    {
        if raw < 40000 {
            let x: u8 = (raw / 200) as u8;
            let y: u8 = (raw % 200) as u8;
            assert(x * 200 + y == raw) by (nonlinear_arith)
                requires
                    raw < 40000,
                    x == raw / 200,
                    y == raw % 200,
            ;
            Ok(Coordinate {
                x: Scaled { value: x, start: 0, end: 200 },
                y: Scaled { value: y, start: 0, end: 200 },
            })
        } else {
            Err(Error::Format(Format::Data))
        }
    }

    /// Decodes a signed linear index: a negative value is invalid, any
    /// other value converts as [`Coordinate::try_from`] does.
    pub fn try_from_i32(raw: i32) -> (r: Result<Coordinate, Error>)
        ensures
            raw >= 0 && Self::valid_raw(raw as u32) ==> r == Ok::<Coordinate, Error>(
                Self::spec_from(raw as u32),
            ),
            !(raw >= 0 && Self::valid_raw(raw as u32)) ==> r == Err::<Coordinate, Error>(
                Error::Format(Format::Data),
            ),
    {
        if raw >= 0 {
            Self::try_from(raw as u32)
        } else {
            Err(Error::Format(Format::Data))
        }
    }
}

impl Elevation {
    /// A raw level is valid exactly when it is one of 0, 1, 2.
    pub open spec fn valid_raw(raw: u32) -> bool {
        raw < 3
    }

    /// The elevation a valid raw level decodes to.
    pub open spec fn spec_from(raw: u32) -> Elevation {
        Elevation { level: Scaled { value: raw as u8, start: 0, end: 3 } }
    }

    /// Decodes a vertical level: valid iff `raw < 3`.
    pub fn try_from(raw: u32) -> (r: Result<Elevation, Error>)
        ensures
            Self::valid_raw(raw) ==> r == Ok::<Elevation, Error>(Self::spec_from(raw)),
            !Self::valid_raw(raw) ==> r == Err::<Elevation, Error>(Error::Format(Format::Data)),
            r matches Ok(e) ==> e.level.wf() && e.level.value == raw,
    {
        if raw < 3 {
            Ok(Elevation { level: Scaled { value: raw as u8, start: 0, end: 3 } })
        } else {
            Err(Error::Format(Format::Data))
        }
    }
}

impl Orientation {
    /// A raw direction is valid exactly when it is below 6.
    pub open spec fn valid_raw(raw: u32) -> bool {
        raw < 6
    }

    /// The orientation a valid raw direction decodes to.
    pub open spec fn spec_from(raw: u32) -> Orientation {
        Orientation { value: Scaled { value: raw as u8, start: 0, end: 6 } }
    }

    /// Decodes a hex facing direction: valid iff `raw < 6`.
    pub fn try_from(raw: u32) -> (r: Result<Orientation, Error>)
        ensures
            Self::valid_raw(raw) ==> r == Ok::<Orientation, Error>(Self::spec_from(raw)),
            !Self::valid_raw(raw) ==> r == Err::<Orientation, Error>(Error::Format(Format::Data)),
            r matches Ok(o) ==> o.value.wf() && o.value.value == raw,
    {
        if raw < 6 {
            Ok(Orientation { value: Scaled { value: raw as u8, start: 0, end: 6 } })
        } else {
            Err(Error::Format(Format::Data))
        }
    }
}

} // verus!
