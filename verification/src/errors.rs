use vstd::prelude::*;

verus! {

/// Why a `Format` failure happened.
#[derive(Clone, Copy, Debug, PartialEq, Eq, Structural)]
pub enum Format {
    /// A well-formed read produced a value outside its enumerated or
    /// numeric domain.
    Data,
    /// An internal cross-check (a magic constant, an expected fixed value)
    /// did not hold.
    Consistency,
}

/// The decoding error taxonomy.
#[derive(Clone, Copy, Debug, PartialEq, Eq, Structural)]
pub enum Error {
    /// The byte source ran out (short read) or could not be positioned.
    Read,
    /// The bytes were readable but semantically invalid.
    Format(Format),
    /// An internal conversion that is expected to be infallible failed:
    /// a decoder bug, not bad input.
    Source,
}

} // verus!
