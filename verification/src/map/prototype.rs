use vstd::prelude::*;

use crate::identifier::Identifier;

verus! {

/// One object placed on the map, referencing its prototype.
#[derive(Clone, Copy, Debug, Hash, PartialEq, Eq, Structural)]
pub struct Instance {
    pub identifier: Identifier,
}

} // verus!
