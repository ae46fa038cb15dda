use vstd::prelude::*;

verus! {

/// When a timed script blueprint fires: a duration in engine ticks.
#[derive(Clone, Copy, Debug, Hash, PartialEq, Eq, Structural)]
pub struct Instance {
    pub duration: u32,
}

} // verus!
