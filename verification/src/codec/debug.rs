//! Debug flags of a codec context.
use vstd::prelude::*;

verus! {

/// A set of debug flags, one bit each.
#[derive(Clone, Copy, Debug, PartialEq, Eq, Structural)]
pub struct Debug(pub i32);

impl Debug {
    pub fn bits(&self) -> (bits: i32)
        ensures
            bits == self.0,
    {
        self.0
    }
}

} // verus!
