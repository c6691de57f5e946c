//! Flags of a codec context.
use vstd::prelude::*;

verus! {

/// A set of codec flags, one bit each.
#[derive(Clone, Copy, Debug, PartialEq, Eq, Structural)]
pub struct Flags(pub u32);

impl Flags {
    pub fn bits(&self) -> (bits: u32)
        ensures
            bits == self.0,
    {
        self.0
    }
}

} // verus!
