//! Error recognition of a decoder.
use vstd::prelude::*;

verus! {

/// A set of checks that a decoder makes on its input, one bit each.
#[derive(Clone, Copy, Debug, PartialEq, Eq, Structural)]
pub struct Check(pub i32);

impl Check {
    pub fn bits(&self) -> (bits: i32)
        ensures
            bits == self.0,
    {
        self.0
    }
}

} // verus!
