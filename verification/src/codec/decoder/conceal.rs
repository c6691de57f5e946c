//! Error concealment of a decoder.
use vstd::prelude::*;

verus! {

/// A set of concealment methods, one bit each.
#[derive(Clone, Copy, Debug, PartialEq, Eq, Structural)]
pub struct Conceal(pub i32);

impl Conceal {
    pub fn bits(&self) -> (bits: i32)
        ensures
            bits == self.0,
    {
        self.0
    }
}

} // verus!
