//! How a codec spreads its work over threads.
use vstd::prelude::*;

verus! {

/// The method of multithreading.
#[derive(Clone, Copy, Debug, PartialEq, Eq, Structural)]
pub enum Type {
    /// No multithreading.
    Off,
    /// Several frames at a time.
    Frame,
    /// Several slices of one frame at a time.
    Slice,
}

/// The threading configuration of a codec context.
#[derive(Clone, Copy, Debug, PartialEq, Eq, Structural)]
pub struct Config {
    pub kind: Type,
    pub count: usize,
    pub safe: bool,
}

} // verus!
