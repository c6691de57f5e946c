//! Which frames a decoder may skip.
use vstd::prelude::*;

verus! {

#[derive(Clone, Copy, Debug, PartialEq, Eq, Structural)]
pub enum Discard {
    /// Discard nothing.
    Nothing,
    /// Discard useless packets, such as those of size zero.
    Default,
    /// Discard all frames that nothing refers to.
    NonReference,
    /// Discard all bidirectional frames.
    Bidirectional,
    /// Discard all frames but the intra-coded ones.
    NonIntra,
    /// Discard all frames but the key frames.
    NonKey,
    /// Discard everything.
    All,
}

} // verus!
