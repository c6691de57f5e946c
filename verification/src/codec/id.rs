//! Identifiers of codecs.
use vstd::prelude::*;

verus! {

/// The number by which the engine knows a codec.
#[derive(Clone, Copy, Debug, PartialEq, Eq, Structural)]
pub struct Id(pub u32);

} // verus!
