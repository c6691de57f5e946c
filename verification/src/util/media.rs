//! The kinds of media a stream or a codec context can carry.
use vstd::prelude::*;

verus! {

/// The medium of a stream, a codec or a codec context.
#[derive(Clone, Copy, Debug, PartialEq, Eq, Structural)]
pub enum Type {
    Unknown,
    Video,
    Audio,
    Data,
    Subtitle,
    Attachment,
}

} // verus!
