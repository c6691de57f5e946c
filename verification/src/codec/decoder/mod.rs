//! Decoders: codec contexts set up to turn packets into frames.
//!
//! A decoder moves through its states by value. A [`Decoder`] is not opened
//! yet. Asking for it to be opened gives an opening, which holds the request
//! for the engine; the engine's answer ends the opening in an [`Opened`]
//! decoder or hands the unopened decoder back. An opened decoder takes
//! packets and gives frames. It can become an [`Audio`], [`Video`] or
//! [`Subtitle`] decoder if that is the medium of its context, and such a
//! decoder keeps its medium for good. Closing gives the unopened decoder
//! back. No state can be skipped and none can be entered twice at once: each
//! step consumes the value of the state before.
pub mod decoder;
pub use self::decoder::Decoder;

pub mod video;
pub use self::video::Video;

pub mod audio;
pub use self::audio::Audio;

pub mod subtitle;
pub use self::subtitle::Subtitle;

pub mod conceal;
pub use self::conceal::Conceal;

pub mod check;
pub use self::check::Check;

pub mod opened;
pub use self::opened::Opened;

use crate::codec::context::{Block, Context};
use crate::util::handle::Ownership;
use vstd::prelude::*;

verus! {

/// A decoder on a context of its own, on the block that the engine has just
/// allocated at `address` and filled as `block` describes.
pub fn new(address: usize, block: Block) -> (decoder: Decoder)
    ensures
        decoder.0@ == block,
        decoder.0.handle().spec_address() == address,
        decoder.0.handle().spec_ownership() == Ownership::Owned,
{
    Context::new(address, block).decoder()
}

} // verus!
