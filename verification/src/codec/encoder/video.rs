//! The video encoder.
use crate::codec::context::{Block, Context};
use crate::codec::encoder::encoder::Encoder;
use crate::util::error::Error;
use crate::util::media;
use vstd::prelude::*;

verus! {

/// An encoder whose medium is video, and stays so.
#[derive(Debug)]
pub struct Video(Encoder);

/// What a video encoder holds after it was asked to take over `block`: the
/// block, where its medium is video; else what it held before.
pub open spec fn refreshed(before: Block, block: Block) -> Block {
    if block.medium == media::Type::Video {
        block
    } else {
        before
    }
}

impl Video {
    /// The encoder underneath.
    pub closed spec fn encoder(&self) -> Encoder {
        self.0
    }

    #[verifier::type_invariant]
    spec fn inv(&self) -> bool {
        self.0.0@.medium == media::Type::Video
    }

    /// An encoder of the video medium as a video encoder.
    pub(crate) fn new(encoder: Encoder) -> (typed: Video)
        requires
            encoder.0@.medium == media::Type::Video,
        ensures
            typed.encoder() == encoder,
    {
        Video(encoder)
    }

    /// The medium of the encoder: video, always.
    pub fn medium(&self) -> (medium: media::Type)
        ensures
            medium == media::Type::Video,
            medium == self.encoder().0@.medium,
    {
        proof {
            use_type_invariant(self);
        }
        self.0.0.medium()
    }

    /// Takes over what the engine's block holds now, unless that would make
    /// the encoder one of another medium: then nothing changes and the
    /// request fails.
    pub fn refresh(&mut self, block: Block) -> (result: Result<(), Error>)
        ensures
            result is Ok <==> block.medium == media::Type::Video,
            result is Err ==> result == Err::<(), Error>(Error::InvalidData),
            final(self).encoder().0@ == refreshed(old(self).encoder().0@, block),
            final(self).encoder().0.handle() == old(self).encoder().0.handle(),
    {
        if block.medium == media::Type::Video {
            self.0.0.refresh(block);
            Ok(())
        } else {
            Err(Error::InvalidData)
        }
    }

    /// The encoder underneath, no longer held to its medium.
    pub fn into_encoder(self) -> (encoder: Encoder)
        ensures
            encoder == self.encoder(),
            encoder.0@.medium == media::Type::Video,
    {
        proof {
            use_type_invariant(&self);
        }
        self.0
    }

    /// The context underneath.
    pub fn as_ref(&self) -> (context: &Context)
        ensures
            *context == self.encoder().0,
    {
        &self.0.0
    }
}

} // verus!
