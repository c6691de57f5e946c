//! The opened subtitle decoder.
use crate::codec::context::{Block, Context};
use crate::codec::decoder::decoder::Decoder;
use crate::codec::decoder::opened::Opened;
use crate::codec::packet::Packet;
use crate::util::error::{check, outcome, Error};
use crate::util::frame::{Content, Frame};
use crate::util::media;
use vstd::prelude::*;

verus! {

/// An opened decoder whose medium is subtitles, and stays so.
#[derive(Debug)]
pub struct Subtitle(Opened);

/// What a subtitle decoder holds after it was asked to take over `block`: the
/// block, where its medium is subtitles; else what it held before.
pub open spec fn refreshed(before: Block, block: Block) -> Block {
    if block.medium == media::Type::Subtitle {
        block
    } else {
        before
    }
}

impl Subtitle {
    /// The opened decoder underneath.
    pub closed spec fn opened(&self) -> Opened {
        self.0
    }

    /// What the context underneath holds.
    pub open spec fn block(&self) -> Block {
        self.opened().context()@
    }

    #[verifier::type_invariant]
    spec fn inv(&self) -> bool {
        self.0.is_of(media::Type::Subtitle)
    }

    /// An opened decoder of the subtitle medium as a subtitle decoder.
    pub(crate) fn new(opened: Opened) -> (decoder: Subtitle)
        requires
            opened.is_of(media::Type::Subtitle),
        ensures
            decoder.opened() == opened,
    {
        Subtitle(opened)
    }

    /// The medium of the decoder: subtitles, always.
    pub fn medium(&self) -> (medium: media::Type)
        ensures
            medium == media::Type::Subtitle,
            medium == self.block().medium,
    {
        proof {
            use_type_invariant(self);
        }
        self.0.as_ref().medium()
    }

    /// Takes over what the engine's block holds now, unless that would make
    /// the decoder one of another medium: then nothing changes and the
    /// request fails.
    pub fn refresh(&mut self, block: Block) -> (result: Result<(), Error>)
        ensures
            result is Ok <==> block.medium == media::Type::Subtitle,
            result is Err ==> result == Err::<(), Error>(Error::InvalidData),
            final(self).block() == refreshed(old(self).block(), block),
            final(self).opened().context().handle() == old(self).opened().context().handle(),
    {
        if block.medium == media::Type::Subtitle {
            self.0.refresh(block);
            Ok(())
        } else {
            Err(Error::InvalidData)
        }
    }

    /// Records that `packet` was sent to the engine, which answered with
    /// `code`.
    pub fn send_packet(&mut self, packet: &Packet, code: i32) -> (result: Result<(), Error>)
        ensures
            result == outcome(code),
            *final(self) == *old(self),
    {
        check(code)
    }

    /// Records that the end of the stream was signalled to the engine, which
    /// answered with `code`.
    pub fn send_eof(&mut self, code: i32) -> (result: Result<(), Error>)
        ensures
            result == outcome(code),
            *final(self) == *old(self),
    {
        check(code)
    }

    /// Records that the engine was asked for a frame, answered with `code`
    /// and left `content` in the frame handed to it.
    pub fn receive_frame(&mut self, frame: &mut Frame, code: i32, content: Content) -> (result:
        Result<(), Error>)
        requires
            !old(frame).spec_is_sentinel(),
        ensures
            result == outcome(code),
            *final(self) == *old(self),
            final(frame).spec_content() == content,
            final(frame).handle() == old(frame).handle(),
    {
        frame.refresh(content);
        check(code)
    }

    /// The opened decoder underneath, no longer held to its medium.
    pub fn into_opened(self) -> (opened: Opened)
        ensures
            opened == self.opened(),
            opened.is_of(media::Type::Subtitle),
    {
        proof {
            use_type_invariant(&self);
        }
        self.0
    }

    /// Records that the engine has closed the decoder.
    pub fn close(self) -> (decoder: Decoder)
        ensures
            decoder == self.opened().decoder(),
    {
        self.0.close()
    }

    /// The context underneath.
    pub fn as_ref(&self) -> (context: &Context)
        ensures
            *context == self.opened().context(),
    {
        self.0.as_ref()
    }
}

} // verus!
