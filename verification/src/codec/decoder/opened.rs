//! The opened decoder and its streaming protocol.
use crate::codec::context::{Block, Context};
use crate::codec::decoder::audio::Audio;
use crate::codec::decoder::decoder::Decoder;
use crate::codec::decoder::subtitle::Subtitle;
use crate::codec::decoder::video::Video;
use crate::codec::packet::Packet;
use crate::util::error::{check, outcome, Error};
use crate::util::frame::{Content, Frame};
use crate::util::media;
use vstd::prelude::*;

verus! {

/// A decoder that the engine has opened.
///
/// There is no way to one but through an opening that the engine has
/// answered with success, and no way to open it again: what it holds inside
/// can be read, and refreshed from the engine, but not taken out, except by
/// closing it.
#[derive(Debug)]
pub struct Opened(Decoder);

impl Opened {
    /// The decoder that was opened.
    pub closed spec fn decoder(&self) -> Decoder {
        self.0
    }

    /// The context underneath.
    pub open spec fn context(&self) -> Context {
        self.decoder().0
    }

    /// What [`Opened::video`], [`Opened::audio`] and [`Opened::subtitle`]
    /// decide: the context has the medium asked for, or the request is
    /// refused.
    pub open spec fn is_of(&self, medium: media::Type) -> bool {
        self.context()@.medium == medium
    }

    /// The decoder as the engine has opened it.
    pub(crate) fn new(decoder: Decoder) -> (opened: Opened)
        ensures
            opened.decoder() == decoder,
    {
        Opened(decoder)
    }

    /// The opened decoder as a video decoder, if video is its medium; else it
    /// comes back as it was.
    pub fn video(self) -> (result: Result<Video, (Error, Opened)>)
        ensures
            result is Ok <==> self.is_of(media::Type::Video),
            result is Ok ==> result->Ok_0.opened() == self,
            result is Err ==> result->Err_0 == (Error::InvalidData, self),
    {
        if self.0.0.medium() == media::Type::Video {
            Ok(Video::new(self))
        } else {
            Err((Error::InvalidData, self))
        }
    }

    /// The opened decoder as an audio decoder, if audio is its medium; else it
    /// comes back as it was.
    pub fn audio(self) -> (result: Result<Audio, (Error, Opened)>)
        ensures
            result is Ok <==> self.is_of(media::Type::Audio),
            result is Ok ==> result->Ok_0.opened() == self,
            result is Err ==> result->Err_0 == (Error::InvalidData, self),
    {
        if self.0.0.medium() == media::Type::Audio {
            Ok(Audio::new(self))
        } else {
            Err((Error::InvalidData, self))
        }
    }

    /// The opened decoder as a subtitle decoder, if subtitles are its medium;
    /// else it comes back as it was.
    pub fn subtitle(self) -> (result: Result<Subtitle, (Error, Opened)>)
        ensures
            result is Ok <==> self.is_of(media::Type::Subtitle),
            result is Ok ==> result->Ok_0.opened() == self,
            result is Err ==> result->Err_0 == (Error::InvalidData, self),
    {
        if self.0.0.medium() == media::Type::Subtitle {
            Ok(Subtitle::new(self))
        } else {
            Err((Error::InvalidData, self))
        }
    }

    /// Records that `packet` was sent to the engine, which answered with
    /// `code`. `TryAgain` means that output has to be received first.
    pub fn send_packet(&mut self, packet: &Packet, code: i32) -> (result: Result<(), Error>)
        ensures
            result == outcome(code),
            *final(self) == *old(self),
    {
        check(code)
    }

    /// Records that the end of the stream was signalled to the engine, which
    /// answered with `code`. Output is still to be received until the engine
    /// reports the end.
    pub fn send_eof(&mut self, code: i32) -> (result: Result<(), Error>)
        ensures
            result == outcome(code),
            *final(self) == *old(self),
    {
        check(code)
    }

    /// Records that the engine was asked for a frame, answered with `code`
    /// and left `content` in the frame handed to it. The frame holds that
    /// content afterwards; it is a decoded frame exactly when the result is
    /// `Ok`.
    pub fn receive_frame(&mut self, frame: &mut Frame, code: i32, content: Content) -> (result:
        Result<(), Error>)
        requires
            !old(frame).spec_is_sentinel(),
        ensures
            result == outcome(code),
            *final(self) == *old(self),
            final(frame).spec_content() == content,
            final(frame).handle() == old(frame).handle(),
    {
        frame.refresh(content);
        check(code)
    }

    /// Takes over what the engine's block holds now.
    pub fn refresh(&mut self, block: Block)
        ensures
            final(self).context()@ == block,
            final(self).context().handle() == old(self).context().handle(),
        no_unwind
    {
        self.0.0.refresh(block);
    }

    /// Records that the engine has closed the decoder: it is a decoder that
    /// is not opened again, on the same context.
    pub fn close(self) -> (decoder: Decoder)
        ensures
            decoder == self.decoder(),
    {
        self.0
    }

    /// The context underneath.
    pub fn as_ref(&self) -> (context: &Context)
        ensures
            *context == self.context(),
    {
        &self.0.0
    }
}

} // verus!
