//! The opened audio decoder.
use crate::codec::audio_service::AudioService;
use crate::codec::context::{Block, Context};
use crate::codec::decoder::decoder::Decoder;
use crate::codec::decoder::opened::Opened;
use crate::codec::packet::Packet;
use crate::util::channel_layout::{ChannelLayout, ALL};
use crate::util::error::{check, outcome, translate, Error};
use crate::util::format::sample::Sample;
use crate::util::frame;
use crate::util::frame::{Content, Frame};
use crate::util::media;
use vstd::prelude::*;

verus! {

/// An opened decoder whose medium is audio, and stays so.
#[derive(Debug)]
pub struct Audio(Opened);

/// What the single-call decoding reports for the engine's return code and
/// its flag: the error of a negative code, else whether a frame came out.
pub open spec fn decoded(code: i32, got: i32) -> Result<bool, Error> {
    if code < 0 {
        Err(translate(code))
    } else {
        Ok(got != 0)
    }
}

/// What an audio decoder holds after it was asked to take over `block`: the
/// block, where its medium is audio; else what it held before.
pub open spec fn refreshed(before: Block, block: Block) -> Block {
    if block.medium == media::Type::Audio {
        block
    } else {
        before
    }
}

impl Audio {
    /// The opened decoder underneath.
    pub closed spec fn opened(&self) -> Opened {
        self.0
    }

    /// What the context underneath holds.
    pub open spec fn block(&self) -> Block {
        self.opened().context()@
    }

    #[verifier::type_invariant]
    spec fn inv(&self) -> bool {
        self.0.is_of(media::Type::Audio)
    }

    /// An opened decoder of the audio medium as an audio decoder.
    pub(crate) fn new(opened: Opened) -> (decoder: Audio)
        requires
            opened.is_of(media::Type::Audio),
        ensures
            decoder.opened() == opened,
    {
        Audio(opened)
    }

    /// Writes `block`, which has the medium of this decoder, into the context.
    fn store(&mut self, block: Block)
        requires
            block.medium == media::Type::Audio,
        ensures
            final(self).block() == block,
            final(self).opened().context().handle() == old(self).opened().context().handle(),
    {
        self.0.refresh(block);
    }

    /// The medium of the decoder: audio, always.
    pub fn medium(&self) -> (medium: media::Type)
        ensures
            medium == media::Type::Audio,
            medium == self.block().medium,
    {
        proof {
            use_type_invariant(self);
        }
        self.0.as_ref().medium()
    }

    /// Takes over what the engine's block holds now, unless that would make
    /// the decoder one of another medium: then nothing changes and the
    /// request fails.
    pub fn refresh(&mut self, block: Block) -> (result: Result<(), Error>)
        ensures
            result is Ok <==> block.medium == media::Type::Audio,
            result is Err ==> result == Err::<(), Error>(Error::InvalidData),
            final(self).block() == refreshed(old(self).block(), block),
            final(self).opened().context().handle() == old(self).opened().context().handle(),
    {
        if block.medium == media::Type::Audio {
            self.store(block);
            Ok(())
        } else {
            Err(Error::InvalidData)
        }
    }

    /// Records that `packet` was sent to the engine, which answered with
    /// `code`.
    pub fn send_packet(&mut self, packet: &Packet, code: i32) -> (result: Result<(), Error>)
        ensures
            result == outcome(code),
            *final(self) == *old(self),
    {
        check(code)
    }

    /// Records that the end of the stream was signalled to the engine, which
    /// answered with `code`.
    pub fn send_eof(&mut self, code: i32) -> (result: Result<(), Error>)
        ensures
            result == outcome(code),
            *final(self) == *old(self),
    {
        check(code)
    }

    /// Records that the engine was asked for a frame, answered with `code`
    /// and left `content` in the frame handed to it.
    pub fn receive_frame(&mut self, frame: &mut Frame, code: i32, content: Content) -> (result:
        Result<(), Error>)
        requires
            !old(frame).spec_is_sentinel(),
        ensures
            result == outcome(code),
            *final(self) == *old(self),
            final(frame).spec_content() == content,
            final(frame).handle() == old(frame).handle(),
    {
        frame.refresh(content);
        check(code)
    }

    /// Records one call of the engine's old single-call decoding of `packet`
    /// into `out`: it answered with `code`, set its flag to `got` and left
    /// `content` in the frame. Kept for old callers: one packet may yield
    /// several frames, which this call cannot say; send and receive instead.
    pub fn decode(
        &mut self,
        packet: &Packet,
        out: &mut frame::Audio,
        code: i32,
        got: i32,
        content: Content,
    ) -> (result: Result<bool, Error>)
        requires
            !old(out).spec_is_sentinel(),
        ensures
            result == decoded(code, got),
            *final(self) == *old(self),
            final(out).0.spec_content() == content,
            final(out).0.handle() == old(out).0.handle(),
    {
        out.0.refresh(content);
        if code < 0 {
            Err(Error::from(code))
        } else {
            Ok(got != 0)
        }
    }

    /// The sample rate of the decoded audio.
    pub fn rate(&self) -> (rate: u32)
        ensures
            rate == self.block().sample_rate as u32,
            self.block().sample_rate >= 0 ==> rate == self.block().sample_rate,
    {
        #[verifier::truncate]
        (self.0.as_ref().block().sample_rate as u32)
    }

    /// The number of channels.
    pub fn channels(&self) -> (channels: u16)
        ensures
            channels == self.block().channels as u16,
            0 <= self.block().channels <= u16::MAX ==> channels == self.block().channels,
    {
        #[verifier::truncate]
        (self.0.as_ref().block().channels as u16)
    }

    /// The sample format of the decoded audio.
    pub fn format(&self) -> (format: Sample)
        ensures
            format == self.block().sample_fmt,
    {
        self.0.as_ref().block().sample_fmt
    }

    /// Asks the decoder for a sample format, which it follows if it can.
    pub fn request_format(&mut self, value: Sample)
        ensures
            final(self).block() == (Block { request_sample_fmt: value, ..old(self).block() }),
            final(self).opened().context().handle() == old(self).opened().context().handle(),
    {
        proof {
            use_type_invariant(&*self);
        }
        let mut block = self.0.as_ref().block();
        block.request_sample_fmt = value;
        self.store(block);
    }

    /// The number of frames decoded so far.
    pub fn frames(&self) -> (frames: usize)
        ensures
            frames == self.block().frame_number as usize,
            self.block().frame_number >= 0 ==> frames == self.block().frame_number,
    {
        #[verifier::truncate]
        (self.0.as_ref().block().frame_number as usize)
    }

    /// The number of bytes in a packet, where the codec fixes it.
    pub fn align(&self) -> (align: usize)
        ensures
            align == self.block().block_align as usize,
            self.block().block_align >= 0 ==> align == self.block().block_align,
    {
        #[verifier::truncate]
        (self.0.as_ref().block().block_align as usize)
    }

    /// The channel layout, cut down to the channels that are known.
    pub fn channel_layout(&self) -> (layout: ChannelLayout)
        ensures
            layout.spec_bits() == self.block().channel_layout & ALL,
    {
        ChannelLayout::from_bits_truncate(self.0.as_ref().block().channel_layout)
    }

    /// Sets the channel layout.
    pub fn set_channel_layout(&mut self, value: ChannelLayout)
        ensures
            final(self).block() == (Block {
                channel_layout: value.spec_bits(),
                ..old(self).block()
            }),
            final(self).opened().context().handle() == old(self).opened().context().handle(),
    {
        proof {
            use_type_invariant(&*self);
        }
        let mut block = self.0.as_ref().block();
        block.channel_layout = value.bits();
        self.store(block);
    }

    /// Asks the decoder for a channel layout, which it follows if it can.
    pub fn request_channel_layout(&mut self, value: ChannelLayout)
        ensures
            final(self).block() == (Block {
                request_channel_layout: value.spec_bits(),
                ..old(self).block()
            }),
            final(self).opened().context().handle() == old(self).opened().context().handle(),
    {
        proof {
            use_type_invariant(&*self);
        }
        let mut block = self.0.as_ref().block();
        block.request_channel_layout = value.bits();
        self.store(block);
    }

    /// The service that the audio renders, as the codec set it.
    pub fn audio_service(&mut self) -> (service: AudioService)
        ensures
            service == old(self).block().audio_service_type,
            *final(self) == *old(self),
    {
        self.0.as_ref().block().audio_service_type
    }

    /// The highest bit rate.
    pub fn max_bit_rate(&self) -> (rate: usize)
        ensures
            rate == self.block().rc_max_rate as usize,
            0 <= self.block().rc_max_rate <= usize::MAX ==> rate == self.block().rc_max_rate,
    {
        #[verifier::truncate]
        (self.0.as_ref().block().rc_max_rate as usize)
    }

    /// The number of samples of each channel in one frame.
    pub fn frame_size(&self) -> (size: u32)
        ensures
            size == self.block().frame_size as u32,
            self.block().frame_size >= 0 ==> size == self.block().frame_size,
    {
        #[verifier::truncate]
        (self.0.as_ref().block().frame_size as u32)
    }

    /// The frame at which the timecode starts; the engine writes `-1` where
    /// there is none.
    pub fn frame_start(&self) -> (start: Option<usize>)
        ensures
            start == if self.block().timecode_frame_start == -1 {
                None::<usize>
            } else {
                Some(self.block().timecode_frame_start as usize)
            },
    {
        let start = self.0.as_ref().block().timecode_frame_start;
        if start == -1 {
            None
        } else {
            Some(
                #[verifier::truncate]
                (start as usize),
            )
        }
    }

    /// The opened decoder underneath, no longer held to its medium.
    pub fn into_opened(self) -> (opened: Opened)
        ensures
            opened == self.opened(),
            opened.is_of(media::Type::Audio),
    {
        proof {
            use_type_invariant(&self);
        }
        self.0
    }

    /// Records that the engine has closed the decoder.
    pub fn close(self) -> (decoder: Decoder)
        ensures
            decoder == self.opened().decoder(),
    {
        self.0.close()
    }

    /// The context underneath.
    pub fn as_ref(&self) -> (context: &Context)
        ensures
            *context == self.opened().context(),
    {
        self.0.as_ref()
    }
}

} // verus!
