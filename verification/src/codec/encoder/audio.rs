//! The audio encoder, before and after it is opened.
use crate::codec::codec::Codec;
use crate::codec::context::{Block, Context};
use crate::codec::encoder::encoder::Encoder as Super;
use crate::codec::packet::Packet;
use crate::util::channel_layout::{ChannelLayout, ALL};
use crate::util::dictionary::Dictionary;
use crate::util::error::{check, outcome, translate, Error};
use crate::util::format::sample::Sample;
use crate::util::frame;
use crate::util::frame::Frame;
use crate::util::media;
use crate::util::rational::Rational;
use vstd::prelude::*;

verus! {

/// An encoder whose medium is audio, and stays so; not opened yet.
#[derive(Debug)]
pub struct Audio(Super);

/// An audio encoder that the engine is to open: the request for the one
/// native call that opens it, and the only way to an opened audio encoder.
///
/// It exists only where this layer has agreed to the opening, so a codec that
/// cannot encode never reaches the engine.
#[derive(Debug)]
pub struct Opening {
    audio: Audio,
    codec: Option<Codec>,
    options: Dictionary,
}

/// What the single-call encoding reports for the engine's return code and
/// its flag: the error of a negative code, else whether a packet came out.
pub open spec fn encoded(code: i32, got: i32) -> Result<bool, Error> {
    if code < 0 {
        Err(translate(code))
    } else {
        Ok(got != 0)
    }
}

/// What an audio encoder holds after it was asked to take over `block`: the
/// block, where its medium is audio; else what it held before.
pub open spec fn refreshed(before: Block, block: Block) -> Block {
    if block.medium == media::Type::Audio {
        block
    } else {
        before
    }
}

impl Opening {
    /// The encoder to be opened.
    pub closed spec fn audio(&self) -> Audio {
        self.audio
    }

    /// The codec to open with; none leaves the choice to the engine.
    pub closed spec fn spec_codec(&self) -> Option<Codec> {
        self.codec
    }

    /// The options to hand to the engine.
    pub closed spec fn spec_options(&self) -> Dictionary {
        self.options
    }

    /// Whether `result` is what the opening comes to when the engine answers
    /// with `code`: with a negative code the encoder comes back unopened,
    /// with the error that the code stands for; else it is open.
    pub open spec fn concludes(&self, code: i32, result: Result<Encoder, (Error, Audio)>) -> bool {
        if code < 0 {
            result == Err::<Encoder, (Error, Audio)>((translate(code), self.audio()))
        } else {
            result matches Ok(encoder) && encoder.audio() == self.audio()
        }
    }

    /// The codec to open with; none leaves the choice to the engine.
    #[verifier::when_used_as_spec(spec_codec)]
    pub fn codec(&self) -> (codec: Option<Codec>)
        ensures
            codec == self.spec_codec(),
    {
        self.codec
    }

    /// The options to hand to the engine.
    pub fn options(&self) -> (options: &Dictionary)
        ensures
            *options == self.spec_options(),
    {
        &self.options
    }

    /// The context to be opened.
    pub fn context(&self) -> (context: &Context)
        ensures
            *context == self.audio().encoder().0,
    {
        self.audio.as_ref()
    }

    /// Takes over what the engine's block holds now, as after the native
    /// call, unless that would change the medium of the encoder.
    pub fn refresh(&mut self, block: Block) -> (result: Result<(), Error>)
        ensures
            result is Ok <==> block.medium == media::Type::Audio,
            result is Err ==> result == Err::<(), Error>(Error::InvalidData),
            final(self).audio().block() == refreshed(old(self).audio().block(), block),
            final(self).audio().encoder().0.handle() == old(self).audio().encoder().0.handle(),
            final(self).spec_codec() == old(self).spec_codec(),
            final(self).spec_options() == old(self).spec_options(),
    {
        self.audio.refresh(block)
    }

    /// Gives the opening up before the engine was asked: the encoder and the
    /// options come back as they went in.
    pub fn abandon(self) -> (parts: (Audio, Dictionary))
        ensures
            parts.0 == self.audio(),
            parts.1 == self.spec_options(),
    {
        (self.audio, self.options)
    }

    /// Concludes the opening with the engine's return code and with the
    /// options that the engine did not consume. Those options go back to the
    /// caller whatever the code was.
    pub fn finish(self, code: i32, unconsumed: Dictionary) -> (result: (
        Result<Encoder, (Error, Audio)>,
        Dictionary,
    ))
        ensures
            self.concludes(code, result.0),
            result.1 == unconsumed,
    {
        if code < 0 {
            (Err((Error::from(code), self.audio)), unconsumed)
        } else {
            (Ok(Encoder(self.audio)), unconsumed)
        }
    }
}

impl Audio {
    /// The encoder underneath.
    pub closed spec fn encoder(&self) -> Super {
        self.0
    }

    /// What the context underneath holds.
    pub open spec fn block(&self) -> Block {
        self.encoder().0@
    }

    #[verifier::type_invariant]
    spec fn inv(&self) -> bool {
        self.0.0@.medium == media::Type::Audio
    }

    /// An encoder of the audio medium as an audio encoder.
    pub(crate) fn new(encoder: Super) -> (audio: Audio)
        requires
            encoder.0@.medium == media::Type::Audio,
        ensures
            audio.encoder() == encoder,
    {
        Audio(encoder)
    }

    /// Writes `block`, which has the medium of this encoder, into the context.
    fn store(&mut self, block: Block)
        requires
            block.medium == media::Type::Audio,
        ensures
            final(self).block() == block,
            final(self).encoder().0.handle() == old(self).encoder().0.handle(),
        no_unwind
    {
        self.0.0.refresh(block);
    }

    /// The medium of the encoder: audio, always.
    pub fn medium(&self) -> (medium: media::Type)
        ensures
            medium == media::Type::Audio,
            medium == self.block().medium,
    {
        proof {
            use_type_invariant(self);
        }
        self.0.0.medium()
    }

    /// Takes over what the engine's block holds now, unless that would make
    /// the encoder one of another medium: then nothing changes and the
    /// request fails.
    pub fn refresh(&mut self, block: Block) -> (result: Result<(), Error>)
        ensures
            result is Ok <==> block.medium == media::Type::Audio,
            result is Err ==> result == Err::<(), Error>(Error::InvalidData),
            final(self).block() == refreshed(old(self).block(), block),
            final(self).encoder().0.handle() == old(self).encoder().0.handle(),
        no_unwind
    {
        if block.medium == media::Type::Audio {
            self.store(block);
            Ok(())
        } else {
            Err(Error::InvalidData)
        }
    }

    /// Asks the engine to open the encoder with the codec of its own choice.
    pub fn open(self) -> (opening: Opening)
        ensures
            opening.audio() == self,
            opening.spec_codec() is None,
            opening.spec_options()@.len() == 0,
    {
        Opening { audio: self, codec: None, options: Dictionary::new() }
    }

    /// Asks the engine to open the encoder with `codec`. A codec that cannot
    /// encode is refused here, before the engine sees anything, and the
    /// encoder comes back as it was.
    pub fn open_as(self, codec: &Codec) -> (result: Result<Opening, (Error, Audio)>)
        ensures
            codec.encodes <==> result is Ok,
            result is Err ==> result == Err::<Opening, (Error, Audio)>(
                (Error::InvalidData, self),
            ),
            result is Ok ==> {
                &&& result->Ok_0.audio() == self
                &&& result->Ok_0.spec_codec() == Some(*codec)
                &&& result->Ok_0.spec_options()@.len() == 0
            },
    {
        if codec.is_encoder() {
            Ok(Opening { audio: self, codec: Some(*codec), options: Dictionary::new() })
        } else {
            Err((Error::InvalidData, self))
        }
    }

    /// Asks the engine to open the encoder with `codec` and `options`. A
    /// codec that cannot encode is refused here, and the encoder and the
    /// options come back untouched with the refusal.
    pub fn open_as_with(self, codec: &Codec, options: Dictionary) -> (result: Result<
        Opening,
        (Error, Audio, Dictionary),
    >)
        ensures
            codec.encodes <==> result is Ok,
            result is Err ==> result == Err::<Opening, (Error, Audio, Dictionary)>(
                (Error::InvalidData, self, options),
            ),
            result is Ok ==> {
                &&& result->Ok_0.audio() == self
                &&& result->Ok_0.spec_codec() == Some(*codec)
                &&& result->Ok_0.spec_options() == options
            },
    {
        if codec.is_encoder() {
            Ok(Opening { audio: self, codec: Some(*codec), options })
        } else {
            Err((Error::InvalidData, self, options))
        }
    }

    /// Sets the sample rate.
    pub fn set_rate(&mut self, rate: i32)
        ensures
            final(self).block() == (Block { sample_rate: rate, ..old(self).block() }),
            final(self).encoder().0.handle() == old(self).encoder().0.handle(),
    {
        proof {
            use_type_invariant(&*self);
        }
        let mut block = self.0.0.block();
        block.sample_rate = rate;
        self.store(block);
    }

    /// The sample rate.
    pub fn rate(&self) -> (rate: u32)
        ensures
            rate == self.block().sample_rate as u32,
            self.block().sample_rate >= 0 ==> rate == self.block().sample_rate,
    {
        #[verifier::truncate]
        (self.0.0.block().sample_rate as u32)
    }

    /// Sets the sample format.
    pub fn set_format(&mut self, value: Sample)
        ensures
            final(self).block() == (Block { sample_fmt: value, ..old(self).block() }),
            final(self).encoder().0.handle() == old(self).encoder().0.handle(),
    {
        proof {
            use_type_invariant(&*self);
        }
        let mut block = self.0.0.block();
        block.sample_fmt = value;
        self.store(block);
    }

    /// The sample format.
    pub fn format(&self) -> (format: Sample)
        ensures
            format == self.block().sample_fmt,
    {
        self.0.0.block().sample_fmt
    }

    /// Sets the channel layout.
    pub fn set_channel_layout(&mut self, value: ChannelLayout)
        ensures
            final(self).block() == (Block {
                channel_layout: value.spec_bits(),
                ..old(self).block()
            }),
            final(self).encoder().0.handle() == old(self).encoder().0.handle(),
    {
        proof {
            use_type_invariant(&*self);
        }
        let mut block = self.0.0.block();
        block.channel_layout = value.bits();
        self.store(block);
    }

    /// The channel layout, cut down to the channels that are known.
    pub fn channel_layout(&self) -> (layout: ChannelLayout)
        ensures
            layout.spec_bits() == self.block().channel_layout & ALL,
    {
        ChannelLayout::from_bits_truncate(self.0.0.block().channel_layout)
    }

    /// Sets the number of channels.
    pub fn set_channels(&mut self, value: i32)
        ensures
            final(self).block() == (Block { channels: value, ..old(self).block() }),
            final(self).encoder().0.handle() == old(self).encoder().0.handle(),
    {
        proof {
            use_type_invariant(&*self);
        }
        let mut block = self.0.0.block();
        block.channels = value;
        self.store(block);
    }

    /// The number of channels.
    pub fn channels(&self) -> (channels: u16)
        ensures
            channels == self.block().channels as u16,
            0 <= self.block().channels <= u16::MAX ==> channels == self.block().channels,
    {
        #[verifier::truncate]
        (self.0.0.block().channels as u16)
    }

    /// Sets the bit rate.
    pub fn set_bit_rate(&mut self, value: usize)
        ensures
            final(self).block() == (Block { bit_rate: value as i64, ..old(self).block() }),
            final(self).encoder().0.handle() == old(self).encoder().0.handle(),
    {
        proof {
            use_type_invariant(&*self);
        }
        self.0.set_bit_rate(value);
    }

    /// Sets the highest bit rate.
    pub fn set_max_bit_rate(&mut self, value: usize)
        ensures
            final(self).block() == (Block { rc_max_rate: value as i64, ..old(self).block() }),
            final(self).encoder().0.handle() == old(self).encoder().0.handle(),
    {
        proof {
            use_type_invariant(&*self);
        }
        self.0.set_max_bit_rate(value);
    }

    /// Sets by how much the bit rate may stray.
    pub fn set_tolerance(&mut self, value: usize)
        ensures
            final(self).block() == (Block {
                bit_rate_tolerance: value as i32,
                ..old(self).block()
            }),
            final(self).encoder().0.handle() == old(self).encoder().0.handle(),
    {
        proof {
            use_type_invariant(&*self);
        }
        self.0.set_tolerance(value);
    }

    /// Sets the global quality.
    pub fn set_quality(&mut self, value: usize)
        ensures
            final(self).block() == (Block { global_quality: value as i32, ..old(self).block() }),
            final(self).encoder().0.handle() == old(self).encoder().0.handle(),
    {
        proof {
            use_type_invariant(&*self);
        }
        self.0.set_quality(value);
    }

    /// Sets the compression level; none is written as `-1`, the codec's own
    /// choice.
    pub fn set_compression(&mut self, value: Option<usize>)
        ensures
            final(self).block() == (Block {
                compression_level: match value {
                    Some(level) => level as i32,
                    None => -1i32,
                },
                ..old(self).block()
            }),
            final(self).encoder().0.handle() == old(self).encoder().0.handle(),
    {
        proof {
            use_type_invariant(&*self);
        }
        self.0.set_compression(value);
    }

    /// Sets the unit of the timestamps, in seconds.
    pub fn set_time_base(&mut self, value: Rational)
        ensures
            final(self).block() == (Block { time_base: value, ..old(self).block() }),
            final(self).encoder().0.handle() == old(self).encoder().0.handle(),
    {
        proof {
            use_type_invariant(&*self);
        }
        self.0.set_time_base(value);
    }

    /// The encoder underneath, no longer held to its medium.
    pub fn into_encoder(self) -> (encoder: Super)
        ensures
            encoder == self.encoder(),
            encoder.0@.medium == media::Type::Audio,
    {
        proof {
            use_type_invariant(&self);
        }
        self.0
    }

    /// The context underneath.
    pub fn as_ref(&self) -> (context: &Context)
        ensures
            *context == self.encoder().0,
    {
        &self.0.0
    }
}

/// An audio encoder that the engine has opened.
///
/// There is no way to one but through an opening that the engine has
/// answered with success, and no way to open it again.
#[derive(Debug)]
pub struct Encoder(Audio);

impl Encoder {
    /// The audio encoder that was opened.
    pub closed spec fn audio(&self) -> Audio {
        self.0
    }

    /// Records that `frame` was sent to the engine, which answered with
    /// `code`. `TryAgain` means that packets have to be received first.
    pub fn send_frame(&mut self, frame: &Frame, code: i32) -> (result: Result<(), Error>)
        ensures
            result == outcome(code),
            *final(self) == *old(self),
    {
        check(code)
    }

    /// Records that the end of the stream was signalled to the engine, by
    /// sending it the sentinel frame, and that it answered with `code`.
    pub fn send_eof(&mut self, code: i32) -> (result: Result<(), Error>)
        ensures
            result == outcome(code),
            *final(self) == *old(self),
    {
        let sentinel = Frame::sentinel();
        self.send_frame(&sentinel, code)
    }

    /// Records that the engine was asked for a packet, answered with `code`
    /// and left `received` in the packet handed to it.
    pub fn receive_packet(&mut self, packet: &mut Packet, code: i32, received: Packet) -> (result:
        Result<(), Error>)
        ensures
            result == outcome(code),
            *final(self) == *old(self),
            *final(packet) == received,
    {
        *packet = received;
        check(code)
    }

    /// Records one call of the engine's old single-call encoding of `frame`
    /// into `out`: it answered with `code`, set its flag to `got` and left
    /// `produced` in the packet.
    pub fn encode(
        &mut self,
        frame: &frame::Audio,
        out: &mut Packet,
        code: i32,
        got: i32,
        produced: Packet,
    ) -> (result: Result<bool, Error>)
        ensures
            result == encoded(code, got),
            *final(self) == *old(self),
            *final(out) == produced,
    {
        *out = produced;
        if code < 0 {
            Err(Error::from(code))
        } else {
            Ok(got != 0)
        }
    }

    /// Records one call of the old single-call encoding with the sentinel
    /// frame, which asks the engine for what it still holds back.
    pub fn flush(&mut self, out: &mut Packet, code: i32, got: i32, produced: Packet) -> (result:
        Result<bool, Error>)
        ensures
            result == encoded(code, got),
            *final(self) == *old(self),
            *final(out) == produced,
    {
        let sentinel = frame::Audio::wrap(0, frame::Content::new());
        self.encode(&sentinel, out, code, got, produced)
    }

    /// The number of samples of each channel in one frame.
    pub fn frame_size(&self) -> (size: u32)
        ensures
            size == self.audio().block().frame_size as u32,
            self.audio().block().frame_size >= 0 ==> size == self.audio().block().frame_size,
    {
        #[verifier::truncate]
        (self.0.as_ref().block().frame_size as u32)
    }

    /// Takes over what the engine's block holds now, unless that would make
    /// the encoder one of another medium: then nothing changes and the
    /// request fails.
    pub fn refresh(&mut self, block: Block) -> (result: Result<(), Error>)
        ensures
            result is Ok <==> block.medium == media::Type::Audio,
            result is Err ==> result == Err::<(), Error>(Error::InvalidData),
            final(self).audio().block() == refreshed(old(self).audio().block(), block),
            final(self).audio().encoder().0.handle() == old(self).audio().encoder().0.handle(),
    {
        self.0.refresh(block)
    }

    /// Records that the engine has closed the encoder: it is an audio encoder
    /// that is not opened again, on the same context.
    pub fn close(self) -> (audio: Audio)
        ensures
            audio == self.audio(),
    {
        self.0
    }

    /// The context underneath.
    pub fn as_ref(&self) -> (context: &Context)
        ensures
            *context == self.audio().encoder().0,
    {
        self.0.as_ref()
    }
}

} // verus!
