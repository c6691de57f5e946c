//! The codec context: the per-stream coding state that the engine keeps.
use crate::codec::audio_service::AudioService;
use crate::codec::codec::Codec;
use crate::codec::compliance::Compliance;
use crate::codec::decoder::decoder::Decoder;
use crate::codec::discard::Discard;
use crate::codec::encoder::encoder::Encoder;
use crate::codec::flag::Flags;
use crate::codec::id::Id;
use crate::codec::parameters::Parameters;
use crate::codec::threading;
use crate::util::error::{check, outcome, Error};
use crate::util::format::sample::Sample;
use crate::util::handle::{Handle, Owner, Ownership, Release};
use crate::util::media;
use crate::util::rational::Rational;
use vstd::prelude::*;

verus! {

/// The fields of the engine's context block that this layer reads or writes,
/// as plain values.
#[derive(Clone, Copy, Debug, PartialEq, Eq)]
pub struct Block {
    pub codec: Option<Codec>,
    pub medium: media::Type,
    pub id: Id,
    pub flags: i32,
    pub compliance: Compliance,
    pub debug: i32,
    pub thread_type: threading::Type,
    pub active_thread_type: threading::Type,
    pub thread_count: i32,
    pub thread_safe_callbacks: i32,
    pub error_concealment: i32,
    pub err_recognition: i32,
    pub skip_loop_filter: Discard,
    pub skip_idct: Discard,
    pub skip_frame: Discard,
    pub time_base: Rational,
    pub framerate: Rational,
    pub sample_rate: i32,
    pub channels: i32,
    pub sample_fmt: Sample,
    pub request_sample_fmt: Sample,
    pub frame_number: i32,
    pub block_align: i32,
    pub channel_layout: u64,
    pub request_channel_layout: u64,
    pub audio_service_type: AudioService,
    pub bit_rate: i64,
    pub rc_max_rate: i64,
    pub bit_rate_tolerance: i32,
    pub global_quality: i32,
    pub compression_level: i32,
    pub frame_size: i32,
    pub timecode_frame_start: i64,
}

impl Block {
    /// The block that says nothing yet.
    pub open spec fn blank() -> Block {
        Block {
            codec: None,
            medium: media::Type::Unknown,
            id: Id(0),
            flags: 0,
            compliance: Compliance::Normal,
            debug: 0,
            thread_type: threading::Type::Off,
            active_thread_type: threading::Type::Off,
            thread_count: 0,
            thread_safe_callbacks: 0,
            error_concealment: 0,
            err_recognition: 0,
            skip_loop_filter: Discard::Default,
            skip_idct: Discard::Default,
            skip_frame: Discard::Default,
            time_base: Rational(0, 1),
            framerate: Rational(0, 1),
            sample_rate: 0,
            channels: 0,
            sample_fmt: Sample::Empty,
            request_sample_fmt: Sample::Empty,
            frame_number: 0,
            block_align: 0,
            channel_layout: 0,
            request_channel_layout: 0,
            audio_service_type: AudioService::Main,
            bit_rate: 0,
            rc_max_rate: 0,
            bit_rate_tolerance: 0,
            global_quality: 0,
            compression_level: 0,
            frame_size: 0,
            timecode_frame_start: 0,
        }
    }

    /// A block that says nothing yet: no codec, an unknown medium, no sample
    /// format, every number zero. A starting point to fill in, not what the
    /// engine puts into a context it allocates.
    pub fn new() -> (block: Block)
        ensures
            block == Block::blank(),
    {
        Block {
            codec: None,
            medium: media::Type::Unknown,
            id: Id(0),
            flags: 0,
            compliance: Compliance::Normal,
            debug: 0,
            thread_type: threading::Type::Off,
            active_thread_type: threading::Type::Off,
            thread_count: 0,
            thread_safe_callbacks: 0,
            error_concealment: 0,
            err_recognition: 0,
            skip_loop_filter: Discard::Default,
            skip_idct: Discard::Default,
            skip_frame: Discard::Default,
            time_base: Rational(0, 1),
            framerate: Rational(0, 1),
            sample_rate: 0,
            channels: 0,
            sample_fmt: Sample::Empty,
            request_sample_fmt: Sample::Empty,
            frame_number: 0,
            block_align: 0,
            channel_layout: 0,
            request_channel_layout: 0,
            audio_service_type: AudioService::Main,
            bit_rate: 0,
            rc_max_rate: 0,
            bit_rate_tolerance: 0,
            global_quality: 0,
            compression_level: 0,
            frame_size: 0,
            timecode_frame_start: 0,
        }
    }
}

/// What a context holds after a parameter set was copied into it with the
/// given return code: on success the codec and the medium of the parameter
/// set, on failure what it held before.
pub open spec fn with_parameters(block: Block, parameters: Parameters, code: i32) -> Block {
    if code < 0 {
        block
    } else {
        Block { medium: parameters.medium, id: parameters.id, ..block }
    }
}

/// The codec context.
#[derive(Debug)]
pub struct Context {
    handle: Handle,
    block: Block,
}

impl View for Context {
    type V = Block;

    closed spec fn view(&self) -> Block {
        self.block
    }
}

impl Context {
    /// The handle on the engine's block.
    pub closed spec fn handle(&self) -> Handle {
        self.handle
    }

    /// A context on the block at `address` that the engine holds as `block`
    /// describes. With an owner's token the context shares the block and never
    /// releases it; without one it owns the block.
    pub fn wrap(address: usize, owner: Option<Owner>, block: Block) -> (context: Context)
        ensures
            context@ == block,
            context.handle().spec_address() == address,
            context.handle().spec_ownership() == match owner {
                Some(token) => Ownership::Shared(token),
                None => Ownership::Owned,
            },
    {
        Context { handle: Handle::wrap(address, owner), block }
    }

    /// The address of the engine's block.
    pub fn as_ptr(&self) -> (address: usize)
        ensures
            address == self.handle().spec_address(),
    {
        self.handle.address()
    }

    /// The address of the engine's block, for a call that changes it.
    pub fn as_mut_ptr(&mut self) -> (address: usize)
        ensures
            address == old(self).handle().spec_address(),
            *final(self) == *old(self),
    {
        self.handle.address()
    }

    /// A context of its own on the block that the engine has just allocated at
    /// `address` and filled as `block` describes. Always owning.
    pub fn new(address: usize, block: Block) -> (context: Context)
        ensures
            context@ == block,
            context.handle().spec_address() == address,
            context.handle().spec_ownership() == Ownership::Owned,
    {
        Context { handle: Handle::owned(address), block }
    }

    /// What the context holds, to be written into the engine's block.
    pub fn block(&self) -> (block: Block)
        ensures
            block == self@,
        no_unwind
    {
        self.block
    }

    /// Takes over what the engine's block holds now.
    pub fn refresh(&mut self, block: Block)
        ensures
            final(self)@ == block,
            final(self).handle() == old(self).handle(),
        no_unwind
    {
        self.block = block;
    }

    /// Who is responsible for the engine's block.
    pub fn ownership(&self) -> (ownership: Ownership)
        ensures
            ownership == self.handle().spec_ownership(),
    {
        self.handle.ownership()
    }

    /// Gives the context up and says what is to be done with the engine's
    /// block: freed if this context owned it, left alone if it was shared.
    pub fn release(self) -> (release: Release)
        ensures
            release == self.handle().spec_release(),
    {
        self.handle.release()
    }

    /// Turns the context into a decoder, not opened yet.
    pub fn decoder(self) -> (decoder: Decoder)
        ensures
            decoder.0 == self,
    {
        Decoder(self)
    }

    /// Turns the context into an encoder, not opened yet.
    pub fn encoder(self) -> (encoder: Encoder)
        ensures
            encoder.0 == self,
    {
        Encoder(self)
    }

    /// The codec that the context is bound to, if it is bound to one.
    pub fn codec(&self) -> (codec: Option<Codec>)
        ensures
            codec == self@.codec,
    {
        self.block.codec
    }

    /// The medium that the context works on.
    pub fn medium(&self) -> (medium: media::Type)
        ensures
            medium == self@.medium,
    {
        self.block.medium
    }

    /// Replaces the flags of the context.
    pub fn set_flags(&mut self, value: Flags)
        ensures
            final(self)@ == (Block { flags: value.0 as i32, ..old(self)@ }),
            final(self).handle() == old(self).handle(),
    {
        self.block.flags = #[verifier::truncate]
        (value.bits() as i32);
    }

    /// The codec that the context is for.
    pub fn id(&self) -> (id: Id)
        ensures
            id == self@.id,
    {
        self.block.id
    }

    /// Sets how strictly the codec has to follow its standard.
    pub fn compliance(&mut self, value: Compliance)
        ensures
            final(self)@ == (Block { compliance: value, ..old(self)@ }),
            final(self).handle() == old(self).handle(),
    {
        self.block.compliance = value;
    }

    /// Replaces the debug flags.
    pub fn debug(&mut self, value: crate::codec::debug::Debug)
        ensures
            final(self)@ == (Block { debug: value.0, ..old(self)@ }),
            final(self).handle() == old(self).handle(),
    {
        self.block.debug = value.bits();
    }

    /// Sets the threading configuration.
    pub fn set_threading(&mut self, config: threading::Config)
        ensures
            final(self)@ == (Block {
                thread_type: config.kind,
                thread_count: config.count as i32,
                thread_safe_callbacks: if config.safe {
                    1i32
                } else {
                    0i32
                },
                ..old(self)@
            }),
            final(self).handle() == old(self).handle(),
    {
        self.block.thread_type = config.kind;
        self.block.thread_count = #[verifier::truncate]
        (config.count as i32);
        self.block.thread_safe_callbacks = if config.safe {
            1
        } else {
            0
        };
    }

    /// The threading configuration in force: the kind that the engine has
    /// made active, not the one that was asked for.
    pub fn threading(&self) -> (config: threading::Config)
        ensures
            config == (threading::Config {
                kind: self@.active_thread_type,
                count: self@.thread_count as usize,
                safe: self@.thread_safe_callbacks != 0,
            }),
    {
        threading::Config {
            kind: self.block.active_thread_type,
            count: #[verifier::truncate]
            (self.block.thread_count as usize),
            safe: self.block.thread_safe_callbacks != 0,
        }
    }

    /// Records that the engine was asked to copy `parameters` into its block
    /// and answered with `code`. A negative code is returned as the error it
    /// stands for. After a success the context reads back the codec and the
    /// medium of the parameter set.
    pub fn set_parameters(&mut self, parameters: Parameters, code: i32) -> (result: Result<
        (),
        Error,
    >)
        ensures
            result == outcome(code),
            final(self)@ == with_parameters(old(self)@, parameters, code),
            final(self).handle() == old(self).handle(),
    {
        let result = check(code);
        if result.is_ok() {
            self.block.medium = parameters.medium();
            self.block.id = parameters.id();
        }
        result
    }

    /// A context of its own on the block that the engine has just allocated at
    /// `address`, holding what this one holds.
    pub fn clone_to(&self, address: usize) -> (context: Context)
        ensures
            context@ == self@,
            context.handle().spec_address() == address,
            context.handle().spec_ownership() == Ownership::Owned,
    {
        let mut context = Context::new(address, self.block);
        context.clone_from(self);
        context
    }

    /// Takes over what `source` holds. The handle stays as it was.
    pub fn clone_from(&mut self, source: &Context)
        ensures
            final(self)@ == source@,
            final(self).handle() == old(self).handle(),
    {
        self.block = source.block;
    }
}

/// After a parameter set was copied into a context with success, the context
/// reads back the codec and the medium of the parameter set, whatever it held
/// before; after a failure it holds what it held before.
pub proof fn lemma_parameters_read_back(block: Block, parameters: Parameters, code: i32)
    ensures
        code >= 0 ==> with_parameters(block, parameters, code).id == parameters.id,
        code >= 0 ==> with_parameters(block, parameters, code).medium == parameters.medium,
        code < 0 ==> with_parameters(block, parameters, code) == block,
        outcome(code) is Ok <==> code >= 0,
{
}

} // verus!
