//! The encoder before it is given a medium.
use crate::codec::context::{Block, Context};
use crate::codec::encoder::audio;
use crate::codec::encoder::subtitle;
use crate::codec::encoder::video;
use crate::util::error::Error;
use crate::util::media;
use crate::util::rational::Rational;
use vstd::prelude::*;

verus! {

/// A codec context set up for encoding.
#[derive(Debug)]
pub struct Encoder(pub Context);

/// What becomes of a context that is asked to be of `medium`: a context of
/// unknown medium takes it on, a context of that medium stays as it is, and
/// a context of any other medium refuses, since a context never changes its
/// medium.
pub open spec fn promoted(block: Block, medium: media::Type) -> Result<Block, Error> {
    if block.medium == media::Type::Unknown {
        Ok(Block { medium, ..block })
    } else if block.medium == medium {
        Ok(block)
    } else {
        Err(Error::InvalidData)
    }
}

impl Encoder {
    /// Gives the context the medium `medium` where it may have it.
    fn promote(&mut self, medium: media::Type) -> (result: Result<(), Error>)
        ensures
            final(self).0.handle() == old(self).0.handle(),
            match promoted(old(self).0@, medium) {
                Ok(block) => result is Ok && final(self).0@ == block,
                Err(error) => result == Err::<(), Error>(error) && *final(self) == *old(self),
            },
    {
        let current = self.0.medium();
        if current == media::Type::Unknown {
            let mut block = self.0.block();
            block.medium = medium;
            self.0.refresh(block);
            Ok(())
        } else if current == medium {
            Ok(())
        } else {
            Err(Error::InvalidData)
        }
    }

    /// The encoder as a video encoder: a context of unknown medium becomes a
    /// video context, a video context stays one, any other refuses and comes
    /// back as it was.
    pub fn video(self) -> (result: Result<video::Video, (Error, Encoder)>)
        ensures
            match promoted(self.0@, media::Type::Video) {
                Ok(block) => result is Ok && result->Ok_0.encoder().0@ == block
                    && result->Ok_0.encoder().0.handle() == self.0.handle(),
                Err(error) => result == Err::<video::Video, (Error, Encoder)>((error, self)),
            },
    {
        let mut encoder = self;
        match encoder.promote(media::Type::Video) {
            Ok(()) => Ok(video::Video::new(encoder)),
            Err(error) => Err((error, encoder)),
        }
    }

    /// The encoder as an audio encoder: a context of unknown medium becomes
    /// an audio context, an audio context stays one, any other refuses and
    /// comes back as it was.
    pub fn audio(self) -> (result: Result<audio::Audio, (Error, Encoder)>)
        ensures
            match promoted(self.0@, media::Type::Audio) {
                Ok(block) => result is Ok && result->Ok_0.encoder().0@ == block
                    && result->Ok_0.encoder().0.handle() == self.0.handle(),
                Err(error) => result == Err::<audio::Audio, (Error, Encoder)>((error, self)),
            },
    {
        let mut encoder = self;
        match encoder.promote(media::Type::Audio) {
            Ok(()) => Ok(audio::Audio::new(encoder)),
            Err(error) => Err((error, encoder)),
        }
    }

    /// The encoder as a subtitle encoder: a context of unknown medium becomes
    /// a subtitle context, a subtitle context stays one, any other refuses and
    /// comes back as it was.
    pub fn subtitle(self) -> (result: Result<subtitle::Subtitle, (Error, Encoder)>)
        ensures
            match promoted(self.0@, media::Type::Subtitle) {
                Ok(block) => result is Ok && result->Ok_0.encoder().0@ == block
                    && result->Ok_0.encoder().0.handle() == self.0.handle(),
                Err(error) => result == Err::<subtitle::Subtitle, (Error, Encoder)>((error, self)),
            },
    {
        let mut encoder = self;
        match encoder.promote(media::Type::Subtitle) {
            Ok(()) => Ok(subtitle::Subtitle::new(encoder)),
            Err(error) => Err((error, encoder)),
        }
    }

    /// Sets the bit rate.
    pub fn set_bit_rate(&mut self, value: usize)
        ensures
            final(self).0@ == (Block { bit_rate: value as i64, ..old(self).0@ }),
            final(self).0.handle() == old(self).0.handle(),
        no_unwind
    {
        let mut block = self.0.block();
        block.bit_rate = #[verifier::truncate]
        (value as i64);
        self.0.refresh(block);
    }

    /// Sets the highest bit rate.
    pub fn set_max_bit_rate(&mut self, value: usize)
        ensures
            final(self).0@ == (Block { rc_max_rate: value as i64, ..old(self).0@ }),
            final(self).0.handle() == old(self).0.handle(),
        no_unwind
    {
        let mut block = self.0.block();
        block.rc_max_rate = #[verifier::truncate]
        (value as i64);
        self.0.refresh(block);
    }

    /// Sets by how much the bit rate may stray.
    pub fn set_tolerance(&mut self, value: usize)
        ensures
            final(self).0@ == (Block { bit_rate_tolerance: value as i32, ..old(self).0@ }),
            final(self).0.handle() == old(self).0.handle(),
        no_unwind
    {
        let mut block = self.0.block();
        block.bit_rate_tolerance = #[verifier::truncate]
        (value as i32);
        self.0.refresh(block);
    }

    /// Sets the global quality.
    pub fn set_quality(&mut self, value: usize)
        ensures
            final(self).0@ == (Block { global_quality: value as i32, ..old(self).0@ }),
            final(self).0.handle() == old(self).0.handle(),
        no_unwind
    {
        let mut block = self.0.block();
        block.global_quality = #[verifier::truncate]
        (value as i32);
        self.0.refresh(block);
    }

    /// Sets the compression level; none is written as `-1`, the codec's own
    /// choice.
    pub fn set_compression(&mut self, value: Option<usize>)
        ensures
            final(self).0@ == (Block {
                compression_level: match value {
                    Some(level) => level as i32,
                    None => -1i32,
                },
                ..old(self).0@
            }),
            final(self).0.handle() == old(self).0.handle(),
        no_unwind
    {
        let mut block = self.0.block();
        if let Some(level) = value {
            block.compression_level = #[verifier::truncate]
            (level as i32);
        } else {
            block.compression_level = -1;
        }
        self.0.refresh(block);
    }

    /// Sets the unit of the timestamps, in seconds.
    pub fn set_time_base(&mut self, value: Rational)
        ensures
            final(self).0@ == (Block { time_base: value, ..old(self).0@ }),
            final(self).0.handle() == old(self).0.handle(),
        no_unwind
    {
        let mut block = self.0.block();
        block.time_base = value;
        self.0.refresh(block);
    }

    /// Sets the frame rate; none is written as zero over one.
    pub fn set_frame_rate(&mut self, value: Option<Rational>)
        ensures
            final(self).0@ == (Block {
                framerate: match value {
                    Some(rate) => rate,
                    None => Rational(0, 1),
                },
                ..old(self).0@
            }),
            final(self).0.handle() == old(self).0.handle(),
        no_unwind
    {
        let mut block = self.0.block();
        if let Some(rate) = value {
            block.framerate = rate;
        } else {
            block.framerate = Rational(0, 1);
        }
        self.0.refresh(block);
    }

    /// The context underneath.
    pub fn as_ref(&self) -> (context: &Context)
        ensures
            *context == self.0,
    {
        &self.0
    }

    /// The context underneath, for changing it.
    pub fn as_mut(&mut self) -> (context: &mut Context)
        ensures
            *context == old(self).0,
            final(self).0 == *final(context),
    {
        &mut self.0
    }
}

/// Giving a context a medium never changes a medium it already has: the
/// result keeps the medium asked for, or the request fails. Asking again for
/// the same medium changes nothing more.
pub proof fn lemma_promotion(block: Block, medium: media::Type)
    ensures
        promoted(block, medium) is Ok <==> block.medium == media::Type::Unknown || block.medium
            == medium,
        promoted(block, medium) is Ok ==> promoted(block, medium)->Ok_0.medium == medium,
        promoted(block, medium) is Err ==> promoted(block, medium) == Err::<Block, Error>(
            Error::InvalidData,
        ),
        promoted(block, medium) is Ok ==> promoted(promoted(block, medium)->Ok_0, medium)
            == promoted(block, medium),
        block.medium != media::Type::Unknown && promoted(block, medium) is Ok ==> promoted(
            block,
            medium,
        )->Ok_0 == block,
{
}

} // verus!
