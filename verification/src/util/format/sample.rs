//! Sample formats of raw audio.
use vstd::prelude::*;

verus! {

/// How the channels of a frame are laid out in memory.
#[derive(Clone, Copy, Debug, PartialEq, Eq, Structural)]
pub enum Type {
    /// One buffer, the channels interleaved sample by sample.
    Packed,
    /// One buffer for each channel.
    Planar,
}

/// The format of one audio sample and the arrangement of the channels.
#[derive(Clone, Copy, Debug, PartialEq, Eq, Structural)]
pub enum Sample {
    /// No format at all: what a frame without a buffer declares.
    Empty,
    U8(Type),
    I16(Type),
    I32(Type),
    I64(Type),
    F32(Type),
    F64(Type),
}

impl Sample {
    /// The arrangement of the channels; the empty format has none.
    pub open spec fn arrangement(self) -> Option<Type> {
        match self {
            Sample::Empty => None,
            Sample::U8(t) | Sample::I16(t) | Sample::I32(t) | Sample::I64(t) | Sample::F32(t)
            | Sample::F64(t) => Some(t),
        }
    }

    /// The same sample format in another arrangement; the empty format stays
    /// empty.
    pub open spec fn rearranged(self, arrangement: Type) -> Sample {
        match self {
            Sample::Empty => Sample::Empty,
            Sample::U8(_) => Sample::U8(arrangement),
            Sample::I16(_) => Sample::I16(arrangement),
            Sample::I32(_) => Sample::I32(arrangement),
            Sample::I64(_) => Sample::I64(arrangement),
            Sample::F32(_) => Sample::F32(arrangement),
            Sample::F64(_) => Sample::F64(arrangement),
        }
    }

    /// The number of bytes that one sample of one channel takes.
    pub open spec fn spec_bytes(&self) -> usize {
        match self {
            Sample::Empty => 0,
            Sample::U8(_) => 1,
            Sample::I16(_) => 2,
            Sample::I32(_) | Sample::F32(_) => 4,
            Sample::I64(_) | Sample::F64(_) => 8,
        }
    }

    /// Whether each channel has a buffer of its own.
    pub fn is_planar(&self) -> (planar: bool)
        ensures
            planar == (self.arrangement() == Some(Type::Planar)),
    {
        match *self {
            Sample::U8(Type::Planar)
            | Sample::I16(Type::Planar)
            | Sample::I32(Type::Planar)
            | Sample::I64(Type::Planar)
            | Sample::F32(Type::Planar)
            | Sample::F64(Type::Planar) => true,
            _ => false,
        }
    }

    /// Whether the channels are interleaved in one buffer.
    pub fn is_packed(&self) -> (packed: bool)
        ensures
            packed == (self.arrangement() == Some(Type::Packed)),
    {
        match *self {
            Sample::U8(Type::Packed)
            | Sample::I16(Type::Packed)
            | Sample::I32(Type::Packed)
            | Sample::I64(Type::Packed)
            | Sample::F32(Type::Packed)
            | Sample::F64(Type::Packed) => true,
            _ => false,
        }
    }

    /// The interleaved form of this format.
    pub fn packed(&self) -> (format: Sample)
        ensures
            format == self.rearranged(Type::Packed),
    {
        match *self {
            Sample::Empty => Sample::Empty,
            Sample::U8(_) => Sample::U8(Type::Packed),
            Sample::I16(_) => Sample::I16(Type::Packed),
            Sample::I32(_) => Sample::I32(Type::Packed),
            Sample::I64(_) => Sample::I64(Type::Packed),
            Sample::F32(_) => Sample::F32(Type::Packed),
            Sample::F64(_) => Sample::F64(Type::Packed),
        }
    }

    /// The form of this format with one buffer for each channel.
    pub fn planar(&self) -> (format: Sample)
        ensures
            format == self.rearranged(Type::Planar),
    {
        match *self {
            Sample::Empty => Sample::Empty,
            Sample::U8(_) => Sample::U8(Type::Planar),
            Sample::I16(_) => Sample::I16(Type::Planar),
            Sample::I32(_) => Sample::I32(Type::Planar),
            Sample::I64(_) => Sample::I64(Type::Planar),
            Sample::F32(_) => Sample::F32(Type::Planar),
            Sample::F64(_) => Sample::F64(Type::Planar),
        }
    }

    /// The number of bytes that one sample of one channel takes.
    #[verifier::when_used_as_spec(spec_bytes)]
    pub fn bytes(&self) -> (bytes: usize)
        ensures
            bytes == self.spec_bytes(),
    {
        match *self {
            Sample::Empty => 0,
            Sample::U8(_) => 1,
            Sample::I16(_) => 2,
            Sample::I32(_) | Sample::F32(_) => 4,
            Sample::I64(_) | Sample::F64(_) => 8,
        }
    }
}

} // verus!
