//! Channel layouts: which speakers the channels of an audio stream feed.
use vstd::prelude::*;

verus! {

pub const FRONT_LEFT: u64 = 0x0000_0001;

pub const FRONT_RIGHT: u64 = 0x0000_0002;

pub const FRONT_CENTER: u64 = 0x0000_0004;

pub const LOW_FREQUENCY: u64 = 0x0000_0008;

pub const BACK_LEFT: u64 = 0x0000_0010;

pub const BACK_RIGHT: u64 = 0x0000_0020;

pub const FRONT_LEFT_OF_CENTER: u64 = 0x0000_0040;

pub const FRONT_RIGHT_OF_CENTER: u64 = 0x0000_0080;

pub const BACK_CENTER: u64 = 0x0000_0100;

pub const SIDE_LEFT: u64 = 0x0000_0200;

pub const SIDE_RIGHT: u64 = 0x0000_0400;

pub const TOP_CENTER: u64 = 0x0000_0800;

pub const TOP_FRONT_LEFT: u64 = 0x0000_1000;

pub const TOP_FRONT_CENTER: u64 = 0x0000_2000;

pub const TOP_FRONT_RIGHT: u64 = 0x0000_4000;

pub const TOP_BACK_LEFT: u64 = 0x0000_8000;

pub const TOP_BACK_CENTER: u64 = 0x0001_0000;

pub const TOP_BACK_RIGHT: u64 = 0x0002_0000;

pub const STEREO_LEFT: u64 = 0x2000_0000;

pub const STEREO_RIGHT: u64 = 0x4000_0000;

pub const WIDE_LEFT: u64 = 0x0000_0000_8000_0000;

pub const WIDE_RIGHT: u64 = 0x0000_0001_0000_0000;

pub const SURROUND_DIRECT_LEFT: u64 = 0x0000_0002_0000_0000;

pub const SURROUND_DIRECT_RIGHT: u64 = 0x0000_0004_0000_0000;

pub const LOW_FREQUENCY_2: u64 = 0x0000_0008_0000_0000;

/// Marks a request for whatever order of channels the codec uses natively.
pub const NATIVE: u64 = 0x8000_0000_0000_0000;

pub const MONO: u64 = 0x0000_0004;

pub const STEREO: u64 = 0x0000_0003;

/// Every bit that names a channel, and the marker [`NATIVE`].
pub const ALL: u64 = 0x8000_000F_E003_FFFF;

/// A set of channels, one bit each.
#[derive(Clone, Copy, Debug, PartialEq, Eq, Structural)]
pub struct ChannelLayout {
    bits: u64,
}

impl ChannelLayout {
    pub closed spec fn spec_bits(&self) -> u64 {
        self.bits
    }

    /// The layout with no channel.
    pub fn empty() -> (layout: ChannelLayout)
        ensures
            layout.spec_bits() == 0,
    {
        ChannelLayout { bits: 0 }
    }

    /// The layout made of the known bits of `bits`; the others are dropped.
    pub fn from_bits_truncate(bits: u64) -> (layout: ChannelLayout)
        ensures
            layout.spec_bits() == bits & ALL,
    {
        ChannelLayout { bits: bits & ALL }
    }

    #[verifier::when_used_as_spec(spec_bits)]
    pub fn bits(&self) -> (bits: u64)
        ensures
            bits == self.spec_bits(),
    {
        self.bits
    }

    pub fn is_empty(&self) -> (empty: bool)
        ensures
            empty == (self.spec_bits() == 0),
    {
        self.bits == 0
    }
}

/// The mask of all layouts is made of the single channels and the marker.
pub proof fn lemma_all_is_every_channel()
    ensures
        ALL == FRONT_LEFT | FRONT_RIGHT | FRONT_CENTER | LOW_FREQUENCY | BACK_LEFT | BACK_RIGHT
            | FRONT_LEFT_OF_CENTER | FRONT_RIGHT_OF_CENTER | BACK_CENTER | SIDE_LEFT | SIDE_RIGHT
            | TOP_CENTER | TOP_FRONT_LEFT | TOP_FRONT_CENTER | TOP_FRONT_RIGHT | TOP_BACK_LEFT
            | TOP_BACK_CENTER | TOP_BACK_RIGHT | STEREO_LEFT | STEREO_RIGHT | WIDE_LEFT | WIDE_RIGHT
            | SURROUND_DIRECT_LEFT | SURROUND_DIRECT_RIGHT | LOW_FREQUENCY_2 | NATIVE,
        MONO == FRONT_CENTER,
        STEREO == FRONT_LEFT | FRONT_RIGHT,
{
    assert(0x8000_000F_E003_FFFFu64 == 0x1u64 | 0x2u64 | 0x4u64 | 0x8u64 | 0x10u64 | 0x20u64
        | 0x40u64 | 0x80u64 | 0x100u64 | 0x200u64 | 0x400u64 | 0x800u64 | 0x1000u64 | 0x2000u64
        | 0x4000u64 | 0x8000u64 | 0x1_0000u64 | 0x2_0000u64 | 0x2000_0000u64 | 0x4000_0000u64
        | 0x8000_0000u64 | 0x1_0000_0000u64 | 0x2_0000_0000u64 | 0x4_0000_0000u64
        | 0x8_0000_0000u64 | 0x8000_0000_0000_0000u64) by (bit_vector);
    assert(0x3u64 == 0x1u64 | 0x2u64) by (bit_vector);
}

/// Truncating keeps a layout that is made of known bits as it is, and
/// truncating twice changes nothing more.
pub proof fn lemma_truncate(bits: u64)
    ensures
        (bits & ALL) & ALL == bits & ALL,
        bits & !ALL == 0 ==> bits & ALL == bits,
        (bits & ALL) & !ALL == 0,
{
    assert((bits & 0x8000_000F_E003_FFFFu64) & 0x8000_000F_E003_FFFFu64 == bits
        & 0x8000_000F_E003_FFFFu64) by (bit_vector);
    assert(bits & !0x8000_000F_E003_FFFFu64 == 0 ==> bits & 0x8000_000F_E003_FFFFu64 == bits)
        by (bit_vector);
    assert((bits & 0x8000_000F_E003_FFFFu64) & !0x8000_000F_E003_FFFFu64 == 0) by (bit_vector);
}

} // verus!
