use ffmpeg_next::util::channel_layout::{
    ChannelLayout, ALL, BACK_CENTER, BACK_LEFT, BACK_RIGHT, FRONT_CENTER, FRONT_LEFT,
    FRONT_LEFT_OF_CENTER, FRONT_RIGHT, FRONT_RIGHT_OF_CENTER, LOW_FREQUENCY, LOW_FREQUENCY_2,
    MONO, NATIVE, SIDE_LEFT, SIDE_RIGHT, STEREO, STEREO_LEFT, STEREO_RIGHT, SURROUND_DIRECT_LEFT,
    SURROUND_DIRECT_RIGHT, TOP_BACK_CENTER, TOP_BACK_LEFT, TOP_BACK_RIGHT, TOP_CENTER,
    TOP_FRONT_CENTER, TOP_FRONT_LEFT, TOP_FRONT_RIGHT, WIDE_LEFT, WIDE_RIGHT,
};
use ffmpeg_next::util::format::sample::{Sample, Type};
use ffmpeg_next::util::range::Range;
use ffmpeg_next::Rational;

#[test]
fn all_is_every_channel_and_the_marker() {
    let channels = [
        FRONT_LEFT,
        FRONT_RIGHT,
        FRONT_CENTER,
        LOW_FREQUENCY,
        BACK_LEFT,
        BACK_RIGHT,
        FRONT_LEFT_OF_CENTER,
        FRONT_RIGHT_OF_CENTER,
        BACK_CENTER,
        SIDE_LEFT,
        SIDE_RIGHT,
        TOP_CENTER,
        TOP_FRONT_LEFT,
        TOP_FRONT_CENTER,
        TOP_FRONT_RIGHT,
        TOP_BACK_LEFT,
        TOP_BACK_CENTER,
        TOP_BACK_RIGHT,
        STEREO_LEFT,
        STEREO_RIGHT,
        WIDE_LEFT,
        WIDE_RIGHT,
        SURROUND_DIRECT_LEFT,
        SURROUND_DIRECT_RIGHT,
        LOW_FREQUENCY_2,
        NATIVE,
    ];
    let mut union = 0u64;
    for channel in channels {
        assert_eq!(channel.count_ones(), 1);
        assert_eq!(union & channel, 0);
        union |= channel;
    }
    assert_eq!(union, ALL);
    assert_eq!(ALL, 0x8000_000F_E003_FFFF);
    assert_eq!(MONO, FRONT_CENTER);
    assert_eq!(STEREO, FRONT_LEFT | FRONT_RIGHT);
}

#[test]
fn truncation_drops_unknown_bits() {
    assert_eq!(ChannelLayout::from_bits_truncate(0).bits(), 0);
    assert_eq!(ChannelLayout::from_bits_truncate(STEREO).bits(), STEREO);
    assert_eq!(ChannelLayout::from_bits_truncate(STEREO | 0x0004_0000).bits(), STEREO);
    assert_eq!(ChannelLayout::from_bits_truncate(u64::MAX).bits(), ALL);
    assert_eq!(ChannelLayout::from_bits_truncate(!ALL).bits(), 0);
    assert!(ChannelLayout::from_bits_truncate(!ALL).is_empty());
    assert!(ChannelLayout::empty().is_empty());
}

#[test]
fn sample_formats_know_their_arrangement() {
    let packed = [
        Sample::U8(Type::Packed),
        Sample::I16(Type::Packed),
        Sample::I32(Type::Packed),
        Sample::I64(Type::Packed),
        Sample::F32(Type::Packed),
        Sample::F64(Type::Packed),
    ];
    let planar = [
        Sample::U8(Type::Planar),
        Sample::I16(Type::Planar),
        Sample::I32(Type::Planar),
        Sample::I64(Type::Planar),
        Sample::F32(Type::Planar),
        Sample::F64(Type::Planar),
    ];
    for index in 0..6 {
        assert!(packed[index].is_packed());
        assert!(!packed[index].is_planar());
        assert!(planar[index].is_planar());
        assert!(!planar[index].is_packed());
        assert_eq!(packed[index].planar(), planar[index]);
        assert_eq!(planar[index].packed(), packed[index]);
        assert_eq!(packed[index].packed(), packed[index]);
        assert_eq!(planar[index].planar(), planar[index]);
        assert_eq!(packed[index].bytes(), planar[index].bytes());
    }
    assert!(!Sample::Empty.is_packed());
    assert!(!Sample::Empty.is_planar());
    assert_eq!(Sample::Empty.packed(), Sample::Empty);
    assert_eq!(Sample::Empty.planar(), Sample::Empty);
}

#[test]
fn sample_formats_know_their_width() {
    assert_eq!(Sample::Empty.bytes(), 0);
    assert_eq!(Sample::U8(Type::Packed).bytes(), 1);
    assert_eq!(Sample::I16(Type::Planar).bytes(), 2);
    assert_eq!(Sample::I32(Type::Packed).bytes(), 4);
    assert_eq!(Sample::F32(Type::Planar).bytes(), 4);
    assert_eq!(Sample::I64(Type::Packed).bytes(), 8);
    assert_eq!(Sample::F64(Type::Planar).bytes(), 8);
}

#[test]
fn ranges_give_their_bounds() {
    let closed = 3i64..9i64;
    assert_eq!(Range::start(&closed), Some(&3));
    assert_eq!(Range::end(&closed), Some(&9));
    let from: (Option<i64>, Option<i64>) = (Some(3), None);
    assert_eq!(from.start(), Some(&3));
    assert_eq!(from.end(), None);
    let to: (Option<i64>, Option<i64>) = (None, Some(9));
    assert_eq!(to.start(), None);
    assert_eq!(to.end(), Some(&9));
    let full: (Option<i64>, Option<i64>) = (None, None);
    assert_eq!(full.start(), None);
    assert_eq!(full.end(), None);
}

#[test]
fn a_rational_is_kept_as_given() {
    let rational = Rational::new(30000, 1001);
    assert_eq!(rational.numerator(), 30000);
    assert_eq!(rational.denominator(), 1001);
    assert_eq!(Rational::from((2, 4)), Rational(2, 4));
    assert_ne!(Rational(2, 4), Rational(1, 2));
    assert_eq!(Rational::new(1, 0).denominator(), 0);
}
