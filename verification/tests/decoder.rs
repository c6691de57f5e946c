use ffmpeg_next::codec::context::{Block, Context};
use ffmpeg_next::codec::decoder::decoder::Failed;
use ffmpeg_next::codec::decoder::{self, Check, Conceal, Decoder};
use ffmpeg_next::codec::id::Id;
use ffmpeg_next::Codec;
use ffmpeg_next::util::channel_layout::{ChannelLayout, NATIVE, STEREO};
use ffmpeg_next::util::error::{
    Error, AVERROR_EAGAIN, AVERROR_EOF, AVERROR_INVALIDDATA,
};
use ffmpeg_next::util::format::sample::{Sample, Type};
use ffmpeg_next::util::frame::{self, Content, Frame};
use ffmpeg_next::util::handle::Ownership;
use ffmpeg_next::util::media;
use ffmpeg_next::{AudioService, Dictionary, Discard, Packet, Rational};

fn block_of(medium: media::Type) -> Block {
    let mut block = Block::new();
    block.medium = medium;
    block.id = Id(86017);
    block
}

fn decoder_of(medium: media::Type) -> Decoder {
    Context::new(0x10, block_of(medium)).decoder()
}

fn mp3_decoder() -> Codec {
    Codec::wrap(0x700, Id(86017), media::Type::Audio, true, false)
}

fn mp3_encoder() -> Codec {
    Codec::wrap(0x780, Id(86017), media::Type::Audio, false, true)
}

fn opened_audio() -> decoder::Audio {
    let opening = decoder_of(media::Type::Audio).audio(Some(mp3_decoder())).unwrap();
    let (opened, _) = opening.finish(0, Dictionary::new());
    opened.unwrap().audio().unwrap()
}

#[test]
fn new_makes_an_owning_decoder() {
    let decoder = decoder::new(0x20, Block::new());
    assert_eq!(decoder.0.as_ptr(), 0x20);
    assert_eq!(decoder.0.ownership(), Ownership::Owned);
    assert_eq!(decoder.0.block(), Block::new());
}

#[test]
fn open_leaves_the_choice_of_codec_to_the_engine() {
    let opening = decoder_of(media::Type::Audio).open();
    assert_eq!(opening.codec(), None);
    assert!(opening.options().is_empty());
    assert_eq!(opening.expects(), None);
    assert_eq!(opening.context().as_ptr(), 0x10);
    let (opened, unconsumed) = opening.finish(0, Dictionary::new());
    let opened = opened.unwrap();
    assert_eq!(opened.as_ref().block(), block_of(media::Type::Audio));
    assert!(unconsumed.is_empty());
}

#[test]
fn open_fails_with_the_engine_s_error() {
    let (opened, _) = decoder_of(media::Type::Audio).open().finish(AVERROR_INVALIDDATA, Dictionary::new());
    assert_eq!(opened.err().map(|failed| failed.error()), Some(Error::InvalidData));
    let (opened, _) = decoder_of(media::Type::Audio).open().finish(-22, Dictionary::new());
    match opened {
        Err(Failed::Unopened(error, decoder)) => {
            assert_eq!(error, Error::Other(-22));
            assert_eq!(decoder.0.block(), block_of(media::Type::Audio));
            assert_eq!(decoder.0.as_ptr(), 0x10);
        }
        _ => panic!("the engine's failure did not give the decoder back unopened"),
    }
}

#[test]
fn a_positive_code_is_no_failure() {
    let (opened, _) = decoder_of(media::Type::Audio).open().finish(1, Dictionary::new());
    assert!(opened.is_ok());
}

#[test]
fn open_as_pins_a_decoder() {
    let opening = decoder_of(media::Type::Audio).open_as(mp3_decoder()).unwrap();
    assert_eq!(opening.codec(), Some(mp3_decoder()));
    assert!(opening.options().is_empty());
    assert_eq!(opening.expects(), None);
    let (opened, _) = opening.finish(0, Dictionary::new());
    assert!(opened.is_ok());
}

#[test]
fn open_as_refuses_a_codec_that_cannot_decode() {
    let (error, decoder) = decoder_of(media::Type::Audio).open_as(mp3_encoder()).unwrap_err();
    assert_eq!(error, Error::DecoderNotFound);
    assert_eq!(decoder.0.block(), block_of(media::Type::Audio));
    assert_eq!(decoder.0.as_ptr(), 0x10);
    assert_eq!(decoder.0.ownership(), Ownership::Owned);
    let neither = Codec::wrap(0x7c0, Id(1), media::Type::Video, false, false);
    assert_eq!(
        decoder_of(media::Type::Video).open_as(neither).err().map(|refusal| refusal.0),
        Some(Error::DecoderNotFound)
    );
    assert!(decoder.open_as(mp3_decoder()).is_ok());
}

#[test]
fn open_as_with_hands_the_options_to_the_engine() {
    let mut options = Dictionary::new();
    options.set("threads", "2");
    options.set("nonsense", "1");
    let opening = decoder_of(media::Type::Audio).open_as_with(mp3_decoder(), options.clone()).unwrap();
    assert_eq!(opening.options(), &options);
    assert_eq!(opening.codec(), Some(mp3_decoder()));
    let mut left = Dictionary::new();
    left.set("nonsense", "1");
    let (opened, unconsumed) = opening.finish(0, left.clone());
    assert!(opened.is_ok());
    assert_eq!(unconsumed, left);
    assert_eq!(unconsumed.get("nonsense"), Some("1"));
    assert_eq!(unconsumed.get("threads"), None);
}

#[test]
fn open_as_with_gives_the_options_back_when_the_engine_fails() {
    let mut options = Dictionary::new();
    options.set("threads", "2");
    let opening = decoder_of(media::Type::Audio).open_as_with(mp3_decoder(), options.clone()).unwrap();
    let (opened, unconsumed) = opening.finish(AVERROR_INVALIDDATA, options.clone());
    assert_eq!(opened.err().map(|failed| failed.error()), Some(Error::InvalidData));
    assert_eq!(unconsumed, options);
}

#[test]
fn open_as_with_gives_the_options_back_with_a_refusal() {
    let mut options = Dictionary::new();
    options.set("threads", "2");
    options.set("refcounted_frames", "1");
    let refused = decoder_of(media::Type::Audio).open_as_with(mp3_encoder(), options.clone());
    match refused {
        Err((error, decoder, returned)) => {
            assert_eq!(error, Error::DecoderNotFound);
            assert_eq!(decoder.0.block(), block_of(media::Type::Audio));
            assert_eq!(returned, options);
        }
        Ok(_) => panic!("a codec that cannot decode was accepted"),
    }
}

#[test]
fn audio_needs_a_codec_that_the_engine_found() {
    let error = |refused: Result<decoder::decoder::Opening, (Error, Decoder)>| {
        refused.err().map(|(error, decoder)| (error, decoder.0.as_ptr()))
    };
    let missing = Some((Error::DecoderNotFound, 0x10));
    assert_eq!(error(decoder_of(media::Type::Audio).audio(None)), missing);
    assert_eq!(error(decoder_of(media::Type::Video).video(None)), missing);
    assert_eq!(error(decoder_of(media::Type::Subtitle).subtitle(None)), missing);
    assert_eq!(error(decoder_of(media::Type::Audio).audio(Some(mp3_encoder()))), missing);
}

#[test]
fn audio_opens_and_insists_on_the_medium() {
    let opening = decoder_of(media::Type::Audio).audio(Some(mp3_decoder())).unwrap();
    assert_eq!(opening.codec(), Some(mp3_decoder()));
    assert_eq!(opening.expects(), Some(media::Type::Audio));
    let (opened, _) = opening.finish(0, Dictionary::new());
    assert!(opened.unwrap().audio().is_ok());
}

#[test]
fn audio_refuses_a_context_of_another_medium() {
    let opening = decoder_of(media::Type::Video).audio(Some(mp3_decoder())).unwrap();
    let (opened, _) = opening.finish(0, Dictionary::new());
    match opened {
        Err(Failed::Mismatched(opened)) => {
            assert_eq!(opened.as_ref().medium(), media::Type::Video);
            assert_eq!(opened.as_ref().as_ptr(), 0x10);
        }
        _ => panic!("a video context was taken for an audio decoder"),
    }
    let opening = decoder_of(media::Type::Unknown).video(Some(mp3_decoder())).unwrap();
    let (opened, _) = opening.finish(0, Dictionary::new());
    assert_eq!(opened.err().map(|failed| failed.error()), Some(Error::InvalidData));
}

#[test]
fn the_medium_is_judged_as_the_engine_left_it() {
    let mut opening = decoder_of(media::Type::Unknown).audio(Some(mp3_decoder())).unwrap();
    opening.refresh(block_of(media::Type::Audio));
    let (opened, _) = opening.finish(0, Dictionary::new());
    assert!(opened.is_ok());
}

#[test]
fn the_engine_s_error_comes_before_the_medium() {
    let opening = decoder_of(media::Type::Video).audio(Some(mp3_decoder())).unwrap();
    let (opened, _) = opening.finish(AVERROR_EOF, Dictionary::new());
    match opened {
        Err(Failed::Unopened(error, _)) => assert_eq!(error, Error::Eof),
        _ => panic!("the engine's failure was not reported first"),
    }
}

#[test]
fn video_and_subtitle_open_on_their_media() {
    let h264 = Codec::wrap(0x800, Id(27), media::Type::Video, true, false);
    let opening = decoder_of(media::Type::Video).video(Some(h264)).unwrap();
    assert_eq!(opening.expects(), Some(media::Type::Video));
    let (opened, _) = opening.finish(0, Dictionary::new());
    assert!(opened.unwrap().video().is_ok());
    let srt = Codec::wrap(0x840, Id(94225), media::Type::Subtitle, true, false);
    let opening = decoder_of(media::Type::Subtitle).subtitle(Some(srt)).unwrap();
    assert_eq!(opening.expects(), Some(media::Type::Subtitle));
    let (opened, _) = opening.finish(0, Dictionary::new());
    assert!(opened.unwrap().subtitle().is_ok());
}

#[test]
fn an_opened_decoder_specializes_only_to_its_medium() {
    let open = |medium| {
        let (opened, _) = decoder_of(medium).open().finish(0, Dictionary::new());
        opened.unwrap()
    };
    assert!(open(media::Type::Audio).audio().is_ok());
    let (error, opened) = open(media::Type::Audio).video().unwrap_err();
    assert_eq!(error, Error::InvalidData);
    assert_eq!(opened.as_ref().block(), block_of(media::Type::Audio));
    let (error, opened) = opened.subtitle().unwrap_err();
    assert_eq!(error, Error::InvalidData);
    assert!(opened.audio().is_ok());
    assert_eq!(open(media::Type::Unknown).audio().err().map(|e| e.0), Some(Error::InvalidData));
    assert!(open(media::Type::Video).video().is_ok());
    assert!(open(media::Type::Subtitle).subtitle().is_ok());
    assert_eq!(open(media::Type::Data).subtitle().err().map(|e| e.0), Some(Error::InvalidData));
}

#[test]
fn send_packet_reports_the_engine_s_code() {
    let mut audio = opened_audio();
    let packet = Packet::empty();
    assert_eq!(audio.send_packet(&packet, 0), Ok(()));
    assert_eq!(audio.send_packet(&packet, AVERROR_EAGAIN), Err(Error::TryAgain));
    assert_eq!(audio.send_packet(&packet, AVERROR_INVALIDDATA), Err(Error::InvalidData));
    assert_eq!(audio.send_eof(0), Ok(()));
    assert_eq!(audio.send_eof(AVERROR_EOF), Err(Error::Eof));
}

#[test]
fn receive_frame_takes_what_the_engine_left() {
    let mut audio = opened_audio();
    let mut frame = Frame::empty(0x40);
    let mut content = Content::new();
    content.samples = 1152;
    content.sample_rate = 44100;
    assert_eq!(audio.receive_frame(&mut frame, 0, content.clone()), Ok(()));
    assert_eq!(frame.content(), &content);
    assert_eq!(frame.as_ptr(), 0x40);
    assert_eq!(
        audio.receive_frame(&mut frame, AVERROR_EAGAIN, Content::new()),
        Err(Error::TryAgain)
    );
    assert_eq!(frame.content(), &Content::new());
    assert_eq!(audio.receive_frame(&mut frame, AVERROR_EOF, Content::new()), Err(Error::Eof));
}

#[test]
fn decode_says_whether_a_frame_came_out() {
    let mut audio = opened_audio();
    let packet = Packet::empty();
    let mut out = frame::Audio::empty(0x40);
    let mut content = Content::new();
    content.samples = 576;
    assert_eq!(audio.decode(&packet, &mut out, 417, 1, content.clone()), Ok(true));
    assert_eq!(out.samples(), 576);
    assert_eq!(audio.decode(&packet, &mut out, 0, 0, Content::new()), Ok(false));
    assert_eq!(out.samples(), 0);
    assert_eq!(
        audio.decode(&packet, &mut out, AVERROR_INVALIDDATA, 1, Content::new()),
        Err(Error::InvalidData)
    );
    assert_eq!(audio.decode(&packet, &mut out, 0, -1, Content::new()), Ok(true));
}

#[test]
fn the_audio_decoder_reads_its_block() {
    let mut audio = opened_audio();
    let mut block = audio.as_ref().block();
    block.sample_rate = 44100;
    block.channels = 2;
    block.sample_fmt = Sample::F32(Type::Planar);
    block.frame_number = 9;
    block.block_align = 4;
    block.channel_layout = STEREO | 0x0000_0010_0000_0000;
    block.audio_service_type = AudioService::Karaoke;
    block.rc_max_rate = 320000;
    block.frame_size = 1152;
    block.timecode_frame_start = 25;
    audio.refresh(block).unwrap();
    assert_eq!(audio.rate(), 44100);
    assert_eq!(audio.channels(), 2);
    assert_eq!(audio.format(), Sample::F32(Type::Planar));
    assert_eq!(audio.frames(), 9);
    assert_eq!(audio.align(), 4);
    assert_eq!(audio.channel_layout().bits(), STEREO);
    assert_eq!(audio.audio_service(), AudioService::Karaoke);
    assert_eq!(audio.max_bit_rate(), 320000);
    assert_eq!(audio.frame_size(), 1152);
    assert_eq!(audio.frame_start(), Some(25));
    assert_eq!(audio.as_ref().block(), block);
}

#[test]
fn frame_start_is_missing_at_minus_one() {
    let mut audio = opened_audio();
    let mut block = audio.as_ref().block();
    block.timecode_frame_start = -1;
    audio.refresh(block).unwrap();
    assert_eq!(audio.frame_start(), None);
    block.timecode_frame_start = 0;
    audio.refresh(block).unwrap();
    assert_eq!(audio.frame_start(), Some(0));
    block.timecode_frame_start = -2;
    audio.refresh(block).unwrap();
    assert_eq!(audio.frame_start(), Some(-2i64 as usize));
}

#[test]
fn negative_numbers_wrap_when_read_unsigned() {
    let mut audio = opened_audio();
    let mut block = audio.as_ref().block();
    block.sample_rate = -1;
    block.channels = 65538;
    audio.refresh(block).unwrap();
    assert_eq!(audio.rate(), u32::MAX);
    assert_eq!(audio.channels(), 2);
}

#[test]
fn the_audio_decoder_writes_its_requests() {
    let mut audio = opened_audio();
    audio.request_format(Sample::I16(Type::Packed));
    audio.set_channel_layout(ChannelLayout::from_bits_truncate(STEREO));
    audio.request_channel_layout(ChannelLayout::from_bits_truncate(NATIVE));
    let block = audio.as_ref().block();
    assert_eq!(block.request_sample_fmt, Sample::I16(Type::Packed));
    assert_eq!(block.channel_layout, STEREO);
    assert_eq!(block.request_channel_layout, NATIVE);
    let mut expected = block_of(media::Type::Audio);
    expected.request_sample_fmt = Sample::I16(Type::Packed);
    expected.channel_layout = STEREO;
    expected.request_channel_layout = NATIVE;
    assert_eq!(block, expected);
}

#[test]
fn the_decoder_writes_its_settings() {
    let mut decoder = decoder_of(media::Type::Video);
    decoder.conceal(Conceal(3));
    decoder.check(Check(1));
    decoder.skip_loop_filter(Discard::All);
    decoder.skip_idct(Discard::NonKey);
    decoder.skip_frame(Discard::Bidirectional);
    let block = decoder.as_ref().block();
    assert_eq!(block.error_concealment, 3);
    assert_eq!(block.err_recognition, 1);
    assert_eq!(block.skip_loop_filter, Discard::All);
    assert_eq!(block.skip_idct, Discard::NonKey);
    assert_eq!(block.skip_frame, Discard::Bidirectional);
    assert_eq!(decoder.time_base(), Rational(0, 1));
    let mut with_base = block;
    with_base.time_base = Rational(1, 90000);
    decoder.as_mut().refresh(with_base);
    assert_eq!(decoder.time_base(), Rational::new(1, 90000));
    assert_eq!(decoder.time_base().numerator(), 1);
    assert_eq!(decoder.time_base().denominator(), 90000);
}

#[test]
fn an_abandoned_opening_gives_everything_back() {
    let mut options = Dictionary::new();
    options.set("threads", "2");
    let opening = decoder_of(media::Type::Audio).open_as_with(mp3_decoder(), options.clone()).unwrap();
    let (decoder, returned) = opening.abandon();
    assert_eq!(decoder.0.block(), block_of(media::Type::Audio));
    assert_eq!(decoder.0.as_ptr(), 0x10);
    assert_eq!(returned, options);
}

#[test]
fn an_audio_decoder_stays_an_audio_decoder() {
    let mut audio = opened_audio();
    assert_eq!(audio.medium(), media::Type::Audio);
    let before = audio.as_ref().block();
    for medium in [
        media::Type::Unknown,
        media::Type::Video,
        media::Type::Data,
        media::Type::Subtitle,
        media::Type::Attachment,
    ] {
        let mut other = before;
        other.medium = medium;
        other.sample_rate = 8000;
        assert_eq!(audio.refresh(other), Err(Error::InvalidData));
        assert_eq!(audio.as_ref().block(), before);
        assert_eq!(audio.medium(), media::Type::Audio);
    }
    let mut later = before;
    later.sample_rate = 8000;
    assert_eq!(audio.refresh(later), Ok(()));
    assert_eq!(audio.rate(), 8000);
    audio.request_format(Sample::I16(Type::Packed));
    audio.set_channel_layout(ChannelLayout::from_bits_truncate(STEREO));
    assert_eq!(audio.medium(), media::Type::Audio);
    let opened = audio.into_opened();
    assert_eq!(opened.as_ref().medium(), media::Type::Audio);
    assert_eq!(opened.video().err().map(|refusal| refusal.0), Some(Error::InvalidData));
}

#[test]
fn video_and_subtitle_decoders_keep_their_media() {
    let open = |medium| {
        let (opened, _) = decoder_of(medium).open().finish(0, Dictionary::new());
        opened.unwrap()
    };
    let mut video = open(media::Type::Video).video().unwrap();
    assert_eq!(video.medium(), media::Type::Video);
    assert_eq!(video.refresh(block_of(media::Type::Audio)), Err(Error::InvalidData));
    assert_eq!(video.as_ref().block(), block_of(media::Type::Video));
    let mut later = block_of(media::Type::Video);
    later.frame_number = 3;
    assert_eq!(video.refresh(later), Ok(()));
    assert_eq!(video.as_ref().block(), later);
    assert_eq!(video.send_packet(&Packet::empty(), AVERROR_EAGAIN), Err(Error::TryAgain));
    assert_eq!(video.send_eof(0), Ok(()));
    let mut frame = Frame::empty(0x40);
    assert_eq!(video.receive_frame(&mut frame, AVERROR_EOF, Content::new()), Err(Error::Eof));
    let mut subtitle = open(media::Type::Subtitle).subtitle().unwrap();
    assert_eq!(subtitle.medium(), media::Type::Subtitle);
    assert_eq!(subtitle.refresh(block_of(media::Type::Unknown)), Err(Error::InvalidData));
    assert_eq!(subtitle.refresh(block_of(media::Type::Subtitle)), Ok(()));
    assert_eq!(subtitle.into_opened().as_ref().medium(), media::Type::Subtitle);
}

#[test]
fn a_closed_decoder_is_a_decoder_on_the_same_context() {
    let audio = opened_audio();
    let decoder = audio.close();
    assert_eq!(decoder.0.as_ptr(), 0x10);
    assert_eq!(decoder.0.block(), block_of(media::Type::Audio));
    let (opened, _) = decoder.open().finish(0, Dictionary::new());
    let decoder = opened.unwrap().close();
    assert_eq!(decoder.0.release(), ffmpeg_next::util::handle::Release::Free(0x10));
}

#[test]
fn an_opened_decoder_takes_over_the_engine_s_block() {
    let (opened, _) = decoder_of(media::Type::Unknown).open().finish(0, Dictionary::new());
    let mut opened = opened.unwrap();
    opened.refresh(block_of(media::Type::Audio));
    assert_eq!(opened.as_ref().block(), block_of(media::Type::Audio));
    assert_eq!(opened.as_ref().as_ptr(), 0x10);
    assert!(opened.audio().is_ok());
}
