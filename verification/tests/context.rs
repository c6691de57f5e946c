use ffmpeg_next::codec::compliance::Compliance;
use ffmpeg_next::codec::context::{Block, Context};
use ffmpeg_next::codec::flag::Flags;
use ffmpeg_next::codec::id::Id;
use ffmpeg_next::codec::parameters::Parameters;
use ffmpeg_next::codec::threading;
use ffmpeg_next::Codec;
use ffmpeg_next::util::error::{Error, AVERROR_INVALIDDATA};
use ffmpeg_next::util::handle::{Owner, Ownership, Release};
use ffmpeg_next::util::media;

#[test]
fn a_new_context_owns_its_block() {
    let context = Context::new(0x100, Block::new());
    assert_eq!(context.as_ptr(), 0x100);
    assert_eq!(context.ownership(), Ownership::Owned);
    assert_eq!(context.block(), Block::new());
    assert_eq!(context.release(), Release::Free(0x100));
}

#[test]
fn a_wrapped_context_shares_with_a_token_and_owns_without() {
    let owner = Owner::new(0x900);
    let shared = Context::wrap(0x940, Some(owner), Block::new());
    assert_eq!(shared.ownership(), Ownership::Shared(owner));
    assert_eq!(shared.release(), Release::Keep);
    let owned = Context::wrap(0x940, None, Block::new());
    assert_eq!(owned.ownership(), Ownership::Owned);
    assert_eq!(owned.release(), Release::Free(0x940));
}

#[test]
fn a_blank_block_says_nothing() {
    let block = Block::new();
    assert_eq!(block.codec, None);
    assert_eq!(block.medium, media::Type::Unknown);
    assert_eq!(block.id, Id(0));
    assert_eq!(block.flags, 0);
    assert_eq!(block.thread_count, 0);
    assert_eq!(block.sample_rate, 0);
}

#[test]
fn getters_read_the_block() {
    let mut block = Block::new();
    let codec = Codec::wrap(0x500, Id(86017), media::Type::Audio, true, false);
    block.codec = Some(codec);
    block.medium = media::Type::Audio;
    block.id = Id(86017);
    let context = Context::new(1, block);
    assert_eq!(context.codec(), Some(codec));
    assert_eq!(context.medium(), media::Type::Audio);
    assert_eq!(context.id(), Id(86017));
}

#[test]
fn setters_write_one_field_each() {
    let mut context = Context::new(1, Block::new());
    context.set_flags(Flags(0x0040_0000));
    context.compliance(Compliance::Experimental);
    context.debug(ffmpeg_next::codec::debug::Debug(5));
    let block = context.block();
    assert_eq!(block.flags, 0x0040_0000);
    assert_eq!(block.compliance, Compliance::Experimental);
    assert_eq!(block.debug, 5);
    let mut expected = Block::new();
    expected.flags = 0x0040_0000;
    expected.compliance = Compliance::Experimental;
    expected.debug = 5;
    assert_eq!(block, expected);
    assert_eq!(context.as_ptr(), 1);
}

#[test]
fn flags_above_the_sign_bit_wrap() {
    let mut context = Context::new(1, Block::new());
    context.set_flags(Flags(0x8000_0000));
    assert_eq!(context.block().flags, i32::MIN);
    context.set_flags(Flags(u32::MAX));
    assert_eq!(context.block().flags, -1);
}

#[test]
fn threading_is_written_as_asked_and_read_as_active() {
    let mut context = Context::new(1, Block::new());
    context.set_threading(threading::Config { kind: threading::Type::Frame, count: 4, safe: true });
    let block = context.block();
    assert_eq!(block.thread_type, threading::Type::Frame);
    assert_eq!(block.thread_count, 4);
    assert_eq!(block.thread_safe_callbacks, 1);
    assert_eq!(block.active_thread_type, threading::Type::Off);
    assert_eq!(
        context.threading(),
        threading::Config { kind: threading::Type::Off, count: 4, safe: true }
    );
    let mut active = context.block();
    active.active_thread_type = threading::Type::Slice;
    active.thread_safe_callbacks = 0;
    context.refresh(active);
    assert_eq!(
        context.threading(),
        threading::Config { kind: threading::Type::Slice, count: 4, safe: false }
    );
}

#[test]
fn a_negative_thread_count_reads_as_a_huge_one() {
    let mut block = Block::new();
    block.thread_count = -1;
    let context = Context::new(1, block);
    assert_eq!(context.threading().count, usize::MAX);
}

#[test]
fn parameters_read_back_after_a_success() {
    let mut block = Block::new();
    block.sample_rate = 48000;
    let mut context = Context::new(1, block);
    let parameters = Parameters::new(media::Type::Audio, Id(86018));
    assert_eq!(context.set_parameters(parameters, 0), Ok(()));
    assert_eq!(context.id(), parameters.id());
    assert_eq!(context.medium(), parameters.medium());
    assert_eq!(context.id(), Id(86018));
    assert_eq!(context.medium(), media::Type::Audio);
    assert_eq!(context.block().sample_rate, 48000);
    let video = Parameters::new(media::Type::Video, Id(27));
    assert_eq!(context.set_parameters(video, 7), Ok(()));
    assert_eq!(context.id(), Id(27));
    assert_eq!(context.medium(), media::Type::Video);
}

#[test]
fn parameters_leave_the_context_alone_after_a_failure() {
    let mut context = Context::new(1, Block::new());
    let parameters = Parameters::new(media::Type::Audio, Id(86018));
    assert_eq!(context.set_parameters(parameters, AVERROR_INVALIDDATA), Err(Error::InvalidData));
    assert_eq!(context.block(), Block::new());
    assert_eq!(context.set_parameters(parameters, -12), Err(Error::Other(-12)));
    assert_eq!(context.id(), Id(0));
    assert_eq!(context.medium(), media::Type::Unknown);
}

#[test]
fn a_clone_owns_a_block_of_its_own() {
    let owner = Owner::new(0x900);
    let mut block = Block::new();
    block.id = Id(3);
    let shared = Context::wrap(0x940, Some(owner), block);
    let clone = shared.clone_to(0xA00);
    assert_eq!(clone.block(), block);
    assert_eq!(clone.as_ptr(), 0xA00);
    assert_eq!(clone.ownership(), Ownership::Owned);
    assert_eq!(shared.ownership(), Ownership::Shared(owner));
}

#[test]
fn clone_from_copies_the_block_and_keeps_the_handle() {
    let mut source_block = Block::new();
    source_block.bit_rate = 128000;
    let source = Context::new(1, source_block);
    let mut target = Context::new(2, Block::new());
    target.clone_from(&source);
    assert_eq!(target.block(), source_block);
    assert_eq!(target.as_ptr(), 2);
    assert_eq!(target.as_mut_ptr(), 2);
}

#[test]
fn refresh_takes_over_the_engine_s_block() {
    let mut context = Context::new(1, Block::new());
    let mut block = Block::new();
    block.frame_size = 1024;
    context.refresh(block);
    assert_eq!(context.block(), block);
    assert_eq!(context.as_ptr(), 1);
}
