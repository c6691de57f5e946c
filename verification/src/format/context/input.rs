//! The input context: an opened source and the packets read from it.
use crate::codec::codec::Codec;
use crate::codec::packet::Packet;
use crate::format::stream::Stream;
use crate::util::error::{check, outcome, Error, AVERROR_EOF};
use crate::util::handle::{Handle, Owner, Ownership, Release};
use crate::util::range::Range;
use vstd::prelude::*;

verus! {

/// What the engine says of an opened source, as plain values.
#[derive(Clone, Copy, Debug, PartialEq, Eq)]
pub struct Source {
    /// The number of streams.
    pub streams: usize,
    /// Where the engine keeps the descriptor of the container format.
    pub format: usize,
    pub probe_score: i32,
    pub video_codec: Option<Codec>,
    pub audio_codec: Option<Codec>,
    pub subtitle_codec: Option<Codec>,
    pub data_codec: Option<Codec>,
}

/// The input context: the engine's parsing state for one opened source.
#[derive(Debug)]
pub struct Input {
    handle: Handle,
    source: Source,
}

impl View for Input {
    type V = Source;

    closed spec fn view(&self) -> Source {
        self.source
    }
}

/// A request to move the read position of a source: the arguments of the one
/// native call that does it.
#[derive(Clone, Copy, Debug, PartialEq, Eq, Structural)]
pub struct Seek {
    /// The stream that the timestamps are counted in; `-1` when they are in
    /// the engine's own unit.
    pub stream: i32,
    /// The earliest position that will do.
    pub min: i64,
    /// The position asked for.
    pub ts: i64,
    /// The latest position that will do.
    pub max: i64,
    pub flags: i32,
}

/// The request that a seek to `ts` within the given bounds makes: a missing
/// bound is the end of what can be represented.
pub open spec fn seeking(ts: i64, start: Option<i64>, end: Option<i64>) -> Seek {
    Seek {
        stream: -1i32,
        min: match start {
            Some(bound) => bound,
            None => i64::MIN,
        },
        ts,
        max: match end {
            Some(bound) => bound,
            None => i64::MAX,
        },
        flags: 0,
    }
}

impl Seek {
    /// Concludes the seek with the engine's return code. Nothing else is
    /// done: a decoder that was fed from the old position still holds what
    /// it held.
    pub fn finish(self, code: i32) -> (result: Result<(), Error>)
        ensures
            result == outcome(code),
    {
        check(code)
    }
}

/// One answer of the engine to a request for the next packet: its return
/// code, and the packet it filled in.
#[derive(Clone, Debug, PartialEq, Eq)]
pub struct Read {
    pub code: i32,
    pub packet: Packet,
}

/// What the iteration over the packets of a source does with one answer of
/// the engine.
#[derive(Clone, Debug, PartialEq, Eq)]
pub enum Step<'a> {
    /// The next item of the sequence: a packet and the stream it belongs to.
    Yield(Stream<'a>, Packet),
    /// The read failed short of the end: ask the engine again.
    Retry,
    /// The source is at its end, and so is the sequence.
    Done,
}

/// The step that one answer of the engine leads to: a packet on success, the
/// end on the engine's end-of-file code and on no other, another try on any
/// other failure.
pub open spec fn step<'a>(read: Read) -> Step<'a> {
    if read.code >= 0 {
        Step::Yield(Stream::at(read.packet.spec_stream()), read.packet)
    } else if read.code == AVERROR_EOF {
        Step::Done
    } else {
        Step::Retry
    }
}

/// The number of answers up to the first that reports the end of the file,
/// or the number of all answers where none does.
pub open spec fn until_end(reads: Seq<Read>) -> nat
    decreases reads.len(),
{
    if reads.len() == 0 {
        0
    } else if reads[0].code == AVERROR_EOF {
        0
    } else {
        1 + until_end(reads.skip(1))
    }
}

/// The items that the iteration yields, in order, where the engine answers
/// as `reads` say: it goes on over failed reads and stops at the end of the
/// file.
pub open spec fn yielded<'a>(reads: Seq<Read>) -> Seq<(Stream<'a>, Packet)>
    decreases reads.len(),
{
    if reads.len() == 0 {
        Seq::empty()
    } else {
        match step(reads[0]) {
            Step::Yield(stream, packet) => seq![(stream, packet)] + yielded(reads.skip(1)),
            Step::Retry => yielded(reads.skip(1)),
            Step::Done => Seq::empty(),
        }
    }
}

/// The packets of the successful reads among `reads`, in order.
pub open spec fn successes(reads: Seq<Read>) -> Seq<Packet>
    decreases reads.len(),
{
    if reads.len() == 0 {
        Seq::empty()
    } else if reads[0].code >= 0 {
        seq![reads[0].packet] + successes(reads.skip(1))
    } else {
        successes(reads.skip(1))
    }
}

impl Input {
    /// The handle on the engine's context.
    pub closed spec fn handle(&self) -> Handle {
        self.handle
    }

    /// Takes ownership of the engine's input context at `address`, of which
    /// the engine says what `source` holds.
    pub fn wrap(address: usize, source: Source) -> (input: Input)
        ensures
            input@ == source,
            input.handle().spec_address() == address,
            input.handle().spec_ownership() == Ownership::Owned,
    {
        Input { handle: Handle::owned(address), source }
    }

    /// The address of the engine's context.
    pub fn as_ptr(&self) -> (address: usize)
        ensures
            address == self.handle().spec_address(),
    {
        self.handle.address()
    }

    /// The address of the engine's context, for a call that changes it.
    pub fn as_mut_ptr(&mut self) -> (address: usize)
        ensures
            address == old(self).handle().spec_address(),
            *final(self) == *old(self),
    {
        self.handle.address()
    }

    /// The token under which the parts of this context are shared: a codec
    /// context that lives inside it is wrapped with this owner.
    pub fn owner(&self) -> (owner: Owner)
        ensures
            owner.spec_address() == self.handle().spec_address(),
    {
        Owner::new(self.handle.address())
    }

    /// Takes over what the engine says of the source now.
    pub fn refresh(&mut self, source: Source)
        ensures
            final(self)@ == source,
            final(self).handle() == old(self).handle(),
    {
        self.source = source;
    }

    /// Gives the context up and says what is to be done with the engine's
    /// context: it is owned, so it is to be freed.
    pub fn release(self) -> (release: Release)
        ensures
            release == self.handle().spec_release(),
    {
        self.handle.release()
    }

    /// Where the engine keeps the descriptor of the container format.
    pub fn format(&self) -> (format: usize)
        ensures
            format == self@.format,
    {
        self.source.format
    }

    /// The number of streams of the source.
    pub fn nb_streams(&self) -> (streams: usize)
        ensures
            streams == self@.streams,
    {
        self.source.streams
    }

    /// The stream with the given index, if the source has one. It is
    /// borrowed from the source.
    pub fn stream(&self, index: usize) -> (stream: Option<Stream<'_>>)
        ensures
            stream is Some <==> index < self@.streams,
            stream is Some ==> stream->0.spec_index() == index,
    {
        if index < self.source.streams {
            Some(Stream::wrap(index))
        } else {
            None
        }
    }

    /// The video codec that the source is forced to, if it is forced to one.
    pub fn video_codec(&self) -> (codec: Option<Codec>)
        ensures
            codec == self@.video_codec,
    {
        self.source.video_codec
    }

    /// The audio codec that the source is forced to, if it is forced to one.
    pub fn audio_codec(&self) -> (codec: Option<Codec>)
        ensures
            codec == self@.audio_codec,
    {
        self.source.audio_codec
    }

    /// The subtitle codec that the source is forced to, if it is forced to
    /// one.
    pub fn subtitle_codec(&self) -> (codec: Option<Codec>)
        ensures
            codec == self@.subtitle_codec,
    {
        self.source.subtitle_codec
    }

    /// The data codec that the source is forced to, if it is forced to one.
    pub fn data_codec(&self) -> (codec: Option<Codec>)
        ensures
            codec == self@.data_codec,
    {
        self.source.data_codec
    }

    /// How sure the engine is of the format it detected.
    pub fn probe_score(&self) -> (score: i32)
        ensures
            score == self@.probe_score,
    {
        self.source.probe_score
    }

    /// The packets of the source, one after the other, each with its stream.
    /// The sequence is lazy, goes forward only and can be walked once.
    pub fn packets(&mut self) -> (packets: PacketIter<'_>)
        ensures
            *packets.context() == *old(self),
            *final(self) == *final(packets.context()),
    {
        PacketIter::new(self)
    }

    /// Records that the engine was asked to pause a network source and
    /// answered with `code`.
    pub fn pause(&mut self, code: i32) -> (result: Result<(), Error>)
        ensures
            result == outcome(code),
            *final(self) == *old(self),
    {
        check(code)
    }

    /// Records that the engine was asked to go on playing a network source
    /// and answered with `code`.
    pub fn play(&mut self, code: i32) -> (result: Result<(), Error>)
        ensures
            result == outcome(code),
            *final(self) == *old(self),
    {
        check(code)
    }

    /// Asks the engine to move the read position to `ts`, or as near to it as
    /// `range` allows. A bound that `range` lacks is the least, or the
    /// greatest, timestamp there is.
    pub fn seek<R: Range<i64>>(&mut self, ts: i64, range: R) -> (seek: Seek)
        ensures
            seek == seeking(ts, range.spec_start(), range.spec_end()),
            *final(self) == *old(self),
    {
        let min = match range.start() {
            Some(bound) => *bound,
            None => i64::MIN,
        };
        let max = match range.end() {
            Some(bound) => *bound,
            None => i64::MAX,
        };
        Seek { stream: -1, min, ts, max, flags: 0 }
    }
}

/// The walk over the packets of a source.
pub struct PacketIter<'a> {
    context: &'a mut Input,
}

impl<'a> PacketIter<'a> {
    /// The source that is walked.
    pub closed spec fn context(&self) -> &'a mut Input {
        self.context
    }

    pub fn new(context: &'a mut Input) -> (packets: PacketIter<'a>)
        ensures
            *packets.context() == *old(context),
            *final(packets.context()) == *final(context),
    {
        PacketIter { context }
    }

    /// Takes one answer of the engine to a request for the next packet and
    /// says how the walk goes on: with the packet and its stream, with
    /// another request, or not at all. The stream lives as long as the
    /// borrow of the source that the walk holds, and no longer.
    pub fn next(&mut self, read: Read) -> (next: Step<'a>)
        ensures
            next == step::<'a>(read),
            next matches Step::Yield(stream, packet) ==> stream.spec_index()
                == read.packet.spec_stream() && packet == read.packet,
            final(self).context() == old(self).context(),
    {
        if read.code >= 0 {
            let index = read.packet.stream();
            proof {
                Stream::<'a>::lemma_at(index);
            }
            Step::Yield(Stream::wrap(index), read.packet)
        } else if read.code == AVERROR_EOF {
            Step::Done
        } else {
            Step::Retry
        }
    }
}

/// The walk ends at the first end-of-file and at nothing else. Up to there
/// no answer ends it, each successful read yields its packet with the stream
/// that the packet names, in the order of the reads, and each failed read is
/// passed over in silence. What the engine would answer after the end is
/// never asked for.
pub proof fn lemma_walk_ends_at_end_of_file(reads: Seq<Read>)
    ensures
        until_end(reads) <= reads.len(),
        until_end(reads) < reads.len() ==> step(reads[until_end(reads) as int]) is Done,
        forall|i: int| 0 <= i < until_end(reads) ==> !(#[trigger] step(reads[i]) is Done),
        yielded(reads) == yielded(reads.take(until_end(reads) as int)),
        yielded(reads).len() == successes(reads.take(until_end(reads) as int)).len(),
        forall|j: int|
            0 <= j < yielded(reads).len() ==> (#[trigger] yielded(reads)[j]).1 == successes(
                reads.take(until_end(reads) as int),
            )[j] && yielded(reads)[j].0.spec_index() == yielded(reads)[j].1.spec_stream(),
    decreases reads.len(),
{
    if reads.len() == 0 {
        assert(reads.take(0) =~= reads);
    } else if reads[0].code == AVERROR_EOF {
        assert(reads.take(0).len() == 0);
    } else {
        let rest = reads.skip(1);
        let end = until_end(reads) as int;
        lemma_walk_ends_at_end_of_file(rest);
        let head = reads.take(end);
        assert(head.len() > 0);
        assert(head[0] == reads[0]);
        assert(head.skip(1) =~= rest.take(end - 1));
        if end < reads.len() {
            assert(rest[end - 1] == reads[end]);
        }
        assert forall|i: int| 0 <= i < end implies !(#[trigger] step(reads[i]) is Done) by {
            if i > 0 {
                assert(rest[i - 1] == reads[i]);
            }
        }
        assert(yielded(reads) =~= yielded(head));
        assert forall|j: int| 0 <= j < yielded(reads).len() implies (#[trigger] yielded(
            reads,
        )[j]).1 == successes(head)[j] && yielded(reads)[j].0.spec_index() == yielded(
            reads,
        )[j].1.spec_stream() by {
            if reads[0].code >= 0 {
                Stream::lemma_at(reads[0].packet.spec_stream());
                if j > 0 {
                    assert(yielded(reads)[j] == yielded(rest)[j - 1]);
                    assert(successes(head)[j] == successes(head.skip(1))[j - 1]);
                }
            } else {
                assert(yielded(reads)[j] == yielded(rest)[j]);
            }
        }
    }
}

/// Where every packet that the engine hands out with success names a stream
/// of the source, every item that the walk yields carries a stream of the
/// source.
pub proof fn lemma_yielded_streams_exist(reads: Seq<Read>, streams: usize)
    requires
        forall|i: int|
            0 <= i < reads.len() && (#[trigger] reads[i]).code >= 0 ==> 0 <= reads[i].packet.stream
                < streams,
    ensures
        forall|j: int|
            0 <= j < yielded(reads).len() ==> (#[trigger] yielded(reads)[j]).0.spec_index()
                < streams,
    decreases reads.len(),
{
    if reads.len() != 0 && reads[0].code != AVERROR_EOF {
        let rest = reads.skip(1);
        assert forall|i: int| 0 <= i < rest.len() && (#[trigger] rest[i]).code >= 0 implies 0
            <= rest[i].packet.stream < streams by {
            assert(rest[i] == reads[i + 1]);
        }
        lemma_yielded_streams_exist(rest, streams);
        assert forall|j: int| 0 <= j < yielded(reads).len() implies (#[trigger] yielded(
            reads,
        )[j]).0.spec_index() < streams by {
            if reads[0].code >= 0 {
                if j > 0 {
                    assert(yielded(reads)[j] == yielded(rest)[j - 1]);
                } else {
                    let number = reads[0].packet.stream;
                    assert(0 <= number < streams);
                    assert(number as usize == number);
                    Stream::lemma_at(reads[0].packet.spec_stream());
                }
            } else {
                assert(yielded(reads)[j] == yielded(rest)[j]);
            }
        }
    }
}

} // verus!
