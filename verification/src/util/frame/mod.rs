//! Frames: units of raw media, as the engine hands them out and takes them in.
pub mod audio;
pub use self::audio::Audio;

use crate::util::format::sample::Sample;
use crate::util::handle::{Handle, Ownership, Release};
use vstd::prelude::*;

verus! {

/// What a frame holds, as mathematical values.
pub struct ContentView {
    pub format: Sample,
    pub channel_layout: u64,
    pub channels: i32,
    pub sample_rate: i32,
    pub samples: i32,
    pub linesize: Seq<i32>,
    pub data: Seq<Seq<u8>>,
}

/// What a frame holds: its declared layout and the bytes of its planes.
///
/// `data` has one buffer for each plane, as long as the engine made it;
/// `linesize` has the sizes that the engine declares for them.
#[derive(Clone, Debug, PartialEq, Eq)]
pub struct Content {
    pub format: Sample,
    pub channel_layout: u64,
    pub channels: i32,
    pub sample_rate: i32,
    pub samples: i32,
    pub linesize: Vec<i32>,
    pub data: Vec<Vec<u8>>,
}

impl View for Content {
    type V = ContentView;

    open spec fn view(&self) -> ContentView {
        ContentView {
            format: self.format,
            channel_layout: self.channel_layout,
            channels: self.channels,
            sample_rate: self.sample_rate,
            samples: self.samples,
            linesize: self.linesize@,
            data: Seq::new(self.data@.len(), |i: int| self.data@[i]@),
        }
    }
}

impl ContentView {
    /// The content of a frame that has no buffer and declares nothing.
    pub open spec fn blank() -> ContentView {
        ContentView {
            format: Sample::Empty,
            channel_layout: 0,
            channels: 0,
            sample_rate: 0,
            samples: 0,
            linesize: Seq::empty(),
            data: Seq::empty(),
        }
    }
}

/// A copy of `source`, byte for byte.
pub fn copy_bytes(source: &Vec<u8>) -> (copy: Vec<u8>)
    ensures
        copy@ == source@,
{
    let mut copy: Vec<u8> = Vec::new();
    let mut at: usize = 0;
    while at < source.len()
        invariant
            at <= source.len(),
            copy@ == source@.subrange(0, at as int),
        decreases source.len() - at,
    {
        copy.push(source[at]);
        at += 1;
        assert(copy@ =~= source@.subrange(0, at as int));
    }
    assert(source@.subrange(0, at as int) =~= source@);
    copy
}

impl Content {
    /// The content of a frame that has no buffer and declares nothing.
    pub fn new() -> (content: Content)
        ensures
            content@ == ContentView::blank(),
    {
        let content = Content {
            format: Sample::Empty,
            channel_layout: 0,
            channels: 0,
            sample_rate: 0,
            samples: 0,
            linesize: Vec::new(),
            data: Vec::new(),
        };
        assert(content@.data =~= Seq::<Seq<u8>>::empty());
        content
    }

    /// A copy of this content: the same layout and the same bytes in every
    /// plane.
    pub fn duplicate(&self) -> (copy: Content)
        ensures
            copy@ == self@,
    {
        let mut linesize: Vec<i32> = Vec::new();
        let mut at: usize = 0;
        while at < self.linesize.len()
            invariant
                at <= self.linesize.len(),
                linesize@ == self.linesize@.subrange(0, at as int),
            decreases self.linesize.len() - at,
        {
            linesize.push(self.linesize[at]);
            at += 1;
            assert(linesize@ =~= self.linesize@.subrange(0, at as int));
        }
        assert(self.linesize@.subrange(0, at as int) =~= self.linesize@);
        let mut data: Vec<Vec<u8>> = Vec::new();
        let mut plane: usize = 0;
        while plane < self.data.len()
            invariant
                plane <= self.data.len(),
                data@.len() == plane,
                forall|i: int| 0 <= i < plane ==> (#[trigger] data@[i])@ == self.data@[i]@,
            decreases self.data.len() - plane,
        {
            let bytes = copy_bytes(&self.data[plane]);
            data.push(bytes);
            plane += 1;
        }
        let copy = Content {
            format: self.format,
            channel_layout: self.channel_layout,
            channels: self.channels,
            sample_rate: self.sample_rate,
            samples: self.samples,
            linesize,
            data,
        };
        assert(copy@.data =~= self@.data);
        copy
    }
}

/// A frame of raw media.
///
/// A frame on the null address is the end-of-stream sentinel: it stands for
/// "no more input" when sent to an encoder, and none of its fields is ever to
/// be read.
#[derive(Debug)]
pub struct Frame {
    handle: Handle,
    content: Content,
}

impl View for Frame {
    type V = ContentView;

    open spec fn view(&self) -> ContentView {
        self.spec_content()@
    }
}

impl Frame {
    /// The handle on the engine's frame.
    pub closed spec fn handle(&self) -> Handle {
        self.handle
    }

    /// What the frame holds.
    pub closed spec fn spec_content(&self) -> Content {
        self.content
    }

    /// Whether this is the end-of-stream sentinel.
    pub open spec fn spec_is_sentinel(&self) -> bool {
        self.handle().spec_address() == 0
    }

    /// A frame on the engine's frame at `address`, which someone else owns and
    /// which holds `content`. On the null address this is the end-of-stream
    /// sentinel.
    pub fn wrap(address: usize, content: Content) -> (frame: Frame)
        ensures
            frame.spec_content() == content,
            frame.handle().spec_address() == address,
            frame.handle().spec_ownership() == Ownership::Borrowed,
    {
        Frame { handle: Handle::borrowed(address), content }
    }

    /// A frame of its own on the engine's frame that was just allocated at
    /// `address`: it declares nothing and has no buffer.
    pub fn empty(address: usize) -> (frame: Frame)
        ensures
            frame@ == ContentView::blank(),
            frame.handle().spec_address() == address,
            frame.handle().spec_ownership() == Ownership::Owned,
    {
        Frame { handle: Handle::owned(address), content: Content::new() }
    }

    /// The end-of-stream sentinel.
    pub fn sentinel() -> (frame: Frame)
        ensures
            frame.spec_is_sentinel(),
            frame@ == ContentView::blank(),
            frame.handle().spec_ownership() == Ownership::Borrowed,
    {
        Frame::wrap(0, Content::new())
    }

    /// The address of the engine's frame.
    pub fn as_ptr(&self) -> (address: usize)
        ensures
            address == self.handle().spec_address(),
    {
        self.handle.address()
    }

    /// The address of the engine's frame, for a call that changes it.
    pub fn as_mut_ptr(&mut self) -> (address: usize)
        ensures
            address == old(self).handle().spec_address(),
            *final(self) == *old(self),
    {
        self.handle.address()
    }

    /// Whether this is the end-of-stream sentinel.
    #[verifier::when_used_as_spec(spec_is_sentinel)]
    pub fn is_sentinel(&self) -> (sentinel: bool)
        ensures
            sentinel == self.spec_is_sentinel(),
    {
        self.handle.is_null()
    }

    /// What the frame holds.
    pub fn content(&self) -> (content: &Content)
        ensures
            *content == self.spec_content(),
    {
        &self.content
    }

    /// Who is responsible for the engine's frame.
    pub fn ownership(&self) -> (ownership: Ownership)
        ensures
            ownership == self.handle().spec_ownership(),
    {
        self.handle.ownership()
    }

    /// Takes over what the engine's frame holds now.
    pub fn refresh(&mut self, content: Content)
        ensures
            final(self).spec_content() == content,
            final(self).handle() == old(self).handle(),
    {
        self.content = content;
    }

    /// Gives the frame up and says what is to be done with the engine's
    /// frame.
    pub fn release(self) -> (release: Release)
        ensures
            release == self.handle().spec_release(),
    {
        self.handle.release()
    }
}

} // verus!
