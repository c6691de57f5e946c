//! Audio frames and the typed reading of their planes.
use crate::util::channel_layout::ChannelLayout;
use crate::util::format::sample;
use crate::util::format::sample::Type;
use crate::util::frame::{Content, ContentView, Frame};
use crate::util::handle::Ownership;
use vstd::prelude::*;
use vstd::slice::slice_subrange;

verus! {

/// The type of one channel's sample in memory. Samples of eight-byte integers
/// have no type here: a frame of such samples gives out its bytes only.
#[derive(Clone, Copy, Debug, PartialEq, Eq, Structural)]
pub enum Element {
    /// Unsigned, one byte.
    U8,
    /// Signed, two bytes.
    I16,
    /// Signed, four bytes.
    I32,
    /// Floating point, four bytes.
    F32,
    /// Floating point, eight bytes.
    F64,
}

impl Element {
    /// The number of bytes of one element.
    pub open spec fn spec_bytes(&self) -> usize {
        match self {
            Element::U8 => 1,
            Element::I16 => 2,
            Element::I32 | Element::F32 => 4,
            Element::F64 => 8,
        }
    }

    /// The sample format whose samples are of this type, in the given
    /// arrangement.
    pub open spec fn format(self, arrangement: Type) -> sample::Sample {
        match self {
            Element::U8 => sample::Sample::U8(arrangement),
            Element::I16 => sample::Sample::I16(arrangement),
            Element::I32 => sample::Sample::I32(arrangement),
            Element::F32 => sample::Sample::F32(arrangement),
            Element::F64 => sample::Sample::F64(arrangement),
        }
    }

    /// The number of bytes of one element.
    #[verifier::when_used_as_spec(spec_bytes)]
    pub fn bytes(&self) -> (bytes: usize)
        ensures
            bytes == self.spec_bytes(),
    {
        match self {
            Element::U8 => 1,
            Element::I16 => 2,
            Element::I32 | Element::F32 => 4,
            Element::F64 => 8,
        }
    }
}

/// The most elements that one item of a plane can be made of.
pub const LANES: usize = 7;

/// The shape of the items that a plane is read as: one element, or a tuple
/// of two to seven elements of one type, one for each channel.
#[derive(Clone, Copy, Debug, PartialEq, Eq, Structural)]
pub struct Sample {
    element: Element,
    lanes: usize,
}

impl Sample {
    /// The type of the elements.
    pub closed spec fn spec_element(&self) -> Element {
        self.element
    }

    /// The number of elements in one item.
    pub closed spec fn spec_lanes(&self) -> usize {
        self.lanes
    }

    /// What holds of every shape that there is: it has one to seven lanes.
    pub open spec fn wf(&self) -> bool {
        1 <= self.spec_lanes() <= LANES
    }

    #[verifier::type_invariant]
    spec fn inv(&self) -> bool {
        1 <= self.lanes <= LANES
    }

    /// The number of bytes of one item.
    pub open spec fn spec_bytes(&self) -> usize {
        (self.spec_lanes() * self.spec_element().spec_bytes()) as usize
    }

    /// Whether a plane of a frame with this format and this number of
    /// channels may be read as items of this shape. A single element fits any
    /// arrangement of its own sample format. A tuple fits only the packed
    /// arrangement, with as many channels as it has lanes.
    pub open spec fn valid(&self, format: sample::Sample, channels: u16) -> bool {
        if self.spec_lanes() == 1 {
            format == self.spec_element().format(Type::Packed) || format
                == self.spec_element().format(Type::Planar)
        } else {
            channels == self.spec_lanes() && format == self.spec_element().format(Type::Packed)
        }
    }

    /// The shape of a single element.
    pub fn scalar(element: Element) -> (shape: Sample)
        ensures
            shape.wf(),
            shape.spec_element() == element,
            shape.spec_lanes() == 1,
    {
        Sample { element, lanes: 1 }
    }

    /// The shape of a tuple of `lanes` elements, for two to seven lanes.
    pub fn tuple(element: Element, lanes: usize) -> (shape: Option<Sample>)
        ensures
            shape is Some <==> 2 <= lanes <= LANES,
            shape is Some ==> shape->0.wf() && shape->0.spec_element() == element
                && shape->0.spec_lanes() == lanes,
    {
        if 2 <= lanes && lanes <= LANES {
            Some(Sample { element, lanes })
        } else {
            None
        }
    }

    /// The type of the elements.
    #[verifier::when_used_as_spec(spec_element)]
    pub fn element(&self) -> (element: Element)
        ensures
            element == self.spec_element(),
    {
        self.element
    }

    /// The number of elements in one item.
    #[verifier::when_used_as_spec(spec_lanes)]
    pub fn lanes(&self) -> (lanes: usize)
        ensures
            lanes == self.spec_lanes(),
    {
        self.lanes
    }

    /// The number of bytes of one item.
    pub fn bytes(&self) -> (bytes: usize)
        ensures
            self.wf(),
            bytes == self.spec_bytes(),
            bytes == self.spec_lanes() * self.spec_element().spec_bytes(),
            1 <= bytes <= 56,
    {
        proof {
            use_type_invariant(self);
        }
        let width = self.element.bytes();
        assert(self.lanes * width <= 56) by (nonlinear_arith)
            requires
                1 <= self.lanes <= 7,
                1 <= width <= 8,
        ;
        assert(self.lanes * width >= 1) by (nonlinear_arith)
            requires
                1 <= self.lanes <= 7,
                1 <= width <= 8,
        ;
        self.lanes * width
    }

    /// Whether a plane of a frame with this format and this number of
    /// channels may be read as items of this shape.
    pub fn is_valid(&self, format: sample::Sample, channels: u16) -> (valid: bool)
        ensures
            valid == self.valid(format, channels),
    {
        if self.lanes == 1 {
            match (self.element, format) {
                (Element::U8, sample::Sample::U8(_)) => true,
                (Element::I16, sample::Sample::I16(_)) => true,
                (Element::I32, sample::Sample::I32(_)) => true,
                (Element::F32, sample::Sample::F32(_)) => true,
                (Element::F64, sample::Sample::F64(_)) => true,
                _ => false,
            }
        } else {
            let fits = match (self.element, format) {
                (Element::U8, sample::Sample::U8(Type::Packed)) => true,
                (Element::I16, sample::Sample::I16(Type::Packed)) => true,
                (Element::I32, sample::Sample::I32(Type::Packed)) => true,
                (Element::F32, sample::Sample::F32(Type::Packed)) => true,
                (Element::F64, sample::Sample::F64(Type::Packed)) => true,
                _ => false,
            };
            fits && channels as usize == self.lanes
        }
    }
}

/// The number of planes of a frame with this content: none without a buffer,
/// one for a packed format, one for each channel otherwise.
pub open spec fn planes_of(content: ContentView) -> usize {
    if content.linesize.len() == 0 || content.linesize[0] == 0 {
        0
    } else if content.format.arrangement() == Some(Type::Packed) {
        1
    } else {
        (content.channels as u16) as usize
    }
}

/// Whether the bytes of plane `index` can be handed out: the plane exists,
/// and its buffer is as long as the engine declares.
pub open spec fn holds(content: ContentView, index: usize) -> bool {
    &&& index < planes_of(content)
    &&& index < content.data.len()
    &&& index < content.linesize.len()
    &&& 0 <= content.linesize[index as int] <= content.data[index as int].len()
}

/// Whether plane `index` can be read as items of the shape `shape`: the
/// plane exists, the shape fits the declared format and channels, and the
/// buffer holds one item for each sample.
pub open spec fn serves(content: ContentView, index: usize, shape: Sample) -> bool {
    &&& shape.wf()
    &&& index < planes_of(content)
    &&& shape.valid(content.format, content.channels as u16)
    &&& index < content.data.len()
    &&& (content.samples as usize) * shape.spec_bytes() <= content.data[index as int].len()
}

/// Whether `after` is `before` with the bytes of plane `index` replaced by
/// `bytes`, and nothing else changed.
pub open spec fn rewritten(
    before: ContentView,
    after: ContentView,
    index: usize,
    bytes: Seq<u8>,
) -> bool {
    &&& after.format == before.format
    &&& after.channel_layout == before.channel_layout
    &&& after.channels == before.channels
    &&& after.sample_rate == before.sample_rate
    &&& after.samples == before.samples
    &&& after.linesize == before.linesize
    &&& after.data =~= before.data.update(index as int, bytes)
}

/// What the engine made when asked for the buffers of a frame.
#[derive(Clone, Debug, PartialEq, Eq)]
pub struct Buffers {
    pub channels: i32,
    pub linesize: Vec<i32>,
    pub data: Vec<Vec<u8>>,
}

/// The audio frame.
#[derive(Debug)]
pub struct Audio(pub Frame);

impl View for Audio {
    type V = ContentView;

    open spec fn view(&self) -> ContentView {
        self.0@
    }
}

impl Audio {
    /// Whether this is the end-of-stream sentinel.
    pub open spec fn spec_is_sentinel(&self) -> bool {
        self.0.spec_is_sentinel()
    }

    /// Whether this is the end-of-stream sentinel.
    #[verifier::when_used_as_spec(spec_is_sentinel)]
    pub fn is_sentinel(&self) -> (sentinel: bool)
        ensures
            sentinel == self.spec_is_sentinel(),
    {
        self.0.is_sentinel()
    }

    /// An audio frame on the engine's frame at `address`, which someone else
    /// owns. On the null address this is the end-of-stream sentinel.
    pub fn wrap(address: usize, content: Content) -> (frame: Audio)
        ensures
            frame.0.spec_content() == content,
            frame.0.handle().spec_address() == address,
            frame.0.handle().spec_ownership() == Ownership::Borrowed,
    {
        Audio(Frame::wrap(address, content))
    }

    /// Declares the format, the number of samples and the layout, and takes
    /// the buffers that the engine then made for them, whatever it made: a
    /// failed allocation leaves a frame without planes.
    pub fn allocate(
        &mut self,
        format: sample::Sample,
        samples: usize,
        layout: ChannelLayout,
        buffers: Buffers,
    )
        requires
            !old(self).spec_is_sentinel(),
        ensures
            final(self).0.handle() == old(self).0.handle(),
            final(self).0.spec_content().format == format,
            final(self).0.spec_content().samples == samples as i32,
            final(self).0.spec_content().channel_layout == layout.spec_bits(),
            final(self).0.spec_content().sample_rate == old(self).0.spec_content().sample_rate,
            final(self).0.spec_content().channels == buffers.channels,
            final(self).0.spec_content().linesize == buffers.linesize,
            final(self).0.spec_content().data == buffers.data,
    {
        self.set_format(format);
        self.set_samples(samples);
        self.set_channel_layout(layout);
        self.0.content.channels = buffers.channels;
        self.0.content.linesize = buffers.linesize;
        self.0.content.data = buffers.data;
    }

    /// An audio frame of its own on the engine's frame that was just
    /// allocated at `address`: it declares nothing and has no buffer.
    pub fn empty(address: usize) -> (frame: Audio)
        ensures
            frame@ == ContentView::blank(),
            frame.0.handle().spec_address() == address,
            frame.0.handle().spec_ownership() == Ownership::Owned,
    {
        Audio(Frame::empty(address))
    }

    /// An audio frame of its own with the given format, number of samples and
    /// layout, and with the buffers that the engine made for them.
    pub fn new(
        address: usize,
        format: sample::Sample,
        samples: usize,
        layout: ChannelLayout,
        buffers: Buffers,
    ) -> (frame: Audio)
        requires
            address != 0,
        ensures
            frame.0.handle().spec_address() == address,
            frame.0.handle().spec_ownership() == Ownership::Owned,
            frame.0.spec_content().format == format,
            frame.0.spec_content().samples == samples as i32,
            frame.0.spec_content().channel_layout == layout.spec_bits(),
            frame.0.spec_content().sample_rate == 0,
            frame.0.spec_content().channels == buffers.channels,
            frame.0.spec_content().linesize == buffers.linesize,
            frame.0.spec_content().data == buffers.data,
    {
        let mut frame = Audio::empty(address);
        frame.allocate(format, samples, layout, buffers);
        frame
    }

    /// The declared sample format.
    pub fn format(&self) -> (format: sample::Sample)
        requires
            !self.spec_is_sentinel(),
        ensures
            format == self@.format,
    {
        self.0.content.format
    }

    /// Declares the sample format.
    pub fn set_format(&mut self, value: sample::Sample)
        requires
            !old(self).spec_is_sentinel(),
        ensures
            final(self).0.handle() == old(self).0.handle(),
            final(self).0.spec_content() == (Content { format: value, ..old(self).0.spec_content() }),
    {
        self.0.content.format = value;
    }

    /// The declared channel layout, cut down to the channels that are known.
    pub fn channel_layout(&self) -> (layout: ChannelLayout)
        requires
            !self.spec_is_sentinel(),
        ensures
            layout.spec_bits() == self@.channel_layout & crate::util::channel_layout::ALL,
    {
        ChannelLayout::from_bits_truncate(self.0.content.channel_layout)
    }

    /// Declares the channel layout.
    pub fn set_channel_layout(&mut self, value: ChannelLayout)
        requires
            !old(self).spec_is_sentinel(),
        ensures
            final(self).0.handle() == old(self).0.handle(),
            final(self).0.spec_content() == (Content { channel_layout: value.spec_bits(), ..old(self).0.spec_content() }),
    {
        self.0.content.channel_layout = value.bits();
    }

    /// The number of channels that take part in planes and shapes: the
    /// declared number, cut down to sixteen bits.
    pub open spec fn spec_channels(&self) -> u16 {
        self@.channels as u16
    }

    /// The declared number of channels.
    #[verifier::when_used_as_spec(spec_channels)]
    pub fn channels(&self) -> (channels: u16)
        requires
            !self.spec_is_sentinel(),
        ensures
            channels == self.spec_channels(),
            0 <= self@.channels <= u16::MAX ==> channels == self@.channels,
    {
        #[verifier::truncate]
        (self.0.content.channels as u16)
    }

    /// Declares the number of channels.
    pub fn set_channels(&mut self, value: u16)
        requires
            !old(self).spec_is_sentinel(),
        ensures
            final(self).0.handle() == old(self).0.handle(),
            final(self).0.spec_content() == (Content { channels: value as i32, ..old(self).0.spec_content() }),
    {
        self.0.content.channels = value as i32;
    }

    /// The declared sample rate.
    pub fn rate(&self) -> (rate: u32)
        requires
            !self.spec_is_sentinel(),
        ensures
            rate == self@.sample_rate as u32,
            self@.sample_rate >= 0 ==> rate == self@.sample_rate,
    {
        #[verifier::truncate]
        (self.0.content.sample_rate as u32)
    }

    /// Declares the sample rate.
    pub fn set_rate(&mut self, value: u32)
        requires
            !old(self).spec_is_sentinel(),
        ensures
            final(self).0.handle() == old(self).0.handle(),
            final(self).0.spec_content() == (Content { sample_rate: value as i32, ..old(self).0.spec_content() }),
    {
        self.0.content.sample_rate = #[verifier::truncate]
        (value as i32);
    }

    /// The declared number of samples, as it takes part in the sizes of
    /// planes.
    pub open spec fn spec_samples(&self) -> usize {
        self@.samples as usize
    }

    /// The declared number of samples in each channel.
    #[verifier::when_used_as_spec(spec_samples)]
    pub fn samples(&self) -> (samples: usize)
        requires
            !self.spec_is_sentinel(),
        ensures
            samples == self.spec_samples(),
            self@.samples >= 0 ==> samples == self@.samples,
    {
        #[verifier::truncate]
        (self.0.content.samples as usize)
    }

    /// Declares the number of samples in each channel.
    pub fn set_samples(&mut self, value: usize)
        requires
            !old(self).spec_is_sentinel(),
        ensures
            final(self).0.handle() == old(self).0.handle(),
            final(self).0.spec_content() == (Content { samples: value as i32, ..old(self).0.spec_content() }),
    {
        self.0.content.samples = #[verifier::truncate]
        (value as i32);
    }

    /// Whether each channel has a plane of its own.
    pub fn is_planar(&self) -> (planar: bool)
        requires
            !self.spec_is_sentinel(),
        ensures
            planar == (self@.format.arrangement() == Some(Type::Planar)),
    {
        self.format().is_planar()
    }

    /// Whether the channels are interleaved in one plane.
    pub fn is_packed(&self) -> (packed: bool)
        requires
            !self.spec_is_sentinel(),
        ensures
            packed == (self@.format.arrangement() == Some(Type::Packed)),
    {
        self.format().is_packed()
    }

    /// The number of planes.
    pub open spec fn spec_planes(&self) -> usize {
        planes_of(self@)
    }

    /// The number of planes: none without a buffer, one for a packed format,
    /// one for each channel otherwise.
    #[verifier::when_used_as_spec(spec_planes)]
    pub fn planes(&self) -> (planes: usize)
        requires
            !self.spec_is_sentinel(),
        ensures
            planes == planes_of(self@),
    {
        if self.0.content.linesize.len() == 0 || self.0.content.linesize[0] == 0 {
            return 0;
        }
        if self.is_packed() {
            1
        } else {
            self.channels() as usize
        }
    }

    /// Whether [`Audio::data`] may be called for plane `index`.
    pub fn holds(&self, index: usize) -> (answer: bool)
        requires
            !self.spec_is_sentinel(),
        ensures
            answer == holds(self@, index),
    {
        if index >= self.planes() || index >= self.0.content.data.len() || index
            >= self.0.content.linesize.len() {
            return false;
        }
        let size = self.0.content.linesize[index];
        proof {
            assert(self@.data[index as int] == self.0.content.data@[index as int]@);
        }
        size >= 0 && size as usize <= self.0.content.data[index].len()
    }

    /// Whether [`Audio::plane`] may be called for plane `index` and the shape
    /// `shape`.
    pub fn serves(&self, index: usize, shape: Sample) -> (answer: bool)
        requires
            !self.spec_is_sentinel(),
        ensures
            answer == serves(self@, index, shape),
    {
        proof {
            use_type_invariant(shape);
        }
        if index >= self.planes() || index >= self.0.content.data.len() {
            return false;
        }
        if !shape.is_valid(self.format(), self.channels()) {
            return false;
        }
        proof {
            assert(self@.data[index as int] == self.0.content.data@[index as int]@);
        }
        let samples = self.samples();
        let width = shape.bytes();
        let available = self.0.content.data[index].len();
        proof {
            if samples > available {
                assert(samples * width > available) by (nonlinear_arith)
                    requires
                        samples > available,
                        width >= 1,
                ;
            }
        }
        if samples > available {
            return false;
        }
        match samples.checked_mul(width) {
            Some(needed) => needed <= available,
            None => {
                false
            },
        }
    }

    /// The first `samples()` items of plane `index`, as the bytes that make
    /// them up. Asking for a plane that the frame does not have, or for a
    /// shape that does not fit its format and channels, is an error in the
    /// caller and is ruled out here.
    pub fn plane(&self, index: usize, shape: Sample) -> (bytes: &[u8])
        requires
            !self.spec_is_sentinel(),
            serves(self@, index, shape),
        ensures
            bytes@ == self@.data[index as int].subrange(
                0,
                self.spec_samples() * shape.spec_bytes(),
            ),
            bytes@.len() == self.spec_samples() * shape.spec_bytes(),
    {
        proof {
            assert(self@.data[index as int] == self.0.content.data@[index as int]@);
        }
        let samples = self.samples();
        let width = shape.bytes();
        let available = self.0.content.data[index].len();
        assert(samples * width <= available);
        let needed = samples * width;
        slice_subrange(self.0.content.data[index].as_slice(), 0, needed)
    }

    /// The bytes of plane `index`, as many as the engine declares for it.
    /// Asking for a plane that the frame does not have is an error in the
    /// caller and is ruled out here.
    pub fn data(&self, index: usize) -> (bytes: &[u8])
        requires
            !self.spec_is_sentinel(),
            holds(self@, index),
        ensures
            bytes@ == self@.data[index as int].subrange(0, self@.linesize[index as int] as int),
            bytes@.len() == self@.linesize[index as int],
    {
        proof {
            assert(self@.data[index as int] == self.0.content.data@[index as int]@);
        }
        let size = self.0.content.linesize[index] as usize;
        slice_subrange(self.0.content.data[index].as_slice(), 0, size)
    }

    /// Like [`Audio::plane`], for writing: the bytes that the caller leaves in
    /// the slice are the bytes of the plane afterwards, and nothing else of
    /// the frame changes.
    pub fn plane_mut(&mut self, index: usize, shape: Sample) -> (bytes: &mut [u8])
        requires
            !old(self).spec_is_sentinel(),
            serves(old(self)@, index, shape),
        ensures
            bytes@ == old(self)@.data[index as int].subrange(
                0,
                old(self).spec_samples() * shape.spec_bytes(),
            ),
            final(self).0.handle() == old(self).0.handle(),
            rewritten(
                old(self)@,
                final(self)@,
                index,
                final(bytes)@ + old(self)@.data[index as int].skip(
                    old(self).spec_samples() * shape.spec_bytes(),
                ),
            ),
    {
        proof {
            assert(self@.data[index as int] == self.0.content.data@[index as int]@);
        }
        let samples = self.samples();
        let width = shape.bytes();
        let available = self.0.content.data[index].len();
        assert(samples * width <= available);
        let needed = samples * width;
        let plane = &mut self.0.content.data[index];
        let (head, _tail) = plane.as_mut_slice().split_at_mut(needed);
        head
    }

    /// Like [`Audio::data`], for writing: the bytes that the caller leaves in
    /// the slice are the bytes of the plane afterwards, and nothing else of
    /// the frame changes.
    pub fn data_mut(&mut self, index: usize) -> (bytes: &mut [u8])
        requires
            !old(self).spec_is_sentinel(),
            holds(old(self)@, index),
        ensures
            bytes@ == old(self)@.data[index as int].subrange(
                0,
                old(self)@.linesize[index as int] as int,
            ),
            final(self).0.handle() == old(self).0.handle(),
            rewritten(
                old(self)@,
                final(self)@,
                index,
                final(bytes)@ + old(self)@.data[index as int].skip(
                    old(self)@.linesize[index as int] as int,
                ),
            ),
    {
        proof {
            assert(self@.data[index as int] == self.0.content.data@[index as int]@);
        }
        let size = self.0.content.linesize[index] as usize;
        let plane = &mut self.0.content.data[index];
        let (head, _tail) = plane.as_mut_slice().split_at_mut(size);
        head
    }

    /// An audio frame of its own on the engine's frame that was just
    /// allocated at `address`, holding what this one holds: the same format,
    /// layout and number of samples, and the same bytes in every plane.
    pub fn clone_to(&self, address: usize) -> (frame: Audio)
        requires
            !self.spec_is_sentinel(),
        ensures
            frame@ == self@,
            frame.0.handle().spec_address() == address,
            frame.0.handle().spec_ownership() == Ownership::Owned,
    {
        let mut frame = Audio::empty(address);
        frame.0.content = self.0.content.duplicate();
        frame
    }

    /// Takes over what `source` holds. The handle stays as it was.
    pub fn clone_from(&mut self, source: &Audio)
        requires
            !old(self).spec_is_sentinel(),
            !source.spec_is_sentinel(),
        ensures
            final(self)@ == source@,
            final(self).0.handle() == old(self).0.handle(),
    {
        self.0.content = source.0.content.duplicate();
    }
}

impl From<Frame> for Audio {
    fn from(frame: Frame) -> (audio: Audio) {
        Audio(frame)
    }
}

impl vstd::std_specs::convert::FromSpecImpl<Frame> for Audio {
    open spec fn obeys_from_spec() -> bool {
        true
    }

    open spec fn from_spec(frame: Frame) -> Audio {
        Audio(frame)
    }
}

} // verus!
