//! Packets: units of coded data on their way between a container and a codec.
use vstd::prelude::*;

verus! {

/// A unit of compressed data with the index of its stream and its timestamps.
#[derive(Clone, Debug, PartialEq, Eq)]
pub struct Packet {
    pub stream: i32,
    pub pts: Option<i64>,
    pub dts: Option<i64>,
    pub duration: i64,
    pub data: Vec<u8>,
}

impl Packet {
    /// A packet without data, of stream zero, without timestamps.
    pub fn empty() -> (packet: Packet)
        ensures
            packet.stream == 0,
            packet.pts is None,
            packet.dts is None,
            packet.duration == 0,
            packet.data@ == Seq::<u8>::empty(),
    {
        Packet { stream: 0, pts: None, dts: None, duration: 0, data: Vec::new() }
    }

    /// The index of the stream that the packet belongs to, as the engine's
    /// number reads when taken for an index.
    pub open spec fn spec_stream(&self) -> usize {
        self.stream as usize
    }

    /// The index of the stream that the packet belongs to.
    #[verifier::when_used_as_spec(spec_stream)]
    pub fn stream(&self) -> (index: usize)
        ensures
            index == self.spec_stream(),
            self.stream >= 0 ==> index == self.stream,
    {
        #[verifier::truncate]
        (self.stream as usize)
    }

    /// Says which stream the packet belongs to.
    pub fn set_stream(&mut self, index: usize)
        ensures
            *final(self) == (Packet { stream: index as i32, ..*old(self) }),
    {
        self.stream = #[verifier::truncate]
        (index as i32);
    }

    /// The time at which the packet is to be presented.
    pub fn pts(&self) -> (pts: Option<i64>)
        ensures
            pts == self.pts,
    {
        self.pts
    }

    /// The time at which the packet is to be decoded.
    pub fn dts(&self) -> (dts: Option<i64>)
        ensures
            dts == self.dts,
    {
        self.dts
    }

    pub fn duration(&self) -> (duration: i64)
        ensures
            duration == self.duration,
    {
        self.duration
    }

    /// The number of bytes of data.
    pub fn size(&self) -> (size: usize)
        ensures
            size == self.data@.len(),
    {
        self.data.len()
    }

    /// The data, if the packet has any.
    pub fn data(&self) -> (data: Option<&[u8]>)
        ensures
            data is Some <==> self.data@.len() > 0,
            data is Some ==> data->0@ == self.data@,
    {
        if self.data.len() == 0 {
            None
        } else {
            Some(self.data.as_slice())
        }
    }
}

} // verus!
