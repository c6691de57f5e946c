//! The streams of a container.
use crate::format::context::input::Input;
use core::marker::PhantomData;
use vstd::prelude::*;

verus! {

/// One stream of an opened source, known by its index in the source's list
/// of streams.
///
/// A stream is borrowed from its source: it cannot be made but by the source
/// or by a walk over its packets, and it cannot be kept beyond the borrow
/// that it was handed out under.
#[derive(Clone, Copy, Debug, PartialEq, Eq)]
pub struct Stream<'a> {
    index: usize,
    context: PhantomData<&'a Input>,
}

impl<'a> Stream<'a> {
    /// The index of the stream in its source.
    pub closed spec fn spec_index(&self) -> usize {
        self.index
    }

    /// The stream with this index.
    pub closed spec fn at(index: usize) -> Stream<'a> {
        Stream { index, context: PhantomData }
    }

    /// A stream is its index and nothing more.
    pub proof fn lemma_at(index: usize)
        ensures
            (#[trigger] Stream::at(index)).spec_index() == index,
    {
    }

    /// Two streams with one index are one stream.
    pub proof fn lemma_same(self, other: Stream<'a>)
        requires
            self.spec_index() == other.spec_index(),
        ensures
            self == other,
    {
    }

    /// The stream with this index, under the borrow of its source that the
    /// caller holds. Only the source and the walk over its packets make
    /// streams.
    pub(crate) fn wrap(index: usize) -> (stream: Stream<'a>)
        ensures
            stream == Stream::at(index),
            stream.spec_index() == index,
    {
        Stream { index, context: PhantomData }
    }

    /// The index of the stream in its source.
    #[verifier::when_used_as_spec(spec_index)]
    pub fn index(&self) -> (index: usize)
        ensures
            index == self.spec_index(),
    {
        self.index
    }
}

} // verus!
