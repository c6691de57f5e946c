//! Parameter sets that describe a coded stream.
use crate::codec::id::Id;
use crate::util::media;
use vstd::prelude::*;

verus! {

/// What a container says of one of its streams: which codec, of which medium.
#[derive(Clone, Copy, Debug, PartialEq, Eq, Structural)]
pub struct Parameters {
    pub medium: media::Type,
    pub id: Id,
}

impl Parameters {
    pub fn new(medium: media::Type, id: Id) -> (parameters: Parameters)
        ensures
            parameters == (Parameters { medium, id }),
    {
        Parameters { medium, id }
    }

    pub fn medium(&self) -> (medium: media::Type)
        ensures
            medium == self.medium,
    {
        self.medium
    }

    pub fn id(&self) -> (id: Id)
        ensures
            id == self.id,
    {
        self.id
    }
}

} // verus!
