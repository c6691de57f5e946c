//! Descriptors of the codecs that the engine offers.
use crate::codec::id::Id;
use crate::util::media;
use vstd::prelude::*;

verus! {

/// What the engine declares of one of its codecs. The descriptor belongs to
/// the engine and is never released.
#[derive(Clone, Copy, Debug, PartialEq, Eq, Structural)]
pub struct Codec {
    pub address: usize,
    pub id: Id,
    pub medium: media::Type,
    pub decodes: bool,
    pub encodes: bool,
}

impl Codec {
    /// The descriptor found at `address`.
    pub fn wrap(address: usize, id: Id, medium: media::Type, decodes: bool, encodes: bool) -> (codec:
        Codec)
        ensures
            codec == (Codec { address, id, medium, decodes, encodes }),
    {
        Codec { address, id, medium, decodes, encodes }
    }

    /// Where the engine keeps the descriptor.
    pub fn as_ptr(&self) -> (address: usize)
        ensures
            address == self.address,
    {
        self.address
    }

    /// Whether the codec can decode.
    pub fn is_decoder(&self) -> (decodes: bool)
        ensures
            decodes == self.decodes,
    {
        self.decodes
    }

    /// Whether the codec can encode.
    pub fn is_encoder(&self) -> (encodes: bool)
        ensures
            encodes == self.encodes,
    {
        self.encodes
    }

    pub fn id(&self) -> (id: Id)
        ensures
            id == self.id,
    {
        self.id
    }

    pub fn medium(&self) -> (medium: media::Type)
        ensures
            medium == self.medium,
    {
        self.medium
    }
}

} // verus!
