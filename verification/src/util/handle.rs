//! The handle on a native resource: where it lives and who releases it.
use vstd::prelude::*;

verus! {

/// A token for the resource that owns a shared native block. Whoever holds
/// it keeps that owner alive.
#[derive(Clone, Copy, Debug, PartialEq, Eq, Structural)]
pub struct Owner {
    address: usize,
}

impl Owner {
    /// The address of the owning resource.
    pub closed spec fn spec_address(self) -> usize {
        self.address
    }

    /// A token for the owner at `address`.
    pub fn new(address: usize) -> (owner: Owner)
        ensures
            owner.spec_address() == address,
    {
        Owner { address }
    }

    /// The address of the owning resource.
    #[verifier::when_used_as_spec(spec_address)]
    pub fn address(self) -> (address: usize)
        ensures
            address == self.spec_address(),
    {
        self.address
    }
}

/// Who is responsible for a native resource.
#[derive(Clone, Copy, Debug, PartialEq, Eq, Structural)]
pub enum Ownership {
    /// This handle releases the resource when it goes.
    Owned,
    /// Another resource owns it; the token keeps that owner alive.
    Shared(Owner),
    /// Someone else owns it and outlives this handle.
    Borrowed,
}

/// What has to happen to the native resource when its handle goes.
#[derive(Clone, Copy, Debug, PartialEq, Eq, Structural)]
pub enum Release {
    /// Run the release routine on the resource at this address.
    Free(usize),
    /// Leave the resource alone: it is not this handle's to release.
    Keep,
}

/// A native resource, known by its address and tagged with its owner.
///
/// A handle cannot be copied. Moving it moves the duty to release, and
/// [`Handle::release`] consumes it, so the release routine of an owned
/// resource is asked for once and never twice.
#[derive(Debug)]
pub struct Handle {
    address: usize,
    ownership: Ownership,
}

impl Handle {
    /// The address of the resource; zero is the null pointer.
    pub closed spec fn spec_address(&self) -> usize {
        self.address
    }

    /// Who is responsible for the resource.
    pub closed spec fn spec_ownership(&self) -> Ownership {
        self.ownership
    }

    /// What [`Handle::release`] answers: the tag decides, the address never.
    pub open spec fn spec_release(&self) -> Release {
        match self.spec_ownership() {
            Ownership::Owned => Release::Free(self.spec_address()),
            _ => Release::Keep,
        }
    }

    /// A handle that owns the resource at `address`.
    pub fn owned(address: usize) -> (handle: Handle)
        ensures
            handle.spec_address() == address,
            handle.spec_ownership() == Ownership::Owned,
    {
        Handle { address, ownership: Ownership::Owned }
    }

    /// A handle on a resource that lives inside `owner`.
    pub fn shared(address: usize, owner: Owner) -> (handle: Handle)
        ensures
            handle.spec_address() == address,
            handle.spec_ownership() == Ownership::Shared(owner),
    {
        Handle { address, ownership: Ownership::Shared(owner) }
    }

    /// A handle on a resource that someone else owns.
    pub fn borrowed(address: usize) -> (handle: Handle)
        ensures
            handle.spec_address() == address,
            handle.spec_ownership() == Ownership::Borrowed,
    {
        Handle { address, ownership: Ownership::Borrowed }
    }

    /// A handle on the resource at `address`: shared when an owner's token
    /// comes with it, owned when none does.
    pub fn wrap(address: usize, owner: Option<Owner>) -> (handle: Handle)
        ensures
            handle.spec_address() == address,
            handle.spec_ownership() == match owner {
                Some(token) => Ownership::Shared(token),
                None => Ownership::Owned,
            },
    {
        match owner {
            Some(token) => Handle::shared(address, token),
            None => Handle::owned(address),
        }
    }

    /// The address of the resource.
    #[verifier::when_used_as_spec(spec_address)]
    pub fn address(&self) -> (address: usize)
        ensures
            address == self.spec_address(),
    {
        self.address
    }

    /// Who is responsible for the resource.
    #[verifier::when_used_as_spec(spec_ownership)]
    pub fn ownership(&self) -> (ownership: Ownership)
        ensures
            ownership == self.spec_ownership(),
    {
        self.ownership
    }

    /// Whether the handle points nowhere.
    pub fn is_null(&self) -> (null: bool)
        ensures
            null == (self.spec_address() == 0),
    {
        self.address == 0
    }

    /// Whether this handle releases the resource when it goes.
    pub fn is_owned(&self) -> (owned: bool)
        ensures
            owned == (self.spec_ownership() == Ownership::Owned),
    {
        match self.ownership {
            Ownership::Owned => true,
            _ => false,
        }
    }

    /// The token of the owner, where the resource is shared.
    pub fn owner(&self) -> (owner: Option<Owner>)
        ensures
            owner == match self.spec_ownership() {
                Ownership::Shared(token) => Some(token),
                _ => None::<Owner>,
            },
    {
        match self.ownership {
            Ownership::Shared(token) => Some(token),
            _ => None,
        }
    }

    /// Gives the handle up and says what is to be done with the resource:
    /// an owned one is to be freed, any other is left to its owner.
    pub fn release(self) -> (release: Release)
        ensures
            release == self.spec_release(),
    {
        match self.ownership {
            Ownership::Owned => Release::Free(self.address),
            _ => Release::Keep,
        }
    }
}

/// A handle that does not own its resource never asks for its release, and an
/// owning one asks for the release of exactly the resource it holds, null or
/// not.
pub proof fn lemma_release_follows_the_tag(handle: Handle)
    ensures
        handle.spec_ownership() == Ownership::Owned ==> handle.spec_release() == Release::Free(
            handle.spec_address(),
        ),
        handle.spec_ownership() != Ownership::Owned ==> handle.spec_release() == Release::Keep,
{
}

} // verus!
