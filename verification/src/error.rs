//! The failure kinds a request can be rejected with.
//!
//! Every handler checks its preconditions in order and aborts the whole
//! request on the first one that fails; no partial effect survives a
//! rejection (the host discards all writes of a failed request).

use vstd::prelude::*;

verus! {

/// Why a request was rejected.
#[derive(Clone, Copy, Debug, PartialEq, Eq, Structural)]
pub enum TodoError {
    /// The request bytes could not be decoded into a known operation,
    /// or the required account handles were not supplied.
    MalformedInstruction,
    /// The owner did not authorize the request.
    MissingSignature,
    /// The supplied allocator handle is not the genuine runtime allocator.
    WrongAllocator,
    /// A supplied handle's address does not equal the re-derived address.
    AddressMismatch,
    /// A handle that must be owned by this program is owned by someone else.
    IllegalOwner,
    /// The record in the region does not have the expected shape or tag.
    TypeMismatch,
    /// The record exists but its initialized flag is not set.
    UninitializedAccount,
    /// The requested item index is not below the owner's current count.
    IndexOutOfRange,
    /// The allocator refused to create a region that already exists.
    AccountAlreadyInUse,
}

} // verus!
