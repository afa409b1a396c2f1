//! Identities of the parties and records a vesting program refers to.

use vstd::prelude::*;

verus! {

/// A 32-byte identity: an owner, a beneficiary, a treasury or a stored
/// record. The library carries identities through and never interprets them.
#[derive(Clone, Copy, Debug, PartialEq, Eq, Hash)]
pub struct Identity(pub [u8; 32]);

impl View for Identity {
    type V = Seq<u8>;

    open spec fn view(&self) -> Seq<u8> {
        self.0@
    }
}

impl Identity {
    /// Wraps 32 raw bytes.
    pub fn new(bytes: [u8; 32]) -> (id: Identity)
        ensures
            id@ == bytes@,
            id.0 == bytes,
    {
        Identity(bytes)
    }

    /// The 32 raw bytes.
    pub fn to_bytes(&self) -> (bytes: [u8; 32])
        ensures
            bytes@ == self@,
            bytes == self.0,
    {
        self.0
    }
}

} // verus!
