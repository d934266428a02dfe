//! The content hash that identifies an engine object.

use vstd::prelude::*;

verus! {

/// A fixed-size content hash of an engine object (a commit, a tree, a
/// blob). A plain value with no native resource: it is copied freely and
/// carries no destructor obligation. Lookup operations construct it from
/// the bytes the engine wrote; it is opaque to callers beyond those
/// bytes.
#[derive(Clone, Copy, Debug)]
pub struct Oid {
    bytes: [u8; 20],
}

impl View for Oid {
    type V = Seq<u8>;

    closed spec fn view(&self) -> Seq<u8> {
        self.bytes@
    }
}

impl Oid {
    /// Wraps the hash bytes a lookup operation received from the engine.
    pub fn from_bytes(bytes: [u8; 20]) -> (o: Oid)
        ensures
            o@ == bytes@,
    {
        Oid { bytes }
    }

    /// The hash bytes, as the engine wrote them.
    pub fn bytes(&self) -> (b: [u8; 20])
        ensures
            b@ == self@,
    {
        self.bytes
    }
}

} // verus!
