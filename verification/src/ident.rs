//! Peer identifiers: the fixed-size public identity of a node.

use vstd::prelude::*;

verus! {

/// Fixed-size public identifier of a node. Immutable, compared by value.
#[derive(Clone, Copy, Debug, PartialEq, Eq)]
pub struct PeerId {
    bytes: [u8; 64],
}

impl View for PeerId {
    type V = Seq<u8>;

    closed spec fn view(&self) -> Seq<u8> {
        self.bytes@
    }
}

impl PeerId {
    /// Builds a peer identifier from its raw bytes.
    pub fn new(bytes: [u8; 64]) -> (r: PeerId)
        ensures
            r@ == bytes@,
    {
        PeerId { bytes }
    }

    /// The all-zero placeholder identity, used in an error report when no
    /// remote identity is known yet.
    pub fn zero() -> (r: PeerId)
        ensures
            r@ == Seq::new(64, |i: int| 0u8),
    {
        let bytes: [u8; 64] = [0u8; 64];
        proof {
            assert(bytes@ =~= Seq::new(64, |i: int| 0u8));
        }
        PeerId { bytes }
    }

    /// The raw bytes of the identifier.
    pub fn as_bytes(&self) -> (r: &[u8; 64])
        ensures
            r@ == self@,
    {
        &self.bytes
    }
}

} // verus!
