//! Typed failures: handshake errors, transport failures, and post-handshake
//! protocol violations. Every malformed input maps to one of these; nothing
//! here panics.

use vstd::prelude::*;
use crate::values::IngressECIESValue;

verus! {

/// Failure of the underlying transport or of the codec's decoding, forwarded
/// to the caller unchanged.
#[derive(Clone, Copy, Debug, PartialEq, Eq, Structural)]
pub enum TransportError {
    /// The byte transport failed.
    Io,
    /// The codec could not decode the incoming bytes.
    Decode,
}

/// Failure of the handshake: no session is constructed.
#[derive(Clone, Debug, PartialEq, Eq)]
pub enum ECIESError {
    /// The local secret key is invalid; rejected before any byte is exchanged.
    InvalidSecretKey,
    /// The peer broke the handshake protocol: `expected` describes the shape
    /// that was awaited, `msg` the value actually observed, or `None` when the
    /// transport ended first.
    InvalidHandshake { expected: IngressECIESValue, msg: Option<IngressECIESValue> },
    /// The transport or the codec failed mid-handshake.
    Transport(TransportError),
}

/// Item-level failure on an established stream.
#[derive(Clone, Debug, PartialEq, Eq)]
pub enum StreamError {
    /// Post-handshake protocol violation: the peer sent the carried
    /// non-Message value on an established session.
    Protocol(IngressECIESValue),
    /// The transport or the codec failed.
    Transport(TransportError),
}

} // verus!
