//! Encrypted transport handshake and framed message stream for a peer-to-peer
//! node: the Auth/Ack exchange that establishes an authenticated session over a
//! frame conduit, and the message stream/sink that the session exposes once the
//! handshake is complete.

pub mod conduit;
pub mod errors;
pub mod ident;
pub mod key;
pub mod stream;
pub mod values;
pub mod wire;
