//! The encrypted session stream: handshake orchestration for both roles over
//! a frame conduit, and the message stream/sink the established session
//! exposes. A session exists only after exactly one successful Auth/Ack
//! exchange matching its role; its remote identity is set at handshake
//! completion and never changes.

use vstd::prelude::*;
use crate::conduit::FrameConduit;
use crate::errors::{ECIESError, StreamError, TransportError};
use crate::ident::PeerId;
use crate::key::SecretKey;
use crate::values::{
    ingress_opt_model, EgressECIESValue, EgressModel, IngressECIESValue, IngressModel,
};

verus! {

/// Whether the initiator's handshake accepts its first ingress value: only a
/// present Ack is accepted.
pub open spec fn initiator_accepts(msg: Option<IngressModel>) -> bool {
    msg matches Some(IngressModel::Ack)
}

/// What the responder's handshake learns from its first ingress value: the
/// sender's identity for a present AuthReceive, nothing for anything else.
pub open spec fn responder_learned(msg: Option<IngressModel>) -> Option<Seq<u8>> {
    match msg {
        Some(IngressModel::AuthReceive(id)) => Some(id),
        _ => None,
    }
}

/// Decides the initiator's handshake outcome from the first ingress value
/// observed after Auth was sent: accepts exactly a present Ack; anything
/// else, or the end of the stream, is reported with the awaited shape and the
/// observed value.
pub fn initiator_accept(msg: Option<IngressECIESValue>) -> (r: Result<(), ECIESError>)
    ensures
        r matches Ok(()) <==> initiator_accepts(ingress_opt_model(msg)),
        r matches Err(e) ==> (e matches ECIESError::InvalidHandshake { expected, msg: m }
            && expected@ is Ack && m == msg),
{
    match msg {
        Some(IngressECIESValue::Ack) => Ok(()),
        other => Err(ECIESError::InvalidHandshake {
            expected: IngressECIESValue::Ack,
            msg: other,
        }),
    }
}

/// Decides the responder's handshake outcome from the unsolicited first
/// ingress value: accepts exactly a present AuthReceive, yielding the remote
/// identity it carries; anything else, or the end of the stream, is reported
/// with the awaited shape — carrying the zero placeholder identity, since
/// none is known yet — and the observed value.
pub fn responder_accept(msg: Option<IngressECIESValue>) -> (r: Result<PeerId, ECIESError>)
    ensures
        match r {
            Ok(pid) => responder_learned(ingress_opt_model(msg)) == Some(pid@),
            Err(e) => responder_learned(ingress_opt_model(msg)) is None
                && (e matches ECIESError::InvalidHandshake { expected, msg: m }
                    && (expected@ matches IngressModel::AuthReceive(z)
                        && z == Seq::new(64, |i: int| 0u8))
                    && m == msg),
        },
{
    match msg {
        Some(IngressECIESValue::AuthReceive(pid)) => Ok(pid),
        other => Err(ECIESError::InvalidHandshake {
            expected: IngressECIESValue::AuthReceive(PeerId::zero()),
            msg: other,
        }),
    }
}

/// An established encrypted session over a frame conduit: the conduit (which
/// owns transport and codec) plus the remote identity negotiated by the
/// handshake. Constructed only by a successful handshake; post-handshake the
/// caller sees only opaque message payloads.
#[derive(Debug)]
pub struct ECIESStream<T> {
    stream: T,
    remote_id: PeerId,
}

impl<T: FrameConduit> ECIESStream<T> {
    /// The conduit the session owns.
    pub closed spec fn conduit(&self) -> T {
        self.stream
    }

    /// The remote identity negotiated at handshake completion.
    pub closed spec fn peer(&self) -> PeerId {
        self.remote_id
    }

    /// Ingress frames the session has not yet read.
    pub open spec fn pending(&self) -> Seq<IngressModel> {
        self.conduit().pending()
    }

    /// Egress frames the session has accepted for sending.
    pub open spec fn sent(&self) -> Seq<EgressModel> {
        self.conduit().sent()
    }

    /// Whether the sink may be offered an item.
    pub open spec fn ready(&self) -> bool {
        self.conduit().ready()
    }

    /// Whether the sink has been closed.
    pub open spec fn is_closed(&self) -> bool {
        self.conduit().is_closed()
    }

    /// Runs the initiator handshake: validates the key, sends exactly one
    /// Auth, awaits exactly one ingress value, and accepts exactly an Ack —
    /// the session then carries the caller-supplied `remote_id`, which Ack
    /// itself does not confirm; binding it cryptographically is the codec's
    /// work, not checked here.
    pub fn connect(transport: T, secret_key: SecretKey, remote_id: PeerId) -> (r: Result<
        ECIESStream<T>,
        ECIESError,
    >)
        ensures
            r matches Err(ECIESError::InvalidSecretKey) <==> !secret_key.valid(),
            match r {
                Ok(sess) => sess.peer()@ == remote_id@
                    && sess.sent() == transport.sent().push(EgressModel::Auth)
                    && sess.conduit().flushed() == sess.sent().len()
                    && transport.pending().len() > 0
                    && initiator_accepts(Some(transport.pending()[0]))
                    && sess.pending() == transport.pending().skip(1)
                    && sess.is_closed() == transport.is_closed(),
                Err(e) => match e {
                    ECIESError::InvalidSecretKey => !secret_key.valid(),
                    ECIESError::InvalidHandshake { expected, msg } => expected@ is Ack
                        && (match msg {
                            Some(v) => transport.pending().len() > 0
                                && v@ == transport.pending()[0]
                                && !initiator_accepts(Some(v@)),
                            None => transport.pending().len() == 0,
                        }),
                    ECIESError::Transport(_) => true,
                },
            },
    {
        if !secret_key.is_valid() {
            return Err(ECIESError::InvalidSecretKey);
        }
        let mut transport = transport;
        match transport.poll_ready() {
            Ok(()) => {}
            Err(e) => {
                return Err(ECIESError::Transport(e));
            }
        }
        match transport.start_send(EgressECIESValue::Auth) {
            Ok(()) => {}
            Err(e) => {
                return Err(ECIESError::Transport(e));
            }
        }
        match transport.poll_flush() {
            Ok(()) => {}
            Err(e) => {
                return Err(ECIESError::Transport(e));
            }
        }
        let msg = match transport.try_next() {
            Ok(m) => m,
            Err(e) => {
                return Err(ECIESError::Transport(e));
            }
        };
        match initiator_accept(msg) {
            Ok(()) => Ok(ECIESStream { stream: transport, remote_id }),
            Err(e) => Err(e),
        }
    }

    /// Runs the responder handshake, the mirror of the initiator's: validates
    /// the key, awaits exactly one ingress value, accepts exactly an
    /// AuthReceive — whose carried identity becomes the session's remote
    /// identity — and then sends exactly one Ack.
    pub fn incoming(transport: T, secret_key: SecretKey) -> (r: Result<
        ECIESStream<T>,
        ECIESError,
    >)
        ensures
            r matches Err(ECIESError::InvalidSecretKey) <==> !secret_key.valid(),
            match r {
                Ok(sess) => transport.pending().len() > 0
                    && responder_learned(Some(transport.pending()[0]))
                        == Some(sess.peer()@)
                    && sess.sent() == transport.sent().push(EgressModel::Ack)
                    && sess.conduit().flushed() == sess.sent().len()
                    && sess.pending() == transport.pending().skip(1)
                    && sess.is_closed() == transport.is_closed(),
                Err(e) => match e {
                    ECIESError::InvalidSecretKey => !secret_key.valid(),
                    ECIESError::InvalidHandshake { expected, msg } => (
                        expected@ matches IngressModel::AuthReceive(z)
                            && z == Seq::new(64, |i: int| 0u8)
                    ) && (match msg {
                        Some(v) => transport.pending().len() > 0
                            && v@ == transport.pending()[0]
                            && responder_learned(Some(v@)) is None,
                        None => transport.pending().len() == 0,
                    }),
                    ECIESError::Transport(_) => true,
                },
            },
    {
        if !secret_key.is_valid() {
            return Err(ECIESError::InvalidSecretKey);
        }
        let mut transport = transport;
        let msg = match transport.try_next() {
            Ok(m) => m,
            Err(e) => {
                return Err(ECIESError::Transport(e));
            }
        };
        let remote_id = match responder_accept(msg) {
            Ok(pid) => pid,
            Err(e) => {
                return Err(e);
            }
        };
        match transport.poll_ready() {
            Ok(()) => {}
            Err(e) => {
                return Err(ECIESError::Transport(e));
            }
        }
        match transport.start_send(EgressECIESValue::Ack) {
            Ok(()) => {}
            Err(e) => {
                return Err(ECIESError::Transport(e));
            }
        }
        match transport.poll_flush() {
            Ok(()) => {}
            Err(e) => {
                return Err(ECIESError::Transport(e));
            }
        }
        Ok(ECIESStream { stream: transport, remote_id })
    }

    /// The remote identity, fixed at handshake completion.
    pub fn remote_id(&self) -> (r: PeerId)
        ensures
            r == self.peer(),
    {
        self.remote_id
    }

    /// Yields the next message payload of the established session: the body
    /// of the oldest pending Message frame, `None` at the clean end of the
    /// sequence, a protocol error carrying any other frame — the sequence
    /// should be treated as terminal afterwards — or a transport/decode
    /// failure forwarded unchanged.
    pub fn poll_next(&mut self) -> (r: Option<Result<Vec<u8>, StreamError>>)
        ensures
            final(self).peer() == old(self).peer(),
            final(self).sent() == old(self).sent(),
            final(self).conduit().flushed() == old(self).conduit().flushed(),
            final(self).is_closed() == old(self).is_closed(),
            match r {
                Some(Ok(body)) => old(self).pending().len() > 0
                    && (old(self).pending()[0] matches IngressModel::Message(b)
                        && body@ == b)
                    && final(self).pending() == old(self).pending().skip(1),
                Some(Err(StreamError::Protocol(v))) => old(self).pending().len() > 0
                    && v@ == old(self).pending()[0]
                    && !(v@ is Message)
                    && final(self).pending() == old(self).pending().skip(1),
                Some(Err(StreamError::Transport(_))) => final(self).pending()
                    == old(self).pending(),
                None => old(self).pending().len() == 0
                    && final(self).pending() == old(self).pending(),
            },
    {
        match self.stream.try_next() {
            Ok(Some(IngressECIESValue::Message(body))) => Some(Ok(body)),
            Ok(Some(other)) => Some(Err(StreamError::Protocol(other))),
            Ok(None) => None,
            Err(e) => Some(Err(StreamError::Transport(e))),
        }
    }

    /// Polls the sink for readiness; must succeed before each item offer.
    pub fn poll_ready(&mut self) -> (r: Result<(), TransportError>)
        ensures
            final(self).peer() == old(self).peer(),
            final(self).pending() == old(self).pending(),
            final(self).sent() == old(self).sent(),
            final(self).conduit().flushed() == old(self).conduit().flushed(),
            final(self).is_closed() == old(self).is_closed(),
            r matches Ok(()) ==> final(self).ready() && !final(self).is_closed(),
    {
        self.stream.poll_ready()
    }

    /// Accepts one payload into the sink, wrapped as a Message frame — the
    /// only value-add of this layer; no buffering, no reordering. Acceptance
    /// does not guarantee transmission: flush for that.
    pub fn start_send(&mut self, item: Vec<u8>) -> (r: Result<(), TransportError>)
        requires
            old(self).ready(),
            !old(self).is_closed(),
        ensures
            final(self).peer() == old(self).peer(),
            final(self).pending() == old(self).pending(),
            final(self).conduit().flushed() == old(self).conduit().flushed(),
            final(self).is_closed() == old(self).is_closed(),
            match r {
                Ok(()) => final(self).sent()
                    == old(self).sent().push(EgressModel::Message(item@)),
                Err(_) => final(self).sent() == old(self).sent(),
            },
    {
        self.stream.start_send(EgressECIESValue::Message(item))
    }

    /// Drives every accepted frame out: needed before delivery ordering is
    /// visible to the peer.
    pub fn poll_flush(&mut self) -> (r: Result<(), TransportError>)
        ensures
            final(self).peer() == old(self).peer(),
            final(self).pending() == old(self).pending(),
            final(self).sent() == old(self).sent(),
            final(self).is_closed() == old(self).is_closed(),
            r matches Ok(()) ==> final(self).conduit().flushed()
                == final(self).sent().len(),
    {
        self.stream.poll_flush()
    }

    /// Performs orderly shutdown of the sink; no sends are valid afterwards.
    pub fn poll_close(&mut self) -> (r: Result<(), TransportError>)
        ensures
            final(self).peer() == old(self).peer(),
            final(self).pending() == old(self).pending(),
            final(self).sent() == old(self).sent(),
            r matches Ok(()) ==> final(self).is_closed()
                && final(self).conduit().flushed() == final(self).sent().len(),
    {
        self.stream.poll_close()
    }

    /// Gives the conduit back, ending the session.
    pub fn into_inner(self) -> (r: T)
        ensures
            r == self.conduit(),
    {
        self.stream
    }
}

} // verus!
