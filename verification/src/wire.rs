//! Model of an honest codec and wire, and the laws that the handshake and
//! the established stream satisfy over it.
//!
//! This library does not implement the cryptographic codec; what matters to
//! this layer is how an honest codec pairs egress with ingress values: the
//! initiator's Auth is observed by the responder as AuthReceive carrying the
//! sender's identity, Ack passes as Ack, and a Message passes with its
//! payload byte for byte.

use vstd::prelude::*;
use crate::ident::PeerId;
use crate::stream::{initiator_accepts, responder_learned};
use crate::values::{EgressECIESValue, EgressModel, IngressECIESValue, IngressModel};

verus! {

/// The ingress value a peer observes for one egress frame sent by `sender`.
pub open spec fn deliver_model(sender: Seq<u8>, v: EgressModel) -> IngressModel {
    match v {
        EgressModel::Auth => IngressModel::AuthReceive(sender),
        EgressModel::Ack => IngressModel::Ack,
        EgressModel::Message(body) => IngressModel::Message(body),
    }
}

/// Frame-by-frame delivery of a whole egress sequence, order preserved.
pub open spec fn deliver_all(sender: Seq<u8>, vs: Seq<EgressModel>) -> Seq<IngressModel> {
    vs.map_values(|v: EgressModel| deliver_model(sender, v))
}

/// The egress frames that a sink produces for a sequence of payloads.
pub open spec fn message_frames(payloads: Seq<Seq<u8>>) -> Seq<EgressModel> {
    payloads.map_values(|body: Seq<u8>| EgressModel::Message(body))
}

/// The payload of a Message frame (and the empty sequence for any other
/// frame, which the established stream rejects instead of yielding).
pub open spec fn message_body(v: IngressModel) -> Seq<u8> {
    match v {
        IngressModel::Message(body) => body,
        _ => Seq::empty(),
    }
}

/// The payloads an established stream yields for a sequence of Message
/// frames, in order.
pub open spec fn message_payloads(vs: Seq<IngressModel>) -> Seq<Seq<u8>> {
    vs.map_values(|v: IngressModel| message_body(v))
}

/// Executable model of the honest codec and wire: the ingress value the peer
/// observes for one egress frame sent by `sender`. Useful for driving a
/// whole paired session through in-memory conduits.
pub fn deliver(sender: &PeerId, v: EgressECIESValue) -> (r: IngressECIESValue)
    ensures
        r@ == deliver_model(sender@, v@),
{
    match v {
        EgressECIESValue::Auth => IngressECIESValue::AuthReceive(*sender),
        EgressECIESValue::Ack => IngressECIESValue::Ack,
        EgressECIESValue::Message(body) => IngressECIESValue::Message(body),
    }
}

/// Law: a correctly paired initiator and responder complete the handshake.
/// The responder accepts the delivery of the initiator's Auth and learns
/// exactly the initiator's identity; the initiator accepts the delivery of
/// the responder's Ack. With `connect`'s and `incoming`'s contracts, both
/// sides construct a session and each reports the other's identity.
pub proof fn lemma_paired_handshake(initiator_id: Seq<u8>, responder_id: Seq<u8>)
    ensures
        responder_learned(Some(deliver_model(initiator_id, EgressModel::Auth)))
            == Some(initiator_id),
        initiator_accepts(Some(deliver_model(responder_id, EgressModel::Ack))),
{
}

/// Law: the initiator accepts nothing but a present Ack; in particular a
/// transport that ends before the handshake completes is rejected.
pub proof fn lemma_initiator_accepts_only_ack(msg: Option<IngressModel>)
    ensures
        initiator_accepts(msg) <==> msg == Some(IngressModel::Ack),
        !initiator_accepts(None::<IngressModel>),
{
}

/// Law: the responder accepts nothing but a present AuthReceive; in
/// particular a transport that ends before the handshake completes is
/// rejected.
pub proof fn lemma_responder_accepts_only_auth(msg: Option<IngressModel>)
    ensures
        (responder_learned(msg) is Some) <==> (msg matches Some(
            IngressModel::AuthReceive(_),
        )),
        responder_learned(None::<IngressModel>) is None,
{
}

/// Law: per-direction FIFO round trip. Payloads accepted by the sink in a
/// given order are delivered by the honest codec as Message frames and
/// observed by the peer's stream in the same order, byte for byte.
pub proof fn lemma_fifo_round_trip(sender: Seq<u8>, payloads: Seq<Seq<u8>>)
    ensures
        deliver_all(sender, message_frames(payloads)).len() == payloads.len(),
        forall|i: int| 0 <= i < payloads.len()
            ==> #[trigger] deliver_all(sender, message_frames(payloads))[i]
                == IngressModel::Message(payloads[i]),
        message_payloads(deliver_all(sender, message_frames(payloads))) == payloads,
{
    let delivered = deliver_all(sender, message_frames(payloads));
    assert forall|i: int| 0 <= i < payloads.len() implies #[trigger] delivered[i]
        == IngressModel::Message(payloads[i]) by {
        assert(message_frames(payloads)[i] == EgressModel::Message(payloads[i]));
    }
    assert(message_payloads(delivered) =~= payloads);
}

} // verus!
