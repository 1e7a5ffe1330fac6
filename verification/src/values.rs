//! Tagged protocol values exchanged during and after the handshake, with their
//! spec-level models.

use vstd::prelude::*;
use crate::ident::PeerId;

verus! {

/// Spec-level model of an ingress protocol value: what the codec decoded,
/// with the peer identity and the payload as plain byte sequences.
pub enum IngressModel {
    Ack,
    AuthReceive(Seq<u8>),
    Message(Seq<u8>),
}

/// Spec-level model of an egress protocol value.
pub enum EgressModel {
    Auth,
    Ack,
    Message(Seq<u8>),
}

/// Protocol value arriving from the peer, produced by the codec:
/// an acknowledgement, the peer's authentication (carrying its identity),
/// or an opaque message payload.
#[derive(Clone, Debug, PartialEq, Eq)]
pub enum IngressECIESValue {
    Ack,
    AuthReceive(PeerId),
    Message(Vec<u8>),
}

/// Protocol value handed to the codec for the peer: our authentication, an
/// acknowledgement, or an opaque message payload.
#[derive(Clone, Debug, PartialEq, Eq)]
pub enum EgressECIESValue {
    Auth,
    Ack,
    Message(Vec<u8>),
}

impl View for IngressECIESValue {
    type V = IngressModel;

    open spec fn view(&self) -> IngressModel {
        match self {
            IngressECIESValue::Ack => IngressModel::Ack,
            IngressECIESValue::AuthReceive(id) => IngressModel::AuthReceive(id@),
            IngressECIESValue::Message(body) => IngressModel::Message(body@),
        }
    }
}

impl View for EgressECIESValue {
    type V = EgressModel;

    open spec fn view(&self) -> EgressModel {
        match self {
            EgressECIESValue::Auth => EgressModel::Auth,
            EgressECIESValue::Ack => EgressModel::Ack,
            EgressECIESValue::Message(body) => EgressModel::Message(body@),
        }
    }
}

/// Model of an optional ingress value, as handed back by a read that may find
/// the stream ended.
pub open spec fn ingress_opt_model(m: Option<IngressECIESValue>) -> Option<IngressModel> {
    match m {
        Some(v) => Some(v@),
        None => None,
    }
}

} // verus!
