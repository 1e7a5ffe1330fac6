//! The framed duplex adapter boundary: a conduit of typed protocol values.
//!
//! A conduit stands for "byte transport + codec": a lazy producer of decoded
//! ingress values and an acceptor of egress values with explicit
//! ready/flush/close signalling. The session stream is verified against this
//! contract alone; an in-memory conduit below implements it for exercising
//! whole sessions without a network.

use vstd::prelude::*;
use crate::errors::TransportError;
use crate::values::{EgressECIESValue, EgressModel, IngressECIESValue, IngressModel};

verus! {

/// A duplex sequence of typed protocol values over some byte transport and
/// codec. Each direction is FIFO: reads consume `pending` from the front,
/// accepted writes extend `sent` at the back, and `flushed` counts how many
/// accepted frames have reached the wire.
pub trait FrameConduit: Sized {
    /// Decoded ingress frames available to this side, oldest first.
    spec fn pending(&self) -> Seq<IngressModel>;

    /// Egress frames accepted into the write path, oldest first.
    spec fn sent(&self) -> Seq<EgressModel>;

    /// How many of the accepted egress frames have been flushed to the wire.
    spec fn flushed(&self) -> nat;

    /// Whether the write half can accept one frame without buffering beyond
    /// its bounds; established by a successful readiness poll.
    spec fn ready(&self) -> bool;

    /// Whether the write half has been shut down.
    spec fn is_closed(&self) -> bool;

    /// Reads the next decoded ingress frame: the oldest pending frame, the
    /// end of the incoming stream, or a transport/decode failure.
    fn try_next(&mut self) -> (r: Result<Option<IngressECIESValue>, TransportError>)
        ensures
            final(self).sent() == old(self).sent(),
            final(self).flushed() == old(self).flushed(),
            final(self).is_closed() == old(self).is_closed(),
            match r {
                Ok(Some(v)) => old(self).pending().len() > 0 && v@ == old(self).pending()[0]
                    && final(self).pending() == old(self).pending().skip(1),
                Ok(None) => old(self).pending().len() == 0
                    && final(self).pending() == old(self).pending(),
                Err(_) => final(self).pending() == old(self).pending(),
            },
    ;

    /// Polls the write path for readiness; on success one frame may be
    /// offered. Fails once the conduit is closed.
    fn poll_ready(&mut self) -> (r: Result<(), TransportError>)
        ensures
            final(self).pending() == old(self).pending(),
            final(self).sent() == old(self).sent(),
            final(self).flushed() == old(self).flushed(),
            final(self).is_closed() == old(self).is_closed(),
            r matches Ok(()) ==> final(self).ready() && !final(self).is_closed(),
    ;

    /// Accepts one egress frame into the write path. Acceptance does not
    /// guarantee transmission: a flush is needed for that.
    fn start_send(&mut self, v: EgressECIESValue) -> (r: Result<(), TransportError>)
        requires
            old(self).ready(),
            !old(self).is_closed(),
        ensures
            final(self).pending() == old(self).pending(),
            final(self).flushed() == old(self).flushed(),
            final(self).is_closed() == old(self).is_closed(),
            match r {
                Ok(()) => final(self).sent() == old(self).sent().push(v@),
                Err(_) => final(self).sent() == old(self).sent(),
            },
    ;

    /// Drives every accepted frame out to the wire.
    fn poll_flush(&mut self) -> (r: Result<(), TransportError>)
        ensures
            final(self).pending() == old(self).pending(),
            final(self).sent() == old(self).sent(),
            final(self).is_closed() == old(self).is_closed(),
            r matches Ok(()) ==> final(self).flushed() == final(self).sent().len(),
    ;

    /// Flushes and shuts the write half down; no sends are valid afterwards.
    fn poll_close(&mut self) -> (r: Result<(), TransportError>)
        ensures
            final(self).pending() == old(self).pending(),
            final(self).sent() == old(self).sent(),
            r matches Ok(()) ==> final(self).is_closed()
                && final(self).flushed() == final(self).sent().len(),
    ;
}

/// An in-memory conduit: ingress frames are staged up front, egress frames
/// accumulate for inspection, and a failure can be staged for the next read.
/// It exercises whole sessions without a network.
#[derive(Debug)]
pub struct MemoryConduit {
    inbox: Vec<IngressECIESValue>,
    outbox: Vec<EgressECIESValue>,
    flushed_count: usize,
    closed: bool,
    read_fault: Option<(usize, TransportError)>,
}

impl FrameConduit for MemoryConduit {
    closed spec fn pending(&self) -> Seq<IngressModel> {
        self.inbox@.map_values(|v: IngressECIESValue| v@)
    }

    closed spec fn sent(&self) -> Seq<EgressModel> {
        self.outbox@.map_values(|v: EgressECIESValue| v@)
    }

    closed spec fn flushed(&self) -> nat {
        self.flushed_count as nat
    }

    closed spec fn ready(&self) -> bool {
        !self.closed
    }

    closed spec fn is_closed(&self) -> bool {
        self.closed
    }

    fn try_next(&mut self) -> (r: Result<Option<IngressECIESValue>, TransportError>) {
        match self.read_fault {
            Some((reads_left, e)) => {
                if reads_left == 0 {
                    self.read_fault = None;
                    return Err(e);
                }
                self.read_fault = Some((reads_left - 1, e));
            }
            None => {}
        }
        if self.inbox.len() == 0 {
            Ok(None)
        } else {
            let v = self.inbox.remove(0);
            proof {
                assert(old(self).inbox@.map_values(|x: IngressECIESValue| x@)[0]
                    == old(self).inbox@[0]@);
                assert(self.inbox@.map_values(|x: IngressECIESValue| x@)
                    =~= old(self).inbox@.map_values(|x: IngressECIESValue| x@).skip(1));
            }
            Ok(Some(v))
        }
    }

    fn poll_ready(&mut self) -> (r: Result<(), TransportError>) {
        if self.closed {
            Err(TransportError::Io)
        } else {
            Ok(())
        }
    }

    fn start_send(&mut self, v: EgressECIESValue) -> (r: Result<(), TransportError>) {
        self.outbox.push(v);
        proof {
            assert(self.outbox@.map_values(|x: EgressECIESValue| x@)
                =~= old(self).outbox@.map_values(|x: EgressECIESValue| x@).push(v@));
        }
        Ok(())
    }

    fn poll_flush(&mut self) -> (r: Result<(), TransportError>) {
        self.flushed_count = self.outbox.len();
        Ok(())
    }

    fn poll_close(&mut self) -> (r: Result<(), TransportError>) {
        self.flushed_count = self.outbox.len();
        self.closed = true;
        Ok(())
    }
}

impl MemoryConduit {
    /// A conduit whose incoming half will yield `inbox` in order, then end.
    pub fn new(inbox: Vec<IngressECIESValue>) -> (r: MemoryConduit)
        ensures
            r.pending() == inbox@.map_values(|v: IngressECIESValue| v@),
            r.sent() == Seq::<EgressModel>::empty(),
            r.flushed() == 0,
            !r.is_closed(),
            r.ready(),
    {
        let r = MemoryConduit {
            inbox,
            outbox: Vec::new(),
            flushed_count: 0,
            closed: false,
            read_fault: None,
        };
        proof {
            assert(r.outbox@.map_values(|x: EgressECIESValue| x@)
                =~= Seq::<EgressModel>::empty());
        }
        r
    }

    /// Stages a failure: after `reads` more successful reads, the following
    /// read reports `e` instead of a frame.
    pub fn stage_read_failure(&mut self, reads: usize, e: TransportError)
        ensures
            final(self).pending() == old(self).pending(),
            final(self).sent() == old(self).sent(),
            final(self).flushed() == old(self).flushed(),
            final(self).is_closed() == old(self).is_closed(),
    {
        self.read_fault = Some((reads, e));
    }

    /// The egress frames accepted so far, oldest first.
    pub fn sent_frames(&self) -> (r: &Vec<EgressECIESValue>)
        ensures
            r@.map_values(|v: EgressECIESValue| v@) == self.sent(),
    {
        &self.outbox
    }

    /// How many accepted frames have been flushed.
    pub fn flushed_frames(&self) -> (r: usize)
        ensures
            r as nat == self.flushed(),
    {
        self.flushed_count
    }

    /// Whether the write half has been shut down.
    pub fn write_half_closed(&self) -> (r: bool)
        ensures
            r == self.is_closed(),
    {
        self.closed
    }
}

} // verus!
