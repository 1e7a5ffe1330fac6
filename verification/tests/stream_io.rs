//! Established-session behaviour: FIFO ordering, post-handshake protocol
//! violations, forwarded transport failures, and sink flush/close signalling.

use ecies_stream::conduit::{FrameConduit, MemoryConduit};
use ecies_stream::errors::{ECIESError, StreamError, TransportError};
use ecies_stream::ident::PeerId;
use ecies_stream::key::SecretKey;
use ecies_stream::stream::ECIESStream;
use ecies_stream::values::{EgressECIESValue, IngressECIESValue};
use ecies_stream::wire::deliver;

fn a_key() -> SecretKey {
    SecretKey::new([0x33u8; 32])
}

fn b_key() -> SecretKey {
    SecretKey::new([0x44u8; 32])
}

fn a_id() -> PeerId {
    PeerId::new([0x0au8; 64])
}

fn b_id() -> PeerId {
    PeerId::new([0x0bu8; 64])
}

#[test]
fn payloads_arrive_in_order_byte_exact() {
    // Sender side: accept three payloads in order, then flush.
    let transport = MemoryConduit::new(vec![IngressECIESValue::Ack]);
    let mut sender = ECIESStream::connect(transport, a_key(), b_id()).unwrap();
    let m1 = b"first".to_vec();
    let m2 = b"second".to_vec();
    let m3 = vec![0x00u8, 0xff, 0x7f];
    for payload in [m1.clone(), m2.clone(), m3.clone()] {
        sender.poll_ready().unwrap();
        sender.start_send(payload).unwrap();
    }
    sender.poll_flush().unwrap();

    let sender_conduit = sender.into_inner();
    assert_eq!(sender_conduit.flushed_frames(), 4);
    let frames = sender_conduit.sent_frames();
    assert_eq!(frames.len(), 4);
    assert_eq!(frames[0], EgressECIESValue::Auth);

    // Receiver side: the delivered Message frames are observed in the same
    // order, byte for byte.
    let mut inbox = Vec::new();
    for frame in frames {
        inbox.push(deliver(&a_id(), frame.clone()));
    }
    let mut receiver = ECIESStream::incoming(MemoryConduit::new(inbox), b_key()).unwrap();
    assert_eq!(receiver.remote_id(), a_id());
    assert_eq!(receiver.poll_next().unwrap().unwrap(), m1);
    assert_eq!(receiver.poll_next().unwrap().unwrap(), m2);
    assert_eq!(receiver.poll_next().unwrap().unwrap(), m3);
    // Clean end of the sequence afterwards.
    assert!(receiver.poll_next().is_none());
}

#[test]
fn non_message_value_after_handshake_is_a_protocol_error() {
    let auth = deliver(&a_id(), EgressECIESValue::Auth);
    let stray = IngressECIESValue::AuthReceive(a_id());
    let transport = MemoryConduit::new(vec![auth, stray.clone()]);
    let mut session = ECIESStream::incoming(transport, b_key()).unwrap();
    match session.poll_next() {
        Some(Err(StreamError::Protocol(observed))) => assert_eq!(observed, stray),
        _ => panic!("a non-Message value must surface as a protocol error"),
    }

    let transport = MemoryConduit::new(vec![IngressECIESValue::Ack, IngressECIESValue::Ack]);
    let mut session = ECIESStream::connect(transport, a_key(), b_id()).unwrap();
    match session.poll_next() {
        Some(Err(StreamError::Protocol(observed))) => {
            assert_eq!(observed, IngressECIESValue::Ack)
        }
        _ => panic!("a non-Message value must surface as a protocol error"),
    }
}

#[test]
fn transport_failures_are_forwarded_unchanged() {
    // Mid-handshake: the single handshake read fails.
    let mut transport = MemoryConduit::new(vec![IngressECIESValue::Ack]);
    transport.stage_read_failure(0, TransportError::Io);
    match ECIESStream::connect(transport, a_key(), b_id()) {
        Err(ECIESError::Transport(TransportError::Io)) => {}
        _ => panic!("a failed read must surface as a transport error"),
    }

    // Post-handshake: the handshake's read succeeds, the next one reports a
    // decode failure, forwarded unchanged as an item-level error.
    let mut transport = MemoryConduit::new(vec![IngressECIESValue::Ack]);
    transport.stage_read_failure(1, TransportError::Decode);
    let mut session = ECIESStream::connect(transport, a_key(), b_id()).unwrap();
    match session.poll_next() {
        Some(Err(StreamError::Transport(TransportError::Decode))) => {}
        _ => panic!("a failed decode must surface as a transport error"),
    }
}

#[test]
fn close_shuts_the_sink_down() {
    let transport = MemoryConduit::new(vec![IngressECIESValue::Ack]);
    let mut session = ECIESStream::connect(transport, a_key(), b_id()).unwrap();
    session.poll_close().unwrap();
    // No sends are valid afterwards: readiness can no longer be established.
    assert!(session.poll_ready().is_err());
    let conduit = session.into_inner();
    assert!(conduit.write_half_closed());
    assert_eq!(conduit.flushed_frames(), 1);
}

#[test]
fn flush_drives_accepted_frames_out() {
    let transport = MemoryConduit::new(vec![IngressECIESValue::Ack]);
    let mut session = ECIESStream::connect(transport, a_key(), b_id()).unwrap();
    session.poll_ready().unwrap();
    session.start_send(b"queued".to_vec()).unwrap();
    let mut conduit = session.into_inner();
    // The handshake flushed its own frame; the new one is accepted, not yet out.
    assert_eq!(conduit.sent_frames().len(), 2);
    assert_eq!(conduit.flushed_frames(), 1);
    conduit.poll_flush().unwrap();
    assert_eq!(conduit.flushed_frames(), 2);
}
