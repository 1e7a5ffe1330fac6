//! Secret-key validity: the range check `[1, order)` and its agreement with
//! the secp256k1 library's own acceptance of key material, plus the
//! fail-before-any-bytes behaviour of both handshake roles.

use ecies_stream::conduit::MemoryConduit;
use ecies_stream::errors::ECIESError;
use ecies_stream::ident::PeerId;
use ecies_stream::key::SecretKey;
use ecies_stream::stream::ECIESStream;
use ecies_stream::values::IngressECIESValue;

const ORDER: [u8; 32] = [
    0xff, 0xff, 0xff, 0xff, 0xff, 0xff, 0xff, 0xff, 0xff, 0xff, 0xff, 0xff, 0xff, 0xff, 0xff,
    0xfe, 0xba, 0xae, 0xdc, 0xe6, 0xaf, 0x48, 0xa0, 0x3b, 0xbf, 0xd2, 0x5e, 0x8c, 0xd0, 0x36,
    0x41, 0x41,
];

fn order_minus_one() -> [u8; 32] {
    let mut bytes = ORDER;
    bytes[31] -= 1;
    bytes
}

fn one() -> [u8; 32] {
    let mut bytes = [0u8; 32];
    bytes[31] = 1;
    bytes
}

#[test]
fn validity_matches_the_secp256k1_library() {
    let cases: [( [u8; 32], bool ); 6] = [
        ([0u8; 32], false),          // zero: below the range
        (one(), true),               // smallest valid value
        ([0x77u8; 32], true),        // an ordinary value well inside the range
        (order_minus_one(), true),   // largest valid value
        (ORDER, false),              // the order itself: out of range
        ([0xffu8; 32], false),       // far above the order
    ];
    for (bytes, expect_valid) in cases {
        assert_eq!(SecretKey::new(bytes).is_valid(), expect_valid);
        assert_eq!(
            secp256k1::SecretKey::from_secret_bytes(bytes).is_ok(),
            expect_valid,
            "disagreement with secp256k1 on {:?}",
            bytes
        );
    }
}

#[test]
fn invalid_key_fails_before_any_bytes() {
    // Initiator: the zero key is rejected with a setup error and nothing is
    // read from or written to the transport — the staged Ack would otherwise
    // have completed the handshake.
    let transport = MemoryConduit::new(vec![IngressECIESValue::Ack]);
    let remote = PeerId::new([0x01u8; 64]);
    match ECIESStream::connect(transport, SecretKey::new([0u8; 32]), remote) {
        Err(ECIESError::InvalidSecretKey) => {}
        _ => panic!("an invalid key must fail the handshake setup"),
    }

    // Responder, with a key at the group order.
    let auth = IngressECIESValue::AuthReceive(remote);
    let transport = MemoryConduit::new(vec![auth]);
    match ECIESStream::incoming(transport, SecretKey::new(ORDER)) {
        Err(ECIESError::InvalidSecretKey) => {}
        _ => panic!("an invalid key must fail the handshake setup"),
    }
}
