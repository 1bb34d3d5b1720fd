//! Record-layer and handshake tests: the full verified pipeline driven as
//! two in-memory endpoints.

use qsh::crypto::Implementation as CryptoImpl;
use qsh::handshake::{Handshake, HandshakeError, HandshakePhase};
use qsh::kex::KyberlibKeyExchanger;
use qsh::record::{
    decode_record_length, record_round_trip, shutdown_after_closed, RecordReceiver, RecordSender,
    TransportError, LEN_PREFIX_LEN,
};
use qsh::session::{generate_identity, public_part_of_identity, Fips204Authenticator};

const ALICE_ADDR: u128 = 0x20010db8_00000000_00000000_000000aa;
const BOB_ADDR: u128 = 0x20010db8_00000000_00000000_000000bb;

/// Drives a full handshake between two in-memory endpoints, including the
/// identity step, and returns each side's record-layer halves:
/// ((alice_send, alice_recv), (bob_send, bob_recv)).
fn connect() -> ((RecordSender, RecordReceiver), (RecordSender, RecordReceiver)) {
    let alice_blob = generate_identity().unwrap();
    let bob_blob = generate_identity().unwrap();
    let mut alice_auth = Fips204Authenticator::new(alice_blob.clone()).unwrap();
    let mut bob_auth = Fips204Authenticator::new(bob_blob.clone()).unwrap();
    alice_auth.add_peer(BOB_ADDR, public_part_of_identity(&bob_blob).unwrap()).unwrap();
    bob_auth.add_peer(ALICE_ADDR, public_part_of_identity(&alice_blob).unwrap()).unwrap();

    let mut alice = Handshake::new(
        KyberlibKeyExchanger::new().unwrap(),
        KyberlibKeyExchanger::new().unwrap(),
    );
    let mut bob = Handshake::new(
        KyberlibKeyExchanger::new().unwrap(),
        KyberlibKeyExchanger::new().unwrap(),
    );

    // First flight: both send (i_pk ‖ o_pk); each reads the peer's pair.
    let alice_flight = alice.send_public_keys();
    let bob_flight = bob.send_public_keys();
    let pk = qsh::kex::PK_LEN;
    alice.receive_public_keys(&bob_flight[..pk], &bob_flight[pk..]).unwrap();
    bob.receive_public_keys(&alice_flight[..pk], &alice_flight[pk..]).unwrap();

    // Offers cross, each side responds, each side completes.
    let alice_offer = alice.send_offer().unwrap();
    let bob_offer = bob.send_offer().unwrap();
    let alice_reply = alice.respond_offer(&bob_offer).unwrap();
    let bob_reply = bob.respond_offer(&alice_offer).unwrap();
    alice.complete(&bob_reply).unwrap();
    bob.complete(&alice_reply).unwrap();

    // Identity step: each signs its transcript, each verifies the peer's.
    let alice_sig = alice.sign_transcript(&mut alice_auth).unwrap();
    let bob_sig = bob.sign_transcript(&mut bob_auth).unwrap();
    alice.verify_peer(&alice_auth, BOB_ADDR, &bob_sig).unwrap();
    bob.verify_peer(&bob_auth, ALICE_ADDR, &alice_sig).unwrap();

    let (alice_enc, alice_dec) = alice.session_keys(&CryptoImpl::AesGcm);
    let (bob_enc, bob_dec) = bob.session_keys(&CryptoImpl::AesGcm);
    (
        (RecordSender::new(alice_enc), RecordReceiver::new(alice_dec)),
        (RecordSender::new(bob_enc), RecordReceiver::new(bob_dec)),
    )
}

/// Carries one wire record to a receiver: splits the length prefix, checks
/// it, and opens the body.
fn deliver(receiver: &mut RecordReceiver, frame: &[u8]) -> Result<Vec<u8>, TransportError> {
    let len = decode_record_length(&frame[..LEN_PREFIX_LEN]);
    let n = receiver.check_length(len)?;
    assert_eq!(frame.len() - LEN_PREFIX_LEN, n);
    receiver.on_record(frame[LEN_PREFIX_LEN..].to_vec())
}

#[test]
fn echo_across_a_connection() {
    // A client sends a message; the server echoes it; the client observes
    // exactly the same bytes.
    let ((mut alice_send, mut alice_recv), (mut bob_send, mut bob_recv)) = connect();
    let message = b"The missile knows where it is at all times".to_vec();

    let frame = alice_send.on_payload(message.clone()).unwrap();
    let at_server = deliver(&mut bob_recv, &frame).unwrap();
    assert_eq!(at_server, message);

    let echo_frame = bob_send.on_payload(at_server).unwrap();
    let back_at_client = deliver(&mut alice_recv, &echo_frame).unwrap();
    assert_eq!(back_at_client, message);
}

#[test]
fn unknown_peer_fails_the_handshake() {
    // Bob's table does not contain Alice: after the key steps, Bob's
    // verification of Alice's signature reports an authentication failure.
    let alice_blob = generate_identity().unwrap();
    let mut alice_auth = Fips204Authenticator::new(alice_blob).unwrap();
    let bob_auth = Fips204Authenticator::new(generate_identity().unwrap()).unwrap();

    let mut alice = Handshake::new(
        KyberlibKeyExchanger::new().unwrap(),
        KyberlibKeyExchanger::new().unwrap(),
    );
    let mut bob = Handshake::new(
        KyberlibKeyExchanger::new().unwrap(),
        KyberlibKeyExchanger::new().unwrap(),
    );
    let alice_flight = alice.send_public_keys();
    let bob_flight = bob.send_public_keys();
    let pk = qsh::kex::PK_LEN;
    alice.receive_public_keys(&bob_flight[..pk], &bob_flight[pk..]).unwrap();
    bob.receive_public_keys(&alice_flight[..pk], &alice_flight[pk..]).unwrap();
    let alice_offer = alice.send_offer().unwrap();
    let bob_offer = bob.send_offer().unwrap();
    let alice_reply = alice.respond_offer(&bob_offer).unwrap();
    let bob_reply = bob.respond_offer(&alice_offer).unwrap();
    alice.complete(&bob_reply).unwrap();
    bob.complete(&alice_reply).unwrap();

    let alice_sig = alice.sign_transcript(&mut alice_auth).unwrap();
    let mut bob_hs = bob;
    bob_hs.sign_transcript(&mut Fips204Authenticator::new(generate_identity().unwrap()).unwrap())
        .unwrap();
    assert_eq!(
        bob_hs.verify_peer(&bob_auth, ALICE_ADDR, &alice_sig),
        Err(HandshakeError::AuthenticationFailure)
    );
    assert_eq!(bob_hs.current_phase(), HandshakePhase::Failed);
}

#[test]
fn tampered_record_tears_the_connection_down() {
    // A man in the middle flips byte 0 of the first ciphertext: the receiver
    // reports a cipher failure and delivers nothing, neither for that record
    // nor for any later one.
    let ((mut alice_send, _), (_, mut bob_recv)) = connect();
    let frame = alice_send.on_payload(b"secret one".to_vec()).unwrap();
    let mut tampered = frame.clone();
    tampered[LEN_PREFIX_LEN] ^= 0x01;
    assert_eq!(deliver(&mut bob_recv, &tampered), Err(TransportError::CipherFailure));
    // A following well-formed record is also refused: the stream is dead.
    let frame2 = alice_send.on_payload(b"secret two".to_vec()).unwrap();
    assert_eq!(deliver(&mut bob_recv, &frame2), Err(TransportError::ConnectionClosed));
}

#[test]
fn tampered_length_is_a_framing_error() {
    // Corrupting the length prefix so it exceeds the sanity cap is fatal.
    let ((mut alice_send, _), (_, mut bob_recv)) = connect();
    let mut frame = alice_send.on_payload(b"payload".to_vec()).unwrap();
    frame[7] = 0xff;
    let len = decode_record_length(&frame[..LEN_PREFIX_LEN]);
    assert_eq!(bob_recv.check_length(len), Err(TransportError::OversizeRecord));
    // Everything after the framing error is refused.
    assert_eq!(bob_recv.on_record(vec![0u8; 32]), Err(TransportError::ConnectionClosed));
}

#[test]
fn swapped_records_fail_authentication() {
    // Two records delivered out of order: the nonce counters disagree, so
    // the first delivery already fails and the connection is torn down.
    let ((mut alice_send, _), (_, mut bob_recv)) = connect();
    let first = alice_send.on_payload(b"first".to_vec()).unwrap();
    let second = alice_send.on_payload(b"second".to_vec()).unwrap();
    assert_eq!(deliver(&mut bob_recv, &second), Err(TransportError::CipherFailure));
    assert_eq!(deliver(&mut bob_recv, &first), Err(TransportError::ConnectionClosed));
}

#[test]
fn graceful_close_after_three_records() {
    // The client sends three records and closes; the server observes all
    // three, in order, and the close is idempotent.
    let ((mut alice_send, _), (_, mut bob_recv)) = connect();
    let payloads: [&[u8]; 3] = [b"one", b"two", b"three"];
    let mut frames = Vec::new();
    for p in payloads.iter() {
        frames.push(alice_send.on_payload(p.to_vec()).unwrap());
    }
    assert!(alice_send.shutdown());
    // Shutting down after the queue is closed is a no-op.
    assert!(!shutdown_after_closed(&mut alice_send));
    for (frame, expected) in frames.iter().zip(payloads.iter()) {
        assert_eq!(deliver(&mut bob_recv, frame).unwrap(), expected.to_vec());
    }
}

#[test]
fn two_connections_on_one_listener_do_not_mix() {
    // Two clients connect one after the other; a record from the first
    // connection fails decryption on the second.
    let ((mut alice_send, _), (_, mut bob_recv_1)) = connect();
    let ((_, _), (_, mut bob_recv_2)) = connect();
    let frame = alice_send.on_payload(b"for the first connection".to_vec()).unwrap();
    assert_eq!(deliver(&mut bob_recv_2, &frame), Err(TransportError::CipherFailure));
    assert_eq!(deliver(&mut bob_recv_1, &frame).unwrap(), b"for the first connection".to_vec());
}

#[test]
fn record_round_trip_law_on_values() {
    let out = record_round_trip(vec![5u8; 32], 17, b"through the record layer".to_vec());
    assert_eq!(out, b"through the record layer".to_vec());
}

#[test]
fn sender_refuses_nonce_overflow_and_oversize() {
    let limit_minus_one: u128 = (1u128 << 96) - 1;
    let enc = qsh::crypto::AesGcmEncryptor::with_counter(vec![2u8; 32], limit_minus_one);
    let mut sender = RecordSender::new(enc);
    assert_eq!(
        sender.on_payload(b"never on the wire".to_vec()),
        Err(TransportError::NonceOverflow)
    );

    let enc = qsh::crypto::AesGcmEncryptor::with_counter(vec![2u8; 32], 0);
    let mut sender = RecordSender::new(enc);
    let oversize = vec![0u8; (qsh::record::MAX_PAYLOAD_LEN + 1) as usize];
    assert_eq!(sender.on_payload(oversize), Err(TransportError::OversizeRecord));
}

#[test]
fn bad_handshake_lengths_are_rejected() {
    let mut hs = Handshake::new(
        KyberlibKeyExchanger::new().unwrap(),
        KyberlibKeyExchanger::new().unwrap(),
    );
    let _ = hs.send_public_keys();
    assert_eq!(
        hs.receive_public_keys(&[0u8; 4], &[0u8; 4]),
        Err(HandshakeError::BadLength)
    );
    assert_eq!(hs.current_phase(), HandshakePhase::Failed);
}

#[test]
fn empty_and_large_payloads_round_trip() {
    // The empty record and a megabyte record both survive the pipeline.
    let out = record_round_trip(vec![8u8; 32], 0, Vec::new());
    assert_eq!(out, Vec::<u8>::new());
    let big = vec![0xabu8; 1 << 20];
    let out = record_round_trip(vec![8u8; 32], 0, big.clone());
    assert_eq!(out, big);
}

#[test]
fn records_in_order_law_on_values() {
    let (first, second) = qsh::record::records_in_order(
        vec![6u8; 32],
        0,
        b"first in".to_vec(),
        b"first out".to_vec(),
    );
    assert_eq!(first, b"first in".to_vec());
    assert_eq!(second, b"first out".to_vec());
}
