//! Key-exchange and identity-layer tests against the real schemes.

use qsh::kex::{KexError, KyberlibKeyExchanger};
use qsh::session::{
    encode_peer_record, generate_identity, parse_peer_record, public_part_of_identity,
    validate_public_key, Fips204Authenticator, ADDR_LEN, PK_LEN, SIG_LEN, SK_LEN,
};

#[test]
fn test_kyberlib_key_exchanger() {
    // Test constructor:
    let mut alice: KyberlibKeyExchanger =
        KyberlibKeyExchanger::new().expect("Failed to create `alice`!");
    let mut bob: KyberlibKeyExchanger = KyberlibKeyExchanger::new().expect("Failed to create `bob`!");
    // Exchange public keys:
    bob.set_remote_pubkey(alice.get_local_pubkey().as_slice()).unwrap();
    alice.set_remote_pubkey(bob.get_local_pubkey().as_slice()).unwrap();
    // Alice is the client. Test `client_init`:
    let client_init: Vec<u8> = alice.client_init().expect("Failed to initialize client `alice`!");
    // Bob is the server. Test `server_init`:
    let server_init: Vec<u8> = bob.server_init(&client_init).expect("Failed to initialize server `bob`!");
    // Check it:
    alice.client_confirm(&server_init).expect("Failed to confirm client `alice`!");
    // Both ends hold the same 32-byte secret.
    assert_eq!(alice.shared_secret(), bob.shared_secret());
    assert_eq!(alice.shared_secret().len(), 32);
}

#[test]
fn kex_rejects_wrong_lengths_and_missing_keys() {
    let mut kex = KyberlibKeyExchanger::new().unwrap();
    // A step needing the peer key fails before the key is set.
    assert_eq!(kex.client_init(), Err(KexError::MissingPeerKey));
    assert_eq!(kex.server_init(&[0u8; qsh::kex::CI_LEN]), Err(KexError::MissingPeerKey));
    // A public key of the wrong length is rejected.
    assert_eq!(kex.set_remote_pubkey(&[0u8; 5]), Err(KexError::BadLength));
    // Now set a plausible key and check the message-length checks.
    let other = KyberlibKeyExchanger::new().unwrap();
    kex.set_remote_pubkey(other.get_local_pubkey().as_slice()).unwrap();
    assert_eq!(kex.server_init(&[0u8; 3]), Err(KexError::BadLength));
    let _offer = kex.client_init().unwrap();
    assert_eq!(kex.client_confirm(&[0u8; 7]), Err(KexError::BadLength));
}

#[test]
fn kex_reports_scheme_lengths() {
    let kex = KyberlibKeyExchanger::new().unwrap();
    assert_eq!(kex.get_public_key_length(), 1184);
    assert_eq!(kex.get_client_init_length(), 2272);
    assert_eq!(kex.get_server_init_length(), 2176);
    assert_eq!(kex.get_local_pubkey().len(), 1184);
}

#[test]
fn test_fips204_authenticator() {
    // One identity per endpoint.
    let alice_blob = generate_identity().expect("keygen failed");
    let bob_blob = generate_identity().expect("keygen failed");
    assert_eq!(alice_blob.len(), SK_LEN + PK_LEN);

    let mut alice = Fips204Authenticator::new(alice_blob.clone()).unwrap();
    let mut bob = Fips204Authenticator::new(bob_blob.clone()).unwrap();

    let alice_addr: u128 = 0x20010db8_00000000_00000000_00000001;
    let bob_addr: u128 = 0x20010db8_00000000_00000000_00000002;

    // Each trusts the other's public key under its address.
    let alice_pk = public_part_of_identity(&alice_blob).unwrap();
    let bob_pk = public_part_of_identity(&bob_blob).unwrap();
    bob.add_peer(alice_addr, alice_pk).unwrap();
    alice.add_peer(bob_addr, bob_pk).unwrap();

    // A signature by Alice verifies at Bob under Alice's address.
    let message = b"transcript bytes";
    let sig = alice.sign(message).expect("signing failed");
    assert_eq!(sig.len(), SIG_LEN);
    assert!(bob.verify(message, alice_addr, &sig));
    // The same signature fails for a different message.
    assert!(!bob.verify(b"other bytes", alice_addr, &sig));
    // A corrupted signature fails.
    let mut bad_sig = sig.clone();
    bad_sig[0] ^= 0x01;
    assert!(!bob.verify(message, alice_addr, &bad_sig));
}

#[test]
fn unknown_peer_never_verifies() {
    let blob = generate_identity().unwrap();
    let mut signer = Fips204Authenticator::new(blob).unwrap();
    let verifier = Fips204Authenticator::new(generate_identity().unwrap()).unwrap();
    let sig = signer.sign(b"hello").unwrap();
    // The verifier's peer table is empty: even a genuine signature is
    // rejected because the peer is unknown.
    assert!(!verifier.verify(b"hello", 1, &sig));
    assert_eq!(verifier.peer_count(), 0);
}

#[test]
fn identity_blob_length_is_checked() {
    assert!(Fips204Authenticator::new(vec![0u8; 10]).is_err());
    assert!(public_part_of_identity(&vec![0u8; SK_LEN]).is_err());
    let blob = generate_identity().unwrap();
    let pk = public_part_of_identity(&blob).unwrap();
    assert_eq!(pk.as_slice(), &blob[SK_LEN..]);
}

#[test]
fn peer_record_round_trip() {
    let blob = generate_identity().unwrap();
    let pk = public_part_of_identity(&blob).unwrap();
    assert!(validate_public_key(&pk));
    let addr: u128 = 0xfe80_0000_0000_0000_0000_0000_0000_0042;
    let record = encode_peer_record(addr, &pk).unwrap();
    assert_eq!(record.len(), ADDR_LEN + PK_LEN);
    let (parsed_addr, parsed_pk) = parse_peer_record(&record).unwrap();
    assert_eq!(parsed_addr, addr);
    assert_eq!(parsed_pk, pk);
    // A truncated record is rejected.
    assert!(parse_peer_record(&record[..record.len() - 1]).is_err());
    // A key of the wrong length cannot be encoded.
    assert!(encode_peer_record(addr, &vec![0u8; 4]).is_err());
    assert!(!validate_public_key(&vec![0u8; 4]));
}
