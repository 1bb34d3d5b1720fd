//! Symmetric-layer tests against the real cipher.

use qsh::crypto::{aead_round_trip, AesGcmDecryptor, AesGcmEncryptor, CryptoError};
use qsh::encrypt::AesGcmCrypto;
use qsh::kex::KyberlibKeyExchanger;

/// Runs the double key exchange both endpoints perform, yielding
/// (alice_i, alice_o, bob_i, bob_o) with matching paired secrets.
fn double_kex() -> (
    KyberlibKeyExchanger,
    KyberlibKeyExchanger,
    KyberlibKeyExchanger,
    KyberlibKeyExchanger,
) {
    let mut alice_kex_o = KyberlibKeyExchanger::new().expect("Failed to create Alice in AES-GCM test");
    let mut alice_kex_i = KyberlibKeyExchanger::new().expect("Failed to create Alice in AES-GCM test");
    let mut bob_kex_o = KyberlibKeyExchanger::new().expect("Failed to create Bob in AES-GCM test");
    let mut bob_kex_i = KyberlibKeyExchanger::new().expect("Failed to create Bob in AES-GCM test");

    alice_kex_o
        .set_remote_pubkey(&bob_kex_i.get_local_pubkey())
        .expect("Failed to set Alice's remote pubkey in AES-GCM test");
    alice_kex_i
        .set_remote_pubkey(&bob_kex_o.get_local_pubkey())
        .expect("Failed to set Alice's remote pubkey in AES-GCM test");
    bob_kex_o
        .set_remote_pubkey(&alice_kex_i.get_local_pubkey())
        .expect("Failed to set Bob's remote pubkey in AES-GCM test");
    bob_kex_i
        .set_remote_pubkey(&alice_kex_o.get_local_pubkey())
        .expect("Failed to set Bob's remote pubkey in AES-GCM test");

    let alice_init = alice_kex_o.client_init().expect("Client init failed for Alice in AES-GCM test");
    let bob_init = bob_kex_o.client_init().expect("Client init failed for Bob in AES-GCM test");
    alice_kex_o
        .client_confirm(
            &bob_kex_i.server_init(&alice_init).expect("Server init failed for Bob in AES-GCM test"),
        )
        .expect("Client confirm failed for Alice in AES-GCM test");
    bob_kex_o
        .client_confirm(
            &alice_kex_i.server_init(&bob_init).expect("Server init failed for Bob in AES-GCM test"),
        )
        .expect("Client confirm failed for Bob in AES-GCM test");

    (alice_kex_i, alice_kex_o, bob_kex_i, bob_kex_o)
}

#[test]
fn test_aes_gcm_crypto() {
    let (alice_kex_i, alice_kex_o, bob_kex_i, bob_kex_o) = double_kex();

    let mut alice_en = AesGcmEncryptor::new(alice_kex_o);
    let mut alice_de = AesGcmDecryptor::new(alice_kex_i);
    let mut bob_en = AesGcmEncryptor::new(bob_kex_o);
    let mut bob_de = AesGcmDecryptor::new(bob_kex_i);

    let mut alice_msg: Vec<u8> = b"Hello, Bob!".to_vec();
    let mut bob_response: Vec<u8> = b"Hello, Alice!".to_vec();

    alice_en.encrypt(&mut alice_msg, b"").expect("Failed to encrypt Alice's message in AES-GCM test");
    bob_de.decrypt(&mut alice_msg, b"").expect("Failed to decrypt Alice's message in AES-GCM test");
    assert_eq!(alice_msg, b"Hello, Bob!".to_vec());

    bob_en.encrypt(&mut bob_response, b"").expect("Failed to encrypt Bob's message in AES-GCM test");
    alice_de.decrypt(&mut bob_response, b"").expect("Failed to decrypt Bob's response in AES-GCM test");
    assert_eq!(bob_response, b"Hello, Alice!".to_vec());
}

#[test]
fn qsh_aes_gcm_test_aes_gcm_crypto() {
    let (alice_kex_i, alice_kex_o, bob_kex_i, bob_kex_o) = double_kex();

    let mut alice = AesGcmCrypto::new(alice_kex_i, alice_kex_o);
    let mut bob = AesGcmCrypto::new(bob_kex_i, bob_kex_o);

    let mut alice_msg: Vec<u8> = b"Hello, Bob!".to_vec();
    let mut bob_response: Vec<u8> = b"Hello, Alice!".to_vec();

    alice.encrypt(&mut alice_msg, b"").expect("Failed to encrypt Alice's message in AES-GCM test");
    bob.decrypt(&mut alice_msg, b"").expect("Failed to decrypt Alice's message in AES-GCM test");
    assert_eq!(alice_msg, b"Hello, Bob!".to_vec());

    bob.encrypt(&mut bob_response, b"").expect("Failed to encrypt Bob's message in AES-GCM test");
    alice.decrypt(&mut bob_response, b"").expect("Failed to decrypt Bob's response in AES-GCM test");
    assert_eq!(bob_response, b"Hello, Alice!".to_vec());
}

#[test]
fn aead_round_trip_law_on_values() {
    let key = vec![7u8; 32];
    let payload = b"round trip".to_vec();
    let ad = b"bound data".to_vec();
    let out = aead_round_trip(key, 5, payload.clone(), ad);
    assert_eq!(out, payload);
}

#[test]
fn ciphertext_differs_from_plaintext_and_carries_a_tag() {
    let key = vec![3u8; 32];
    let mut enc = AesGcmEncryptor::with_counter(key.clone(), 0);
    let plain = b"some plaintext".to_vec();
    let mut buf = plain.clone();
    enc.encrypt(&mut buf, b"").unwrap();
    // The tag adds exactly 16 bytes and the body is not the plaintext.
    assert_eq!(buf.len(), plain.len() + 16);
    assert_ne!(&buf[..plain.len()], plain.as_slice());
    // It decrypts back under the matching state.
    let mut dec = AesGcmDecryptor::with_counter(key, 0);
    dec.decrypt(&mut buf, b"").unwrap();
    assert_eq!(buf, plain);
}

#[test]
fn mismatched_counter_fails_decryption() {
    // Swapped or replayed records show up as a nonce mismatch and fail.
    let key = vec![9u8; 32];
    let mut enc = AesGcmEncryptor::with_counter(key.clone(), 0);
    let mut first = b"first".to_vec();
    let mut second = b"second".to_vec();
    enc.encrypt(&mut first, b"").unwrap();
    enc.encrypt(&mut second, b"").unwrap();
    // Delivering the second record first fails authentication.
    let mut dec = AesGcmDecryptor::with_counter(key.clone(), 0);
    let mut swapped = second.clone();
    assert_eq!(dec.decrypt(&mut swapped, b""), Err(CryptoError::CipherFailure));
    // In order, both decrypt.
    let mut dec = AesGcmDecryptor::with_counter(key, 0);
    dec.decrypt(&mut first, b"").unwrap();
    dec.decrypt(&mut second, b"").unwrap();
    assert_eq!(first, b"first".to_vec());
    assert_eq!(second, b"second".to_vec());
}

#[test]
fn nonce_overflow_is_rejected_without_output() {
    // A synthetic counter at the last 96-bit value must refuse to encrypt.
    let limit_minus_one: u128 = (1u128 << 96) - 1;
    let mut enc = AesGcmEncryptor::with_counter(vec![1u8; 32], limit_minus_one);
    let mut buf = b"never sent".to_vec();
    assert_eq!(enc.encrypt(&mut buf, b""), Err(CryptoError::NonceOverflow));
    // The buffer was not touched: no record was emitted.
    assert_eq!(buf, b"never sent".to_vec());
    // The decryption side guards the same way.
    let mut dec = AesGcmDecryptor::with_counter(vec![1u8; 32], limit_minus_one);
    let mut ct = vec![0u8; 32];
    assert_eq!(dec.decrypt(&mut ct, b""), Err(CryptoError::NonceOverflow));
}

#[test]
fn keys_from_two_connections_do_not_mix() {
    // Two independent handshakes yield distinct secrets: a record sealed on
    // one connection fails decryption on the other.
    let (alice_i_1, alice_o_1, bob_i_1, bob_o_1) = double_kex();
    let (_, _, bob_i_2, _) = double_kex();
    assert_ne!(alice_o_1.shared_secret(), bob_i_2.shared_secret());
    let _ = (alice_i_1, bob_o_1);

    let mut enc_1 = AesGcmEncryptor::new(alice_o_1);
    let mut dec_1 = AesGcmDecryptor::new(bob_i_1);
    let mut dec_2 = AesGcmDecryptor::new(bob_i_2);

    let mut record = b"for connection one".to_vec();
    enc_1.encrypt(&mut record, b"").unwrap();
    let mut crossed = record.clone();
    assert_eq!(dec_2.decrypt(&mut crossed, b""), Err(CryptoError::CipherFailure));
    dec_1.decrypt(&mut record, b"").unwrap();
    assert_eq!(record, b"for connection one".to_vec());
}
