//! Tests for the authenticated cipher: round-trip, wrong key, nonce
//! freshness, blob layout and failure cases.

use ghostnote_vault::crypto::{decrypt, encrypt, generate_salt};
use ghostnote_vault::errors::VaultError;

fn key_of(byte: u8) -> Vec<u8> {
    vec![byte; 32]
}

#[test]
fn encrypt_decrypt_roundtrip() {
    let key = key_of(7);
    let plaintext = b"attack at dawn".to_vec();
    let blob = encrypt(&key, &plaintext).expect("encrypt");
    let decrypted = decrypt(&key, &blob).expect("decrypt");
    assert_eq!(decrypted, plaintext);
}

#[test]
fn encrypt_decrypt_roundtrip_empty() {
    let key = key_of(0);
    let blob = encrypt(&key, &[]).expect("encrypt");
    assert_eq!(blob.len(), 28);
    let decrypted = decrypt(&key, &blob).expect("decrypt");
    assert!(decrypted.is_empty());
}

#[test]
fn wrong_key_fails_authentication() {
    let k1 = key_of(1);
    let k2 = key_of(2);
    let plaintext = b"secret".to_vec();
    let blob = encrypt(&k1, &plaintext).expect("encrypt");
    let r = decrypt(&k2, &blob);
    assert_eq!(r.unwrap_err(), VaultError::AuthenticationFailure);
}

#[test]
fn nonce_is_fresh_per_call() {
    let key = key_of(3);
    let plaintext = b"same plaintext".to_vec();
    let blob1 = encrypt(&key, &plaintext).expect("encrypt");
    let blob2 = encrypt(&key, &plaintext).expect("encrypt");
    assert_ne!(blob1, blob2);
    assert_ne!(&blob1[..12], &blob2[..12]);
}

#[test]
fn blob_layout_overhead() {
    let key = key_of(4);
    let plaintext = vec![0xAB; 100];
    let blob = encrypt(&key, &plaintext).expect("encrypt");
    assert_eq!(blob.len(), 100 + 12 + 16);
}

#[test]
fn short_blob_fails() {
    let key = key_of(5);
    assert_eq!(
        decrypt(&key, &[1, 2, 3]).unwrap_err(),
        VaultError::AuthenticationFailure
    );
    assert_eq!(decrypt(&key, &[]).unwrap_err(), VaultError::AuthenticationFailure);
}

#[test]
fn corrupted_blob_fails() {
    let key = key_of(6);
    let plaintext = b"intact".to_vec();
    let mut blob = encrypt(&key, &plaintext).expect("encrypt");
    let last = blob.len() - 1;
    blob[last] ^= 0x01;
    assert_eq!(decrypt(&key, &blob).unwrap_err(), VaultError::AuthenticationFailure);
}

#[test]
fn salt_is_32_bytes_and_random() {
    let s1 = generate_salt();
    let s2 = generate_salt();
    assert_eq!(s1.len(), 32);
    assert_eq!(s2.len(), 32);
    assert_ne!(s1, s2);
}
