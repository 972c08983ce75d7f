//! Tests for key derivation and the wrap/unwrap hierarchy.

use ghostnote_vault::crypto::encrypt;
use ghostnote_vault::errors::VaultError;
use ghostnote_vault::keys::{rewrap_dek, unwrap_dek, wrap_dek, Dek, Kek};

fn salt_of(byte: u8) -> Vec<u8> {
    vec![byte; 32]
}

#[test]
fn derivation_is_deterministic() {
    let salt = salt_of(9);
    let k1 = Kek::derive("hunter2", &salt).expect("derive");
    let k2 = Kek::derive("hunter2", &salt).expect("derive");
    assert_eq!(k1.as_bytes(), k2.as_bytes());
}

#[test]
fn derivation_differs_across_salts() {
    let k1 = Kek::derive("hunter2", &salt_of(1)).expect("derive");
    let k2 = Kek::derive("hunter2", &salt_of(2)).expect("derive");
    assert_ne!(k1.as_bytes(), k2.as_bytes());
}

#[test]
fn derivation_differs_across_passwords() {
    let salt = salt_of(3);
    let k1 = Kek::derive("alpha", &salt).expect("derive");
    let k2 = Kek::derive("beta", &salt).expect("derive");
    assert_ne!(k1.as_bytes(), k2.as_bytes());
}

#[test]
fn empty_password_is_permitted() {
    let kek = Kek::derive("", &salt_of(4)).expect("derive");
    assert_eq!(kek.as_bytes().len(), 32);
}

#[test]
fn wrap_unwrap_roundtrip() {
    let kek = Kek::derive("pw", &salt_of(5)).expect("derive");
    let dek = Dek::generate();
    let wrapped = wrap_dek(&kek, &dek).expect("wrap");
    assert_eq!(wrapped.len(), 60);
    let unwrapped = unwrap_dek(&kek, &wrapped).expect("unwrap");
    assert_eq!(unwrapped.as_bytes(), dek.as_bytes());
}

#[test]
fn unwrap_with_wrong_kek_fails() {
    let kek1 = Kek::derive("pw-one", &salt_of(6)).expect("derive");
    let kek2 = Kek::derive("pw-two", &salt_of(6)).expect("derive");
    let dek = Dek::generate();
    let wrapped = wrap_dek(&kek1, &dek).expect("wrap");
    assert_eq!(
        unwrap_dek(&kek2, &wrapped).err().unwrap(),
        VaultError::AuthenticationFailure
    );
}

#[test]
fn unwrap_rejects_payload_of_wrong_size() {
    let kek = Kek::derive("pw", &salt_of(7)).expect("derive");
    let not_a_key = vec![0u8; 31];
    let blob = encrypt(kek.as_bytes(), &not_a_key).expect("encrypt");
    assert_eq!(unwrap_dek(&kek, &blob).err().unwrap(), VaultError::InvalidKeySize);
}

#[test]
fn rewrap_preserves_item_key() {
    let old_kek = Kek::derive("old", &salt_of(8)).expect("derive");
    let new_kek = Kek::derive("new", &salt_of(9)).expect("derive");
    let dek = Dek::generate();
    let wrapped = wrap_dek(&old_kek, &dek).expect("wrap");
    let rewrapped = rewrap_dek(&old_kek, &new_kek, &wrapped).expect("rewrap");
    let unwrapped = unwrap_dek(&new_kek, &rewrapped).expect("unwrap");
    assert_eq!(unwrapped.as_bytes(), dek.as_bytes());
    assert!(unwrap_dek(&old_kek, &rewrapped).is_err());
}

#[test]
fn dek_from_bytes_keeps_bytes() {
    let bytes: Vec<u8> = (0u8..32).collect();
    let dek = Dek::from_bytes(bytes.clone());
    assert_eq!(dek.as_bytes(), &bytes[..]);
}

#[test]
fn generated_deks_are_distinct() {
    let d1 = Dek::generate();
    let d2 = Dek::generate();
    assert_ne!(d1.as_bytes(), d2.as_bytes());
}

#[test]
fn wipe_zeroes_key_bytes() {
    let mut kek = Kek::derive("to-be-wiped", &salt_of(10)).expect("derive");
    kek.wipe();
    assert!(kek.as_bytes().iter().all(|b| *b == 0));
}
