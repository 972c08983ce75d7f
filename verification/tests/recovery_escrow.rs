//! Tests for the recovery secret's display form and the escrow record.

use ghostnote_vault::errors::VaultError;
use ghostnote_vault::keys::Kek;
use ghostnote_vault::recovery::{RecoveryData, RecoveryKey};

fn salt_of(byte: u8) -> Vec<u8> {
    vec![byte; 32]
}

#[test]
fn generated_secret_is_grouped_base64() {
    let rk = RecoveryKey::generate();
    let display = rk.as_str();
    // 24 encoded characters in 6 groups of 4, joined by 5 dashes.
    assert_eq!(display.len(), 29);
    for (i, c) in display.chars().enumerate() {
        if i % 5 == 4 {
            assert_eq!(c, '-');
        } else {
            assert!(c != '-' && c != ' ');
        }
    }
}

#[test]
fn generated_secrets_are_distinct() {
    let a = RecoveryKey::generate();
    let b = RecoveryKey::generate();
    assert_ne!(a.as_str(), b.as_str());
}

#[test]
fn from_input_strips_dashes_and_spaces() {
    let rk = RecoveryKey::from_input("AB-cd 12--  zZ");
    assert_eq!(rk.as_str(), "ABcd12zZ");
}

#[test]
fn escrow_roundtrip_with_display_form() {
    let salt = salt_of(1);
    let kek = Kek::derive("master-password", &salt).expect("derive");
    let rk = RecoveryKey::generate();
    let record = RecoveryData::create(&kek, &rk, &salt).expect("create");
    let recovered = record.recover_kek(&rk, &salt).expect("recover");
    assert_eq!(recovered.as_bytes(), kek.as_bytes());
}

#[test]
fn escrow_accepts_equivalent_text_forms() {
    let salt = salt_of(2);
    let kek = Kek::derive("master-password", &salt).expect("derive");
    let rk = RecoveryKey::generate();
    let record = RecoveryData::create(&kek, &rk, &salt).expect("create");
    // Type the secret back in without dashes: the same key comes out.
    let typed: String = rk.as_str().chars().filter(|c| *c != '-').collect();
    let typed_rk = RecoveryKey::from_input(&typed);
    let recovered = record.recover_kek(&typed_rk, &salt).expect("recover");
    assert_eq!(recovered.as_bytes(), kek.as_bytes());
}

#[test]
fn escrow_rejects_wrong_secret() {
    let salt = salt_of(3);
    let kek = Kek::derive("master-password", &salt).expect("derive");
    let rk = RecoveryKey::generate();
    let record = RecoveryData::create(&kek, &rk, &salt).expect("create");
    let garbage = RecoveryKey::from_input("not-the-secret-at-all-0000");
    assert_eq!(
        record.recover_kek(&garbage, &salt).err().unwrap(),
        VaultError::AuthenticationFailure
    );
}

#[test]
fn record_bytes_roundtrip() {
    let salt = salt_of(4);
    let kek = Kek::derive("pw", &salt).expect("derive");
    let rk = RecoveryKey::generate();
    let record = RecoveryData::create(&kek, &rk, &salt).expect("create");
    let bytes = record.to_bytes();
    let parsed = RecoveryData::from_bytes(bytes.clone());
    assert_eq!(parsed.kek_bytes, bytes);
    let recovered = parsed.recover_kek(&rk, &salt).expect("recover");
    assert_eq!(recovered.as_bytes(), kek.as_bytes());
}

#[test]
fn corrupted_record_fails_cleanly() {
    let salt = salt_of(5);
    let rk = RecoveryKey::generate();
    let empty = RecoveryData::from_bytes(Vec::new());
    assert_eq!(
        empty.recover_kek(&rk, &salt).err().unwrap(),
        VaultError::AuthenticationFailure
    );
}
