//! The vault operations: setup, unlock, lock, recovery, password change
//! and status.
//!
//! Each operation takes the persisted artifacts it needs as plain byte
//! buffers and returns the artifacts it produces; the storage layer reads
//! and writes the files at the configured paths and, for a password
//! change, swaps the rewritten artifacts into place atomically.  The
//! clock comes in as a seconds value.

use vstd::prelude::*;

use crate::crypto::{decrypt, encrypt, generate_salt, open_blob, BLOB_OVERHEAD};
use crate::errors::VaultError;
use crate::keys::{derive_of, Kek, KEY_LEN};
use crate::recovery::{normalize_text, RecoveryData, RecoveryKey};
use crate::state::{
    password_ok, recovery_record_ok, setup_artifacts_ok, unlock_accepts, remaining_secs,
    verify_marker_bytes, SetupResult, VaultArtifacts, VaultState, VaultStatus,
    MARKER_LEN,
};

verus! {

/// Byte-for-byte equality of two buffers.
fn bytes_equal(a: &[u8], b: &[u8]) -> (r: bool)
    ensures
        r == (a@ == b@),
{
    if a.len() != b.len() {
        proof {
            assert(a@ != b@);
        }
        return false;
    }
    let n = a.len();
    let mut i: usize = 0;
    while i < n
        invariant
            n == a@.len() == b@.len(),
            i <= n,
            forall|j: int| 0 <= j < i ==> a@[j] == b@[j],
        decreases n - i,
    {
        if a[i] != b[i] {
            return false;
        }
        i += 1;
    }
    proof {
        assert(a@ =~= b@);
    }
    true
}

/// Whether the vault has been initialized, judged from the persisted
/// salt artifact: the storage layer hands in the salt file's contents,
/// or `None` where no such file exists.
pub fn is_vault_initialized(salt_file: &Option<Vec<u8>>) -> (b: bool)
    ensures
        b == (salt_file is Some),
{
    salt_file.is_some()
}

/// Initialize a new vault with a password.
///
/// Generates a fresh salt, derives the master key, builds the
/// verification blob and the recovery escrow record, unlocks the vault
/// and returns the one-time recovery secret together with the three
/// artifacts for durable storage.  Valid only while no persisted salt
/// exists; the storage layer enforces that before calling.
pub fn setup_vault(state: &mut VaultState, password: &str, now: u64) -> (r: Result<
    (SetupResult, VaultArtifacts),
    VaultError,
>)
    ensures
        !old(state).configured() ==> (r matches Err(e) && e == VaultError::NotConfigured),
        old(state).configured() && password_ok(password@) ==> r is Ok,
        r matches Err(_) ==> *final(state) == *old(state),
        r matches Ok(out) ==> {
            &&& setup_artifacts_ok(password@, out.1.salt@, out.1.verify@)
            &&& recovery_record_ok(
                out.0.recovery_key@,
                out.1.salt@,
                out.1.recovery@,
                derive_of(password@, out.1.salt@),
            )
            &&& out.1.verify@.len() == MARKER_LEN + BLOB_OVERHEAD
            &&& out.1.recovery@.len() == KEY_LEN + BLOB_OVERHEAD
            &&& final(state).unlocked()
            &&& final(state).kek_view() == derive_of(password@, out.1.salt@)
            &&& final(state).activity() == now
            &&& final(state).spec_config() == old(state).spec_config()
            &&& final(state).timeout() == old(state).timeout()
        },
{
    match state.config() {
        Ok(_) => {},
        Err(e) => {
            return Err(e);
        },
    }
    let salt = generate_salt();
    let kek = match Kek::derive(password, salt.as_slice()) {
        Ok(k) => k,
        Err(e) => {
            return Err(e);
        },
    };
    let marker = verify_marker_bytes();
    let verify = match encrypt(kek.as_bytes(), marker.as_slice()) {
        Ok(v) => v,
        Err(e) => {
            proof {
                assert(false);
            }
            return Err(e);
        },
    };
    let recovery_key = RecoveryKey::generate();
    let recovery_data = match RecoveryData::create(&kek, &recovery_key, salt.as_slice()) {
        Ok(rd) => rd,
        Err(e) => {
            proof {
                assert(false);
            }
            return Err(e);
        },
    };
    let recovery = recovery_data.to_bytes();
    let display = String::from_str(recovery_key.as_str());
    state.unlock(kek, now);
    Ok((SetupResult { recovery_key: display }, VaultArtifacts { salt, verify, recovery }))
}

/// Unlock the vault with a password, against the persisted salt and
/// verification blob.
///
/// The candidate key is accepted exactly when the blob decrypts to the
/// fixed marker under it; a wrong password, a corrupted blob and a wrong
/// key are indistinguishable and all answer `WrongPassword`.  On failure
/// the state is untouched: the vault stays locked.
pub fn unlock_vault(
    state: &mut VaultState,
    password: &str,
    salt_file: &[u8],
    verify_file: &[u8],
    now: u64,
) -> (r: Result<(), VaultError>)
    ensures
        !old(state).configured() ==> (r matches Err(e) && e == VaultError::NotConfigured),
        old(state).configured() && salt_file@.len() != 32 ==> (r matches Err(e) && e
            == VaultError::StorageFailure),
        old(state).configured() && salt_file@.len() == 32 && password_ok(password@) ==> (r is Ok
            <==> unlock_accepts(password@, salt_file@, verify_file@)),
        old(state).configured() && salt_file@.len() == 32 && password_ok(password@)
            && !unlock_accepts(password@, salt_file@, verify_file@) ==> (r matches Err(e) && e
            == VaultError::WrongPassword),
        r is Ok ==> {
            &&& old(state).configured()
            &&& unlock_accepts(password@, salt_file@, verify_file@)
            &&& final(state).unlocked()
            &&& final(state).kek_view() == derive_of(password@, salt_file@)
            &&& final(state).activity() == now
            &&& final(state).spec_config() == old(state).spec_config()
            &&& final(state).timeout() == old(state).timeout()
        },
        r matches Err(_) ==> *final(state) == *old(state),
{
    match state.config() {
        Ok(_) => {},
        Err(e) => {
            return Err(e);
        },
    }
    if salt_file.len() != 32 {
        return Err(VaultError::StorageFailure);
    }
    let kek = match Kek::derive(password, salt_file) {
        Ok(k) => k,
        Err(e) => {
            return Err(e);
        },
    };
    let decrypted = match decrypt(kek.as_bytes(), verify_file) {
        Ok(p) => p,
        Err(_) => {
            return Err(VaultError::WrongPassword);
        },
    };
    let marker = verify_marker_bytes();
    if !bytes_equal(decrypted.as_slice(), marker.as_slice()) {
        return Err(VaultError::WrongPassword);
    }
    state.unlock(kek, now);
    Ok(())
}

/// Lock the vault: drop the master key, wiping it first.  Harmless when
/// already locked.
pub fn lock_vault(state: &mut VaultState)
    ensures
        !final(state).unlocked(),
        final(state).spec_config() == old(state).spec_config(),
        final(state).activity() == old(state).activity(),
        final(state).timeout() == old(state).timeout(),
{
    state.lock();
}

/// Unlock the vault with a recovery secret, against the persisted salt
/// and escrow record.
///
/// The typed secret is normalized (dashes and spaces stripped) before
/// derivation, so any equivalent textual form works.  A secret that does
/// not open the record answers `WrongRecoverySecret`; a record that opens
/// to a payload of the wrong size answers `InvalidKeySize`.  On failure
/// the state is untouched.
pub fn recover_vault(
    state: &mut VaultState,
    recovery_input: &str,
    salt_file: &[u8],
    recovery_file: &[u8],
    now: u64,
) -> (r: Result<(), VaultError>)
    ensures
        !old(state).configured() ==> (r matches Err(e) && e == VaultError::NotConfigured),
        old(state).configured() && salt_file@.len() != 32 ==> (r matches Err(e) && e
            == VaultError::StorageFailure),
        old(state).configured() && salt_file@.len() == 32 && password_ok(
            normalize_text(recovery_input@),
        ) ==> {
            &&& (r is Ok <==> (open_blob(
                derive_of(normalize_text(recovery_input@), salt_file@),
                recovery_file@,
            ) matches Some(k) && k.len() == KEY_LEN))
            &&& (open_blob(
                derive_of(normalize_text(recovery_input@), salt_file@),
                recovery_file@,
            ) is None ==> (r matches Err(e) && e == VaultError::WrongRecoverySecret))
        },
        r is Ok ==> {
            &&& old(state).configured()
            &&& open_blob(
                derive_of(normalize_text(recovery_input@), salt_file@),
                recovery_file@,
            ) == Some(final(state).kek_view())
            &&& final(state).unlocked()
            &&& final(state).activity() == now
            &&& final(state).spec_config() == old(state).spec_config()
            &&& final(state).timeout() == old(state).timeout()
        },
        r matches Err(_) ==> *final(state) == *old(state),
{
    match state.config() {
        Ok(_) => {},
        Err(e) => {
            return Err(e);
        },
    }
    if salt_file.len() != 32 {
        return Err(VaultError::StorageFailure);
    }
    let recovery_key = RecoveryKey::from_input(recovery_input);
    proof {
        crate::recovery::lemma_normalize_idempotent(recovery_input@);
    }
    let record = RecoveryData::from_bytes(vstd::slice::slice_to_vec(recovery_file));
    let kek = match record.recover_kek(&recovery_key, salt_file) {
        Ok(k) => k,
        Err(e) => {
            if matches!(e, VaultError::AuthenticationFailure) {
                return Err(VaultError::WrongRecoverySecret);
            }
            return Err(e);
        },
    };
    state.unlock(kek, now);
    Ok(())
}

/// Change the vault password: verify the old one, then re-derive under a
/// fresh salt and produce a full new artifact set, including a fresh
/// recovery secret (the old one becomes invalid).
///
/// On any failure the state is untouched and no artifact is produced, so
/// the vault remains openable with the old password; the storage layer
/// writes the new artifacts to temporary locations and swaps them into
/// place only after all succeed.
pub fn change_password(
    state: &mut VaultState,
    old_password: &str,
    new_password: &str,
    salt_file: &[u8],
    verify_file: &[u8],
    now: u64,
) -> (r: Result<(SetupResult, VaultArtifacts), VaultError>)
    ensures
        !old(state).configured() ==> (r matches Err(e) && e == VaultError::NotConfigured),
        old(state).configured() && salt_file@.len() != 32 ==> (r matches Err(e) && e
            == VaultError::StorageFailure),
        old(state).configured() && salt_file@.len() == 32 && password_ok(old_password@)
            && !unlock_accepts(old_password@, salt_file@, verify_file@) ==> (r matches Err(e) && e
            == VaultError::WrongPassword),
        old(state).configured() && salt_file@.len() == 32 && password_ok(old_password@)
            && password_ok(new_password@) && unlock_accepts(old_password@, salt_file@, verify_file@)
            ==> r is Ok,
        r matches Ok(out) ==> {
            &&& unlock_accepts(old_password@, salt_file@, verify_file@)
            &&& setup_artifacts_ok(new_password@, out.1.salt@, out.1.verify@)
            &&& recovery_record_ok(
                out.0.recovery_key@,
                out.1.salt@,
                out.1.recovery@,
                derive_of(new_password@, out.1.salt@),
            )
            &&& final(state).unlocked()
            &&& final(state).kek_view() == derive_of(new_password@, out.1.salt@)
            &&& final(state).activity() == now
            &&& final(state).spec_config() == old(state).spec_config()
            &&& final(state).timeout() == old(state).timeout()
        },
        r matches Err(_) ==> *final(state) == *old(state),
{
    match state.config() {
        Ok(_) => {},
        Err(e) => {
            return Err(e);
        },
    }
    if salt_file.len() != 32 {
        return Err(VaultError::StorageFailure);
    }
    let old_kek = match Kek::derive(old_password, salt_file) {
        Ok(k) => k,
        Err(e) => {
            return Err(e);
        },
    };
    let decrypted = match decrypt(old_kek.as_bytes(), verify_file) {
        Ok(p) => p,
        Err(_) => {
            return Err(VaultError::WrongPassword);
        },
    };
    let marker = verify_marker_bytes();
    if !bytes_equal(decrypted.as_slice(), marker.as_slice()) {
        return Err(VaultError::WrongPassword);
    }
    let new_salt = generate_salt();
    let new_kek = match Kek::derive(new_password, new_salt.as_slice()) {
        Ok(k) => k,
        Err(e) => {
            return Err(e);
        },
    };
    let verify = match encrypt(new_kek.as_bytes(), marker.as_slice()) {
        Ok(v) => v,
        Err(e) => {
            proof {
                assert(false);
            }
            return Err(e);
        },
    };
    let recovery_key = RecoveryKey::generate();
    let recovery_data = match RecoveryData::create(&new_kek, &recovery_key, new_salt.as_slice()) {
        Ok(rd) => rd,
        Err(e) => {
            proof {
                assert(false);
            }
            return Err(e);
        },
    };
    let recovery = recovery_data.to_bytes();
    let display = String::from_str(recovery_key.as_str());
    state.unlock(new_kek, now);
    Ok((SetupResult { recovery_key: display }, VaultArtifacts { salt: new_salt, verify, recovery }))
}

/// A snapshot of the vault's externally visible state: whether it was
/// ever initialized (judged from the persisted salt), whether it is
/// locked, and the seconds left before auto-lock.
pub fn get_vault_status(state: &VaultState, salt_file: &Option<Vec<u8>>, now: u64) -> (r: Result<
    VaultStatus,
    VaultError,
>)
    ensures
        r is Ok <==> state.configured(),
        r matches Err(e) ==> e == VaultError::NotConfigured,
        r matches Ok(st) ==> {
            &&& st.initialized == (salt_file is Some)
            &&& st.locked == !state.unlocked()
            &&& st.timeout_remaining == remaining_secs(now, state.activity(), state.timeout())
        },
{
    match state.config() {
        Ok(_) => {},
        Err(e) => {
            return Err(e);
        },
    }
    Ok(
        VaultStatus {
            initialized: is_vault_initialized(salt_file),
            locked: !state.is_unlocked(),
            timeout_remaining: state.time_until_lock(now),
        },
    )
}

/// Whether the vault has persisted artifacts, behind the configuration
/// check.
pub fn is_vault_setup(state: &VaultState, salt_file: &Option<Vec<u8>>) -> (r: Result<
    bool,
    VaultError,
>)
    ensures
        r is Ok <==> state.configured(),
        r matches Err(e) ==> e == VaultError::NotConfigured,
        r matches Ok(b) ==> b == (salt_file is Some),
{
    match state.config() {
        Ok(_) => {},
        Err(e) => {
            return Err(e);
        },
    }
    Ok(is_vault_initialized(salt_file))
}

/// Record user activity: reset the auto-lock clock.
pub fn vault_activity(state: &mut VaultState, now: u64)
    ensures
        final(state).activity() == now,
        final(state).unlocked() == old(state).unlocked(),
        final(state).kek_view() == old(state).kek_view(),
        final(state).spec_config() == old(state).spec_config(),
        final(state).timeout() == old(state).timeout(),
{
    state.touch(now);
}

} // verus!
