//! The library's laws, written out as proof functions.
//!
//! Each law relates the contracts of several operations over the spec
//! model they share: [`open_blob`] for the cipher, [`derive_of`] for key
//! derivation, and the state predicates of [`crate::state`].

use vstd::prelude::*;

use crate::crypto::open_blob;
use crate::keys::derive_of;
use crate::recovery::normalize_text;
use crate::state::{
    elapsed_secs, recovery_record_ok, setup_artifacts_ok, unlock_accepts, VaultState,
};

verus! {

/// Round-trip: a blob that `encrypt` produced for a plaintext opens to
/// that plaintext and to nothing else, so `decrypt` under the same key
/// returns exactly it.
pub proof fn lemma_encrypt_decrypt_roundtrip(key: Seq<u8>, blob: Seq<u8>, plaintext: Seq<u8>)
    requires
        open_blob(key, blob) == Some(plaintext),
    ensures
        forall|p: Seq<u8>| open_blob(key, blob) == Some(p) ==> p == plaintext,
{
}

/// Derivation determinism: two keys derived from the same password and
/// salt are equal.
pub proof fn lemma_derive_deterministic(password: Seq<char>, salt: Seq<u8>, k1: Seq<u8>, k2: Seq<u8>)
    requires
        k1 == derive_of(password, salt),
        k2 == derive_of(password, salt),
    ensures
        k1 == k2,
{
}

/// Setup then unlock: the artifacts a successful setup leaves behind are
/// accepted by an unlock attempt with the same password.
pub proof fn lemma_setup_then_unlock(password: Seq<char>, salt: Seq<u8>, verify: Seq<u8>)
    requires
        setup_artifacts_ok(password, salt, verify),
    ensures
        unlock_accepts(password, salt, verify),
{
}

/// Recovery round-trip: the escrow record a successful setup leaves
/// behind opens, under the key derived from the normalized display text
/// of the recovery secret, to exactly the master key setup stored; and
/// whatever key recovery yields from that record unwraps an item key
/// that was wrapped before the recovery.
pub proof fn lemma_recovery_roundtrip(
    display: Seq<char>,
    salt: Seq<u8>,
    record: Seq<u8>,
    kek: Seq<u8>,
    wrapped: Seq<u8>,
    dek: Seq<u8>,
)
    requires
        recovery_record_ok(display, salt, record, kek),
        open_blob(kek, wrapped) == Some(dek),
    ensures
        open_blob(derive_of(normalize_text(display), salt), record) == Some(kek),
        forall|k: Seq<u8>|
            open_blob(derive_of(normalize_text(display), salt), record) == Some(k) ==> open_blob(
                k,
                wrapped,
            ) == Some(dek),
{
}

/// Change-password durability: the artifacts a successful password
/// change produces are accepted by an unlock with the new password, and
/// an item key re-wrapped under the new master key still unwraps to its
/// unchanged value.
pub proof fn lemma_change_password_durability(
    new_password: Seq<char>,
    new_salt: Seq<u8>,
    new_verify: Seq<u8>,
    old_kek: Seq<u8>,
    wrapped: Seq<u8>,
    rewrapped: Seq<u8>,
    dek: Seq<u8>,
)
    requires
        setup_artifacts_ok(new_password, new_salt, new_verify),
        open_blob(old_kek, wrapped) == Some(dek),
        open_blob(derive_of(new_password, new_salt), rewrapped) == Some(dek),
    ensures
        unlock_accepts(new_password, new_salt, new_verify),
        forall|d: Seq<u8>|
            open_blob(derive_of(new_password, new_salt), rewrapped) == Some(d) ==> d == dek,
{
}

/// Auto-lock: with the activity clock at `t0`, a timeout of `timeout`
/// seconds and no intervening activity, the auto-lock threshold is
/// reached at every time at or past `t0 + timeout`.
pub proof fn lemma_auto_lock_threshold(t0: u64, timeout: u64, now: u64)
    requires
        now >= t0 + timeout,
    ensures
        elapsed_secs(now, t0) >= timeout,
{
}

/// The remaining time reaches zero exactly when the auto-lock threshold
/// is reached: `time_until_lock` and `should_lock` agree.
pub proof fn lemma_remaining_zero_iff_threshold(now: u64, last: u64, timeout: u64)
    ensures
        crate::state::remaining_secs(now, last, timeout) == 0 <==> elapsed_secs(now, last)
            >= timeout,
{
}

/// The lock transition, as `VaultState::lock` promises it: the key is
/// gone, everything else is kept.
pub open spec fn lock_transition(pre: VaultState, post: VaultState) -> bool {
    &&& !post.unlocked()
    &&& post.spec_config() == pre.spec_config()
    &&& post.activity() == pre.activity()
    &&& post.timeout() == pre.timeout()
}

/// Idempotent lock: locking is unconditional, and a second lock in a row
/// leaves the vault exactly as the first did — locked, with
/// configuration, activity clock and timeout untouched.
pub proof fn lemma_lock_idempotent(s1: VaultState, s2: VaultState, s3: VaultState)
    requires
        lock_transition(s1, s2),
        lock_transition(s2, s3),
    ensures
        !s2.unlocked(),
        !s3.unlocked(),
        s3.spec_config() == s1.spec_config(),
        s3.activity() == s1.activity(),
        s3.timeout() == s1.timeout(),
{
}

} // verus!
