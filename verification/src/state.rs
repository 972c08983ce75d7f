//! The vault state machine: UNCONFIGURED, LOCKED and UNLOCKED.
//!
//! A [`VaultState`] holds the in-memory master key (or none, when
//! locked), the layout descriptor and the auto-lock bookkeeping.  All
//! operations work on explicit values: persisted artifacts come in and go
//! out as byte buffers (the storage layer reads and writes them), and the
//! clock comes in as a seconds value, so every decision here is a pure
//! function of its inputs.  Callers that share one `VaultState` across
//! threads guard it with a single lock around each whole operation.

use vstd::prelude::*;

use crate::crypto::open_blob;
use crate::errors::VaultError;
use crate::keys::{derive_of, Kek, PASSWORD_MAX_CHARS};
use crate::recovery::normalize_text;

verus! {

/// Default auto-lock timeout, in seconds.
pub const DEFAULT_LOCK_TIMEOUT_SECS: u64 = 300;

/// Number of bytes in the fixed verification marker.
pub const MARKER_LEN: usize = 16;

/// The fixed marker whose encryption is stored as the verification blob:
/// the bytes of the text `ghostnote-verify`.
pub open spec fn verify_marker() -> Seq<u8> {
    seq![
        103u8,
        104u8,
        111u8,
        115u8,
        116u8,
        110u8,
        111u8,
        116u8,
        101u8,
        45u8,
        118u8,
        101u8,
        114u8,
        105u8,
        102u8,
        121u8,
    ]
}

/// The verification marker as a byte buffer.
pub fn verify_marker_bytes() -> (r: Vec<u8>)
    ensures
        r@ == verify_marker(),
        r@.len() == MARKER_LEN,
{
    let r: Vec<u8> = vec![103, 104, 111, 115, 116, 110, 111, 116, 101, 45, 118, 101, 114, 105, 102, 121];
    proof {
        assert(r@ =~= verify_marker());
    }
    r
}

/// Seconds elapsed from `last` to `now`, clamped at zero for a clock that
/// stepped backwards.
pub open spec fn elapsed_secs(now: u64, last: u64) -> int {
    if now >= last {
        now - last
    } else {
        0
    }
}

/// Seconds left before the auto-lock threshold is reached.
pub open spec fn remaining_secs(now: u64, last: u64, timeout: u64) -> int {
    if elapsed_secs(now, last) >= timeout {
        0
    } else {
        timeout - elapsed_secs(now, last)
    }
}

/// A password is within the derivation algorithm's size cap.
pub open spec fn password_ok(password: Seq<char>) -> bool {
    password.len() <= PASSWORD_MAX_CHARS
}

/// The salt and verification blob a successful setup leaves behind:
/// the blob opens to the marker under the key derived from the password.
pub open spec fn setup_artifacts_ok(password: Seq<char>, salt: Seq<u8>, verify: Seq<u8>) -> bool {
    &&& salt.len() == 32
    &&& open_blob(derive_of(password, salt), verify) == Some(verify_marker())
}

/// An unlock attempt with this password is accepted against these
/// artifacts.
pub open spec fn unlock_accepts(password: Seq<char>, salt: Seq<u8>, verify: Seq<u8>) -> bool {
    &&& salt.len() == 32
    &&& open_blob(derive_of(password, salt), verify) == Some(verify_marker())
}

/// The escrow record opens to the master key `kek` under the key derived
/// from the normalized display text of the recovery secret.
pub open spec fn recovery_record_ok(
    display: Seq<char>,
    salt: Seq<u8>,
    record: Seq<u8>,
    kek: Seq<u8>,
) -> bool {
    open_blob(derive_of(normalize_text(display), salt), record) == Some(kek)
}

/// Where the vault's persisted artifacts live, relative to a base
/// directory: a hidden `.vault` folder with one file per artifact.
pub struct VaultConfig {
    pub vault_dir: String,
    pub salt_path: String,
    pub verify_path: String,
    pub recovery_path: String,
}

impl VaultConfig {
    /// Derive the artifact paths from the base directory.
    pub fn new(base_dir: &str) -> (c: VaultConfig)
        ensures
            c.vault_dir@ == base_dir@ + "/.vault"@,
            c.salt_path@ == c.vault_dir@ + "/salt"@,
            c.verify_path@ == c.vault_dir@ + "/verify"@,
            c.recovery_path@ == c.vault_dir@ + "/recovery.key"@,
    {
        let mut vault_dir = String::from_str(base_dir);
        vault_dir.append("/.vault");
        let mut salt_path = vault_dir.clone();
        salt_path.append("/salt");
        let mut verify_path = vault_dir.clone();
        verify_path.append("/verify");
        let mut recovery_path = vault_dir.clone();
        recovery_path.append("/recovery.key");
        VaultConfig { vault_dir, salt_path, verify_path, recovery_path }
    }
}

impl Clone for VaultConfig {
    /// A clone is equal to the original.
    fn clone(&self) -> (r: Self)
        ensures
            r == *self,
    {
        VaultConfig {
            vault_dir: self.vault_dir.clone(),
            salt_path: self.salt_path.clone(),
            verify_path: self.verify_path.clone(),
            recovery_path: self.recovery_path.clone(),
        }
    }
}

/// What `setup_vault` and `change_password` hand back for durable
/// storage: the three artifact files, as plain bytes.  The caller writes
/// them to the configured paths (temp-then-swap for a password change).
pub struct VaultArtifacts {
    pub salt: Vec<u8>,
    pub verify: Vec<u8>,
    pub recovery: Vec<u8>,
}

/// What `setup_vault` returns to the user: the one-time recovery secret
/// in its display form.
pub struct SetupResult {
    pub recovery_key: String,
}

/// A snapshot of the vault's externally visible state.
pub struct VaultStatus {
    pub initialized: bool,
    pub locked: bool,
    pub timeout_remaining: u64,
}

/// The mutable vault runtime state.
///
/// The master key is held only while unlocked and leaves the struct only
/// through the scoped borrow of [`VaultState::with_kek`]; locking wipes
/// it before release.
pub struct VaultState {
    kek: Option<Kek>,
    config: Option<VaultConfig>,
    last_activity: u64,
    lock_timeout: u64,
}

impl VaultState {
    /// A layout descriptor has been bound.
    pub closed spec fn configured(&self) -> bool {
        self.config is Some
    }

    /// The master key is held in memory.
    pub closed spec fn unlocked(&self) -> bool {
        self.kek is Some
    }

    /// The bytes of the held master key (empty when locked).
    pub closed spec fn kek_view(&self) -> Seq<u8> {
        match self.kek {
            Some(k) => k@,
            None => Seq::empty(),
        }
    }

    /// The bound layout descriptor, if any.
    pub closed spec fn spec_config(&self) -> Option<VaultConfig> {
        self.config
    }

    /// The timestamp (seconds) of the last recorded activity.
    pub closed spec fn activity(&self) -> u64 {
        self.last_activity
    }

    /// The configured auto-lock timeout, in seconds.
    pub closed spec fn timeout(&self) -> u64 {
        self.lock_timeout
    }

    /// A fresh state: unconfigured, locked, default timeout.
    pub fn new() -> (s: VaultState)
        ensures
            !s.configured(),
            !s.unlocked(),
            s.activity() == 0,
            s.timeout() == DEFAULT_LOCK_TIMEOUT_SECS,
    {
        VaultState { kek: None, config: None, last_activity: 0, lock_timeout: DEFAULT_LOCK_TIMEOUT_SECS }
    }

    /// Bind (or replace) the layout descriptor.  Idempotent in effect:
    /// a second call simply replaces the layout.
    pub fn set_config(&mut self, config: VaultConfig)
        ensures
            final(self).spec_config() == Some(config),
            final(self).configured(),
            final(self).unlocked() == old(self).unlocked(),
            final(self).kek_view() == old(self).kek_view(),
            final(self).activity() == old(self).activity(),
            final(self).timeout() == old(self).timeout(),
    {
        self.config = Some(config);
    }

    /// Is the master key currently held?
    pub fn is_unlocked(&self) -> (b: bool)
        ensures
            b == self.unlocked(),
    {
        self.kek.is_some()
    }

    /// Store a master key and reset the activity clock: LOCKED to
    /// UNLOCKED.
    pub fn unlock(&mut self, kek: Kek, now: u64)
        ensures
            final(self).unlocked(),
            final(self).kek_view() == kek@,
            final(self).activity() == now,
            final(self).spec_config() == old(self).spec_config(),
            final(self).timeout() == old(self).timeout(),
    {
        self.kek = Some(kek);
        self.last_activity = now;
    }

    /// Drop the master key: UNLOCKED to LOCKED, unconditionally, so a
    /// second call in a row is harmless.  The key bytes are overwritten
    /// with zeros before the key is released.
    pub fn lock(&mut self)
        ensures
            !final(self).unlocked(),
            final(self).spec_config() == old(self).spec_config(),
            final(self).activity() == old(self).activity(),
            final(self).timeout() == old(self).timeout(),
    {
        match &mut self.kek {
            Some(k) => k.wipe(),
            None => {},
        }
        self.kek = None;
    }

    /// Record user activity: resets the auto-lock clock.
    pub fn touch(&mut self, now: u64)
        ensures
            final(self).activity() == now,
            final(self).unlocked() == old(self).unlocked(),
            final(self).kek_view() == old(self).kek_view(),
            final(self).spec_config() == old(self).spec_config(),
            final(self).timeout() == old(self).timeout(),
    {
        self.last_activity = now;
    }

    /// Reconfigure the inactivity threshold.
    pub fn set_timeout(&mut self, seconds: u64)
        ensures
            final(self).timeout() == seconds,
            final(self).unlocked() == old(self).unlocked(),
            final(self).kek_view() == old(self).kek_view(),
            final(self).spec_config() == old(self).spec_config(),
            final(self).activity() == old(self).activity(),
    {
        self.lock_timeout = seconds;
    }

    /// Seconds left until the auto-lock threshold, clamped at zero.
    pub fn time_until_lock(&self, now: u64) -> (r: u64)
        ensures
            r == remaining_secs(now, self.activity(), self.timeout()),
    {
        let elapsed = if now >= self.last_activity {
            now - self.last_activity
        } else {
            0
        };
        if elapsed >= self.lock_timeout {
            0
        } else {
            self.lock_timeout - elapsed
        }
    }

    /// True exactly when the vault is unlocked and the inactivity
    /// threshold has been reached.
    pub fn should_lock(&self, now: u64) -> (b: bool)
        ensures
            b == (self.unlocked() && elapsed_secs(now, self.activity()) >= self.timeout()),
    {
        let elapsed = if now >= self.last_activity {
            now - self.last_activity
        } else {
            0
        };
        self.kek.is_some() && elapsed >= self.lock_timeout
    }

    /// Run an operation with scoped read access to the master key.
    ///
    /// This is the only way key material leaves the state, and the borrow
    /// cannot outlive the call.  Fails with `VaultLocked` when no key is
    /// held.
    pub fn with_kek<T, F: FnOnce(&Kek) -> Result<T, VaultError>>(&self, f: F) -> (r: Result<
        T,
        VaultError,
    >)
        requires
            forall|k: &Kek| self.unlocked() && k@ == self.kek_view() ==> call_requires(f, (k,)),
        ensures
            !self.unlocked() ==> (r matches Err(e) && e == VaultError::VaultLocked),
            self.unlocked() ==> exists|k: &Kek| k@ == self.kek_view() && call_ensures(f, (k,), r),
    {
        match &self.kek {
            Some(kek) => {
                proof {
                    assert(self.unlocked() && kek@ == self.kek_view());
                    assert(call_requires(f, (kek,)));
                }
                let r = f(kek);
                proof {
                    assert(call_ensures(f, (kek,), r));
                }
                r
            },
            None => Err(VaultError::VaultLocked),
        }
    }

    /// The bound layout descriptor, or `NotConfigured` before any was
    /// set.
    pub fn config(&self) -> (r: Result<VaultConfig, VaultError>)
        ensures
            r is Ok <==> self.configured(),
            r matches Ok(c) ==> self.spec_config() == Some(c),
            r matches Err(e) ==> e == VaultError::NotConfigured,
    {
        match &self.config {
            Some(c) => Ok(c.clone()),
            None => Err(VaultError::NotConfigured),
        }
    }
}

impl Default for VaultState {
    /// Same as [`VaultState::new`].
    fn default() -> (s: VaultState)
        ensures
            !s.configured(),
            !s.unlocked(),
            s.activity() == 0,
            s.timeout() == DEFAULT_LOCK_TIMEOUT_SECS,
    {
        VaultState::new()
    }
}

} // verus!
