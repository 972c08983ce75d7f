//! The two-tier key hierarchy: a password-derived master key (KEK) that
//! wraps per-item data-encryption keys (DEKs).
//!
//! Both key types hold exactly 32 secret bytes.  The master key is derived
//! from a password and a 32-byte salt with Argon2id; the derived bytes are
//! a pure function of those two inputs, named by [`derive_of`].

use vstd::prelude::*;

use crate::crypto::{decrypt, encrypt, open_blob, os_random_bytes, BLOB_OVERHEAD};
use crate::errors::VaultError;

verus! {

/// Argon2id memory cost, in KiB (64 MiB).
pub const ARGON2_M_COST: u32 = 65536;

/// Argon2id time cost (iterations).
pub const ARGON2_T_COST: u32 = 3;

/// Argon2id parallelism (lanes).
pub const ARGON2_P_COST: u32 = 4;

/// Number of bytes in a master key or item key.
pub const KEY_LEN: usize = 32;

/// Passwords of at most this many characters always derive a key.
/// (The algorithm caps password bytes at 2^32 - 1; a character encodes
/// to at most four bytes.)
pub const PASSWORD_MAX_CHARS: usize = 0x3FFF_FFFF;

/// What Argon2id (memory 65536, time 3, parallelism 4, 32-byte output)
/// derives from a password and a 32-byte salt.  A pure function of its
/// two arguments: repeated derivation from the same inputs yields the
/// same key.
pub uninterp spec fn derive_of(password: Seq<char>, salt: Seq<u8>) -> Seq<u8>;

/// Relies on `argon2::Argon2::hash_password_into` with `Algorithm::Argon2id`,
/// `Version::V0x13` and the parameters above: the output is a deterministic
/// function of password and salt alone, and derivation succeeds whenever
/// the password is within the algorithm's byte cap.
#[verifier::external_body]
fn argon2id_derive(password: &str, salt: &[u8]) -> (r: Result<Vec<u8>, ()>)
    requires
        salt@.len() == 32,
    ensures
        r matches Ok(k) ==> {
            &&& k@ == derive_of(password@, salt@)
            &&& k@.len() == KEY_LEN
        },
        password@.len() <= PASSWORD_MAX_CHARS ==> r is Ok,
{
    let params = argon2::Params::new(ARGON2_M_COST, ARGON2_T_COST, ARGON2_P_COST, Some(32))
        .map_err(|_| ())?;
    let argon = argon2::Argon2::new(argon2::Algorithm::Argon2id, argon2::Version::V0x13, params);
    let mut out = vec![0u8; 32];
    argon.hash_password_into(password.as_bytes(), salt, &mut out).map_err(|_| ())?;
    Ok(out)
}

/// Key Encryption Key: the master key, derived from the password.
///
/// The raw bytes never leave the struct except through the borrowed
/// slice of [`Kek::as_bytes`], and [`Kek::wipe`] overwrites them with
/// zeros before the value is released.
pub struct Kek {
    bytes: Vec<u8>,
}

impl View for Kek {
    type V = Seq<u8>;

    closed spec fn view(&self) -> Seq<u8> {
        self.bytes@
    }
}

impl Kek {
    /// A master key always holds exactly 32 bytes.
    #[verifier::type_invariant]
    spec fn inv(&self) -> bool {
        self.bytes@.len() == KEY_LEN
    }

    /// Derive the master key from a password and a 32-byte salt.
    ///
    /// Deterministic: the same password and salt always yield the same
    /// key.  An empty password is permitted; only a password beyond the
    /// algorithm's byte cap is rejected.
    pub fn derive(password: &str, salt: &[u8]) -> (r: Result<Kek, VaultError>)
        requires
            salt@.len() == 32,
        ensures
            r matches Ok(k) ==> k@ == derive_of(password@, salt@),
            password@.len() <= PASSWORD_MAX_CHARS ==> r is Ok,
            r matches Err(e) ==> e == VaultError::KeyDerivation,
    {
        match argon2id_derive(password, salt) {
            Ok(bytes) => Ok(Kek { bytes }),
            Err(_) => Err(VaultError::KeyDerivation),
        }
    }

    /// Borrow the raw key bytes for a cipher operation.
    pub fn as_bytes(&self) -> (r: &[u8])
        ensures
            r@ == self@,
            r@.len() == KEY_LEN,
    {
        proof {
            use_type_invariant(self);
        }
        self.bytes.as_slice()
    }

    /// Rebuild a master key from 32 raw bytes (after a recovery).
    pub(crate) fn from_bytes(bytes: Vec<u8>) -> (r: Kek)
        requires
            bytes@.len() == KEY_LEN,
        ensures
            r@ == bytes@,
    {
        Kek { bytes }
    }

    /// Overwrite the key bytes with zeros.  Called before the key is
    /// released, so the secret does not linger in freed memory.
    pub fn wipe(&mut self)
        ensures
            final(self)@.len() == old(self)@.len(),
            forall|i: int| 0 <= i < final(self)@.len() ==> final(self)@[i] == 0u8,
    {
        proof {
            use_type_invariant(&*self);
        }
        let n = self.bytes.len();
        let mut i: usize = 0;
        while i < n
            invariant
                n == self.bytes@.len(),
                self.bytes@.len() == KEY_LEN,
                i <= n,
                forall|j: int| 0 <= j < i ==> self.bytes@[j] == 0u8,
            decreases n - i,
        {
            self.bytes[i] = 0;
            i += 1;
        }
    }
}

/// Data Encryption Key: a random per-item key, wrapped under the master
/// key before it is ever persisted.
pub struct Dek {
    bytes: Vec<u8>,
}

impl View for Dek {
    type V = Seq<u8>;

    closed spec fn view(&self) -> Seq<u8> {
        self.bytes@
    }
}

impl Dek {
    /// An item key always holds exactly 32 bytes.
    #[verifier::type_invariant]
    spec fn inv(&self) -> bool {
        self.bytes@.len() == KEY_LEN
    }

    /// Draw a fresh random item key from the secure random source.
    pub fn generate() -> Dek {
        Dek { bytes: os_random_bytes(KEY_LEN) }
    }

    /// Borrow the raw key bytes for a cipher operation.
    pub fn as_bytes(&self) -> (r: &[u8])
        ensures
            r@ == self@,
            r@.len() == KEY_LEN,
    {
        proof {
            use_type_invariant(self);
        }
        self.bytes.as_slice()
    }

    /// Rebuild an item key from 32 raw bytes (after unwrapping).
    pub fn from_bytes(bytes: Vec<u8>) -> (r: Dek)
        requires
            bytes@.len() == KEY_LEN,
        ensures
            r@ == bytes@,
    {
        Dek { bytes }
    }
}

/// Wrap an item key under the master key: encrypt its 32 bytes.
pub fn wrap_dek(kek: &Kek, dek: &Dek) -> (r: Result<Vec<u8>, VaultError>)
    ensures
        r is Ok,
        r matches Ok(w) ==> {
            &&& open_blob(kek@, w@) == Some(dek@)
            &&& w@.len() == KEY_LEN + BLOB_OVERHEAD
        },
{
    encrypt(kek.as_bytes(), dek.as_bytes())
}

/// Unwrap an item key with the master key: decrypt and check the size.
///
/// Fails with `AuthenticationFailure` when the blob does not open under
/// this key, and with `InvalidKeySize` when it opens to a payload that is
/// not exactly 32 bytes (data corruption).
pub fn unwrap_dek(kek: &Kek, wrapped: &[u8]) -> (r: Result<Dek, VaultError>)
    ensures
        r matches Ok(d) ==> open_blob(kek@, wrapped@) == Some(d@),
        r is Ok <==> (open_blob(kek@, wrapped@) matches Some(p) && p.len() == KEY_LEN),
        r matches Err(e) ==> {
            ||| (open_blob(kek@, wrapped@) is None && e == VaultError::AuthenticationFailure)
            ||| (open_blob(kek@, wrapped@) matches Some(p) && p.len() != KEY_LEN
                    && e == VaultError::InvalidKeySize)
        },
{
    match decrypt(kek.as_bytes(), wrapped) {
        Ok(p) => {
            if p.len() == KEY_LEN {
                Ok(Dek::from_bytes(p))
            } else {
                Err(VaultError::InvalidKeySize)
            }
        },
        Err(e) => Err(e),
    }
}

/// Re-wrap a wrapped item key under a new master key, after a password
/// change: the item key's value is unchanged, only its wrapping key
/// differs.
pub fn rewrap_dek(old_kek: &Kek, new_kek: &Kek, wrapped: &[u8]) -> (r: Result<
    Vec<u8>,
    VaultError,
>)
    ensures
        r is Ok <==> (open_blob(old_kek@, wrapped@) matches Some(p) && p.len() == KEY_LEN),
        r matches Ok(w2) ==> {
            &&& open_blob(old_kek@, wrapped@) matches Some(p) && open_blob(new_kek@, w2@)
                == Some(p)
            &&& w2@.len() == KEY_LEN + BLOB_OVERHEAD
        },
        r matches Err(e) ==> {
            ||| (open_blob(old_kek@, wrapped@) is None && e == VaultError::AuthenticationFailure)
            ||| (open_blob(old_kek@, wrapped@) matches Some(p) && p.len() != KEY_LEN
                    && e == VaultError::InvalidKeySize)
        },
{
    match unwrap_dek(old_kek, wrapped) {
        Ok(dek) => wrap_dek(new_kek, &dek),
        Err(e) => Err(e),
    }
}

} // verus!
