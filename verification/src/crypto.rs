//! Authenticated encryption of byte buffers under a 32-byte key.
//!
//! Every ciphertext blob is self-contained: a fresh 12-byte random nonce,
//! followed by the AEAD ciphertext with its 16-byte authentication tag
//! appended.  Opening a blob is a pure function of the key and the blob,
//! named by [`gcm_open_of`]; [`open_blob`] lifts it to the nonce-prefixed
//! layout.

use vstd::prelude::*;

use crate::errors::VaultError;

use aes_gcm::aead::Aead;
use aes_gcm::aead::KeyInit;
use aes_gcm::Aes256Gcm;
use aes_gcm::Nonce;
use rand::RngCore;

verus! {

/// Number of random nonce bytes prepended to every blob.
pub const NONCE_LEN: usize = 12;

/// Number of authentication-tag bytes the AEAD appends to the ciphertext.
pub const TAG_LEN: usize = 16;

/// Total expansion of a blob over its plaintext: nonce plus tag.
pub const BLOB_OVERHEAD: usize = 28;

/// Largest plaintext the AEAD accepts (2^36 bytes).
pub const PLAINTEXT_MAX: u64 = 0x10_0000_0000;

/// What AES-256-GCM decryption yields for a given key, nonce and raw
/// ciphertext (tag appended): `Some(plaintext)` when the tag verifies,
/// `None` otherwise.  A pure function of its three arguments.
pub uninterp spec fn gcm_open_of(key: Seq<u8>, nonce: Seq<u8>, ciphertext: Seq<u8>) -> Option<Seq<u8>>;

/// What opening a self-contained blob (`nonce ‖ ciphertext ‖ tag`) under
/// `key` yields: the blob must carry at least the nonce, and the rest must
/// pass tag verification.
pub open spec fn open_blob(key: Seq<u8>, blob: Seq<u8>) -> Option<Seq<u8>> {
    if blob.len() < NONCE_LEN {
        None
    } else {
        gcm_open_of(key, blob.take(NONCE_LEN as int), blob.skip(NONCE_LEN as int))
    }
}

/// Relies on `rand::rngs::OsRng` (`RngCore::fill_bytes`): fills a buffer
/// from the operating system's secure random source.  Nothing can be
/// promised of the values themselves.
#[verifier::external_body]
pub(crate) fn os_random_bytes(n: usize) -> (r: Vec<u8>)
    ensures
        r@.len() == n,
{
    let mut buf = vec![0u8; n];
    rand::rngs::OsRng.fill_bytes(&mut buf);
    buf
}

/// Relies on `aes_gcm::Aes256Gcm` through `aead::Aead::encrypt`: appends a
/// 16-byte tag, fails only for plaintexts over 2^36 bytes, and decrypting
/// the result with the same key and nonce recovers the plaintext.
#[verifier::external_body]
fn aes256_gcm_seal(key: &[u8], nonce: &[u8], plaintext: &[u8]) -> (r: Result<Vec<u8>, ()>)
    requires
        key@.len() == 32,
        nonce@.len() == NONCE_LEN,
    ensures
        r matches Ok(ct) ==> {
            &&& ct@.len() == plaintext@.len() + TAG_LEN
            &&& gcm_open_of(key@, nonce@, ct@) == Some(plaintext@)
        },
        plaintext@.len() <= PLAINTEXT_MAX ==> r is Ok,
{
    let cipher = Aes256Gcm::new_from_slice(key).map_err(|_| ())?;
    cipher.encrypt(Nonce::from_slice(nonce), plaintext).map_err(|_| ())
}

/// Relies on `aes_gcm::Aes256Gcm` through `aead::Aead::decrypt`: a pure,
/// deterministic function of key, nonce and ciphertext that returns the
/// plaintext exactly when the tag verifies.
#[verifier::external_body]
fn aes256_gcm_open(key: &[u8], nonce: &[u8], ciphertext: &[u8]) -> (r: Result<Vec<u8>, ()>)
    requires
        key@.len() == 32,
        nonce@.len() == NONCE_LEN,
    ensures
        r matches Ok(p) ==> {
            &&& gcm_open_of(key@, nonce@, ciphertext@) == Some(p@)
            &&& p@.len() + TAG_LEN == ciphertext@.len()
        },
        r is Err ==> gcm_open_of(key@, nonce@, ciphertext@) is None,
{
    let cipher = Aes256Gcm::new_from_slice(key).map_err(|_| ())?;
    cipher.decrypt(Nonce::from_slice(nonce), ciphertext).map_err(|_| ())
}

/// Encrypt `plaintext` under the 32-byte `key`.
///
/// The result is `nonce(12) ‖ ciphertext ‖ tag(16)` with a nonce drawn
/// fresh from the secure random source on every call, so the same inputs
/// encrypt to different blobs from call to call.  Whatever nonce was
/// drawn, the blob opens back to the plaintext under the same key.
pub fn encrypt(key: &[u8], plaintext: &[u8]) -> (r: Result<Vec<u8>, VaultError>)
    requires
        key@.len() == 32,
        plaintext@.len() <= PLAINTEXT_MAX,
    ensures
        r is Ok,
        r matches Ok(blob) ==> {
            &&& open_blob(key@, blob@) == Some(plaintext@)
            &&& blob@.len() == plaintext@.len() + BLOB_OVERHEAD
        },
{
    let nonce = os_random_bytes(NONCE_LEN);
    match aes256_gcm_seal(key, nonce.as_slice(), plaintext) {
        Ok(ct) => {
            let mut blob = nonce;
            blob.extend_from_slice(ct.as_slice());
            proof {
                assert(blob@.take(NONCE_LEN as int) =~= nonce@);
                assert(blob@.skip(NONCE_LEN as int) =~= ct@);
            }
            Ok(blob)
        },
        Err(_) => {
            proof {
                assert(false);
            }
            Err(VaultError::AuthenticationFailure)
        },
    }
}

/// Decrypt a self-contained blob produced by [`encrypt`] under `key`.
///
/// Fails with `AuthenticationFailure` exactly when the blob is shorter
/// than the nonce or the tag does not verify; a wrong key, a corrupted
/// blob and a wrong nonce framing are indistinguishable by design.
pub fn decrypt(key: &[u8], ciphertext: &[u8]) -> (r: Result<Vec<u8>, VaultError>)
    requires
        key@.len() == 32,
    ensures
        r matches Ok(p) ==> open_blob(key@, ciphertext@) == Some(p@),
        r matches Err(e) ==> {
            &&& open_blob(key@, ciphertext@) is None
            &&& e == VaultError::AuthenticationFailure
        },
{
    if ciphertext.len() < NONCE_LEN {
        return Err(VaultError::AuthenticationFailure);
    }
    let nonce = vstd::slice::slice_subrange(ciphertext, 0, NONCE_LEN);
    let payload = vstd::slice::slice_subrange(ciphertext, NONCE_LEN, ciphertext.len());
    proof {
        assert(nonce@ =~= ciphertext@.take(NONCE_LEN as int));
        assert(payload@ =~= ciphertext@.skip(NONCE_LEN as int));
    }
    match aes256_gcm_open(key, nonce, payload) {
        Ok(p) => Ok(p),
        Err(_) => Err(VaultError::AuthenticationFailure),
    }
}

/// Generate a random 32-byte salt for key derivation.
pub fn generate_salt() -> (r: Vec<u8>)
    ensures
        r@.len() == 32,
{
    os_random_bytes(32)
}

} // verus!
