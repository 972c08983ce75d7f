//! The error taxonomy of the vault.

use vstd::prelude::*;

verus! {

/// Every failure a vault operation can report.
///
/// `WrongPassword` deliberately covers both a wrong key and a garbled
/// verification blob: callers must not be able to tell the two apart.
#[derive(Clone, Copy, Debug, PartialEq, Eq, Structural)]
pub enum VaultError {
    /// An operation was attempted before a layout was bound.
    NotConfigured,
    /// A key-using operation was attempted while the vault is locked.
    VaultLocked,
    /// Password verification failed (wrong key or corrupted blob).
    WrongPassword,
    /// Recovery-secret verification failed (wrong secret or corrupted record).
    WrongRecoverySecret,
    /// An unwrap or recovery produced a payload of unexpected length.
    InvalidKeySize,
    /// A persisted artifact handed in by the storage layer is unusable.
    StorageFailure,
    /// The key-derivation algorithm rejected its parameter configuration.
    KeyDerivation,
    /// An authenticated decryption failed: short blob or bad tag.
    AuthenticationFailure,
}

impl VaultError {
    /// A short human-readable description of the error.
    pub fn message(&self) -> (r: &'static str)
        ensures
            r@.len() > 0,
    {
        let s = match self {
            VaultError::NotConfigured => "Vault not configured",
            VaultError::VaultLocked => "Vault is locked",
            VaultError::WrongPassword => "Wrong password",
            VaultError::WrongRecoverySecret => "Wrong recovery key",
            VaultError::InvalidKeySize => "Invalid key size",
            VaultError::StorageFailure => "Storage failure",
            VaultError::KeyDerivation => "Key derivation failed",
            VaultError::AuthenticationFailure => "Decryption failed",
        };
        proof {
            reveal_strlit("Vault not configured");
            reveal_strlit("Vault is locked");
            reveal_strlit("Wrong password");
            reveal_strlit("Wrong recovery key");
            reveal_strlit("Invalid key size");
            reveal_strlit("Storage failure");
            reveal_strlit("Key derivation failed");
            reveal_strlit("Decryption failed");
        }
        s
    }
}

} // verus!
