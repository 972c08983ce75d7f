//! Password vault core: key derivation, authenticated encryption, a
//! master-key / item-key hierarchy, a recovery escrow, and the
//! lock/unlock state machine with activity-based auto-lock.

pub mod crypto;
pub mod errors;
pub mod keys;
pub mod laws;
pub mod ops;
pub mod recovery;
pub mod state;
