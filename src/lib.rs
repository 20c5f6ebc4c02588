//! Orchestration of confidential token balances: the decrypted balance
//! model, per-account key derivation, account provisioning, and the
//! create / consume / close lifecycle of the proof-context records that a
//! withdraw or a transfer needs.

pub mod balance;
pub mod keys;
pub mod laws;
pub mod lifecycle;
pub mod operation;
pub mod provision;
