//! Anti-rollback secret derivation over a one-way hash chain.
//!
//! A chain value, seeded once from a device-unique secret and bound to the
//! device's identity, is advanced one-way once per security version. Runtime
//! code may derive secrets for any security version at or below the current
//! one; deriving for a higher version would require inverting the chain.

pub mod cfi;
pub mod chain;
pub mod deriver;
pub mod error;
pub mod kdf;
pub mod vault;
