//! Error taxonomy for chain operations.

use vstd::prelude::*;

verus! {

/// Failure kinds for chain seeding, extension and secret derivation.
///
/// - `Internal`: the caller asked to write the derived secret over the
///   canonical chain slot. This is a programming defect in the platform
///   configuration, fatal to the caller.
/// - `TargetSvnTooLarge`: the requested security version lies beyond the
///   point the chain has reached; a normal, recoverable policy error.
/// - `SlotEmpty`: a key-derivation step was asked to read a key-vault slot
///   that holds no key material; a crypto/primitive failure, propagated
///   verbatim and treated as fatal by callers.
/// - `FaultCheckFailed`: the hardened iteration-count check after a chain
///   extension did not hold; an active-attack indicator, never downgraded
///   to a recoverable error.
#[derive(Clone, Copy, Debug, PartialEq, Eq, Structural)]
pub enum HashChainError {
    Internal,
    TargetSvnTooLarge,
    SlotEmpty,
    FaultCheckFailed,
}

} // verus!
