//! Hardened control-flow check run after every chain extension.

use vstd::prelude::*;

use crate::error::HashChainError;

verus! {

/// Fault-injection countermeasure: confirm that the number of extension
/// steps actually executed equals the number requested.
///
/// Hardened builds back this assertion with a platform primitive resistant
/// to instruction skipping; the interface allows a build to degrade it to a
/// plain comparison, which this one is. A failure means an active attack:
/// it is reported as `FaultCheckFailed` and must never be downgraded to a
/// recoverable error.
pub fn cfi_assert_eq(expected: u32, actual: u32) -> (r: Result<(), HashChainError>)
    ensures
        r is Ok <==> expected == actual,
        r is Err ==> r == Err::<(), HashChainError>(HashChainError::FaultCheckFailed),
{
    if expected == actual {
        Ok(())
    } else {
        Err(HashChainError::FaultCheckFailed)
    }
}

} // verus!
