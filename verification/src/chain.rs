//! Chain initialization on cold boot and chain extension on any reset.

use vstd::prelude::*;

use crate::cfi::cfi_assert_eq;
use crate::error::HashChainError;
use crate::kdf::{chain_extend_of, extend_chain_step, hmac_kdf, kdf_of};
use crate::vault::{KeySlot, KeyVault};

verus! {

/// Device lifecycle state, as the SoC interface reports it.
#[derive(Clone, Copy, Debug, PartialEq, Eq, Structural)]
pub enum Lifecycle {
    Unprovisioned,
    Manufacturing,
    Reserved,
    Production,
}

/// SoC-reported platform state, read once at initialization time.
#[derive(Clone, Copy, Debug, PartialEq, Eq, Structural)]
pub struct SocState {
    pub lifecycle: Lifecycle,
    pub debug_locked: bool,
}

/// The byte that encodes a lifecycle state inside the chain identity.
pub open spec fn lifecycle_byte(lc: Lifecycle) -> u8 {
    match lc {
        Lifecycle::Unprovisioned => 0,
        Lifecycle::Manufacturing => 1,
        Lifecycle::Reserved => 2,
        Lifecycle::Production => 3,
    }
}

/// The chain identity: lifecycle byte, debug-lock flag and the two epoch
/// bytes. Bound into the seeding KDF as its context, so that devices or
/// boots that differ in any of these grow unrelated chains.
pub open spec fn chain_identity(soc: SocState, epoch0: u8, epoch1: u8) -> Seq<u8> {
    seq![
        lifecycle_byte(soc.lifecycle),
        if soc.debug_locked { 1u8 } else { 0u8 },
        epoch0,
        epoch1,
    ]
}

/// The domain-separation label of the seeding KDF: the bytes of
/// "hash_chain".
pub open spec fn seed_label() -> Seq<u8> {
    seq![104u8, 97u8, 115u8, 104u8, 95u8, 99u8, 104u8, 97u8, 105u8, 110u8]
}

/// The freshly seeded chain value: a KDF from the device-unique secret,
/// with the seeding label and the chain identity as context.
pub open spec fn seed_of(device_secret: Seq<u8>, soc: SocState, epoch0: u8, epoch1: u8) -> Seq<u8> {
    kdf_of(device_secret, seed_label(), Some(chain_identity(soc, epoch0, epoch1)))
}

/// Identity-binding: two identities that differ in lifecycle, debug-lock
/// state or epoch assemble to different identity byte strings, so the
/// seeding KDFs of two such boots run over different contexts.
pub proof fn lemma_chain_identity_injective(a: SocState, a0: u8, a1: u8, b: SocState, b0: u8, b1: u8)
    requires
        a != b || a0 != b0 || a1 != b1,
    ensures
        chain_identity(a, a0, a1) != chain_identity(b, b0, b1),
{
    let ia = chain_identity(a, a0, a1);
    let ib = chain_identity(b, b0, b1);
    if ia == ib {
        assert(ia[0] == ib[0] && ia[1] == ib[1] && ia[2] == ib[2] && ia[3] == ib[3]);
        assert(a.lifecycle == b.lifecycle);
        assert(a.debug_locked == b.debug_locked);
        assert(a == b);
    }
}

/// Determinism: two boots that seed from the same device secret and the
/// same chain identity, and extend by the same depth, end with the same
/// chain value.
pub proof fn lemma_chain_determinism(
    ds1: Seq<u8>,
    soc1: SocState,
    e01: u8,
    e11: u8,
    ds2: Seq<u8>,
    soc2: SocState,
    e02: u8,
    e12: u8,
    n: nat,
)
    requires
        ds1 == ds2,
        soc1 == soc2,
        e01 == e02,
        e11 == e12,
    ensures
        chain_extend_of(seed_of(ds1, soc1, e01, e11), n)
            == chain_extend_of(seed_of(ds2, soc2, e02, e12), n),
{
}

/// The exact lifecycle byte, executably.
fn lifecycle_to_byte(lc: Lifecycle) -> (r: u8)
    ensures
        r == lifecycle_byte(lc),
{
    match lc {
        Lifecycle::Unprovisioned => 0,
        Lifecycle::Manufacturing => 1,
        Lifecycle::Reserved => 2,
        Lifecycle::Production => 3,
    }
}

/// Assemble the chain identity bytes.
fn identity_bytes(soc: &SocState, epoch: [u8; 2]) -> (r: Vec<u8>)
    ensures
        r@ == chain_identity(*soc, epoch[0], epoch[1]),
{
    let mut r: Vec<u8> = Vec::new();
    r.push(lifecycle_to_byte(soc.lifecycle));
    r.push(if soc.debug_locked { 1 } else { 0 });
    r.push(epoch[0]);
    r.push(epoch[1]);
    proof {
        assert(r@ =~= chain_identity(*soc, epoch[0], epoch[1]));
    }
    r
}

/// The seeding label bytes, executably.
fn seed_label_bytes() -> (r: Vec<u8>)
    ensures
        r@ == seed_label(),
{
    let mut r: Vec<u8> = Vec::new();
    r.push(104);
    r.push(97);
    r.push(115);
    r.push(104);
    r.push(95);
    r.push(99);
    r.push(104);
    r.push(97);
    r.push(105);
    r.push(110);
    proof {
        assert(r@ =~= seed_label());
    }
    r
}

/// Advance the canonical chain slot by `num_iters` one-way steps, then run
/// the hardened check that the loop executed exactly that many.
///
/// Deterministic: equal starting chain values and equal `num_iters` always
/// yield the equal ending value `chain_extend_of(start, num_iters)`. Fails
/// only when steps were requested and the chain slot reads as erased, in
/// which case the vault is untouched.
pub fn extend_hash_chain(vault: &mut KeyVault, num_iters: u32) -> (r: Result<(), HashChainError>)
    ensures
        r is Ok <==> (num_iters == 0 || old(vault).slot_value(KeySlot::Chain).len() > 0),
        r is Ok ==> final(vault).slot_value(KeySlot::Chain)
            == chain_extend_of(old(vault).slot_value(KeySlot::Chain), num_iters as nat),
        r is Ok && num_iters > 0 ==> final(vault).slot_value(KeySlot::Chain).len() == 64,
        forall|s: KeySlot| s != KeySlot::Chain ==> #[trigger] final(vault).slot_value(s)
            == old(vault).slot_value(s),
        r is Err ==> {
            &&& r == Err::<(), HashChainError>(HashChainError::SlotEmpty)
            &&& final(vault).slot_value(KeySlot::Chain) == old(vault).slot_value(KeySlot::Chain)
        },
{
    let mut i: u32 = 0;

    while i < num_iters
        invariant
            i <= num_iters,
            vault.slot_value(KeySlot::Chain)
                == chain_extend_of(old(vault).slot_value(KeySlot::Chain), i as nat),
            i > 0 ==> vault.slot_value(KeySlot::Chain).len() == 64,
            i > 0 ==> old(vault).slot_value(KeySlot::Chain).len() > 0,
            forall|s: KeySlot| s != KeySlot::Chain ==> #[trigger] vault.slot_value(s)
                == old(vault).slot_value(s),
        decreases num_iters - i,
    {
        match extend_chain_step(vault, KeySlot::Chain, KeySlot::Chain) {
            Ok(()) => {}
            Err(e) => {
                return Err(e);
            }
        }
        proof {
            crate::kdf::lemma_chain_extend_compose(
                old(vault).slot_value(KeySlot::Chain),
                i as nat,
                1,
            );
            crate::kdf::lemma_chain_extend_one(
                chain_extend_of(old(vault).slot_value(KeySlot::Chain), i as nat),
            );
        }
        i += 1;
    }

    match cfi_assert_eq(num_iters, i) {
        Ok(()) => Ok(()),
        Err(e) => Err(e),
    }
}

/// Seed the chain from the device-unique secret on cold boot, binding it
/// to the chain identity, then extend it to its initial depth.
///
/// Overwrites only the chain slot; the device-unique secret is read, never
/// consumed. Fails only when the device-secret slot reads as erased, which
/// is fatal to the boot flow, and then leaves the vault untouched.
pub fn initialize_hash_chain(
    vault: &mut KeyVault,
    soc: &SocState,
    epoch: [u8; 2],
    chain_len: u32,
) -> (r: Result<(), HashChainError>)
    ensures
        r is Ok <==> old(vault).slot_value(KeySlot::DeviceSecret).len() > 0,
        r is Ok ==> {
            &&& final(vault).slot_value(KeySlot::Chain) == chain_extend_of(
                seed_of(old(vault).slot_value(KeySlot::DeviceSecret), *soc, epoch[0], epoch[1]),
                chain_len as nat,
            )
            &&& final(vault).slot_value(KeySlot::Chain).len() == 64
        },
        forall|s: KeySlot| s != KeySlot::Chain ==> #[trigger] final(vault).slot_value(s)
            == old(vault).slot_value(s),
        r is Err ==> {
            &&& r == Err::<(), HashChainError>(HashChainError::SlotEmpty)
            &&& final(vault).slot_value(KeySlot::Chain) == old(vault).slot_value(KeySlot::Chain)
        },
{
    let identity = identity_bytes(soc, epoch);
    let label = seed_label_bytes();

    match hmac_kdf(
        vault,
        KeySlot::DeviceSecret,
        label.as_slice(),
        Some(identity.as_slice()),
        KeySlot::Chain,
    ) {
        Ok(()) => {}
        Err(e) => {
            return Err(e);
        }
    }

    extend_hash_chain(vault, chain_len)
}

} // verus!
