//! SVN-bounded secret derivation from the hash chain.

use vstd::prelude::*;

use crate::error::HashChainError;
use crate::kdf::{chain_extend_of, ctx_view, extend_chain_step, hmac_kdf, kdf_of};
use crate::vault::{KeySlot, KeyVault};

verus! {

/// Read-only firmware handoff state: the current security version (the
/// chain's depth since seeding) and which vault slot holds the canonical
/// chain value. This core reads it and never writes it.
#[derive(Clone, Copy, Debug, PartialEq, Eq, Structural)]
pub struct HandoffState {
    pub current_svn: u32,
    pub chain_slot: KeySlot,
}

impl HandoffState {
    /// The platform records a chain slot that never aliases the scratch
    /// slot; derivation relies on that when it walks the chain.
    pub open spec fn wf(self) -> bool {
        self.chain_slot != KeySlot::Scratch
    }
}

/// The domain-separation label of the final, secret-producing KDF: the
/// bytes of "chain_output".
pub open spec fn output_label() -> Seq<u8> {
    seq![99u8, 104u8, 97u8, 105u8, 110u8, 95u8, 111u8, 117u8, 116u8, 112u8, 117u8, 116u8]
}

/// The secret derivation yields for a chain value `chain` at a depth delta
/// of `num_iters` steps under `context`: walk the chain forward `num_iters`
/// steps, then run the labeled KDF with `context`.
pub open spec fn derived_secret_of(chain: Seq<u8>, num_iters: nat, context: Seq<u8>) -> Seq<u8> {
    kdf_of(chain_extend_of(chain, num_iters), output_label(), Some(context))
}

/// Deriving at the current version equals a direct labeled KDF from the
/// current chain value: the zero-extension path walks no steps.
pub proof fn lemma_derive_at_current_is_direct_kdf(chain: Seq<u8>, context: Seq<u8>)
    ensures
        derived_secret_of(chain, 0, context) == kdf_of(chain, output_label(), Some(context)),
{
}

/// Reproducibility: two derivations over the same chain value, the same
/// depth delta and the same context yield the same secret, whether within
/// one boot or across resets that rebuilt the same chain.
pub proof fn lemma_derive_reproducible(
    chain1: Seq<u8>,
    n1: nat,
    ctx1: Seq<u8>,
    chain2: Seq<u8>,
    n2: nat,
    ctx2: Seq<u8>,
)
    requires
        chain1 == chain2,
        n1 == n2,
        ctx1 == ctx2,
    ensures
        derived_secret_of(chain1, n1, ctx1) == derived_secret_of(chain2, n2, ctx2),
{
}

/// The output label bytes, executably.
fn output_label_bytes() -> (r: Vec<u8>)
    ensures
        r@ == output_label(),
{
    let mut r: Vec<u8> = Vec::new();
    r.push(99);
    r.push(104);
    r.push(97);
    r.push(105);
    r.push(110);
    r.push(95);
    r.push(111);
    r.push(117);
    r.push(116);
    r.push(112);
    r.push(117);
    r.push(116);
    proof {
        assert(r@ =~= output_label());
    }
    r
}

pub struct HashChain;

impl HashChain {
    /// Calculate a secret from the hash chain.
    ///
    /// Walks the chain forward `current_svn - target_svn` steps — through
    /// the scratch slot, never touching the canonical chain slot — and runs
    /// a final labeled KDF with `context` into the destination slot `dest`.
    /// The result is `derived_secret_of` of the chain value: deterministic
    /// and reproducible for a given `(target_svn, context)` pair as long as
    /// the chain's seed and depth are unchanged.
    ///
    /// Rejects, in this order: `dest` aliasing the chain slot (an internal
    /// programming defect, fatal); a `target_svn` beyond `current_svn`
    /// (recoverable policy error — meeting it would take extending the
    /// canonical chain or inverting a step); a chain slot that reads as
    /// erased (crypto/primitive failure). On every failure the vault is
    /// left untouched. On success, if the scratch slot was used and is not
    /// itself the destination, it is erased before returning.
    pub fn derive_secret(
        vault: &mut KeyVault,
        handoff: &HandoffState,
        target_svn: u32,
        context: &[u8],
        dest: KeySlot,
    ) -> (r: Result<(), HashChainError>)
        requires
            handoff.wf(),
        ensures
            r is Ok <==> (dest != handoff.chain_slot && target_svn <= handoff.current_svn
                && old(vault).slot_value(handoff.chain_slot).len() > 0),
            dest == handoff.chain_slot
                ==> r == Err::<(), HashChainError>(HashChainError::Internal),
            dest != handoff.chain_slot && target_svn > handoff.current_svn
                ==> r == Err::<(), HashChainError>(HashChainError::TargetSvnTooLarge),
            (dest != handoff.chain_slot && target_svn <= handoff.current_svn
                && old(vault).slot_value(handoff.chain_slot).len() == 0)
                ==> r == Err::<(), HashChainError>(HashChainError::SlotEmpty),
            r is Ok ==> final(vault).slot_value(dest) == derived_secret_of(
                old(vault).slot_value(handoff.chain_slot),
                (handoff.current_svn - target_svn) as nat,
                context@,
            ),
            r is Ok ==> final(vault).slot_value(dest).len() == 64,
            r is Ok ==> final(vault).slot_value(handoff.chain_slot)
                == old(vault).slot_value(handoff.chain_slot),
            r is Ok && target_svn < handoff.current_svn && dest != KeySlot::Scratch
                ==> final(vault).slot_value(KeySlot::Scratch).len() == 0,
            r is Ok && target_svn == handoff.current_svn && dest != KeySlot::Scratch
                ==> final(vault).slot_value(KeySlot::Scratch)
                    == old(vault).slot_value(KeySlot::Scratch),
            forall|s: KeySlot| s != dest && s != KeySlot::Scratch
                ==> #[trigger] final(vault).slot_value(s) == old(vault).slot_value(s),
            r is Err ==> forall|s: KeySlot|
                #[trigger] final(vault).slot_value(s) == old(vault).slot_value(s),
    {
        let chain_slot = handoff.chain_slot;

        // Don't allow stomping over the canonical chain value.
        if dest == chain_slot {
            return Err(HashChainError::Internal);
        }

        if target_svn > handoff.current_svn {
            return Err(HashChainError::TargetSvnTooLarge);
        }

        let num_iters = handoff.current_svn - target_svn;

        let kdf_source: KeySlot;
        if num_iters == 0 {
            kdf_source = chain_slot;
        } else {
            // One copy-extending step from the chain into scratch, then
            // walk scratch in place; the chain slot stays as it was.
            match extend_chain_step(vault, chain_slot, KeySlot::Scratch) {
                Ok(()) => {}
                Err(e) => {
                    return Err(e);
                }
            }
            proof {
                crate::kdf::lemma_chain_extend_one(old(vault).slot_value(handoff.chain_slot));
            }

            let mut j: u32 = 1;
            while j < num_iters
                invariant
                    handoff.wf(),
                    1 <= j <= num_iters,
                    vault.slot_value(KeySlot::Scratch) == chain_extend_of(
                        old(vault).slot_value(handoff.chain_slot),
                        j as nat,
                    ),
                    vault.slot_value(KeySlot::Scratch).len() == 64,
                    forall|s: KeySlot| s != KeySlot::Scratch
                        ==> #[trigger] vault.slot_value(s) == old(vault).slot_value(s),
                decreases num_iters - j,
            {
                match extend_chain_step(vault, KeySlot::Scratch, KeySlot::Scratch) {
                    Ok(()) => {}
                    Err(e) => {
                        return Err(e);
                    }
                }
                proof {
                    crate::kdf::lemma_chain_extend_compose(
                        old(vault).slot_value(handoff.chain_slot),
                        j as nat,
                        1,
                    );
                    crate::kdf::lemma_chain_extend_one(
                        chain_extend_of(old(vault).slot_value(handoff.chain_slot), j as nat),
                    );
                }
                j += 1;
            }

            kdf_source = KeySlot::Scratch;
        }

        let label = output_label_bytes();
        match hmac_kdf(vault, kdf_source, label.as_slice(), Some(context), dest) {
            Ok(()) => {}
            Err(e) => {
                return Err(e);
            }
        }

        // Scoped release of the ephemeral chain value: if scratch fed the
        // final KDF and is not itself the destination, erase it.
        if kdf_source == KeySlot::Scratch && dest != KeySlot::Scratch {
            vault.erase_slot(KeySlot::Scratch);
        }

        Ok(())
    }
}

} // verus!
