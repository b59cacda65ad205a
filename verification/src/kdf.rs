//! The key-derivation primitive and the mathematical model of the chain.

use vstd::prelude::*;

use hmac::Mac;

use crate::error::HashChainError;
use crate::vault::{KeySlot, KeyVault};

verus! {

/// The HMAC-SHA-512 tag over (key, message): 64 bytes, a function of the
/// key and message bytes alone.
pub uninterp spec fn hmac512_of(key: Seq<u8>, msg: Seq<u8>) -> Seq<u8>;

/// The view of an optional context argument.
pub open spec fn ctx_view(context: Option<&[u8]>) -> Option<Seq<u8>> {
    match context {
        Some(c) => Some(c@),
        None => None,
    }
}

/// The KDF message layout: a fixed one-block counter, the domain-separation
/// label and, when a context is present, a zero separator followed by it.
pub open spec fn kdf_message(label: Seq<u8>, context: Option<Seq<u8>>) -> Seq<u8> {
    seq![0u8, 0u8, 0u8, 1u8] + label + match context {
        Some(c) => seq![0u8] + c,
        None => Seq::<u8>::empty(),
    }
}

/// What the KDF yields: the HMAC-SHA-512 tag over the assembled message,
/// keyed with the input key material.
pub open spec fn kdf_of(key: Seq<u8>, label: Seq<u8>, context: Option<Seq<u8>>) -> Seq<u8> {
    hmac512_of(key, kdf_message(label, context))
}

/// One chain-extension step: an unlabeled, context-free KDF of the value.
/// This is the one-way primitive; recovering the input from the output
/// would require inverting the KDF.
pub open spec fn chain_step_of(v: Seq<u8>) -> Seq<u8> {
    kdf_of(v, Seq::<u8>::empty(), None)
}

/// The chain value after `n` extension steps from `v`.
pub open spec fn chain_extend_of(v: Seq<u8>, n: nat) -> Seq<u8>
    decreases n,
{
    if n == 0 {
        v
    } else {
        chain_extend_of(chain_step_of(v), (n - 1) as nat)
    }
}

/// Composability: extending by `a` steps and then by `b` equals a single
/// extension by `a + b` from the same starting value.
pub proof fn lemma_chain_extend_compose(v: Seq<u8>, a: nat, b: nat)
    ensures
        chain_extend_of(chain_extend_of(v, a), b) == chain_extend_of(v, a + b),
    decreases a,
{
    if a > 0 {
        lemma_chain_extend_compose(chain_step_of(v), (a - 1) as nat, b);
    }
}

/// A single extension equals one step.
pub proof fn lemma_chain_extend_one(v: Seq<u8>)
    ensures
        chain_extend_of(v, 1) == chain_step_of(v),
{
    assert(chain_extend_of(v, 1) == chain_extend_of(chain_step_of(v), 0));
    assert(chain_extend_of(chain_step_of(v), 0) == chain_step_of(v));
}

/// Copy-extending once into a working slot and then stepping that copy
/// `n - 1` further times equals extending the source value `n` times: the
/// scratch-slot walk is observably the naive computation.
pub proof fn lemma_scratch_walk_equals_direct(v: Seq<u8>, n: nat)
    requires
        n >= 1,
    ensures
        chain_extend_of(chain_step_of(v), (n - 1) as nat) == chain_extend_of(v, n),
{
}

/// Relies on `hmac::Hmac<sha2::Sha512>` (`new_from_slice`, `update`,
/// `finalize`): the tag is 64 bytes, depends on the key and message bytes
/// alone, and a key of any length is accepted.
#[verifier::external_body]
fn hmac_sha512(key: &[u8], msg: &[u8]) -> (r: Vec<u8>)
    ensures
        r@ == hmac512_of(key@, msg@),
        r@.len() == 64,
{
    let mut mac = <hmac::Hmac<sha2::Sha512> as Mac>::new_from_slice(key)
        .expect("a key of any length is accepted");
    mac.update(msg);
    mac.finalize().into_bytes().to_vec()
}

/// Append the bytes of `src` to `dst`.
fn append_slice(dst: &mut Vec<u8>, src: &[u8])
    ensures
        final(dst)@ == old(dst)@ + src@,
{
    let n = src.len();
    let mut i: usize = 0;
    while i < n
        invariant
            n == src@.len(),
            i <= n,
            dst@ == old(dst)@ + src@.take(i as int),
        decreases n - i,
    {
        dst.push(src[i]);
        proof {
            assert(dst@ =~= old(dst)@ + src@.take(i + 1));
        }
        i += 1;
    }
    proof {
        assert(old(dst)@ + src@.take(n as int) =~= old(dst)@ + src@);
    }
}

/// Assemble the KDF message for `label` and `context`.
fn build_kdf_message(label: &[u8], context: Option<&[u8]>) -> (r: Vec<u8>)
    ensures
        r@ == kdf_message(label@, ctx_view(context)),
{
    let mut msg: Vec<u8> = Vec::new();
    msg.push(0);
    msg.push(0);
    msg.push(0);
    msg.push(1);
    append_slice(&mut msg, label);
    match context {
        Some(c) => {
            msg.push(0);
            append_slice(&mut msg, c);
        }
        None => {}
    }
    proof {
        assert(msg@ =~= kdf_message(label@, ctx_view(context)));
    }
    msg
}

/// Derive 64 bytes of key material from `key` under `label` and `context`.
fn kdf(key: &[u8], label: &[u8], context: Option<&[u8]>) -> (r: Vec<u8>)
    ensures
        r@ == kdf_of(key@, label@, ctx_view(context)),
        r@.len() == 64,
{
    let msg = build_kdf_message(label, context);
    hmac_sha512(key, msg.as_slice())
}

/// The KDF primitive over vault slots: read `key_in`, derive under `label`
/// and `context`, and write the 64-byte result to `key_out`. Works both
/// cross-slot and in place (`key_in == key_out`). Fails exactly when
/// `key_in` reads as erased, leaving the vault untouched.
pub fn hmac_kdf(
    vault: &mut KeyVault,
    key_in: KeySlot,
    label: &[u8],
    context: Option<&[u8]>,
    key_out: KeySlot,
) -> (r: Result<(), HashChainError>)
    ensures
        r is Ok <==> old(vault).slot_value(key_in).len() > 0,
        r is Ok ==> {
            &&& final(vault).slot_value(key_out)
                == kdf_of(old(vault).slot_value(key_in), label@, ctx_view(context))
            &&& final(vault).slot_value(key_out).len() == 64
            &&& forall|s: KeySlot| s != key_out ==> #[trigger] final(vault).slot_value(s)
                == old(vault).slot_value(s)
        },
        r is Err ==> {
            &&& r == Err::<(), HashChainError>(HashChainError::SlotEmpty)
            &&& forall|s: KeySlot| #[trigger] final(vault).slot_value(s)
                == old(vault).slot_value(s)
        },
{
    if vault.read_slot(key_in).len() == 0 {
        return Err(HashChainError::SlotEmpty);
    }
    let out = kdf(vault.read_slot(key_in).as_slice(), label, context);
    vault.write_slot(key_out, out);
    Ok(())
}

/// One explicit chain-extension step from `key_in` to `key_out`: the KDF
/// with no label and no context. Fails exactly when `key_in` reads as
/// erased, leaving the vault untouched.
pub fn extend_chain_step(
    vault: &mut KeyVault,
    key_in: KeySlot,
    key_out: KeySlot,
) -> (r: Result<(), HashChainError>)
    ensures
        r is Ok <==> old(vault).slot_value(key_in).len() > 0,
        r is Ok ==> {
            &&& final(vault).slot_value(key_out)
                == chain_step_of(old(vault).slot_value(key_in))
            &&& final(vault).slot_value(key_out).len() == 64
            &&& forall|s: KeySlot| s != key_out ==> #[trigger] final(vault).slot_value(s)
                == old(vault).slot_value(s)
        },
        r is Err ==> {
            &&& r == Err::<(), HashChainError>(HashChainError::SlotEmpty)
            &&& forall|s: KeySlot| #[trigger] final(vault).slot_value(s)
                == old(vault).slot_value(s)
        },
{
    let no_label: [u8; 0] = [];
    let r = hmac_kdf(vault, key_in, &no_label, None, key_out);
    proof {
        assert(no_label@ =~= Seq::<u8>::empty());
    }
    r
}

} // verus!
