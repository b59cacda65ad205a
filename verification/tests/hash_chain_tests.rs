use hmac::Mac;

use hash_chain::cfi::cfi_assert_eq;
use hash_chain::chain::{extend_hash_chain, initialize_hash_chain, Lifecycle, SocState};
use hash_chain::deriver::{HandoffState, HashChain};
use hash_chain::error::HashChainError;
use hash_chain::kdf::{extend_chain_step, hmac_kdf};
use hash_chain::vault::{KeySlot, KeyVault};

fn production_soc() -> SocState {
    SocState { lifecycle: Lifecycle::Production, debug_locked: true }
}

fn device_secret() -> Vec<u8> {
    vec![0x11; 64]
}

fn seeded_vault(soc: SocState, epoch: [u8; 2], chain_len: u32) -> KeyVault {
    let mut vault = KeyVault::new();
    vault.write_slot(KeySlot::DeviceSecret, device_secret());
    initialize_hash_chain(&mut vault, &soc, epoch, chain_len).unwrap();
    vault
}

fn handoff(current_svn: u32) -> HandoffState {
    HandoffState { current_svn, chain_slot: KeySlot::Chain }
}

#[test]
fn determinism_of_seed_and_extend() {
    let v1 = seeded_vault(production_soc(), [7, 9], 5);
    let v2 = seeded_vault(production_soc(), [7, 9], 5);
    assert_eq!(v1.read_slot(KeySlot::Chain), v2.read_slot(KeySlot::Chain));
    assert_eq!(v1.read_slot(KeySlot::Chain).len(), 64);
}

#[test]
fn composability_of_split_extension() {
    let mut v1 = seeded_vault(production_soc(), [7, 9], 0);
    let mut v2 = seeded_vault(production_soc(), [7, 9], 0);
    extend_hash_chain(&mut v1, 2).unwrap();
    extend_hash_chain(&mut v1, 3).unwrap();
    extend_hash_chain(&mut v2, 5).unwrap();
    assert_eq!(v1.read_slot(KeySlot::Chain), v2.read_slot(KeySlot::Chain));
}

#[test]
fn identity_binding() {
    let base = seeded_vault(production_soc(), [7, 9], 3);

    let other_epoch = seeded_vault(production_soc(), [7, 10], 3);
    assert_ne!(base.read_slot(KeySlot::Chain), other_epoch.read_slot(KeySlot::Chain));

    let unlocked = SocState { lifecycle: Lifecycle::Production, debug_locked: false };
    let other_debug = seeded_vault(unlocked, [7, 9], 3);
    assert_ne!(base.read_slot(KeySlot::Chain), other_debug.read_slot(KeySlot::Chain));

    let manufacturing = SocState { lifecycle: Lifecycle::Manufacturing, debug_locked: true };
    let other_lifecycle = seeded_vault(manufacturing, [7, 9], 3);
    assert_ne!(base.read_slot(KeySlot::Chain), other_lifecycle.read_slot(KeySlot::Chain));
}

#[test]
fn derive_at_current_equals_direct_kdf() {
    let mut v1 = seeded_vault(production_soc(), [7, 9], 5);
    HashChain::derive_secret(&mut v1, &handoff(5), 5, b"ctx-a", KeySlot::Output0).unwrap();

    let mut v2 = seeded_vault(production_soc(), [7, 9], 5);
    hmac_kdf(&mut v2, KeySlot::Chain, b"chain_output", Some(b"ctx-a"), KeySlot::Output1).unwrap();

    assert_eq!(v1.read_slot(KeySlot::Output0), v2.read_slot(KeySlot::Output1));
}

#[test]
fn derive_below_current_equals_manual_walk() {
    let mut v1 = seeded_vault(production_soc(), [7, 9], 5);
    HashChain::derive_secret(&mut v1, &handoff(5), 2, b"ctx-a", KeySlot::Output0).unwrap();

    // Naive computation: extend a copy of the chain value by 5 - 2 = 3
    // steps, then run the labeled KDF.
    let mut v2 = seeded_vault(production_soc(), [7, 9], 5);
    extend_chain_step(&mut v2, KeySlot::Chain, KeySlot::Output1).unwrap();
    extend_chain_step(&mut v2, KeySlot::Output1, KeySlot::Output1).unwrap();
    extend_chain_step(&mut v2, KeySlot::Output1, KeySlot::Output1).unwrap();
    hmac_kdf(&mut v2, KeySlot::Output1, b"chain_output", Some(b"ctx-a"), KeySlot::Output2)
        .unwrap();

    assert_eq!(v1.read_slot(KeySlot::Output0), v2.read_slot(KeySlot::Output2));
}

#[test]
fn derive_rejects_target_beyond_current() {
    let mut vault = seeded_vault(production_soc(), [7, 9], 5);
    for target in [6, 7, 100, u32::MAX] {
        let r = HashChain::derive_secret(&mut vault, &handoff(5), target, b"ctx", KeySlot::Output0);
        assert_eq!(r, Err(HashChainError::TargetSvnTooLarge));
    }
    // The chain itself is untouched by the rejected calls.
    let fresh = seeded_vault(production_soc(), [7, 9], 5);
    assert_eq!(vault.read_slot(KeySlot::Chain), fresh.read_slot(KeySlot::Chain));
}

#[test]
fn derive_rejects_chain_slot_destination() {
    let mut vault = seeded_vault(production_soc(), [7, 9], 5);
    for ctx in [b"ctx-a".as_slice(), b"ctx-b".as_slice(), b"".as_slice()] {
        let r = HashChain::derive_secret(&mut vault, &handoff(5), 5, ctx, KeySlot::Chain);
        assert_eq!(r, Err(HashChainError::Internal));
    }
}

#[test]
fn scratch_erased_after_walk() {
    let mut vault = seeded_vault(production_soc(), [7, 9], 5);
    HashChain::derive_secret(&mut vault, &handoff(5), 2, b"ctx", KeySlot::Output0).unwrap();
    assert!(vault.slot_is_erased(KeySlot::Scratch));
}

#[test]
fn scratch_keeps_secret_when_it_is_the_destination() {
    let mut v1 = seeded_vault(production_soc(), [7, 9], 5);
    HashChain::derive_secret(&mut v1, &handoff(5), 2, b"ctx", KeySlot::Scratch).unwrap();
    assert!(!v1.slot_is_erased(KeySlot::Scratch));

    let mut v2 = seeded_vault(production_soc(), [7, 9], 5);
    HashChain::derive_secret(&mut v2, &handoff(5), 2, b"ctx", KeySlot::Output0).unwrap();
    assert_eq!(v1.read_slot(KeySlot::Scratch), v2.read_slot(KeySlot::Output0));
}

#[test]
fn scratch_untouched_on_zero_extension_path() {
    let mut vault = seeded_vault(production_soc(), [7, 9], 5);
    HashChain::derive_secret(&mut vault, &handoff(5), 5, b"ctx", KeySlot::Output0).unwrap();
    assert!(vault.slot_is_erased(KeySlot::Scratch));
}

#[test]
fn scenario_current_svn_five() {
    let mut vault = seeded_vault(production_soc(), [7, 9], 5);
    let h = handoff(5);

    HashChain::derive_secret(&mut vault, &h, 5, b"ctx-a", KeySlot::Output0).unwrap();
    HashChain::derive_secret(&mut vault, &h, 5, b"ctx-b", KeySlot::Output1).unwrap();
    assert_ne!(vault.read_slot(KeySlot::Output0), vault.read_slot(KeySlot::Output1));

    HashChain::derive_secret(&mut vault, &h, 3, b"ctx-a", KeySlot::Output2).unwrap();
    HashChain::derive_secret(&mut vault, &h, 3, b"ctx-a", KeySlot::Output3).unwrap();
    assert_eq!(vault.read_slot(KeySlot::Output2), vault.read_slot(KeySlot::Output3));

    let r = HashChain::derive_secret(&mut vault, &h, 7, b"ctx-a", KeySlot::Output0);
    assert_eq!(r, Err(HashChainError::TargetSvnTooLarge));
}

#[test]
fn distinct_targets_give_distinct_secrets() {
    let mut vault = seeded_vault(production_soc(), [7, 9], 5);
    let h = handoff(5);
    HashChain::derive_secret(&mut vault, &h, 5, b"ctx", KeySlot::Output0).unwrap();
    HashChain::derive_secret(&mut vault, &h, 4, b"ctx", KeySlot::Output1).unwrap();
    assert_ne!(vault.read_slot(KeySlot::Output0), vault.read_slot(KeySlot::Output1));
}

#[test]
fn fault_check_blocks_short_extension() {
    // Simulate an extension loop that executed one fewer step than
    // requested: the hardened check must refuse to report success.
    let mut vault = seeded_vault(production_soc(), [7, 9], 0);
    let requested: u32 = 3;
    let mut executed: u32 = 0;
    for _ in 0..requested - 1 {
        extend_chain_step(&mut vault, KeySlot::Chain, KeySlot::Chain).unwrap();
        executed += 1;
    }
    assert_eq!(cfi_assert_eq(requested, executed), Err(HashChainError::FaultCheckFailed));
    // The full count passes the check.
    assert_eq!(cfi_assert_eq(requested, requested), Ok(()));
}

#[test]
fn empty_slots_are_crypto_failures() {
    let mut vault = KeyVault::new();
    let r = initialize_hash_chain(&mut vault, &production_soc(), [0, 0], 2);
    assert_eq!(r, Err(HashChainError::SlotEmpty));

    let r = extend_hash_chain(&mut vault, 1);
    assert_eq!(r, Err(HashChainError::SlotEmpty));
    assert_eq!(extend_hash_chain(&mut vault, 0), Ok(()));

    let r = HashChain::derive_secret(&mut vault, &handoff(0), 0, b"ctx", KeySlot::Output0);
    assert_eq!(r, Err(HashChainError::SlotEmpty));
}

#[test]
fn kdf_matches_reference_hmac() {
    // The KDF over vault slots must agree with HMAC-SHA-512 over the
    // documented message layout: a one-block counter, the label, a zero
    // separator and the context.
    let mut vault = KeyVault::new();
    let key = vec![0x42u8; 32];
    vault.write_slot(KeySlot::Output0, key.clone());
    hmac_kdf(&mut vault, KeySlot::Output0, b"label", Some(b"context"), KeySlot::Output1).unwrap();

    let mut msg: Vec<u8> = vec![0, 0, 0, 1];
    msg.extend_from_slice(b"label");
    msg.push(0);
    msg.extend_from_slice(b"context");
    let mut mac = <hmac::Hmac<sha2::Sha512> as Mac>::new_from_slice(&key).unwrap();
    mac.update(&msg);
    let expected = mac.finalize().into_bytes().to_vec();

    assert_eq!(vault.read_slot(KeySlot::Output1), &expected);
}

#[test]
fn vault_write_read_erase() {
    let mut vault = KeyVault::new();
    assert!(vault.slot_is_erased(KeySlot::Output0));
    vault.write_slot(KeySlot::Output0, vec![1, 2, 3]);
    assert_eq!(vault.read_slot(KeySlot::Output0), &vec![1, 2, 3]);
    assert!(!vault.slot_is_erased(KeySlot::Output0));
    vault.erase_slot(KeySlot::Output0);
    assert!(vault.slot_is_erased(KeySlot::Output0));
    vault.erase_slot(KeySlot::Output0);
    assert!(vault.slot_is_erased(KeySlot::Output0));
}
