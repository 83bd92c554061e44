use rewinder::codec::to_string;
use rewinder::crypto::CryptoSlot;
use rewinder::keys::{
    delete_key_and_nonce, fetch_or_generate_key_and_nonce, toggle_encryption,
    try_encrypt_text, TryEncryptError, VaultError, VaultReading,
};
use rewinder::settings::FeatureFlags;

fn empty_entry() -> VaultReading {
    VaultReading::Entry(String::new())
}

#[test]
fn fetch_generates_on_empty_vault() {
    let mut slot = CryptoSlot::empty();
    let r = fetch_or_generate_key_and_nonce(&mut slot, &empty_entry(), &empty_entry());
    let pair = r.unwrap().expect("fresh material must be handed back for persisting");
    assert_eq!(slot.key.len(), 32);
    assert_eq!(slot.nonce.len(), 24);
    assert!(slot.key.iter().any(|b| *b != 0));
    assert!(slot.nonce.iter().any(|b| *b != 0));
    assert_eq!(pair.key_text, to_string(&slot.key));
    assert_eq!(pair.nonce_text, to_string(&slot.nonce));
}

#[test]
fn fetch_loads_present_material() {
    let key: Vec<u8> = (1u8..=32).collect();
    let nonce: Vec<u8> = (101u8..=124).collect();
    let kr = VaultReading::Entry(to_string(&key));
    let nr = VaultReading::Entry(to_string(&nonce));
    let mut slot = CryptoSlot::empty();
    let r = fetch_or_generate_key_and_nonce(&mut slot, &kr, &nr);
    assert!(matches!(r, Ok(None)));
    assert_eq!(slot.key, key);
    assert_eq!(slot.nonce, nonce);
}

#[test]
fn fetch_fails_when_vault_unreachable() {
    let mut slot = CryptoSlot::empty();
    let r = fetch_or_generate_key_and_nonce(&mut slot, &VaultReading::Unreachable, &empty_entry());
    assert!(matches!(r, Err(VaultError::Unreachable)));
    assert!(slot.key.iter().all(|b| *b == 0));
}

#[test]
fn fetch_fails_on_malformed_secret() {
    let mut slot = CryptoSlot::empty();
    let kr = VaultReading::Entry("abc".to_string());
    let r = fetch_or_generate_key_and_nonce(&mut slot, &kr, &empty_entry());
    assert!(matches!(r, Err(VaultError::MalformedSecret)));
}

#[test]
fn first_enable_generates_and_persists_nonzero_material() {
    let mut flags = FeatureFlags::new();
    let mut slot = CryptoSlot::empty();
    let outcome =
        toggle_encryption(&mut flags, &mut slot, &empty_entry(), &empty_entry(), true).unwrap();
    assert!(outcome.enabled);
    assert!(flags.encryption_enabled);
    let pair = outcome.persist.expect("first enable must persist the generated pair");
    assert_eq!(pair.key_text.chars().count(), 32);
    assert_eq!(pair.nonce_text.chars().count(), 24);
    assert!(slot.key.iter().any(|b| *b != 0));
    assert!(slot.nonce.iter().any(|b| *b != 0));
}

#[test]
fn second_enable_reuses_in_memory_material_without_vault() {
    let mut flags = FeatureFlags::new();
    let mut slot = CryptoSlot::empty();
    toggle_encryption(&mut flags, &mut slot, &empty_entry(), &empty_entry(), true).unwrap();
    let key_before = slot.key.clone();
    toggle_encryption(&mut flags, &mut slot, &VaultReading::Unreachable, &VaultReading::Unreachable, false).unwrap();
    assert!(!flags.encryption_enabled);
    // The vault readings are unreachable: a second enable can only succeed
    // by reusing what is already in memory.
    let outcome = toggle_encryption(
        &mut flags,
        &mut slot,
        &VaultReading::Unreachable,
        &VaultReading::Unreachable,
        true,
    )
    .unwrap();
    assert!(outcome.enabled);
    assert!(outcome.persist.is_none());
    assert_eq!(slot.key, key_before);
    assert!(flags.encryption_enabled);
}

#[test]
fn enable_rejected_when_vault_unreachable() {
    let mut flags = FeatureFlags::new();
    let mut slot = CryptoSlot::empty();
    let r = toggle_encryption(
        &mut flags,
        &mut slot,
        &VaultReading::Unreachable,
        &empty_entry(),
        true,
    );
    assert!(matches!(r, Err(VaultError::Unreachable)));
    assert!(!flags.encryption_enabled);
}

#[test]
fn delete_zeroes_material_when_both_entries_removed() {
    let mut slot = CryptoSlot::empty();
    fetch_or_generate_key_and_nonce(&mut slot, &empty_entry(), &empty_entry()).unwrap();
    let r = delete_key_and_nonce(&mut slot, true, true);
    assert!(r.is_ok());
    assert!(slot.key.iter().all(|b| *b == 0));
    assert!(slot.nonce.iter().all(|b| *b == 0));
}

#[test]
fn delete_fails_and_keeps_material_when_a_deletion_failed() {
    let mut slot = CryptoSlot::empty();
    fetch_or_generate_key_and_nonce(&mut slot, &empty_entry(), &empty_entry()).unwrap();
    let key_before = slot.key.clone();
    let r = delete_key_and_nonce(&mut slot, true, false);
    assert!(matches!(r, Err(VaultError::DeleteFailed)));
    assert_eq!(slot.key, key_before);
}

#[test]
fn try_encrypt_reloads_from_vault_then_seals() {
    let key: Vec<u8> = (1u8..=32).collect();
    let nonce: Vec<u8> = (201u8..=224).collect();
    let kr = VaultReading::Entry(to_string(&key));
    let nr = VaultReading::Entry(to_string(&nonce));
    let mut slot = CryptoSlot::empty();
    let plain: Vec<u8> = b"needs a reload first".to_vec();
    let attempt = try_encrypt_text(&mut slot, &plain, &kr, &nr).unwrap();
    assert!(attempt.persist.is_none());
    assert_eq!(slot.key, key);
    let back = rewinder::crypto::decrypt_text(&slot, &attempt.cipher_text).unwrap();
    assert_eq!(back, plain);
}

#[test]
fn try_encrypt_fails_when_no_key_can_be_had() {
    let mut slot = CryptoSlot::empty();
    let plain: Vec<u8> = b"payload".to_vec();
    let r = try_encrypt_text(&mut slot, &plain, &VaultReading::Unreachable, &VaultReading::Unreachable);
    assert!(matches!(r, Err(TryEncryptError::KeyUnavailable)));
}

#[test]
fn try_encrypt_fails_on_zeroed_vault_material() {
    // Vault entries of the right length whose bytes are all zero decode to
    // the "not loaded" sentinel: the reload succeeds but the cipher cannot
    // come up.
    let kr = VaultReading::Entry(to_string(&[0u8; 32]));
    let nr = VaultReading::Entry(to_string(&[0u8; 24]));
    let mut slot = CryptoSlot::empty();
    let r = try_encrypt_text(&mut slot, &b"payload".to_vec(), &kr, &nr);
    assert!(matches!(r, Err(TryEncryptError::EncryptFailed)));
}
