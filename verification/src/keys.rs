//! Key and credential lifecycle: the in-memory slot is filled from the
//! vault's two named secrets, or from freshly generated material that the
//! caller then persists back to the vault.
//!
//! The vault itself is an outside facility; callers hand this module what
//! the vault returned and perform the writes and deletions it asks for.

use vstd::prelude::*;
use vstd::string::StrSliceExecFns;
use crate::codec::{narrowed_bytes, to_bytes, to_string, widened_chars};
use crate::crypto::{
    encrypt_text, open_of, seal_of, CryptoSlot, KEY_LEN, NONCE_LEN, PT_LEN_MAX,
};
use crate::settings::FeatureFlags;
use rand::rngs::OsRng;
use rand::RngCore;

verus! {

/// What reading one named secret from the vault produced.  A secret that is
/// absent comes back as the empty entry, matching the credential facility,
/// which reports an empty password for a missing account.
pub enum VaultReading {
    /// The vault itself could not be consulted.
    Unreachable,
    /// The stored secret, in its widened string form; empty when absent.
    Entry(String),
}

/// The characters of a reading's entry; empty for an unreachable vault.
pub open spec fn entry_chars(r: VaultReading) -> Seq<char> {
    match r {
        VaultReading::Unreachable => Seq::empty(),
        VaultReading::Entry(s) => s@,
    }
}

/// The vault could not be consulted for one of the two secrets.
pub open spec fn vault_fails(kr: VaultReading, nr: VaultReading) -> bool {
    kr is Unreachable || nr is Unreachable
}

/// A stored secret is present but has the wrong length for its slot.
pub open spec fn vault_malformed(kr: VaultReading, nr: VaultReading) -> bool {
    !vault_fails(kr, nr) && {
        ||| entry_chars(kr).len() != 0 && entry_chars(kr).len() != KEY_LEN
        ||| entry_chars(nr).len() != 0 && entry_chars(nr).len() != NONCE_LEN
    }
}

/// Either secret is absent or empty, so fresh material must be generated.
pub open spec fn vault_needs_generate(kr: VaultReading, nr: VaultReading) -> bool {
    !vault_fails(kr, nr) && !vault_malformed(kr, nr) && (entry_chars(kr).len() == 0
        || entry_chars(nr).len() == 0)
}

/// Both secrets are present with their full length.
pub open spec fn vault_has_material(kr: VaultReading, nr: VaultReading) -> bool {
    !vault_fails(kr, nr) && !vault_malformed(kr, nr) && !vault_needs_generate(kr, nr)
}

/// The key bytes a reading decodes to.
pub open spec fn decoded_key(kr: VaultReading) -> Seq<u8> {
    narrowed_bytes(entry_chars(kr))
}

/// The nonce bytes a reading decodes to.
pub open spec fn decoded_nonce(nr: VaultReading) -> Seq<u8> {
    narrowed_bytes(entry_chars(nr))
}

/// The slot a successful load from present vault material leaves behind.
pub open spec fn decoded_slot_loaded(kr: VaultReading, nr: VaultReading) -> bool {
    &&& decoded_key(kr).len() == KEY_LEN
    &&& decoded_nonce(nr).len() == NONCE_LEN
    &&& !crate::crypto::all_zero(decoded_key(kr))
    &&& !crate::crypto::all_zero(decoded_nonce(nr))
}

/// After at most one load-or-generate cycle over these readings, the cipher
/// can seal a payload of this length.
pub open spec fn can_seal(slot: CryptoSlot, kr: VaultReading, nr: VaultReading, len: nat) -> bool {
    len <= PT_LEN_MAX && {
        ||| slot.loaded()
        ||| vault_needs_generate(kr, nr)
        ||| vault_has_material(kr, nr) && decoded_slot_loaded(kr, nr)
    }
}

/// Why the key lifecycle failed.
#[derive(Debug)]
pub enum VaultError {
    /// The vault could not be consulted.
    Unreachable,
    /// A stored secret does not decode to material of the right length.
    MalformedSecret,
    /// The vault refused to delete a stored secret.
    DeleteFailed,
}

/// Freshly generated material in its widened string form, to be written
/// back to the vault by the caller (best-effort; a write failure is logged,
/// not fatal).
pub struct SecretPair {
    pub key_text: String,
    pub nonce_text: String,
}

/// Relies on rand's `OsRng::fill_bytes` (`RngCore`): fills the buffer with
/// bytes from the operating system's entropy source.  Nothing is promised
/// of the values.
#[verifier::external_body]
fn fill_random(buf: &mut Vec<u8>)
    ensures
        final(buf)@.len() == old(buf)@.len(),
{
    OsRng.fill_bytes(buf.as_mut_slice());
}

/// Nudges an all-zero draw off the sentinel.  The all-zero value is
/// reserved to mean "not loaded", so material must never take it.
fn force_nonzero(v: &mut Vec<u8>)
    requires
        old(v)@.len() >= 1,
    ensures
        final(v)@.len() == old(v)@.len(),
        !crate::crypto::all_zero(final(v)@),
{
    if crate::crypto::is_all_zero(v) {
        v.set(0, 1);
        proof {
            assert(final(v)@[0] == 1);
        }
    }
}

/// Draws a fresh random key and nonce.  Neither is the all-zero sentinel.
pub fn generate_random_key_and_nonce() -> (r: (Vec<u8>, Vec<u8>))
    ensures
        r.0@.len() == KEY_LEN,
        r.1@.len() == NONCE_LEN,
        !crate::crypto::all_zero(r.0@),
        !crate::crypto::all_zero(r.1@),
{
    let mut key = crate::crypto::zero_vec(KEY_LEN);
    let mut nonce = crate::crypto::zero_vec(NONCE_LEN);
    fill_random(&mut key);
    fill_random(&mut nonce);
    force_nonzero(&mut key);
    force_nonzero(&mut nonce);
    (key, nonce)
}

/// Loads the slot from the vault readings, or fills it with fresh material
/// when either secret is absent or empty.  Returns the material to persist
/// back to the vault when it was generated.  Fails without touching the
/// slot when the vault is unreachable or a stored secret is malformed.
pub fn fetch_or_generate_key_and_nonce(
    slot: &mut CryptoSlot,
    key_read: &VaultReading,
    nonce_read: &VaultReading,
) -> (r: Result<Option<SecretPair>, VaultError>)
    ensures
        vault_fails(*key_read, *nonce_read) ==> r == Err::<Option<SecretPair>, VaultError>(
            VaultError::Unreachable,
        ) && *final(slot) == *old(slot),
        vault_malformed(*key_read, *nonce_read) ==> r == Err::<Option<SecretPair>, VaultError>(
            VaultError::MalformedSecret,
        ) && *final(slot) == *old(slot),
        vault_has_material(*key_read, *nonce_read) ==> (r matches Ok(p) && p is None && {
            &&& final(slot).key@ == decoded_key(*key_read)
            &&& final(slot).nonce@ == decoded_nonce(*nonce_read)
            &&& final(slot).wf()
        }),
        vault_needs_generate(*key_read, *nonce_read) ==> (r matches Ok(p) && p matches Some(pair)
            && {
            &&& final(slot).loaded()
            &&& pair.key_text@ == widened_chars(final(slot).key@)
            &&& pair.nonce_text@ == widened_chars(final(slot).nonce@)
        }),
{
    let key_text = match key_read {
        VaultReading::Unreachable => {
            return Err(VaultError::Unreachable);
        },
        VaultReading::Entry(s) => s,
    };
    let nonce_text = match nonce_read {
        VaultReading::Unreachable => {
            return Err(VaultError::Unreachable);
        },
        VaultReading::Entry(s) => s,
    };
    let klen = key_text.as_str().unicode_len();
    let nlen = nonce_text.as_str().unicode_len();
    if klen != 0 && klen != KEY_LEN {
        return Err(VaultError::MalformedSecret);
    }
    if nlen != 0 && nlen != NONCE_LEN {
        return Err(VaultError::MalformedSecret);
    }
    if klen == 0 || nlen == 0 {
        let (key, nonce) = generate_random_key_and_nonce();
        slot.key = key;
        slot.nonce = nonce;
        let pair = SecretPair {
            key_text: to_string(slot.key.as_slice()),
            nonce_text: to_string(slot.nonce.as_slice()),
        };
        return Ok(Some(pair));
    }
    slot.key = to_bytes(key_text.as_str());
    slot.nonce = to_bytes(nonce_text.as_str());
    Ok(None)
}

/// Why a sealed write could not be produced.
#[derive(Debug)]
pub enum TryEncryptError {
    /// No usable key material: the vault was unreachable or a stored secret
    /// malformed, so the reload could not run.
    KeyUnavailable,
    /// The cipher still failed after the reload.
    EncryptFailed,
}

/// A successful seal, together with freshly generated material the caller
/// must persist to the vault, if the reload generated any.
pub struct EncryptAttempt {
    pub cipher_text: Vec<u8>,
    pub persist: Option<SecretPair>,
}

/// Seals a payload, retrying once after a load-or-generate cycle when the
/// first attempt fails.  Succeeds exactly when the cipher can come up for
/// this payload ([`can_seal`]); on success the ciphertext is the AEAD seal
/// under the slot as it stands after the call.
pub fn try_encrypt_text(
    slot: &mut CryptoSlot,
    plain_text: &Vec<u8>,
    key_read: &VaultReading,
    nonce_read: &VaultReading,
) -> (r: Result<EncryptAttempt, TryEncryptError>)
    ensures
        r is Ok == can_seal(*old(slot), *key_read, *nonce_read, plain_text@.len()),
        r matches Ok(a) ==> {
            &&& final(slot).loaded()
            &&& plain_text@.len() <= PT_LEN_MAX
            &&& a.cipher_text@ == seal_of(final(slot).key@, final(slot).nonce@, plain_text@)
            &&& open_of(final(slot).key@, final(slot).nonce@, a.cipher_text@) == Some(
                plain_text@,
            )
        },
        old(slot).loaded() && plain_text@.len() <= PT_LEN_MAX ==> (r matches Ok(a) && a.persist
            is None && *final(slot) == *old(slot)),
        !(old(slot).loaded() && plain_text@.len() <= PT_LEN_MAX) ==> {
            &&& (vault_fails(*key_read, *nonce_read) || vault_malformed(*key_read, *nonce_read))
                ==> r == Err::<EncryptAttempt, TryEncryptError>(TryEncryptError::KeyUnavailable)
                && *final(slot) == *old(slot)
            &&& vault_has_material(*key_read, *nonce_read) ==> {
                &&& final(slot).key@ == decoded_key(*key_read)
                &&& final(slot).nonce@ == decoded_nonce(*nonce_read)
                &&& (r matches Ok(a) ==> a.persist is None)
            }
            &&& vault_needs_generate(*key_read, *nonce_read) ==> final(slot).loaded() && (
            r matches Ok(a) ==> a.persist matches Some(p) && p.key_text@ == widened_chars(
                final(slot).key@,
            ) && p.nonce_text@ == widened_chars(final(slot).nonce@))
        },
{
    match encrypt_text(slot, plain_text) {
        Ok(ct) => Ok(EncryptAttempt { cipher_text: ct, persist: None }),
        Err(_) => {
            match fetch_or_generate_key_and_nonce(slot, key_read, nonce_read) {
                Err(_) => Err(TryEncryptError::KeyUnavailable),
                Ok(persist) => {
                    match encrypt_text(slot, plain_text) {
                        Ok(ct) => Ok(EncryptAttempt { cipher_text: ct, persist }),
                        Err(_) => Err(TryEncryptError::EncryptFailed),
                    }
                },
            }
        },
    }
}

/// What a toggle left behind: the new state of the encryption feature and
/// any freshly generated material the caller must persist to the vault.
pub struct ToggleOutcome {
    pub enabled: bool,
    pub persist: Option<SecretPair>,
}

/// Turns the encryption feature on or off.  Enabling loads key material
/// first — from memory when the slot is already loaded (the vault is not
/// consulted), else from the readings — and is rejected when that fails.
/// The caller persists the updated flags and any returned material.
pub fn toggle_encryption(
    flags: &mut FeatureFlags,
    slot: &mut CryptoSlot,
    key_read: &VaultReading,
    nonce_read: &VaultReading,
    enable: bool,
) -> (r: Result<ToggleOutcome, VaultError>)
    ensures
        final(flags).periodic_capture_enabled == old(flags).periodic_capture_enabled,
        final(flags).click_event_enabled == old(flags).click_event_enabled,
        !enable ==> (r matches Ok(o) && !o.enabled && o.persist is None && !final(flags).encryption_enabled && *final(slot) == *old(slot)),
        enable && old(slot).loaded() ==> (r matches Ok(o) && o.enabled && o.persist is None
            && final(flags).encryption_enabled && *final(slot) == *old(slot)),
        enable && !old(slot).loaded() ==> {
            &&& vault_fails(*key_read, *nonce_read) ==> r == Err::<ToggleOutcome, VaultError>(
                VaultError::Unreachable,
            ) && *final(slot) == *old(slot) && *final(flags) == *old(flags)
            &&& vault_malformed(*key_read, *nonce_read) ==> r == Err::<ToggleOutcome, VaultError>(
                VaultError::MalformedSecret,
            ) && *final(slot) == *old(slot) && *final(flags) == *old(flags)
            &&& vault_has_material(*key_read, *nonce_read) ==> (r matches Ok(o) && o.enabled
                && o.persist is None && final(flags).encryption_enabled && {
                &&& final(slot).key@ == decoded_key(*key_read)
                &&& final(slot).nonce@ == decoded_nonce(*nonce_read)
            })
            &&& vault_needs_generate(*key_read, *nonce_read) ==> (r matches Ok(o) && {
                &&& o.enabled
                &&& final(flags).encryption_enabled
                &&& final(slot).loaded()
                &&& (o.persist matches Some(p) && p.key_text@ == widened_chars(final(slot).key@)
                    && p.nonce_text@ == widened_chars(final(slot).nonce@))
            })
        },
{
    if enable {
        if !slot.is_loaded() {
            match fetch_or_generate_key_and_nonce(slot, key_read, nonce_read) {
                Ok(persist) => {
                    flags.encryption_enabled = true;
                    return Ok(ToggleOutcome { enabled: true, persist });
                },
                Err(e) => {
                    return Err(e);
                },
            }
        }
        flags.encryption_enabled = true;
        Ok(ToggleOutcome { enabled: true, persist: None })
    } else {
        flags.encryption_enabled = false;
        Ok(ToggleOutcome { enabled: false, persist: None })
    }
}

/// Removes the key material from the session once the caller has deleted
/// both vault entries: the slot returns to the zero sentinel.  Fails, and
/// keeps the material, when either vault deletion failed.
pub fn delete_key_and_nonce(
    slot: &mut CryptoSlot,
    key_deleted: bool,
    nonce_deleted: bool,
) -> (r: Result<(), VaultError>)
    ensures
        key_deleted && nonce_deleted ==> {
            &&& r is Ok
            &&& final(slot).wf()
            &&& !final(slot).loaded()
            &&& crate::crypto::all_zero(final(slot).key@)
            &&& crate::crypto::all_zero(final(slot).nonce@)
        },
        !(key_deleted && nonce_deleted) ==> r == Err::<(), VaultError>(VaultError::DeleteFailed)
            && *final(slot) == *old(slot),
{
    if key_deleted && nonce_deleted {
        slot.clear();
        Ok(())
    } else {
        Err(VaultError::DeleteFailed)
    }
}

} // verus!
