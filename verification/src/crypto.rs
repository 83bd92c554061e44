//! Encryption at rest: wraps and unwraps byte payloads with the
//! XChaCha20-Poly1305 AEAD under the process-wide key material.
//!
//! An all-zero key or nonce is the sentinel for "not loaded"; that case
//! is reported distinctly from a cipher failure.

use vstd::prelude::*;
use chacha20poly1305::aead::Aead;
use chacha20poly1305::{Key, KeyInit, XChaCha20Poly1305, XNonce};

verus! {

pub const KEY_LEN: usize = 32;

pub const NONCE_LEN: usize = 24;

/// Poly1305 authentication tag appended to every ciphertext.
pub const TAG_LEN: usize = 16;

/// Largest plaintext the cipher accepts: one byte under its own block-count
/// limit of 64 * (2^32 - 1) bytes, the only length it rejects.
pub const PT_LEN_MAX: u64 = 0x3F_FFFF_FFBF;

pub open spec fn all_zero(s: Seq<u8>) -> bool {
    forall|i: int| 0 <= i < s.len() ==> s[i] == 0
}

/// The process-wide symmetric key and nonce.  All-zero means "not loaded".
///
/// Security note: one nonce is kept alongside the key and reused for every
/// record sealed under it, to stay compatible with the persisted vault
/// entries.  AEAD guarantees weaken when a (key, nonce) pair seals more
/// than one message; a deployment that can break compatibility should move
/// to a fresh nonce per record, stored beside the ciphertext.
pub struct CryptoSlot {
    pub key: Vec<u8>,
    pub nonce: Vec<u8>,
}

impl CryptoSlot {
    /// Both parts have their fixed size.
    pub open spec fn wf(self) -> bool {
        self.key@.len() == KEY_LEN && self.nonce@.len() == NONCE_LEN
    }

    /// Key material is present: well-formed and neither part is the
    /// all-zero sentinel.
    pub open spec fn loaded(self) -> bool {
        self.wf() && !all_zero(self.key@) && !all_zero(self.nonce@)
    }

    /// The unloaded slot: both parts at the zero sentinel.
    pub fn empty() -> (r: CryptoSlot)
        ensures
            r.wf(),
            !r.loaded(),
            all_zero(r.key@),
            all_zero(r.nonce@),
    {
        CryptoSlot { key: zero_vec(KEY_LEN), nonce: zero_vec(NONCE_LEN) }
    }

    /// Runtime view of [`CryptoSlot::loaded`].
    pub fn is_loaded(&self) -> (r: bool)
        ensures
            r == self.loaded(),
    {
        self.key.len() == KEY_LEN && self.nonce.len() == NONCE_LEN
            && !is_all_zero(&self.key) && !is_all_zero(&self.nonce)
    }

    /// Resets both parts to the zero sentinel.
    pub fn clear(&mut self)
        ensures
            final(self).wf(),
            !final(self).loaded(),
            all_zero(final(self).key@),
            all_zero(final(self).nonce@),
    {
        self.key = zero_vec(KEY_LEN);
        self.nonce = zero_vec(NONCE_LEN);
    }
}

pub(crate) fn zero_vec(n: usize) -> (r: Vec<u8>)
    ensures
        r@.len() == n,
        all_zero(r@),
{
    let mut v: Vec<u8> = Vec::new();
    let mut i: usize = 0;
    while i < n
        invariant
            i <= n,
            v@.len() == i,
            all_zero(v@),
        decreases n - i,
    {
        v.push(0);
        i = i + 1;
    }
    v
}

pub(crate) fn is_all_zero(v: &Vec<u8>) -> (r: bool)
    ensures
        r == all_zero(v@),
{
    let mut i: usize = 0;
    while i < v.len()
        invariant
            i <= v@.len(),
            forall|j: int| 0 <= j < i ==> v@[j] == 0,
        decreases v@.len() - i,
    {
        if v[i] != 0 {
            return false;
        }
        i = i + 1;
    }
    true
}

/// What the AEAD seal returns for this key, nonce and plaintext: a function
/// of its arguments alone.
pub uninterp spec fn seal_of(key: Seq<u8>, nonce: Seq<u8>, plaintext: Seq<u8>) -> Seq<u8>;

/// What the AEAD open returns for this key, nonce and ciphertext: `Some`
/// of the plaintext when the tag verifies, `None` otherwise.
pub uninterp spec fn open_of(key: Seq<u8>, nonce: Seq<u8>, ciphertext: Seq<u8>) -> Option<Seq<u8>>;

/// Failures of the cipher, kept distinct so callers can tell "no key
/// material" from a cipher failure.
#[derive(Debug)]
pub enum CryptoError {
    /// The slot is still at the zero sentinel.
    NoKeyMaterial,
    /// The cipher rejected the payload (it exceeds [`PT_LEN_MAX`]).
    EncryptFailed,
    /// The ciphertext did not authenticate under the loaded material.
    DecryptFailed,
}

/// Relies on chacha20poly1305's `Aead::encrypt` for `XChaCha20Poly1305`:
/// the ciphertext is the sealed plaintext followed by the 16-byte tag, a
/// deterministic function of key, nonce and plaintext that `Aead::decrypt`
/// inverts.  Its only failure is a payload at or over the cipher's
/// block-count limit, which the length bound here rules out, so the call
/// succeeds; the error arm only propagates, in case the bound ever moves.
#[verifier::external_body]
fn raw_seal(key: &Vec<u8>, nonce: &Vec<u8>, plain_text: &Vec<u8>) -> (r: Result<
    Vec<u8>,
    CryptoError,
>)
    requires
        key@.len() == KEY_LEN,
        nonce@.len() == NONCE_LEN,
        plain_text@.len() <= PT_LEN_MAX,
    ensures
        r is Ok,
        r matches Ok(ct) ==> {
            &&& ct@ == seal_of(key@, nonce@, plain_text@)
            &&& ct@.len() == plain_text@.len() + TAG_LEN
            &&& open_of(key@, nonce@, ct@) == Some(plain_text@)
        },
{
    let cipher = XChaCha20Poly1305::new(Key::from_slice(key.as_slice()));
    match cipher.encrypt(XNonce::from_slice(nonce.as_slice()), plain_text.as_slice()) {
        Ok(ct) => Ok(ct),
        Err(_) => Err(CryptoError::EncryptFailed),
    }
}

/// Relies on chacha20poly1305's `Aead::decrypt` for `XChaCha20Poly1305`:
/// a deterministic function of key, nonce and ciphertext that returns the
/// plaintext when the tag verifies and an error otherwise, never panicking.
#[verifier::external_body]
fn raw_open(key: &Vec<u8>, nonce: &Vec<u8>, cipher_text: &Vec<u8>) -> (r: Option<Vec<u8>>)
    requires
        key@.len() == KEY_LEN,
        nonce@.len() == NONCE_LEN,
    ensures
        r matches Some(pt) ==> open_of(key@, nonce@, cipher_text@) == Some(pt@),
        r is None ==> open_of(key@, nonce@, cipher_text@) is None,
{
    let cipher = XChaCha20Poly1305::new(Key::from_slice(key.as_slice()));
    cipher.decrypt(XNonce::from_slice(nonce.as_slice()), cipher_text.as_slice()).ok()
}

/// Seals a payload under the loaded material.  Fails with
/// [`CryptoError::NoKeyMaterial`] while the slot is at the sentinel, and
/// with [`CryptoError::EncryptFailed`] on a payload over [`PT_LEN_MAX`];
/// on success the ciphertext is the AEAD seal, which [`decrypt_text`]
/// recovers the payload from.
pub fn encrypt_text(slot: &CryptoSlot, plain_text: &Vec<u8>) -> (r: Result<Vec<u8>, CryptoError>)
    ensures
        !slot.loaded() ==> r == Err::<Vec<u8>, CryptoError>(CryptoError::NoKeyMaterial),
        slot.loaded() && plain_text@.len() > PT_LEN_MAX ==> r == Err::<Vec<u8>, CryptoError>(
            CryptoError::EncryptFailed,
        ),
        slot.loaded() && plain_text@.len() <= PT_LEN_MAX ==> (r matches Ok(ct) && {
            &&& ct@ == seal_of(slot.key@, slot.nonce@, plain_text@)
            &&& ct@.len() == plain_text@.len() + TAG_LEN
            &&& open_of(slot.key@, slot.nonce@, ct@) == Some(plain_text@)
        }),
{
    if !slot.is_loaded() {
        return Err(CryptoError::NoKeyMaterial);
    }
    if plain_text.len() as u64 > PT_LEN_MAX {
        return Err(CryptoError::EncryptFailed);
    }
    match raw_seal(&slot.key, &slot.nonce, plain_text) {
        Ok(ct) => Ok(ct),
        Err(e) => Err(e),
    }
}

/// Opens a ciphertext under the loaded material.  Fails with
/// [`CryptoError::NoKeyMaterial`] while the slot is at the sentinel, and
/// with [`CryptoError::DecryptFailed`] when the ciphertext does not
/// authenticate — never with corrupted plaintext.
pub fn decrypt_text(slot: &CryptoSlot, cipher_text: &Vec<u8>) -> (r: Result<Vec<u8>, CryptoError>)
    ensures
        !slot.loaded() ==> r == Err::<Vec<u8>, CryptoError>(CryptoError::NoKeyMaterial),
        slot.loaded() ==> match open_of(slot.key@, slot.nonce@, cipher_text@) {
            Some(pt) => r matches Ok(p) && p@ == pt,
            None => r == Err::<Vec<u8>, CryptoError>(CryptoError::DecryptFailed),
        },
{
    if !slot.is_loaded() {
        return Err(CryptoError::NoKeyMaterial);
    }
    match raw_open(&slot.key, &slot.nonce, cipher_text) {
        Some(pt) => Ok(pt),
        None => Err(CryptoError::DecryptFailed),
    }
}

} // verus!
