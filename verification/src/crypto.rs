//! Cryptographic primitives for the vault spine: secret keys, the CSPRNG,
//! Argon2id key-encryption-key derivation, AES-256-GCM, key wrapping and
//! the on-disk key material record.

pub mod aead;
pub mod argon2_params;
pub mod digest;
pub mod random;
pub mod recovery;

use vstd::prelude::*;
use subtle::ConstantTimeEq;
use base64::Engine;
use crate::crypto::argon2_params::{Params, params_valid};
use crate::crypto::recovery::{RecoveryCode, derive_recovery_kek, recovery_kek_spec};
use crate::crypto::aead::{opened_blob, sealed_blob, P_MAX};

verus! {

/// A 32-byte secret key (a vault data-encryption key or a derived
/// key-encryption key).
#[derive(Clone)]
pub struct SecretKey([u8; 32]);

impl View for SecretKey {
    type V = Seq<u8>;

    closed spec fn view(&self) -> Seq<u8> {
        self.0@
    }
}

/// `subtle::ConstantTimeEq` on two 32-byte arrays: true exactly when they
/// are equal, computed without data-dependent branches.
#[verifier::external_body]
fn ct_eq_32(a: &[u8; 32], b: &[u8; 32]) -> (r: bool)
    ensures
        r == (a@ == b@),
{
    a.ct_eq(b).into()
}

impl SecretKey {
    /// The key's debug text, which never shows its bytes.
    pub fn debug_text(&self) -> (s: &'static str)
        ensures
            s@ == "SecretKey(<redacted>)"@,
    {
        "SecretKey(<redacted>)"
    }

    /// Every key is 32 bytes long.
    pub proof fn lemma_len(&self)
        ensures
            self@.len() == 32,
    {
    }

    /// Wrap an existing 32-byte value.
    pub fn from_bytes(b: [u8; 32]) -> (k: Self)
        ensures
            k@ == b@,
    {
        SecretKey(b)
    }

    /// A fresh random key.
    pub fn random() -> (k: Self)
        ensures
            k@.len() == 32,
    {
        let mut b = [0u8; 32];
        random::fill(&mut b);
        SecretKey(b)
    }

    pub fn as_bytes(&self) -> (b: &[u8; 32])
        ensures
            b@ == self@,
    {
        &self.0
    }

    /// Constant-time comparison.
    pub fn ct_eq(&self, other: &Self) -> (r: bool)
        ensures
            r == (self@ == other@),
    {
        ct_eq_32(&self.0, &other.0)
    }
}

/// Equality of secret keys goes through the constant-time comparison.
impl PartialEq for SecretKey {
    fn eq(&self, other: &Self) -> (r: bool) {
        self.ct_eq(other)
    }
}

impl vstd::std_specs::cmp::PartialEqSpecImpl for SecretKey {
    open spec fn obeys_eq_spec() -> bool {
        true
    }

    open spec fn eq_spec(&self, other: &Self) -> bool {
        self@ == other@
    }
}

/// Variable-length secret bytes (a decrypted payload).
pub struct SecretBytes(Vec<u8>);

impl View for SecretBytes {
    type V = Seq<u8>;

    closed spec fn view(&self) -> Seq<u8> {
        self.0@
    }
}

impl SecretBytes {
    pub fn from_vec(v: Vec<u8>) -> (s: Self)
        ensures
            s@ == v@,
    {
        SecretBytes(v)
    }

    pub fn as_slice(&self) -> (s: &[u8])
        ensures
            s@ == self@,
    {
        self.0.as_slice()
    }

    pub fn len(&self) -> (n: usize)
        ensures
            n == self@.len(),
    {
        self.0.len()
    }

    pub fn is_empty(&self) -> (b: bool)
        ensures
            b == (self@.len() == 0),
    {
        self.0.len() == 0
    }
}

/// Opaque crypto error. Carries no secret material.
#[derive(Debug)]
pub enum CryptoError {
    VerifyFailed,
    InvalidLength,
    InvalidSalt,
    InvalidEncoding(String),
}


// ---------------------------------------------------------------------------
// Base64 (standard alphabet, padded)
// ---------------------------------------------------------------------------

/// Standard padded base64 text of a byte string (the `base64` crate's
/// `STANDARD` engine).
pub uninterp spec fn base64_standard(data: Seq<u8>) -> Seq<char>;

/// Bytes that standard base64 text decodes to, or `None` if it is not valid.
pub uninterp spec fn base64_standard_decode(text: Seq<char>) -> Option<Seq<u8>>;

/// `base64::engine::general_purpose::STANDARD.encode`: the named text, which
/// the same engine decodes back to the input.
#[verifier::external_body]
pub(crate) fn b64_encode(data: &[u8]) -> (s: String)
    ensures
        s@ == base64_standard(data@),
        base64_standard_decode(s@) == Some(data@),
{
    base64::engine::general_purpose::STANDARD.encode(data)
}

/// The text of the error (`DecodeError`'s `Display`) that standard base64
/// decoding reports for text that is not valid.
pub uninterp spec fn base64_error_text(text: Seq<char>) -> Seq<char>;

/// `base64::engine::general_purpose::STANDARD.decode`: the named decoding,
/// or the named text of its error.
#[verifier::external_body]
pub(crate) fn b64_decode(s: &str) -> (r: Result<Vec<u8>, String>)
    ensures
        r is Ok <==> base64_standard_decode(s@) is Some,
        r matches Ok(v) ==> base64_standard_decode(s@) == Some(v@),
        r matches Err(m) ==> m@ == base64_error_text(s@),
{
    match base64::engine::general_purpose::STANDARD.decode(s) {
        Ok(v) => Ok(v),
        Err(e) => Err(e.to_string()),
    }
}

// ---------------------------------------------------------------------------
// Argon2id key-encryption-key derivation
// ---------------------------------------------------------------------------

/// Unpadded B64 text of a salt (`argon2::password_hash::SaltString::encode_b64`),
/// as bytes.
pub uninterp spec fn salt_b64(salt: Seq<u8>) -> Seq<u8>;

/// The 32-byte Argon2id (version 0x13) output for (password, salt, m, t, p)
/// computed by the `argon2` crate.
pub uninterp spec fn argon2id_hash(pwd: Seq<u8>, salt: Seq<u8>, m_kib: u32, t: u32, p: u32) -> Seq<u8>;

/// `SaltString::encode_b64` of a 16-byte salt, as bytes. A 16-byte input
/// gives 22 characters, inside the 4..=64 limits, so encoding cannot fail.
#[verifier::external_body]
fn encode_salt(salt: &[u8; 16]) -> (s: Vec<u8>)
    ensures
        s@ == salt_b64(salt@),
        s@.len() == 22,
{
    argon2::password_hash::SaltString::encode_b64(salt)
        .expect("16-byte salt encodes")
        .as_str()
        .as_bytes()
        .to_vec()
}

/// `argon2::Argon2::new(Argon2id, V0x13, Params::new(m, t, p, Some(32)))`
/// then `hash_password_into` a 32-byte output. With valid parameters, a
/// password of at most 2^32 - 1 bytes and a salt of 8..=2^32 - 1 bytes the
/// crate reports no error; the output is the named hash.
#[verifier::external_body]
fn argon2id(pwd: &[u8], salt: &[u8], params: Params) -> (out: [u8; 32])
    requires
        params_valid(params),
        pwd@.len() <= 0xFFFF_FFFF,
        8 <= salt@.len() <= 0xFFFF_FFFF,
    ensures
        out@ == argon2id_hash(pwd@, salt@, params.m_kib, params.t, params.p),
{
    let p = argon2::Params::new(params.m_kib, params.t, params.p, Some(32)).expect("valid Argon2id params");
    let a2 = argon2::Argon2::new(argon2::Algorithm::Argon2id, argon2::Version::V0x13, p);
    let mut out = [0u8; 32];
    a2.hash_password_into(pwd, salt, &mut out).expect("valid Argon2id inputs");
    out
}

/// The passphrase key-encryption key.
pub open spec fn kek_spec(passphrase: Seq<u8>, salt: Seq<u8>, params: Params) -> Seq<u8> {
    argon2id_hash(passphrase, salt_b64(salt), params.m_kib, params.t, params.p)
}

/// Derive a 32-byte key-encryption key from a passphrase and salt with
/// Argon2id under the given parameters.
pub fn derive_kek(passphrase: &[u8], salt: &[u8; 16], params: &Params) -> (r: Result<SecretKey, CryptoError>)
    requires
        params_valid(*params),
        passphrase@.len() <= 0xFFFF_FFFF,
    ensures
        r matches Ok(k) && k@ == kek_spec(passphrase@, salt@, *params),
{
    let salt_text = encode_salt(salt);
    let out = argon2id(passphrase, salt_text.as_slice(), *params);
    Ok(SecretKey::from_bytes(out))
}


// ---------------------------------------------------------------------------
// Key wrapping
// ---------------------------------------------------------------------------

/// Wrap a 32-byte data-encryption key under a key-encryption key with
/// AES-256-GCM. Returns `nonce || ciphertext+tag`.
pub fn wrap_key(kek: &SecretKey, dek: &SecretKey) -> (blob: Vec<u8>)
    ensures
        sealed_blob(kek@, dek@, blob@),
{
    proof {
        vstd::arithmetic::power2::lemma2_to64();
    }
    aead::encrypt(kek, dek.as_bytes())
}

/// The length of a wrapped key: nonce, 32 key bytes and tag.
pub const WRAPPED_KEY_LEN: usize = 60;

/// What unwrapping `blob` under `kek` yields: the plaintext, when the blob
/// authenticates and holds exactly 32 bytes.
pub open spec fn unwrapped(kek: Seq<u8>, blob: Seq<u8>) -> Option<Seq<u8>> {
    match opened_blob(kek, blob) {
        Some(p) => if p.len() == 32 { Some(p) } else { None },
        None => None,
    }
}

/// Unwrap a blob produced by [`wrap_key`]. Fails on tampering or a wrong key.
pub fn unwrap_key(kek: &SecretKey, blob: &[u8]) -> (r: Result<SecretKey, CryptoError>)
    ensures
        r is Ok <==> unwrapped(kek@, blob@) is Some,
        r matches Ok(k) ==> unwrapped(kek@, blob@) == Some(k@),
        blob@.len() < 28 ==> r matches Err(CryptoError::InvalidLength),
        blob@.len() >= 28 && opened_blob(kek@, blob@) is None ==> r matches Err(CryptoError::VerifyFailed),
        opened_blob(kek@, blob@) matches Some(p) && p.len() != 32 ==> r matches Err(CryptoError::InvalidLength),
        forall|p: Seq<u8>| sealed_blob(kek@, p, blob@) && p.len() == 32 ==> (r matches Ok(k) && k@ == p),
        blob@.len() == WRAPPED_KEY_LEN && unwrapped(kek@, blob@) is None ==> r matches Err(CryptoError::VerifyFailed),
{
    let pt = aead::decrypt(kek, blob)?;
    if pt.len() != 32 {
        return Err(CryptoError::InvalidLength);
    }
    let src = pt.as_slice();
    let mut arr = [0u8; 32];
    let mut i: usize = 0;
    while i < 32
        invariant
            i <= 32,
            src@.len() == 32,
            arr@.len() == 32,
            forall|k: int| 0 <= k < i ==> arr@[k] == src@[k],
        decreases 32 - i,
    {
        arr[i] = src[i];
        i = i + 1;
    }
    proof {
        assert(arr@ =~= src@);
    }
    Ok(SecretKey::from_bytes(arr))
}

// ---------------------------------------------------------------------------
// On-disk vault key material
// ---------------------------------------------------------------------------

/// Format version of [`VaultKeyMaterial`].
pub const KEY_MATERIAL_VERSION: u32 = 1;

/// Versioned record holding what is needed to unwrap the vault
/// data-encryption key with the master passphrase or the recovery code.
/// Never contains the plaintext passphrase or the plaintext key.
#[derive(Debug, Clone)]
pub struct VaultKeyMaterial {
    /// Format version of this record.
    pub version: u32,
    /// Random 16-byte salt for Argon2id (and the recovery HKDF).
    pub salt: [u8; 16],
    /// Argon2id parameters used for the passphrase key.
    pub params: Params,
    /// The key wrapped under the passphrase-derived key, base64.
    pub wrapped_dek: String,
    /// The key wrapped under the recovery key, base64.
    pub wrapped_dek_recovery: String,
}

/// What a base64 wrapped-key text unwraps to under `kek`.
pub open spec fn unwrapped_text(kek: Seq<u8>, text: Seq<char>) -> Option<Seq<u8>> {
    match base64_standard_decode(text) {
        Some(blob) => unwrapped(kek, blob),
        None => None,
    }
}

/// A wrapped-key text that decodes to a blob of a wrapped key's length.
pub open spec fn well_formed_wrapping(text: Seq<char>) -> bool {
    base64_standard_decode(text) matches Some(blob) && blob.len() == WRAPPED_KEY_LEN
}

/// A wrapped-key text that holds `key` sealed under `kek`: it decodes to a
/// 60-byte blob `nonce || ciphertext || tag` of the key, never to the key.
pub open spec fn wraps_key(kek: Seq<u8>, key: Seq<u8>, text: Seq<char>) -> bool {
    base64_standard_decode(text) matches Some(blob) && blob.len() == WRAPPED_KEY_LEN && sealed_blob(kek, key, blob)
}

/// The key that `passphrase` unlocks from `m`, if any.
pub open spec fn passphrase_unlock(m: VaultKeyMaterial, passphrase: Seq<u8>) -> Option<Seq<u8>> {
    unwrapped_text(kek_spec(passphrase, m.salt@, m.params), m.wrapped_dek@)
}

/// The key that a recovery code unlocks from `m`, if any.
pub open spec fn recovery_unlock(m: VaultKeyMaterial, code: Seq<u8>) -> Option<Seq<u8>> {
    unwrapped_text(recovery_kek_spec(code, m.salt@), m.wrapped_dek_recovery@)
}

/// Decode a base64 wrapped key and unwrap it.
pub(crate) fn unwrap_text(kek: &SecretKey, text: &String) -> (r: Result<SecretKey, CryptoError>)
    ensures
        r is Ok <==> unwrapped_text(kek@, text@) is Some,
        r matches Ok(k) ==> unwrapped_text(kek@, text@) == Some(k@),
        base64_standard_decode(text@) is None ==> (r matches Err(CryptoError::InvalidEncoding(m))
            && m@ == base64_error_text(text@)),
        base64_standard_decode(text@) matches Some(blob) && blob.len() < 28
            ==> r matches Err(CryptoError::InvalidLength),
        base64_standard_decode(text@) matches Some(blob) && blob.len() >= 28 && opened_blob(kek@, blob) is None
            ==> r matches Err(CryptoError::VerifyFailed),
        well_formed_wrapping(text@) && unwrapped_text(kek@, text@) is None ==> r matches Err(CryptoError::VerifyFailed),
{
    let blob = match b64_decode(text.as_str()) {
        Ok(b) => b,
        Err(e) => {
            return Err(CryptoError::InvalidEncoding(e));
        },
    };
    unwrap_key(kek, blob.as_slice())
}

impl VaultKeyMaterial {
    /// Fresh key material for a new vault: a random key and salt; the key is
    /// wrapped under the passphrase key and under the recovery key. Returns
    /// the material and the plaintext key; each credential unlocks the key.
    pub fn create(
        passphrase: &[u8],
        recovery_code: &RecoveryCode,
        params: &Params,
    ) -> (r: Result<(Self, SecretKey), CryptoError>)
        requires
            params_valid(*params),
            passphrase@.len() <= 0xFFFF_FFFF,
        ensures
            r matches Ok((m, dek)) && m.version == KEY_MATERIAL_VERSION && m.params == *params
                && dek@.len() == 32 && passphrase_unlock(m, passphrase@) == Some(dek@)
                && recovery_unlock(m, recovery_code@) == Some(dek@)
                && wraps_key(kek_spec(passphrase@, m.salt@, *params), dek@, m.wrapped_dek@)
                && wraps_key(recovery_kek_spec(recovery_code@, m.salt@), dek@, m.wrapped_dek_recovery@),
    {
        let dek = SecretKey::random();
        let salt = random::salt16();
        let pass_kek = derive_kek(passphrase, &salt, params)?;
        let rec_kek = derive_recovery_kek(recovery_code, &salt)?;
        let wrapped = wrap_key(&pass_kek, &dek);
        let wrapped_rec = wrap_key(&rec_kek, &dek);
        let material = VaultKeyMaterial {
            version: KEY_MATERIAL_VERSION,
            salt,
            params: *params,
            wrapped_dek: b64_encode(wrapped.as_slice()),
            wrapped_dek_recovery: b64_encode(wrapped_rec.as_slice()),
        };
        Ok((material, dek))
    }

    /// Unwrap the key with the master passphrase.
    pub fn unlock_with_passphrase(&self, passphrase: &[u8]) -> (r: Result<SecretKey, CryptoError>)
        requires
            params_valid(self.params),
            passphrase@.len() <= 0xFFFF_FFFF,
        ensures
            r is Ok <==> passphrase_unlock(*self, passphrase@) is Some,
            r matches Ok(k) ==> passphrase_unlock(*self, passphrase@) == Some(k@),
            base64_standard_decode(self.wrapped_dek@) is None ==> r matches Err(CryptoError::InvalidEncoding(_)),
            well_formed_wrapping(self.wrapped_dek@) && passphrase_unlock(*self, passphrase@) is None
                ==> r matches Err(CryptoError::VerifyFailed),
    {
        let kek = derive_kek(passphrase, &self.salt, &self.params)?;
        unwrap_text(&kek, &self.wrapped_dek)
    }

    /// Unwrap the key with the recovery code.
    pub fn unlock_with_recovery(&self, recovery_code: &RecoveryCode) -> (r: Result<SecretKey, CryptoError>)
        ensures
            r is Ok <==> recovery_unlock(*self, recovery_code@) is Some,
            r matches Ok(k) ==> recovery_unlock(*self, recovery_code@) == Some(k@),
            base64_standard_decode(self.wrapped_dek_recovery@) is None ==> r matches Err(CryptoError::InvalidEncoding(_)),
            well_formed_wrapping(self.wrapped_dek_recovery@) && recovery_unlock(*self, recovery_code@) is None
                ==> r matches Err(CryptoError::VerifyFailed),
    {
        let kek = derive_recovery_kek(recovery_code, &self.salt)?;
        unwrap_text(&kek, &self.wrapped_dek_recovery)
    }

    /// The same material with the key re-wrapped under a new passphrase:
    /// salt, parameters and the recovery wrapping are kept, so the recovery
    /// code keeps unlocking exactly what it unlocked before.
    pub fn with_new_passphrase(&self, dek: &SecretKey, new_passphrase: &[u8]) -> (r: Result<Self, CryptoError>)
        requires
            params_valid(self.params),
            new_passphrase@.len() <= 0xFFFF_FFFF,
        ensures
            r matches Ok(m) && m.version == self.version && m.salt == self.salt && m.params == self.params
                && m.wrapped_dek_recovery@ == self.wrapped_dek_recovery@
                && passphrase_unlock(m, new_passphrase@) == Some(dek@)
                && wraps_key(kek_spec(new_passphrase@, m.salt@, m.params), dek@, m.wrapped_dek@)
                && forall|code: Seq<u8>| #[trigger] recovery_unlock(m, code) == recovery_unlock(*self, code),
    {
        proof {
            dek.lemma_len();
        }
        let kek = derive_kek(new_passphrase, &self.salt, &self.params)?;
        let wrapped = wrap_key(&kek, dek);
        Ok(VaultKeyMaterial {
            version: self.version,
            salt: self.salt,
            params: self.params,
            wrapped_dek: b64_encode(wrapped.as_slice()),
            wrapped_dek_recovery: self.wrapped_dek_recovery.clone(),
        })
    }
}

} // verus!
