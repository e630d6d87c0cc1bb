//! AES-256-GCM with a random 96-bit nonce prepended to the ciphertext:
//! `nonce || ciphertext || tag`.

use vstd::prelude::*;
use aes_gcm::aead::Aead;
use aes_gcm::{Aes256Gcm, KeyInit, Nonce};
use crate::crypto::{CryptoError, SecretBytes, SecretKey};
use crate::crypto::random;

verus! {

/// Nonce length for AES-256-GCM (96 bits).
pub const NONCE_LEN: usize = 12;
/// Key length for AES-256-GCM.
pub const KEY_LEN: usize = 32;
/// Authentication tag length.
pub const TAG_LEN: usize = 16;
/// Largest plaintext the `aes-gcm` crate accepts (2^36 bytes).
pub const P_MAX: u64 = 0x10_0000_0000;

/// AES-256-GCM ciphertext-with-tag of `pt` under (key, nonce), empty
/// associated data, as computed by the `aes-gcm` crate.
pub uninterp spec fn aes_gcm_seal(key: Seq<u8>, nonce: Seq<u8>, pt: Seq<u8>) -> Seq<u8>;

/// AES-256-GCM decryption of ciphertext-with-tag `ct` under (key, nonce):
/// `None` when authentication fails.
pub uninterp spec fn aes_gcm_open(key: Seq<u8>, nonce: Seq<u8>, ct: Seq<u8>) -> Option<Seq<u8>>;

/// `Aes256Gcm::encrypt` (via `aead::Aead`) with empty associated data.
/// The result is the named ciphertext; its length is the plaintext length
/// plus the 16-byte tag, and authenticated decryption under the same key and
/// nonce gives the plaintext back. Plaintexts above 2^36 bytes are refused
/// by the crate, so they are excluded here.
#[verifier::external_body]
fn seal(key: &[u8; 32], nonce: &[u8; 12], pt: &[u8]) -> (ct: Vec<u8>)
    requires
        pt@.len() <= P_MAX,
    ensures
        ct@ == aes_gcm_seal(key@, nonce@, pt@),
        ct@.len() == pt@.len() + 16,
        aes_gcm_open(key@, nonce@, ct@) == Some(pt@),
{
    let cipher = Aes256Gcm::new_from_slice(key).expect("32-byte key");
    cipher.encrypt(Nonce::from_slice(nonce), pt).expect("plaintext within the AES-GCM limit")
}

/// `Aes256Gcm::decrypt` (via `aead::Aead`) with empty associated data.
/// The result is the named decryption; a plaintext is the ciphertext
/// without its 16-byte tag, so it is 16 bytes shorter.
#[verifier::external_body]
fn open(key: &[u8; 32], nonce: &[u8], ct: &[u8]) -> (pt: Option<Vec<u8>>)
    requires
        nonce@.len() == 12,
    ensures
        pt is Some <==> aes_gcm_open(key@, nonce@, ct@) is Some,
        pt matches Some(v) ==> aes_gcm_open(key@, nonce@, ct@) == Some(v@),
        pt matches Some(v) ==> v@.len() + 16 == ct@.len(),
{
    let cipher = Aes256Gcm::new_from_slice(key).expect("32-byte key");
    cipher.decrypt(Nonce::from_slice(nonce), ct).ok()
}

/// A blob `nonce || ciphertext || tag` that encrypts `pt` under `key`.
pub open spec fn sealed_blob(key: Seq<u8>, pt: Seq<u8>, blob: Seq<u8>) -> bool {
    &&& blob.len() == NONCE_LEN + pt.len() + TAG_LEN
    &&& blob.skip(12) == aes_gcm_seal(key, blob.take(12), pt)
    &&& aes_gcm_open(key, blob.take(12), blob.skip(12)) == Some(pt)
}

/// What decrypting `blob` under `key` yields: `None` for a blob too short to
/// hold a nonce and a tag, or one that fails authentication.
pub open spec fn opened_blob(key: Seq<u8>, blob: Seq<u8>) -> Option<Seq<u8>> {
    if blob.len() < NONCE_LEN + TAG_LEN {
        None
    } else {
        aes_gcm_open(key, blob.take(12), blob.skip(12))
    }
}

/// Encrypt `plaintext` under `key` with a fresh random nonce. Returns
/// `nonce || ciphertext+tag`.
pub fn encrypt(key: &SecretKey, plaintext: &[u8]) -> (blob: Vec<u8>)
    requires
        plaintext@.len() <= P_MAX,
    ensures
        sealed_blob(key@, plaintext@, blob@),
{
    let mut nonce_bytes = [0u8; 12];
    random::fill(&mut nonce_bytes);
    let ct = seal(key.as_bytes(), &nonce_bytes, plaintext);
    let mut out: Vec<u8> = Vec::new();
    let mut i: usize = 0;
    while i < 12
        invariant
            i <= 12,
            nonce_bytes@.len() == 12,
            out@ == nonce_bytes@.take(i as int),
        decreases 12 - i,
    {
        out.push(nonce_bytes[i]);
        i = i + 1;
        proof {
            assert(out@ =~= nonce_bytes@.take(i as int));
        }
    }
    let mut j: usize = 0;
    while j < ct.len()
        invariant
            j <= ct@.len(),
            nonce_bytes@.len() == 12,
            out@ == nonce_bytes@ + ct@.take(j as int),
        decreases ct@.len() - j,
    {
        out.push(ct[j]);
        j = j + 1;
        proof {
            assert(out@ =~= nonce_bytes@ + ct@.take(j as int));
        }
    }
    proof {
        assert(nonce_bytes@.take(12) =~= nonce_bytes@);
        assert(ct@.take(ct@.len() as int) =~= ct@);
        assert(out@.take(12) =~= nonce_bytes@);
        assert(out@.skip(12) =~= ct@);
    }
    out
}

/// Decrypt a blob produced by [`encrypt`].
pub fn decrypt(key: &SecretKey, blob: &[u8]) -> (r: Result<SecretBytes, CryptoError>)
    ensures
        blob@.len() < NONCE_LEN + TAG_LEN ==> r matches Err(CryptoError::InvalidLength),
        blob@.len() >= NONCE_LEN + TAG_LEN ==> match opened_blob(key@, blob@) {
            Some(p) => r matches Ok(s) && s@ == p,
            None => r matches Err(CryptoError::VerifyFailed),
        },
        forall|p: Seq<u8>| sealed_blob(key@, p, blob@) ==> (r matches Ok(s) && s@ == p),
        r matches Ok(s) ==> s@.len() + NONCE_LEN + TAG_LEN == blob@.len(),
{
    if blob.len() < NONCE_LEN + TAG_LEN {
        return Err(CryptoError::InvalidLength);
    }
    let nonce_bytes = vstd::slice::slice_subrange(blob, 0, NONCE_LEN);
    let ct = vstd::slice::slice_subrange(blob, NONCE_LEN, blob.len());
    proof {
        assert(nonce_bytes@ =~= blob@.take(12));
        assert(ct@ =~= blob@.skip(12));
    }
    match open(key.as_bytes(), nonce_bytes, ct) {
        Some(pt) => Ok(SecretBytes::from_vec(pt)),
        None => Err(CryptoError::VerifyFailed),
    }
}

} // verus!
