//! Hash functions (SHA-256, HKDF-SHA256) and lowercase hex encoding.

use vstd::prelude::*;
use sha2::Digest;
use crate::text::push_char;

verus! {

/// SHA-256 of a byte string (as computed by the `sha2` crate).
pub uninterp spec fn sha256_digest(data: Seq<u8>) -> Seq<u8>;

/// HKDF-SHA256 output keying material of the given length for
/// (salt, input keying material, info), as computed by the `hkdf` crate.
pub uninterp spec fn hkdf_sha256_okm(salt: Seq<u8>, ikm: Seq<u8>, info: Seq<u8>, len: nat) -> Seq<u8>;

/// `sha2::Sha256::digest`: the 32-byte SHA-256 digest of `data`. The digest
/// itself is named, not described; its length is fixed by the algorithm.
#[verifier::external_body]
pub(crate) fn sha256(data: &[u8]) -> (d: Vec<u8>)
    ensures
        d@ == sha256_digest(data@),
        d@.len() == 32,
{
    sha2::Sha256::digest(data).to_vec()
}

/// `hkdf::Hkdf::<Sha256>::new(Some(salt), ikm)` followed by `expand(info)`
/// into 32 bytes. Expansion to 32 bytes (below the 255 * 32 byte limit)
/// cannot fail, so the result is always the named output keying material.
#[verifier::external_body]
pub(crate) fn hkdf_sha256_32(salt: &[u8], ikm: &[u8], info: &[u8]) -> (okm: [u8; 32])
    ensures
        okm@ == hkdf_sha256_okm(salt@, ikm@, info@, 32),
{
    let hk = hkdf::Hkdf::<sha2::Sha256>::new(Some(salt), ikm);
    let mut okm = [0u8; 32];
    hk.expand(info, &mut okm).expect("32 bytes is a valid HKDF-SHA256 length");
    okm
}

/// Lowercase hexadecimal digit for a value below 16.
pub open spec fn hex_digit(v: u8) -> char {
    if v < 10 {
        (48 + v) as char
    } else {
        (87 + v) as char
    }
}

/// Lowercase hex encoding: two digits per byte, high nibble first.
pub open spec fn hex_lower(bytes: Seq<u8>) -> Seq<char>
    decreases bytes.len(),
{
    if bytes.len() == 0 {
        Seq::empty()
    } else {
        hex_lower(bytes.drop_last()).push(hex_digit(bytes.last() / 16)).push(
            hex_digit(bytes.last() % 16),
        )
    }
}

/// The lowercase hexadecimal digit of a value below 16.
fn hex_char(v: u8) -> (c: char)
    requires
        v < 16,
    ensures
        c == hex_digit(v),
{
    if v < 10 {
        (48u8 + v) as char
    } else {
        (87u8 + v) as char
    }
}

/// Lowercase hexadecimal, two digits per byte, high nibble first.
pub(crate) fn hex_encode(bytes: &[u8]) -> (s: String)
    ensures
        s@ == hex_lower(bytes@),
{
    let mut s = String::new();
    let mut i: usize = 0;
    while i < bytes.len()
        invariant
            i <= bytes@.len(),
            s@ == hex_lower(bytes@.take(i as int)),
        decreases bytes@.len() - i,
    {
        let b = bytes[i];
        proof {
            assert(bytes@.take(i + 1).drop_last() =~= bytes@.take(i as int));
        }
        push_char(&mut s, hex_char(b / 16));
        push_char(&mut s, hex_char(b % 16));
        i = i + 1;
    }
    proof {
        assert(bytes@.take(bytes@.len() as int) =~= bytes@);
    }
    s
}

} // verus!
