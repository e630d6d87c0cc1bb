//! Encrypted backup packages. A package restores on a replacement computer
//! with only the master passphrase or the recovery code.
//!
//! Package format (version 1):
//!
//! ```text
//! magic       8 bytes   "SAMMYBK1"
//! header_len  4 bytes   big-endian u32
//! header      header_len bytes (the serialized BackupHeader)
//! body_len    8 bytes   big-endian u64
//! body        body_len bytes (AES-256-GCM ciphertext of the serialized BackupBody)
//! ```
//!
//! The body is encrypted under a fresh random backup key, which is wrapped
//! under the passphrase key (Argon2id) and under the recovery key (HKDF), so
//! either credential opens the package. SHA-256 checksums of the ciphertext,
//! of the plaintext and of every file are recorded and checked on restore.
//! Reading and writing files, and (de)serializing header and body, are the
//! caller's.

use vstd::prelude::*;
use crate::crypto::aead::{opened_blob, sealed_blob, P_MAX};
use crate::crypto::argon2_params::{params_valid, Params};
use crate::crypto::digest::{hex_lower, sha256_digest};
use crate::crypto::recovery::{recovery_kek_spec, RecoveryCode};
use crate::crypto::{b64_encode, base64_standard_decode, kek_spec, unwrapped_text, SecretKey};
use crate::error::AppError;
use crate::ids::VaultId;

verus! {

/// Format version of the package.
pub const BACKUP_FORMAT_VERSION: u32 = 1;

/// One file of the vault inside the backup body.
#[derive(Debug, Clone)]
pub struct BackupFile {
    /// Path relative to the vault directory, with forward slashes.
    pub rel_path: String,
    pub bytes: Vec<u8>,
    pub sha256: String,
}

/// The cleartext body of a backup: the vault's files and a small manifest.
#[derive(Debug, Clone)]
pub struct BackupBody {
    pub vault_id: String,
    pub app_version: String,
    pub schema_version: u32,
    pub files: Vec<BackupFile>,
}

/// The package header: wrapped backup-key material and checksums, never a
/// plaintext key.
#[derive(Debug, Clone)]
pub struct BackupHeader {
    pub format_version: u32,
    pub vault_id: String,
    pub vault_name: String,
    pub created_at: String,
    /// Salt of the passphrase key (and of the recovery key).
    pub passphrase_salt: [u8; 16],
    /// Argon2id parameters of the passphrase key.
    pub argon2_params: Params,
    /// Backup key wrapped under the passphrase key, base64.
    pub wrapped_bdk_passphrase: String,
    /// Backup key wrapped under the recovery key, base64.
    pub wrapped_bdk_recovery: String,
    /// SHA-256 of the encrypted body, lowercase hex.
    pub body_sha256: String,
    /// SHA-256 of the cleartext body, lowercase hex.
    pub plaintext_body_sha256: String,
}

// ---------------------------------------------------------------------------
// Framing
// ---------------------------------------------------------------------------

/// The package magic, `SAMMYBK1`.
pub open spec fn magic_bytes() -> Seq<u8> {
    seq![83u8, 65, 77, 77, 89, 66, 75, 49]
}

/// Big-endian value of a byte string.
pub open spec fn be_value(bytes: Seq<u8>) -> nat
    decreases bytes.len(),
{
    if bytes.len() == 0 {
        0
    } else {
        be_value(bytes.drop_last()) * 256 + bytes.last() as nat
    }
}

/// The 4 big-endian bytes of a `u32`.
pub open spec fn be_u32_bytes(n: u32) -> Seq<u8> {
    seq![(n >> 24u32) as u8, ((n >> 16u32) & 0xff) as u8, ((n >> 8u32) & 0xff) as u8, (n & 0xff) as u8]
}

/// The 8 big-endian bytes of a `u64`.
pub open spec fn be_u64_bytes(n: u64) -> Seq<u8> {
    seq![
        (n >> 56u64) as u8,
        ((n >> 48u64) & 0xff) as u8,
        ((n >> 40u64) & 0xff) as u8,
        ((n >> 32u64) & 0xff) as u8,
        ((n >> 24u64) & 0xff) as u8,
        ((n >> 16u64) & 0xff) as u8,
        ((n >> 8u64) & 0xff) as u8,
        (n & 0xff) as u8,
    ]
}

/// A package of the given header and body bytes.
pub open spec fn package(header: Seq<u8>, body: Seq<u8>) -> Seq<u8> {
    magic_bytes() + be_u32_bytes(header.len() as u32) + header + be_u64_bytes(body.len() as u64) + body
}

proof fn lemma_be_value_4(b: Seq<u8>)
    requires
        b.len() == 4,
    ensures
        be_value(b) == ((b[0] as nat * 256 + b[1] as nat) * 256 + b[2] as nat) * 256 + b[3] as nat,
{
    reveal_with_fuel(be_value, 5);
    assert(b.drop_last().drop_last().drop_last().drop_last() =~= Seq::<u8>::empty());
    assert(b.drop_last().drop_last().drop_last() =~= seq![b[0]]);
    assert(b.drop_last().drop_last() =~= seq![b[0], b[1]]);
    assert(b.drop_last() =~= seq![b[0], b[1], b[2]]);
}

proof fn lemma_be_u32(n: u32)
    ensures
        be_value(be_u32_bytes(n)) == n,
{
    let b = be_u32_bytes(n);
    lemma_be_value_4(b);
    let b0 = (n >> 24u32) as u8;
    let b1 = ((n >> 16u32) & 0xff) as u8;
    let b2 = ((n >> 8u32) & 0xff) as u8;
    let b3 = (n & 0xff) as u8;
    assert(n as int == ((b0 as int * 256 + b1 as int) * 256 + b2 as int) * 256 + b3 as int) by (bit_vector)
        requires
            b0 == (n >> 24u32) as u8,
            b1 == ((n >> 16u32) & 0xff) as u8,
            b2 == ((n >> 8u32) & 0xff) as u8,
            b3 == (n & 0xff) as u8;
}

proof fn lemma_be_value_split(a: Seq<u8>, c: Seq<u8>)
    ensures
        be_value(a + c) == be_value(a) * pow256(c.len()) + be_value(c),
    decreases c.len(),
{
    if c.len() == 0 {
        assert(a + c =~= a);
        assert(pow256(0) == 1);
        assert(be_value(c) == 0);
        assert(be_value(a) * 1 == be_value(a));
    } else {
        assert((a + c).drop_last() =~= a + c.drop_last());
        assert((a + c).last() == c.last());
        lemma_be_value_split(a, c.drop_last());
        let x = be_value(a);
        let pp = pow256((c.len() - 1) as nat);
        let y = be_value(c.drop_last());
        let l = c.last() as nat;
        assert(pow256(c.len()) == 256 * pp);
        assert((x * pp + y) * 256 + l == x * (256 * pp) + (y * 256 + l)) by (nonlinear_arith);
        assert(be_value(a + c) == be_value(a + c.drop_last()) * 256 + l);
        assert(be_value(a + c.drop_last()) == x * pp + y);
        assert(be_value(c) == y * 256 + l);
    }
}

proof fn lemma_be_u64(n: u64)
    ensures
        be_value(be_u64_bytes(n)) == n,
{
    let b = be_u64_bytes(n);
    let hi = b.take(4);
    let lo = b.skip(4);
    assert(b =~= hi + lo);
    lemma_be_value_split(hi, lo);
    lemma_be_value_4(hi);
    lemma_be_value_4(lo);
    reveal_with_fuel(pow256, 5);
    let b0 = (n >> 56u64) as u8;
    let b1 = ((n >> 48u64) & 0xff) as u8;
    let b2 = ((n >> 40u64) & 0xff) as u8;
    let b3 = ((n >> 32u64) & 0xff) as u8;
    let b4 = ((n >> 24u64) & 0xff) as u8;
    let b5 = ((n >> 16u64) & 0xff) as u8;
    let b6 = ((n >> 8u64) & 0xff) as u8;
    let b7 = (n & 0xff) as u8;
    assert(n as int == (((b0 as int * 256 + b1 as int) * 256 + b2 as int) * 256 + b3 as int) * 4294967296
        + (((b4 as int * 256 + b5 as int) * 256 + b6 as int) * 256 + b7 as int)) by (bit_vector)
        requires
            b0 == (n >> 56u64) as u8,
            b1 == ((n >> 48u64) & 0xff) as u8,
            b2 == ((n >> 40u64) & 0xff) as u8,
            b3 == ((n >> 32u64) & 0xff) as u8,
            b4 == ((n >> 24u64) & 0xff) as u8,
            b5 == ((n >> 16u64) & 0xff) as u8,
            b6 == ((n >> 8u64) & 0xff) as u8,
            b7 == (n & 0xff) as u8;
}

fn push_all(out: &mut Vec<u8>, data: &[u8])
    ensures
        final(out)@ == old(out)@ + data@,
{
    let mut i: usize = 0;
    while i < data.len()
        invariant
            i <= data@.len(),
            out@ == old(out)@ + data@.take(i as int),
        decreases data@.len() - i,
    {
        out.push(data[i]);
        i = i + 1;
        proof {
            assert(out@ =~= old(out)@ + data@.take(i as int));
        }
    }
    proof {
        assert(data@.take(data@.len() as int) =~= data@);
    }
}

/// Frame a serialized header and an encrypted body into a package.
pub fn frame_package(header_bytes: &[u8], ciphertext: &[u8]) -> (out: Vec<u8>)
    requires
        header_bytes@.len() <= u32::MAX,
    ensures
        out@ == package(header_bytes@, ciphertext@),
{
    let mut out: Vec<u8> = Vec::new();
    out.push(83u8);
    out.push(65u8);
    out.push(77u8);
    out.push(77u8);
    out.push(89u8);
    out.push(66u8);
    out.push(75u8);
    out.push(49u8);
    let h = header_bytes.len() as u32;
    out.push((h >> 24u32) as u8);
    out.push(((h >> 16u32) & 0xff) as u8);
    out.push(((h >> 8u32) & 0xff) as u8);
    out.push((h & 0xff) as u8);
    push_all(&mut out, header_bytes);
    let b = ciphertext.len() as u64;
    out.push((b >> 56u64) as u8);
    out.push(((b >> 48u64) & 0xff) as u8);
    out.push(((b >> 40u64) & 0xff) as u8);
    out.push(((b >> 32u64) & 0xff) as u8);
    out.push(((b >> 24u64) & 0xff) as u8);
    out.push(((b >> 16u64) & 0xff) as u8);
    out.push(((b >> 8u64) & 0xff) as u8);
    out.push((b & 0xff) as u8);
    push_all(&mut out, ciphertext);
    proof {
        assert(out@ =~= package(header_bytes@, ciphertext@));
    }
    out
}

/// Where the header of a package ends, or why the bytes are no package.
pub open spec fn header_end_of(bytes: Seq<u8>) -> Result<nat, Seq<char>> {
    if bytes.len() < 20 {
        Err("backup file too short"@)
    } else if bytes.take(8) != magic_bytes() {
        Err("not a Sammy backup (bad magic)"@)
    } else if bytes.len() < 12 + be_value(bytes.subrange(8, 12)) + 8 {
        Err("backup file truncated"@)
    } else {
        Ok(12 + be_value(bytes.subrange(8, 12)))
    }
}

/// The body of a package whose header ends at `header_end`, or why it is
/// missing.
pub open spec fn body_of(bytes: Seq<u8>, header_end: nat) -> Result<Seq<u8>, Seq<char>> {
    let len = be_value(bytes.subrange(header_end as int, header_end + 8 as int));
    if bytes.len() < header_end + 8 + len {
        Err("backup body truncated"@)
    } else {
        Ok(bytes.subrange(header_end + 8 as int, header_end + 8 + len as int))
    }
}

fn be_read(bytes: &[u8], start: usize, n: usize) -> (v: u128)
    requires
        n <= 8,
        start + n <= bytes@.len(),
    ensures
        v == be_value(bytes@.subrange(start as int, start + n)),
        v < 0x1_0000_0000_0000_0000,
{
    let mut v: u128 = 0;
    let mut i: usize = 0;
    while i < n
        invariant
            i <= n <= 8,
            start + n <= bytes.len(),
            v == be_value(bytes@.subrange(start as int, start + i)),
            v < pow256(i as nat),
        decreases n - i,
    {
        proof {
            assert(bytes@.subrange(start as int, start + i + 1).drop_last() =~= bytes@.subrange(start as int, start + i));
            lemma_pow256_step(i as nat);
        }
        v = v * 256 + bytes[start + i] as u128;
        i = i + 1;
    }
    proof {
        lemma_pow256_le8(n as nat);
    }
    v
}

/// 256 to the power `n`.
pub open spec fn pow256(n: nat) -> nat
    decreases n,
{
    if n == 0 { 1 } else { 256 * pow256((n - 1) as nat) }
}

proof fn lemma_pow256_step(i: nat)
    requires
        i < 8,
    ensures
        pow256(i + 1) == 256 * pow256(i),
        pow256(i + 1) <= 0x1_0000_0000_0000_0000,
{
    reveal_with_fuel(pow256, 9);
}

proof fn lemma_pow256_le8(n: nat)
    requires
        n <= 8,
    ensures
        pow256(n) <= 0x1_0000_0000_0000_0000,
{
    reveal_with_fuel(pow256, 9);
}

/// Check the magic and the header length; the header occupies
/// `bytes[12..end]` of the returned `end`.
pub fn locate_header(bytes: &[u8]) -> (r: Result<usize, AppError>)
    ensures
        match header_end_of(bytes@) {
            Ok(end) => r == Ok::<usize, AppError>(end as usize) && end + 8 <= bytes@.len(),
            Err(m) => r matches Err(AppError::Vault(e)) && e@ == m,
        },
{
    if bytes.len() < 20 {
        return Err(AppError::Vault("backup file too short".to_owned()));
    }
    let magic_ok = bytes[0] == 83 && bytes[1] == 65 && bytes[2] == 77 && bytes[3] == 77 && bytes[4] == 89
        && bytes[5] == 66 && bytes[6] == 75 && bytes[7] == 49;
    proof {
        assert(magic_ok <==> bytes@.take(8) =~= magic_bytes());
    }
    if !magic_ok {
        return Err(AppError::Vault("not a Sammy backup (bad magic)".to_owned()));
    }
    let header_len = be_read(bytes, 8, 4);
    if (bytes.len() as u128) < 12 + header_len + 8 {
        return Err(AppError::Vault("backup file truncated".to_owned()));
    }
    Ok((12 + header_len) as usize)
}

/// The header bytes of a package whose header ends at `end`.
pub fn header_slice(bytes: &[u8], end: usize) -> (h: &[u8])
    requires
        12 <= end <= bytes@.len(),
    ensures
        h@ == bytes@.subrange(12, end as int),
{
    vstd::slice::slice_subrange(bytes, 12, end)
}

/// The encrypted body of a package whose header ends at `header_end`.
pub fn extract_body(bytes: &[u8], header_end: usize) -> (r: Result<Vec<u8>, AppError>)
    requires
        header_end + 8 <= bytes@.len(),
    ensures
        match body_of(bytes@, header_end as nat) {
            Ok(b) => r matches Ok(v) && v@ == b,
            Err(m) => r matches Err(AppError::Vault(e)) && e@ == m,
        },
{
    let body_len = be_read(bytes, header_end, 8);
    assert(header_end + 8 <= bytes.len());
    let body_start = header_end + 8;
    if (bytes.len() as u128) < body_start as u128 + body_len {
        return Err(AppError::Vault("backup body truncated".to_owned()));
    }
    let end = body_start + body_len as usize;
    let body = vstd::slice::slice_subrange(bytes, body_start, end);
    let mut v: Vec<u8> = Vec::new();
    push_all(&mut v, body);
    Ok(v)
}

/// Framing and reading back are inverse: a package's header is found where
/// it was put, and its body comes back whole.
pub proof fn lemma_package_round_trip(header: Seq<u8>, body: Seq<u8>)
    requires
        header.len() <= u32::MAX,
        body.len() <= u64::MAX,
    ensures
        header_end_of(package(header, body)) == Ok::<nat, Seq<char>>(12 + header.len()),
        package(header, body).subrange(12, 12 + header.len() as int) == header,
        body_of(package(header, body), 12 + header.len()) == Ok::<Seq<u8>, Seq<char>>(body),
{
    let p = package(header, body);
    lemma_be_u32(header.len() as u32);
    lemma_be_u64(body.len() as u64);
    assert(p.take(8) =~= magic_bytes());
    assert(p.subrange(8, 12) =~= be_u32_bytes(header.len() as u32));
    assert(p.subrange(12, 12 + header.len() as int) =~= header);
    let he = 12 + header.len();
    assert(p.subrange(he as int, he + 8 as int) =~= be_u64_bytes(body.len() as u64));
    assert(p.subrange(he + 8 as int, he + 8 + body.len() as int) =~= body);
}

// ---------------------------------------------------------------------------
// Checksums
// ---------------------------------------------------------------------------

/// SHA-256 of a byte string as lowercase hex.
pub open spec fn sha256_hex_of(data: Seq<u8>) -> Seq<char> {
    hex_lower(sha256_digest(data))
}

/// SHA-256 of a byte string as lowercase hex.
pub fn sha256_hex(data: &[u8]) -> (s: String)
    ensures
        s@ == sha256_hex_of(data@),
{
    let d = crate::crypto::digest::sha256(data);
    crate::crypto::digest::hex_encode(d.as_slice())
}

/// Transport integrity: the encrypted body hashes to the header's checksum.
pub fn verify_body_checksum(header: &BackupHeader, body_ct: &[u8]) -> (r: Result<(), AppError>)
    ensures
        sha256_hex_of(body_ct@) == header.body_sha256@ ==> r is Ok,
        sha256_hex_of(body_ct@) != header.body_sha256@ ==> (r matches Err(AppError::Vault(m))
            && m@ == "backup body checksum mismatch"@),
{
    let actual = sha256_hex(body_ct);
    if actual != header.body_sha256 {
        return Err(AppError::Vault("backup body checksum mismatch".to_owned()));
    }
    Ok(())
}

/// Every file of the body hashes to its recorded checksum; the first that
/// does not is named in the error.
pub fn verify_file_checksums(body: &BackupBody) -> (r: Result<(), AppError>)
    ensures
        r is Ok <==> (forall|i: int| 0 <= i < body.files@.len() ==> sha256_hex_of((#[trigger] body.files@[i]).bytes@)
            == body.files@[i].sha256@),
        r matches Err(AppError::Vault(m)) ==> exists|i: int| 0 <= i < body.files@.len()
            && sha256_hex_of((#[trigger] body.files@[i]).bytes@) != body.files@[i].sha256@
            && (forall|k: int| 0 <= k < i ==> sha256_hex_of((#[trigger] body.files@[k]).bytes@) == body.files@[k].sha256@)
            && m@ == "file "@ + body.files@[i].rel_path@ + " checksum mismatch"@,
        r is Err ==> r matches Err(AppError::Vault(_)),
{
    let mut i: usize = 0;
    while i < body.files.len()
        invariant
            i <= body.files@.len(),
            forall|k: int| 0 <= k < i ==> sha256_hex_of((#[trigger] body.files@[k]).bytes@) == body.files@[k].sha256@,
        decreases body.files@.len() - i,
    {
        let f = &body.files[i];
        let h = sha256_hex(f.bytes.as_slice());
        if h != f.sha256 {
            let mut m = "file ".to_owned();
            crate::text::push_str(&mut m, f.rel_path.as_str());
            crate::text::push_str(&mut m, " checksum mismatch");
            return Err(AppError::Vault(m));
        }
        i = i + 1;
    }
    Ok(())
}

// ---------------------------------------------------------------------------
// Sealing and opening
// ---------------------------------------------------------------------------

/// The encrypted body and the key material recorded in its header.
#[derive(Debug, Clone)]
pub struct SealedBody {
    pub passphrase_salt: [u8; 16],
    pub params: Params,
    pub wrapped_bdk_passphrase: String,
    pub wrapped_bdk_recovery: String,
    pub ciphertext: Vec<u8>,
    pub body_sha256: String,
    pub plaintext_body_sha256: String,
}

/// Why a package could not be opened.
#[derive(Debug, Clone, Copy, PartialEq, Eq, Structural)]
pub enum OpenFailure {
    /// The encrypted body does not match its checksum.
    BodyChecksum,
    /// The credential does not open the backup key, or the body does not
    /// decrypt under it.
    Credential,
    /// The decrypted body does not match its checksum.
    PlaintextChecksum,
}

/// Opening a body with a key-encryption key and the backup key wrapped
/// under it: the cleartext, or why there is none.
pub open spec fn open_with_kek(header: BackupHeader, body_ct: Seq<u8>, kek: Seq<u8>, wrapped: Seq<char>) -> Result<Seq<u8>, OpenFailure> {
    if sha256_hex_of(body_ct) != header.body_sha256@ {
        Err(OpenFailure::BodyChecksum)
    } else {
        match unwrapped_text(kek, wrapped) {
            None => Err(OpenFailure::Credential),
            Some(bdk) => match opened_blob(bdk, body_ct) {
                None => Err(OpenFailure::Credential),
                Some(pt) => if sha256_hex_of(pt) != header.plaintext_body_sha256@ {
                    Err(OpenFailure::PlaintextChecksum)
                } else {
                    Ok(pt)
                },
            },
        }
    }
}

/// Opening a body with the master passphrase.
pub open spec fn open_with_passphrase(header: BackupHeader, body_ct: Seq<u8>, passphrase: Seq<u8>) -> Result<Seq<u8>, OpenFailure> {
    if sha256_hex_of(body_ct) != header.body_sha256@ {
        Err(OpenFailure::BodyChecksum)
    } else if passphrase.len() > 0xFFFF_FFFF {
        Err(OpenFailure::Credential)
    } else {
        open_with_kek(header, body_ct, kek_spec(passphrase, header.passphrase_salt@, header.argon2_params),
            header.wrapped_bdk_passphrase@)
    }
}

/// Opening a body with the recovery code.
pub open spec fn open_with_recovery(header: BackupHeader, body_ct: Seq<u8>, code: Seq<u8>) -> Result<Seq<u8>, OpenFailure> {
    open_with_kek(header, body_ct, recovery_kek_spec(code, header.passphrase_salt@), header.wrapped_bdk_recovery@)
}

/// The application error an opening failure is reported as.
pub open spec fn reports_open(r: Result<Vec<u8>, AppError>, o: Result<Seq<u8>, OpenFailure>) -> bool {
    match o {
        Ok(pt) => r matches Ok(v) && v@ == pt,
        Err(OpenFailure::BodyChecksum) => r matches Err(AppError::Vault(m)) && m@ == "backup body checksum mismatch"@,
        Err(OpenFailure::Credential) => r matches Err(AppError::Crypto),
        Err(OpenFailure::PlaintextChecksum) => r matches Err(AppError::Vault(m))
            && m@ == "backup plaintext checksum mismatch"@,
    }
}

fn open_with_key(header: &BackupHeader, body_ct: &[u8], kek: &SecretKey, wrapped: &String) -> (r: Result<Vec<u8>, AppError>)
    ensures
        reports_open(r, open_with_kek(*header, body_ct@, kek@, wrapped@)),
{
    verify_body_checksum(header, body_ct)?;
    let bdk = match crate::crypto::unwrap_text(kek, wrapped) {
        Ok(k) => k,
        Err(_) => return Err(AppError::Crypto),
    };
    let pt = match crate::crypto::aead::decrypt(&bdk, body_ct) {
        Ok(p) => p,
        Err(_) => return Err(AppError::Crypto),
    };
    let pt_sha = sha256_hex(pt.as_slice());
    if pt_sha != header.plaintext_body_sha256 {
        return Err(AppError::Vault("backup plaintext checksum mismatch".to_owned()));
    }
    let mut v: Vec<u8> = Vec::new();
    push_all(&mut v, pt.as_slice());
    Ok(v)
}

/// Open a package body with the master passphrase: check the transport
/// checksum, unwrap the backup key, decrypt, check the plaintext checksum.
/// A wrong passphrase is an opaque crypto error.
pub fn open_body_with_passphrase(header: &BackupHeader, body_ct: &[u8], passphrase: &[u8]) -> (r: Result<Vec<u8>, AppError>)
    requires
        params_valid(header.argon2_params),
    ensures
        reports_open(r, open_with_passphrase(*header, body_ct@, passphrase@)),
{
    verify_body_checksum(header, body_ct)?;
    if passphrase.len() > 0xFFFF_FFFF {
        return Err(AppError::Crypto);
    }
    let kek = match crate::crypto::derive_kek(passphrase, &header.passphrase_salt, &header.argon2_params) {
        Ok(k) => k,
        Err(_) => return Err(AppError::Crypto),
    };
    open_with_key(header, body_ct, &kek, &header.wrapped_bdk_passphrase)
}

/// Open a package body with the recovery code.
pub fn open_body_with_recovery(header: &BackupHeader, body_ct: &[u8], recovery: &RecoveryCode) -> (r: Result<Vec<u8>, AppError>)
    ensures
        reports_open(r, open_with_recovery(*header, body_ct@, recovery@)),
{
    let kek = match crate::crypto::recovery::derive_recovery_kek(recovery, &header.passphrase_salt) {
        Ok(k) => k,
        Err(_) => return Err(AppError::Crypto),
    };
    open_with_key(header, body_ct, &kek, &header.wrapped_bdk_recovery)
}

/// `h` records the key material and checksums of `s`.
pub open spec fn header_records(h: BackupHeader, s: SealedBody) -> bool {
    &&& h.passphrase_salt == s.passphrase_salt
    &&& h.argon2_params == s.params
    &&& h.wrapped_bdk_passphrase@ == s.wrapped_bdk_passphrase@
    &&& h.wrapped_bdk_recovery@ == s.wrapped_bdk_recovery@
    &&& h.body_sha256@ == s.body_sha256@
    &&& h.plaintext_body_sha256@ == s.plaintext_body_sha256@
}

/// Encrypt a serialized body under a fresh backup key, wrapped under the
/// passphrase key and the recovery key. Whatever header records the result,
/// the passphrase and the recovery code each open it back to the body.
pub fn seal_body(plaintext: &[u8], passphrase: &[u8], recovery: &RecoveryCode, params: &Params) -> (s: SealedBody)
    requires
        params_valid(*params),
        passphrase@.len() <= 0xFFFF_FFFF,
        plaintext@.len() <= P_MAX,
    ensures
        s.params == *params,
        s.body_sha256@ == sha256_hex_of(s.ciphertext@),
        s.plaintext_body_sha256@ == sha256_hex_of(plaintext@),
        forall|h: BackupHeader| #[trigger] header_records(h, s) ==> {
            &&& open_with_passphrase(h, s.ciphertext@, passphrase@) == Ok::<Seq<u8>, OpenFailure>(plaintext@)
            &&& open_with_recovery(h, s.ciphertext@, recovery@) == Ok::<Seq<u8>, OpenFailure>(plaintext@)
        },
{
    let plaintext_sha = sha256_hex(plaintext);
    let bdk = SecretKey::random();
    let salt = crate::crypto::random::salt16();
    let pass_kek = match crate::crypto::derive_kek(passphrase, &salt, params) {
        Ok(k) => k,
        Err(_) => {
            assert(false);
            SecretKey::random()
        },
    };
    let rec_kek = match crate::crypto::recovery::derive_recovery_kek(recovery, &salt) {
        Ok(k) => k,
        Err(_) => {
            assert(false);
            SecretKey::random()
        },
    };
    let wrapped_pass = crate::crypto::wrap_key(&pass_kek, &bdk);
    let wrapped_rec = crate::crypto::wrap_key(&rec_kek, &bdk);
    let ciphertext = crate::crypto::aead::encrypt(&bdk, plaintext);
    let body_sha = sha256_hex(ciphertext.as_slice());
    let s = SealedBody {
        passphrase_salt: salt,
        params: *params,
        wrapped_bdk_passphrase: b64_encode(wrapped_pass.as_slice()),
        wrapped_bdk_recovery: b64_encode(wrapped_rec.as_slice()),
        ciphertext,
        body_sha256: body_sha,
        plaintext_body_sha256: plaintext_sha,
    };
    proof {
        assert(base64_standard_decode(s.wrapped_bdk_passphrase@) == Some(wrapped_pass@));
        assert(base64_standard_decode(s.wrapped_bdk_recovery@) == Some(wrapped_rec@));
        assert(unwrapped_text(pass_kek@, s.wrapped_bdk_passphrase@) == Some(bdk@));
        assert(unwrapped_text(rec_kek@, s.wrapped_bdk_recovery@) == Some(bdk@));
        assert(opened_blob(bdk@, s.ciphertext@) == Some(plaintext@));
    }
    s
}

/// The header of a package sealed as `sealed`.
pub fn build_header(vault_id: &VaultId, vault_name: &str, sealed: &SealedBody) -> (h: BackupHeader)
    ensures
        header_records(h, *sealed),
        h.format_version == BACKUP_FORMAT_VERSION,
        h.vault_id@ == crate::ids::uuid_text(vault_id.0),
        h.vault_name@ == vault_name@,
{
    BackupHeader {
        format_version: BACKUP_FORMAT_VERSION,
        vault_id: vault_id.to_string(),
        vault_name: vault_name.to_owned(),
        created_at: crate::time::now_rfc3339(),
        passphrase_salt: sealed.passphrase_salt,
        argon2_params: sealed.params,
        wrapped_bdk_passphrase: sealed.wrapped_bdk_passphrase.clone(),
        wrapped_bdk_recovery: sealed.wrapped_bdk_recovery.clone(),
        body_sha256: sealed.body_sha256.clone(),
        plaintext_body_sha256: sealed.plaintext_body_sha256.clone(),
    }
}

// ---------------------------------------------------------------------------
// Installing
// ---------------------------------------------------------------------------

/// The vault a restored body belongs to: header and body must name the same
/// vault, and the name must be an id.
pub fn restored_vault_id(header: &BackupHeader, body: &BackupBody) -> (r: Result<VaultId, AppError>)
    ensures
        body.vault_id@ != header.vault_id@ ==> (r matches Err(AppError::Vault(m)) && m@ == "backup vault id mismatch"@),
        body.vault_id@ == header.vault_id@ ==> match crate::ids::uuid_parse(body.vault_id@) {
            Some(v) => r == Ok::<VaultId, AppError>(VaultId(v)),
            None => r matches Err(AppError::InvalidArgument(m)) && m@ == "invalid VaultId id"@,
        },
{
    if body.vault_id != header.vault_id {
        return Err(AppError::Vault("backup vault id mismatch".to_owned()));
    }
    VaultId::parse(body.vault_id.as_str())
}

/// A path segment separator of a stored relative path.
pub open spec fn is_path_sep(c: char) -> bool {
    c == '/' || c == '\\'
}

/// `rel_path` has a `..` segment (segments split at `/` or `\`), which would
/// climb out of the vault directory.
pub open spec fn has_parent_segment(rel_path: Seq<char>) -> bool {
    exists|i: int| 0 <= i && i + 2 <= rel_path.len() && #[trigger] rel_path[i] == '.' && rel_path[i + 1] == '.'
        && (i == 0 || is_path_sep(rel_path[i - 1]))
        && (i + 2 == rel_path.len() || is_path_sep(rel_path[i + 2]))
}

/// `rel_path` is absolute: it starts at a separator, or with a drive letter
/// and a colon; joined to the vault directory it would replace it.
pub open spec fn is_absolute_entry(rel_path: Seq<char>) -> bool {
    ||| rel_path.len() >= 1 && is_path_sep(rel_path[0])
    ||| rel_path.len() >= 2 && rel_path[1] == ':' && (('a' <= rel_path[0] <= 'z') || ('A' <= rel_path[0] <= 'Z'))
}

/// A stored path that would land outside the vault directory: an absolute
/// path, or one with a `..` segment.
pub open spec fn escapes_vault(rel_path: Seq<char>) -> bool {
    is_absolute_entry(rel_path) || has_parent_segment(rel_path)
}

/// Whether a stored file would land outside the vault directory.
pub fn entry_escapes_vault(rel_path: &str) -> (r: bool)
    ensures
        r == escapes_vault(rel_path@),
{
    let cs = crate::text::chars_of(rel_path);
    if cs.len() >= 1 && (cs[0] == '/' || cs[0] == '\\') {
        return true;
    }
    if cs.len() >= 2 && cs[1] == ':' && (('a' <= cs[0] && cs[0] <= 'z') || ('A' <= cs[0] && cs[0] <= 'Z')) {
        return true;
    }
    if cs.len() < 2 {
        return false;
    }
    let mut i: usize = 0;
    while i + 1 < cs.len()
        invariant
            cs@ == rel_path@,
            cs@.len() >= 2,
            i < cs.len(),
            forall|k: int| 0 <= k < i && k + 2 <= cs@.len() ==> !(#[trigger] cs@[k] == '.' && cs@[k + 1] == '.'
                && (k == 0 || is_path_sep(cs@[k - 1])) && (k + 2 == cs@.len() || is_path_sep(cs@[k + 2]))),
        decreases cs@.len() - i,
    {
        if cs[i] == '.' && cs[i + 1] == '.' && (i == 0 || cs[i - 1] == '/' || cs[i - 1] == '\\')
            && (i + 2 == cs.len() || cs[i + 2] == '/' || cs[i + 2] == '\\') {
            return true;
        }
        i = i + 1;
    }
    false
}

/// The message refusing an entry that escapes the vault directory.
pub fn escape_error(rel_path: &str) -> (e: AppError)
    ensures
        e matches AppError::Vault(m) && m@ == "backup entry escapes vault dir: "@ + rel_path@,
{
    let mut m = "backup entry escapes vault dir: ".to_owned();
    crate::text::push_str(&mut m, rel_path);
    AppError::Vault(m)
}

} // verus!
