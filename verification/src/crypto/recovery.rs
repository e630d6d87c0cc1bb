//! Recovery codes: 20 random bytes (160 bits), a checksum byte for typo
//! detection, RFC 4648 base32 (upper case, no padding) grouped in blocks of
//! four separated by dashes. The recovery key-encryption key is HKDF-SHA256
//! over the entropy with the vault salt.

use vstd::prelude::*;
use vstd::arithmetic::power2::*;
use vstd::arithmetic::div_mod::*;
use crate::radix::{digits_value, digits_fit, bit_group, regroup, pow2_u32, lemma_div_mul_pow2, lemma_shift_mod, lemma_value_bound, lemma_digit_is_group, lemma_groups_value};
use crate::text::{ascii_lower, ascii_upper, to_ascii_upper, is_ascii_ws, push_char, push_str, owned, chars_of, string_from_chars, decimal_string};
use crate::crypto::{CryptoError, SecretKey};
use crate::crypto::digest::{sha256, sha256_digest, hkdf_sha256_32, hkdf_sha256_okm};

verus! {

/// Number of raw entropy bytes in a recovery code (160 bits).
pub const RECOVERY_CODE_BYTES: usize = 20;

pub const GROUP_LEN: usize = 4;

// ---------------------------------------------------------------------------
// Base32 (RFC 4648 alphabet, no padding)
// ---------------------------------------------------------------------------

/// The base32 symbol for a 5-bit value: `A`..`Z` then `2`..`7`.
pub open spec fn b32_symbol(v: u8) -> char {
    if v < 26 {
        (65 + v) as char
    } else {
        (24 + v) as char
    }
}

/// The 5-bit value of a base32 symbol, accepting lower case.
pub open spec fn b32_value(c: char) -> Option<u8> {
    let u = ascii_upper(c);
    if 'A' <= u && u <= 'Z' {
        Some(((u as u32) - 65) as u8)
    } else if '2' <= u && u <= '7' {
        Some(((u as u32) - 24) as u8)
    } else {
        None
    }
}

/// The 5-bit values that encode `bytes`: the bit string cut into groups of
/// five, the last group padded with zero bits.
pub open spec fn b32_values(bytes: Seq<u8>) -> Seq<u8> {
    let total = 8 * bytes.len();
    let v = digits_value(bytes, 8);
    let full = total / 5;
    let rest = total % 5;
    Seq::new(
        full + if rest > 0 { 1nat } else { 0nat },
        |j: int|
            if j < full {
                bit_group(v, total, 5, j as nat) as u8
            } else {
                ((v % pow2(rest)) * pow2((5 - rest) as nat)) as u8
            },
    )
}

/// Unpadded base32 text of `bytes`.
pub open spec fn base32_encode_spec(bytes: Seq<u8>) -> Seq<char> {
    b32_values(bytes).map_values(|v: u8| b32_symbol(v))
}

/// The bytes that a sequence of 5-bit values denotes; trailing bits that do
/// not fill a byte are dropped.
pub open spec fn b32_bytes(vals: Seq<u8>) -> Seq<u8> {
    let total = 5 * vals.len();
    Seq::new(total / 8, |t: int| bit_group(digits_value(vals, 5), total, 8, t as nat) as u8)
}

/// Decoded bytes of base32 text, or `None` if a character is not base32.
pub open spec fn base32_decode_spec(s: Seq<char>) -> Option<Seq<u8>> {
    if forall|i: int| 0 <= i < s.len() ==> (#[trigger] b32_value(s[i])) is Some {
        Some(b32_bytes(s.map_values(|c: char| b32_value(c)->0)))
    } else {
        None
    }
}

fn b32_symbol_exec(v: u8) -> (c: char)
    requires
        v < 32,
    ensures
        c == b32_symbol(v),
{
    if v < 26 {
        (65 + v) as char
    } else {
        (24 + v) as char
    }
}

fn b32_value_exec(c: char) -> (r: Option<u8>)
    ensures
        r == b32_value(c),
{
    let u = to_ascii_upper(c);
    if 'A' <= u && u <= 'Z' {
        Some(((u as u32) - 65) as u8)
    } else if '2' <= u && u <= '7' {
        Some(((u as u32) - 24) as u8)
    } else {
        None
    }
}

proof fn lemma_pow2_5()
    ensures
        pow2(5) == 32,
        pow2(8) == 256,
{
    lemma2_to64();
}

/// Encode bytes as unpadded base32.
pub fn base32_encode(bytes: &[u8]) -> (s: String)
    ensures
        s@ == base32_encode_spec(bytes@),
{
    let input = vstd::slice::slice_to_vec(bytes);
    proof {
        lemma_pow2_5();
        assert(digits_fit(input@, 8)) by {
            assert forall|i: int| 0 <= i < input@.len() implies (#[trigger] input@[i] as nat) < pow2(8) by {}
        }
    }
    let (vals, rem, bits) = regroup(&input, 8, 5);
    let ghost v = digits_value(bytes@, 8);
    let mut all = vals;
    if bits > 0 {
        let p = pow2_u32(5 - bits);
        proof {
            lemma_pow2_pos(bits as nat);
            lemma_mod_bound(v as int, pow2(bits as nat) as int);
            lemma_pow2_adds(bits as nat, (5 - bits) as nat);
            lemma_pow2_pos((5 - bits) as nat);
            assert(rem * p < pow2(bits as nat) * pow2((5 - bits) as nat)) by (nonlinear_arith)
                requires
                    rem < pow2(bits as nat),
                    p == pow2((5 - bits) as nat),
                    p > 0,
            ;
            assert((bits + (5 - bits)) as nat == 5);
        }
        all.push((rem * p) as u8);
    }
    let ghost values = b32_values(bytes@);
    proof {
        assert(all@.len() == values.len());
        assert forall|j: int| 0 <= j < all@.len() implies all@[j] == values[j] && all@[j] < 32 by {
            if j < vals@.len() {
                assert(vals@[j] as nat == bit_group(v, 8 * bytes@.len(), 5, j as nat));
                assert(vals@[j] as nat == bit_group(v, 8 * bytes@.len(), 5, j as nat) as u8);
            }
        }
        assert(all@ =~= values);
    }
    let mut s = String::new();
    let mut i: usize = 0;
    while i < all.len()
        invariant
            i <= all@.len(),
            all@ == b32_values(bytes@),
            forall|j: int| 0 <= j < all@.len() ==> (#[trigger] all@[j]) < 32,
            s@ == all@.take(i as int).map_values(|v: u8| b32_symbol(v)),
        decreases all@.len() - i,
    {
        let c = b32_symbol_exec(all[i]);
        proof {
            assert(all@.take(i + 1).map_values(|v: u8| b32_symbol(v)) =~= all@.take(i as int).map_values(
                |v: u8| b32_symbol(v),
            ).push(c));
        }
        push_char(&mut s, c);
        i = i + 1;
    }
    proof {
        assert(all@.take(all@.len() as int) =~= all@);
    }
    s
}

/// Decode unpadded base32 (either case). Fails on a character outside the
/// alphabet.
pub fn base32_decode(s: &str) -> (r: Result<Vec<u8>, CryptoError>)
    ensures
        match base32_decode_spec(s@) {
            Some(b) => r matches Ok(v) && v@ == b,
            None => r matches Err(CryptoError::InvalidEncoding(_)),
        },
{
    let mut vals: Vec<u8> = Vec::new();
    for ch in it: s.chars()
        invariant
            it.seq() == s@,
            vals@.len() == it.index(),
            forall|k: int|
                0 <= k < it.index() ==> (#[trigger] b32_value(s@[k])) is Some && vals@[k] == b32_value(
                    s@[k],
                )->0,
    {
        match b32_value_exec(ch) {
            Some(v) => {
                vals.push(v);
            },
            None => {
                let mut msg = owned("bad base32 char: ");
                push_char(&mut msg, ch);
                proof {
                    assert(s@[it.index() as int] == ch);
                    assert(base32_decode_spec(s@) is None);
                }
                return Err(CryptoError::InvalidEncoding(msg));
            },
        }
    }
    proof {
        lemma_pow2_5();
        assert(vals@ =~= s@.map_values(|c: char| b32_value(c)->0));
        assert(digits_fit(vals@, 5)) by {
            assert forall|i: int| 0 <= i < vals@.len() implies (#[trigger] vals@[i] as nat) < pow2(5) by {
                assert(b32_value(s@[i]) is Some);
            }
        }
    }
    let (out, _rem, _bits) = regroup(&vals, 5, 8);
    proof {
        let b = b32_bytes(vals@);
        assert(out@.len() == b.len());
        assert forall|t: int| 0 <= t < out@.len() implies out@[t] == b[t] by {
            assert(out@[t] as nat == bit_group(digits_value(vals@, 5), 5 * vals@.len(), 8, t as nat));
        }
        assert(out@ =~= b);
    }
    Ok(out)
}

proof fn lemma_div_pow2_exact(x: nat, p: nat, e: nat)
    ensures
        (x * pow2(p)) / pow2(p + e) == x / pow2(e),
{
    lemma_div_mul_pow2(x, p, e);
}

/// Decoding what was encoded gives back the bytes.
pub proof fn lemma_base32_round_trip(bytes: Seq<u8>)
    ensures
        base32_decode_spec(base32_encode_spec(bytes)) == Some(bytes),
{
    let n = bytes.len();
    let total = 8 * n;
    let v = digits_value(bytes, 8);
    let vals = b32_values(bytes);
    let ln = vals.len();
    let full = total / 5;
    let rest = total % 5;
    let pad = (5 * ln - total) as nat;
    lemma_pow2_5();
    assert(digits_fit(bytes, 8)) by {
        assert forall|i: int| 0 <= i < bytes.len() implies (#[trigger] bytes[i] as nat) < pow2(8) by {}
    }
    lemma_value_bound(bytes, 8);
    // the padded number and its bit length
    assert(5 * ln == total + pad);
    assert(pad < 5);
    let x = v * pow2(pad);
    lemma_pow2_adds(total, pad);
    lemma_pow2_pos(pad);
    assert(x < pow2(5 * ln)) by (nonlinear_arith)
        requires
            v < pow2(total),
            x == v * pow2(pad),
            pow2(pad) > 0,
            pow2(total + pad) == pow2(total) * pow2(pad),
            5 * ln == total + pad,
    ;
    // every value is the corresponding 5-bit group of the padded number
    assert forall|j: int| 0 <= j < ln implies (#[trigger] vals[j]) as nat == bit_group(x, 5 * ln, 5, j as nat) by {
        if j < full {
            let e = (total - 5 * (j + 1)) as nat;
            assert((5 * ln - 5 * (j + 1)) as nat == pad + e);
            lemma_div_pow2_exact(v, pad, e);
            assert(bit_group(v, total, 5, j as nat) < 32) by {
                lemma_mod_bound((v / pow2(e)) as int, 32);
            }
        } else {
            assert(j == full);
            assert(rest > 0);
            assert((5 * ln - 5 * (j + 1)) as nat == 0);
            assert(pow2(0) == 1) by {
                lemma2_to64();
            }
            assert(x / pow2(0) == x) by {
                lemma_div_basics(x as int);
            }
            assert(pad == 5 - rest);
            lemma_shift_mod(v, 0, rest, pad);
            assert((rest + pad) as nat == 5);
            lemma_pow2_adds(rest, pad);
            assert((v % pow2(rest)) * pow2(pad) < 32);
        }
    }
    assert(digits_fit(vals, 5)) by {
        assert forall|i: int| 0 <= i < vals.len() implies (#[trigger] vals[i] as nat) < pow2(5) by {
            lemma_mod_bound((x / pow2((5 * ln - 5 * (i + 1)) as nat)) as int, 32);
        }
    }
    lemma_groups_value(vals, x, 5);
    // the symbols decode back to the values
    let text = base32_encode_spec(bytes);
    assert forall|i: int| 0 <= i < text.len() implies (#[trigger] b32_value(text[i])) is Some && b32_value(text[i])->0 == vals[i] by {
        assert(vals[i] < 32);
    }
    assert(text.map_values(|c: char| b32_value(c)->0) =~= vals);
    // the bytes are the 8-bit groups of the padded number
    let out = b32_bytes(vals);
    assert(5 * ln / 8 == n);
    assert forall|t: int| 0 <= t < n implies out[t] == bytes[t] by {
        lemma_digit_is_group(bytes, 8, t);
        let e = (total - 8 * (t + 1)) as nat;
        assert((5 * ln - 8 * (t + 1)) as nat == pad + e);
        lemma_div_pow2_exact(v, pad, e);
        lemma_mod_bound((v / pow2(e)) as int, 256);
    }
    assert(out =~= bytes);
}

// ---------------------------------------------------------------------------
// Human form: grouping and separators
// ---------------------------------------------------------------------------

/// `s` with a dash inserted before every fourth character.
pub open spec fn group_dashes(s: Seq<char>) -> Seq<char>
    decreases s.len(),
{
    if s.len() <= 4 {
        s
    } else {
        s.take(4) + seq!['-'] + group_dashes(s.skip(4))
    }
}

/// A separator ignored when a recovery code is typed back in.
pub open spec fn is_separator(c: char) -> bool {
    is_ascii_ws(c) || c == '-'
}

/// `s` without separators.
pub open spec fn strip_separators(s: Seq<char>) -> Seq<char>
    decreases s.len(),
{
    if s.len() == 0 {
        s
    } else if is_separator(s.last()) {
        strip_separators(s.drop_last())
    } else {
        strip_separators(s.drop_last()).push(s.last())
    }
}

proof fn lemma_group_dashes_push(t: Seq<char>, c: char)
    ensures
        group_dashes(t.push(c)) == if t.len() > 0 && t.len() % 4 == 0 {
            group_dashes(t) + seq!['-', c]
        } else {
            group_dashes(t).push(c)
        },
    decreases t.len(),
{
    if t.len() < 4 {
    } else if t.len() == 4 {
        assert(t.push(c).take(4) =~= t);
        assert(t.push(c).skip(4) =~= seq![c]);
        assert(group_dashes(seq![c]) == seq![c]);
        assert(group_dashes(t.push(c)) == t.push(c).take(4) + seq!['-'] + group_dashes(t.push(c).skip(4)));
        assert(group_dashes(t) == t);
        assert(group_dashes(t.push(c)) =~= t + seq!['-', c]);
    } else {
        assert(t.push(c).take(4) =~= t.take(4));
        assert(t.push(c).skip(4) =~= t.skip(4).push(c));
        lemma_group_dashes_push(t.skip(4), c);
        assert(t.skip(4).len() % 4 == t.len() % 4);
        if t.len() % 4 == 0 {
            assert(group_dashes(t.push(c)) =~= group_dashes(t) + seq!['-', c]);
        } else {
            assert(group_dashes(t.push(c)) =~= group_dashes(t).push(c));
        }
    }
}

proof fn lemma_strip_concat(a: Seq<char>, b: Seq<char>)
    ensures
        strip_separators(a + b) == strip_separators(a) + strip_separators(b),
    decreases b.len(),
{
    if b.len() == 0 {
        assert(a + b =~= a);
        assert(strip_separators(a) + strip_separators(b) =~= strip_separators(a));
    } else {
        assert((a + b).drop_last() =~= a + b.drop_last());
        assert((a + b).last() == b.last());
        lemma_strip_concat(a, b.drop_last());
        if is_separator(b.last()) {
        } else {
            assert(strip_separators(a + b) =~= strip_separators(a) + strip_separators(b));
        }
    }
}

proof fn lemma_strip_plain(s: Seq<char>)
    requires
        forall|i: int| 0 <= i < s.len() ==> !is_separator(#[trigger] s[i]),
    ensures
        strip_separators(s) == s,
    decreases s.len(),
{
    if s.len() > 0 {
        lemma_strip_plain(s.drop_last());
        assert(s.drop_last().push(s.last()) =~= s);
    }
}

proof fn lemma_strip_grouped(s: Seq<char>)
    requires
        forall|i: int| 0 <= i < s.len() ==> !is_separator(#[trigger] s[i]),
    ensures
        strip_separators(group_dashes(s)) == s,
    decreases s.len(),
{
    if s.len() <= 4 {
        lemma_strip_plain(s);
    } else {
        lemma_strip_grouped(s.skip(4));
        lemma_strip_concat(s.take(4) + seq!['-'], group_dashes(s.skip(4)));
        lemma_strip_concat(s.take(4), seq!['-']);
        lemma_strip_plain(s.take(4));
        assert(strip_separators(seq!['-']) =~= Seq::<char>::empty()) by {
            let d = seq!['-'];
            assert(d.drop_last() =~= Seq::<char>::empty());
            assert(d.last() == '-');
            assert(is_separator(d.last()));
            assert(strip_separators(Seq::<char>::empty()) == Seq::<char>::empty());
            assert(strip_separators(d) == strip_separators(d.drop_last()));
        }
        assert(s.take(4) + s.skip(4) =~= s);
    }
}

// ---------------------------------------------------------------------------
// Checksum and human form
// ---------------------------------------------------------------------------

/// Domain-separation label hashed in front of the entropy.
pub open spec fn checksum_label() -> Seq<u8> {
    seq![
        115u8, 97, 109, 109, 121, 45, 114, 101, 99, 111, 118, 101, 114, 121, 45, 99, 104, 101, 99,
        107, 115, 117, 109, 45, 118, 49,
    ]
}

/// The checksum byte: first byte of SHA-256(label || entropy), XOR 0xA5.
pub open spec fn checksum_spec(entropy: Seq<u8>) -> u8 {
    sha256_digest(checksum_label() + entropy)[0] ^ 0xA5u8
}

fn checksum_label_bytes() -> (v: Vec<u8>)
    ensures
        v@ == checksum_label(),
{
    let v: Vec<u8> = vec![
        115u8, 97, 109, 109, 121, 45, 114, 101, 99, 111, 118, 101, 114, 121, 45, 99, 104, 101, 99,
        107, 115, 117, 109, 45, 118, 49,
    ];
    proof {
        assert(v@ =~= checksum_label());
    }
    v
}

fn checksum_byte(entropy: &[u8]) -> (b: u8)
    ensures
        b == checksum_spec(entropy@),
{
    let mut buf = checksum_label_bytes();
    let mut i: usize = 0;
    while i < entropy.len()
        invariant
            i <= entropy@.len(),
            buf@ == checksum_label() + entropy@.take(i as int),
        decreases entropy@.len() - i,
    {
        buf.push(entropy[i]);
        i = i + 1;
        proof {
            assert(buf@ =~= checksum_label() + entropy@.take(i as int));
        }
    }
    proof {
        assert(entropy@.take(entropy@.len() as int) =~= entropy@);
    }
    let d = sha256(buf.as_slice());
    d[0] ^ 0xA5u8
}

/// The human form of a code: base32 of entropy plus checksum, in dashed
/// groups of four.
pub open spec fn human_form(entropy: Seq<u8>) -> Seq<char> {
    group_dashes(base32_encode_spec(entropy.push(checksum_spec(entropy))))
}

/// Base32 symbols are never separators.
proof fn lemma_symbols_plain(bytes: Seq<u8>)
    ensures
        forall|i: int|
            0 <= i < base32_encode_spec(bytes).len() ==> !is_separator(
                #[trigger] base32_encode_spec(bytes)[i],
            ),
{
    assert forall|i: int| 0 <= i < base32_encode_spec(bytes).len() implies !is_separator(
        #[trigger] base32_encode_spec(bytes)[i],
    ) by {
        let v = b32_values(bytes)[i];
        if v < 26 {
        } else {
        }
    }
}

pub fn format_human(entropy: &[u8]) -> (s: String)
    ensures
        s@ == human_form(entropy@),
{
    let mut buf = vstd::slice::slice_to_vec(entropy);
    let ck = checksum_byte(entropy);
    buf.push(ck);
    let b32 = base32_encode(buf.as_slice());
    let cs = chars_of(b32.as_str());
    let mut out = String::new();
    let mut i: usize = 0;
    while i < cs.len()
        invariant
            i <= cs@.len(),
            out@ == group_dashes(cs@.take(i as int)),
        decreases cs@.len() - i,
    {
        proof {
            lemma_group_dashes_push(cs@.take(i as int), cs@[i as int]);
            assert(cs@.take(i + 1) =~= cs@.take(i as int).push(cs@[i as int]));
        }
        if i > 0 && i % GROUP_LEN == 0 {
            push_char(&mut out, '-');
        }
        push_char(&mut out, cs[i]);
        proof {
            assert(out@ =~= group_dashes(cs@.take(i + 1)));
        }
        i = i + 1;
    }
    proof {
        assert(cs@.take(cs@.len() as int) =~= cs@);
    }
    out
}

/// How typed-in text decodes, before the length and checksum checks.
pub open spec fn typed_bytes(s: Seq<char>) -> Option<Seq<u8>> {
    base32_decode_spec(strip_separators(s))
}

/// The entropy that typed-in text denotes, when it is well formed and its
/// checksum matches.
pub open spec fn parse_human_spec(s: Seq<char>) -> Option<Seq<u8>> {
    match typed_bytes(s) {
        Some(d) => if d.len() == 21 && d[20] == checksum_spec(d.take(20)) {
            Some(d.take(20))
        } else {
            None
        },
        None => None,
    }
}

pub fn parse_human(s: &str) -> (r: Result<[u8; 20], CryptoError>)
    ensures
        match typed_bytes(s@) {
            None => r matches Err(CryptoError::InvalidEncoding(_)),
            Some(d) => if d.len() != 21 {
                r matches Err(CryptoError::InvalidEncoding(_))
            } else if d[20] != checksum_spec(d.take(20)) {
                r matches Err(CryptoError::VerifyFailed)
            } else {
                r matches Ok(e) && e@ == d.take(20)
            },
        },
{
    let cs = chars_of(s);
    let mut cleaned: Vec<char> = Vec::new();
    let mut i: usize = 0;
    while i < cs.len()
        invariant
            i <= cs@.len(),
            cs@ == s@,
            cleaned@ == strip_separators(cs@.take(i as int)),
        decreases cs@.len() - i,
    {
        let c = cs[i];
        proof {
            assert(cs@.take(i + 1).drop_last() =~= cs@.take(i as int));
        }
        if !(c == ' ' || c == '\t' || c == '\n' || c == '\x0C' || c == '\r' || c == '-') {
            cleaned.push(c);
        }
        i = i + 1;
    }
    proof {
        assert(cs@.take(cs@.len() as int) =~= cs@);
    }
    let text = string_from_chars(&cleaned);
    let decoded = base32_decode(text.as_str())?;
    if decoded.len() != RECOVERY_CODE_BYTES + 1 {
        let mut msg = owned("expected 21 entropy+checksum bytes, got ");
        let n = decimal_string(decoded.len());
        push_str(&mut msg, n.as_str());
        return Err(CryptoError::InvalidEncoding(msg));
    }
    let entropy = vstd::slice::slice_subrange(decoded.as_slice(), 0, RECOVERY_CODE_BYTES);
    let expected = checksum_byte(entropy);
    if decoded[RECOVERY_CODE_BYTES] != expected {
        return Err(CryptoError::VerifyFailed);
    }
    let mut out = [0u8; 20];
    let mut k: usize = 0;
    while k < RECOVERY_CODE_BYTES
        invariant
            k <= 20,
            decoded@.len() == 21,
            out@.len() == 20,
            forall|m: int| 0 <= m < k ==> out@[m] == decoded@[m],
        decreases 20 - k,
    {
        out[k] = decoded[k];
        k = k + 1;
    }
    proof {
        assert(out@ =~= decoded@.take(20));
    }
    Ok(out)
}

/// Typing back the human form of a code gives back its entropy.
pub proof fn lemma_human_round_trip(entropy: Seq<u8>)
    requires
        entropy.len() == 20,
    ensures
        parse_human_spec(human_form(entropy)) == Some(entropy),
        typed_bytes(human_form(entropy)) == Some(entropy.push(checksum_spec(entropy))),
{
    let full = entropy.push(checksum_spec(entropy));
    lemma_symbols_plain(full);
    lemma_strip_grouped(base32_encode_spec(full));
    lemma_base32_round_trip(full);
    assert(full.take(20) =~= entropy);
}

/// How an owner may type a code back: in lower case, with spaces where
/// the dashes were.
pub open spec fn typed_casually(s: Seq<char>) -> Seq<char> {
    s.map_values(|c: char| if c == '-' { ' ' } else { ascii_lower(c) })
}

/// Lower-casing keeps separators separators and other characters not.
proof fn lemma_lower_separator(c: char)
    ensures
        is_separator(ascii_lower(c)) == is_separator(c),
        ascii_upper(ascii_lower(c)) == ascii_upper(c),
{
    if 'A' <= c && c <= 'Z' {
        assert(97 <= (c as u32) + 32 <= 122);
        assert(((((c as u32) + 32) as char) as u32) == (c as u32) + 32);
    }
}

/// Typing casually commutes with dropping separators, up to case.
proof fn lemma_strip_casual(s: Seq<char>)
    ensures
        strip_separators(typed_casually(s)) == strip_separators(s).map_values(|c: char| ascii_lower(c)),
    decreases s.len(),
{
    if s.len() == 0 {
        assert(strip_separators(s).map_values(|c: char| ascii_lower(c)) =~= Seq::<char>::empty());
        assert(typed_casually(s) =~= Seq::<char>::empty());
    } else {
        let c = s.last();
        lemma_strip_casual(s.drop_last());
        lemma_lower_separator(c);
        assert(typed_casually(s).drop_last() =~= typed_casually(s.drop_last()));
        assert(typed_casually(s).last() == (if c == '-' { ' ' } else { ascii_lower(c) }));
        if is_separator(c) {
            assert(is_separator(typed_casually(s).last()));
        } else {
            assert(!is_separator(typed_casually(s).last()));
            assert(strip_separators(typed_casually(s)) =~= strip_separators(s).map_values(|c: char| ascii_lower(c)));
        }
    }
}

/// Base32 decoding does not see case.
proof fn lemma_decode_ignores_case(t: Seq<char>)
    ensures
        base32_decode_spec(t.map_values(|c: char| ascii_lower(c))) == base32_decode_spec(t),
{
    let l = t.map_values(|c: char| ascii_lower(c));
    assert forall|i: int| 0 <= i < t.len() implies #[trigger] b32_value(l[i]) == b32_value(t[i]) by {
        lemma_lower_separator(t[i]);
    }
    assert(l.map_values(|c: char| b32_value(c)->0) =~= t.map_values(|c: char| b32_value(c)->0));
    if forall|i: int| 0 <= i < t.len() ==> (#[trigger] b32_value(t[i])) is Some {
        assert forall|i: int| 0 <= i < l.len() implies (#[trigger] b32_value(l[i])) is Some by {
            assert(b32_value(l[i]) == b32_value(t[i]));
        }
    } else {
        let i = choose|i: int| 0 <= i < t.len() && !(#[trigger] b32_value(t[i]) is Some);
        assert(b32_value(l[i]) == b32_value(t[i]));
    }
}

/// A code typed back in lower case, with spaces for dashes, parses to the
/// code itself.
pub proof fn lemma_casual_round_trip(entropy: Seq<u8>)
    requires
        entropy.len() == 20,
    ensures
        parse_human_spec(typed_casually(human_form(entropy))) == Some(entropy),
{
    lemma_human_round_trip(entropy);
    let h = human_form(entropy);
    lemma_strip_casual(h);
    lemma_decode_ignores_case(strip_separators(h));
}

/// A symbol of the base32 alphabet in upper case.
pub open spec fn is_b32_symbol(c: char) -> bool {
    ('A' <= c && c <= 'Z') || ('2' <= c && c <= '7')
}

/// Every 5-bit value of an encoding is below 32.
proof fn lemma_b32_values_small(bytes: Seq<u8>)
    ensures
        forall|j: int| 0 <= j < b32_values(bytes).len() ==> #[trigger] b32_values(bytes)[j] < 32,
{
    lemma_pow2_5();
    let total = 8 * bytes.len();
    let v = digits_value(bytes, 8);
    let full = total / 5;
    let rest = total % 5;
    assert forall|j: int| 0 <= j < b32_values(bytes).len() implies #[trigger] b32_values(bytes)[j] < 32 by {
        if j < full {
            let e = (total - 5 * (j + 1)) as nat;
            lemma_pow2_pos(e);
            let q: int = v as int / pow2(e) as int;
            assert(q >= 0) by (nonlinear_arith)
                requires
                    v >= 0,
                    pow2(e) > 0,
                    q == v as int / pow2(e) as int,
            ;
            lemma_mod_pos_bound(q, 32);
            assert(bit_group(v, total, 5, j as nat) < 32);
        } else {
            lemma_pow2_pos(rest);
            lemma_pow2_pos((5 - rest) as nat);
            lemma_mod_pos_bound(v as int, pow2(rest) as int);
            lemma_pow2_adds(rest, (5 - rest) as nat);
            vstd::arithmetic::mul::lemma_mul_strict_inequality((v % pow2(rest)) as int, pow2(rest) as int, pow2((5 - rest) as nat) as int);
            assert((v % pow2(rest)) * pow2((5 - rest) as nat) < 32);
        }
    }
}

/// Grouping puts a dash at every fifth position and the characters, in
/// order, everywhere else.
proof fn lemma_group_dashes_shape(s: Seq<char>)
    requires
        s.len() >= 1,
    ensures
        group_dashes(s).len() == s.len() + (s.len() - 1) / 4,
        forall|i: int| 0 <= i < group_dashes(s).len() ==> (i % 5 == 4 ==> #[trigger] group_dashes(s)[i] == '-')
            && (i % 5 != 4 ==> group_dashes(s)[i] == s[i - i / 5]),
    decreases s.len(),
{
    if s.len() > 4 {
        let t = s.skip(4);
        lemma_group_dashes_shape(t);
        let g = group_dashes(s);
        assert(g == s.take(4) + seq!['-'] + group_dashes(t));
        assert forall|i: int| 0 <= i < g.len() implies (i % 5 == 4 ==> #[trigger] g[i] == '-')
            && (i % 5 != 4 ==> g[i] == s[i - i / 5]) by {
            if i >= 5 {
                let k = i - 5;
                assert(g[i] == group_dashes(t)[k]);
                assert(k % 5 == i % 5 && k / 5 == i / 5 - 1);
                if k % 5 != 4 {
                    assert(group_dashes(t)[k] == t[k - k / 5]);
                    assert(t[k - k / 5] == s[4 + k - k / 5]);
                }
            }
        }
    }
}

/// The human form of a code: 42 characters, dashes at every fifth position
/// (eight groups of four and a last group of two), upper-case base32
/// symbols everywhere else, and without its dashes the base32 text of the
/// code and its checksum.
pub proof fn lemma_human_form_shape(entropy: Seq<u8>)
    requires
        entropy.len() == 20,
    ensures
        human_form(entropy).len() == 42,
        forall|i: int| 0 <= i < 42 ==> (#[trigger] human_form(entropy)[i] == '-' <==> i % 5 == 4),
        forall|i: int| 0 <= i < 42 && i % 5 != 4 ==> is_b32_symbol(#[trigger] human_form(entropy)[i]),
        strip_separators(human_form(entropy)) == base32_encode_spec(entropy.push(checksum_spec(entropy))),
{
    let full = entropy.push(checksum_spec(entropy));
    let b = base32_encode_spec(full);
    assert(b32_values(full).len() == 34);
    assert(b.len() == 34);
    lemma_b32_values_small(full);
    lemma_group_dashes_shape(b);
    lemma_symbols_plain(full);
    lemma_strip_grouped(b);
    let h = human_form(entropy);
    assert forall|i: int| 0 <= i < 42 implies (#[trigger] h[i] == '-' <==> i % 5 == 4)
        && (i % 5 != 4 ==> is_b32_symbol(h[i])) by {
        if i % 5 != 4 {
            let k = i - i / 5;
            assert(0 <= k < 34);
            assert(h[i] == b[k]);
            assert(b[k] == b32_symbol(b32_values(full)[k]));
            assert(b32_values(full)[k] < 32);
            assert(!is_separator(b[k]));
        }
    }
}

// ---------------------------------------------------------------------------
// Recovery code
// ---------------------------------------------------------------------------

/// A high-entropy recovery code. The inner bytes are the canonical form used
/// for key derivation.
#[derive(Clone)]
pub struct RecoveryCode([u8; 20]);

impl View for RecoveryCode {
    type V = Seq<u8>;

    closed spec fn view(&self) -> Seq<u8> {
        self.0@
    }
}

impl RecoveryCode {
    /// The code's debug text, which never shows its bytes.
    pub fn debug_text(&self) -> (s: &'static str)
        ensures
            s@ == "RecoveryCode(<redacted>)"@,
    {
        "RecoveryCode(<redacted>)"
    }

    /// A fresh random code.
    pub fn generate() -> (c: Self)
        ensures
            c@.len() == 20,
    {
        let mut b = [0u8; 20];
        crate::crypto::random::fill(&mut b);
        RecoveryCode(b)
    }

    /// The canonical entropy bytes.
    pub fn as_bytes(&self) -> (b: &[u8; 20])
        ensures
            b@ == self@,
    {
        &self.0
    }

    /// The grouped base32 form, checksum included.
    pub fn to_human_string(&self) -> (s: String)
        ensures
            s@ == human_form(self@),
    {
        format_human(&self.0)
    }

    /// Parse a typed-in code: dashes, ASCII whitespace and case are
    /// ignored; the checksum must match.
    pub fn parse(s: &str) -> (r: Result<Self, CryptoError>)
        ensures
            match typed_bytes(s@) {
                None => r matches Err(CryptoError::InvalidEncoding(_)),
                Some(d) => if d.len() != 21 {
                    r matches Err(CryptoError::InvalidEncoding(_))
                } else if d[20] != checksum_spec(d.take(20)) {
                    r matches Err(CryptoError::VerifyFailed)
                } else {
                    r matches Ok(c) && c@ == d.take(20)
                },
            },
    {
        let bytes = parse_human(s)?;
        Ok(RecoveryCode(bytes))
    }
}

/// The recovery key-encryption key of a code for a vault salt.
pub open spec fn recovery_kek_spec(code: Seq<u8>, salt: Seq<u8>) -> Seq<u8> {
    hkdf_sha256_okm(salt, code, recovery_info(), 32)
}

/// HKDF info label binding the key to its purpose.
pub open spec fn recovery_info() -> Seq<u8> {
    seq![
        115u8, 97, 109, 109, 121, 45, 118, 97, 117, 108, 116, 45, 114, 101, 99, 111, 118, 101,
        114, 121, 45, 107, 101, 107, 45, 118, 49,
    ]
}

/// Derive the 32-byte recovery key-encryption key from a code and the
/// vault's salt (HKDF-SHA256, info `sammy-vault-recovery-kek-v1`).
pub fn derive_recovery_kek(code: &RecoveryCode, salt: &[u8; 16]) -> (r: Result<SecretKey, CryptoError>)
    ensures
        r matches Ok(k) && k@ == recovery_kek_spec(code@, salt@),
{
    let info: Vec<u8> = vec![
        115u8, 97, 109, 109, 121, 45, 118, 97, 117, 108, 116, 45, 114, 101, 99, 111, 118, 101,
        114, 121, 45, 107, 101, 107, 45, 118, 49,
    ];
    proof {
        assert(info@ =~= recovery_info());
    }
    let okm = hkdf_sha256_32(salt, code.as_bytes(), info.as_slice());
    Ok(SecretKey::from_bytes(okm))
}

} // verus!
