//! Regrouping a bit string between digit widths (bytes <-> 5-bit symbols).
//!
//! A digit string `d` in base `2^w` denotes the big-endian number
//! [`digits_value`]; its bit string is `w * d.len()` bits long. Regrouping
//! reads that bit string in groups of another width, most significant first
//! ([`bit_group`]).

use vstd::prelude::*;
use vstd::arithmetic::power2::*;
use vstd::arithmetic::div_mod::*;
use vstd::arithmetic::mul::*;

verus! {

/// Big-endian value of a digit string in base `2^w`.
pub open spec fn digits_value(d: Seq<u8>, w: nat) -> nat
    decreases d.len(),
{
    if d.len() == 0 {
        0
    } else {
        digits_value(d.drop_last(), w) * pow2(w) + d.last() as nat
    }
}

/// Every digit of `d` is below `2^w`.
pub open spec fn digits_fit(d: Seq<u8>, w: nat) -> bool {
    forall|i: int| 0 <= i < d.len() ==> (#[trigger] d[i] as nat) < pow2(w)
}

/// The `j`-th group of `w` bits (most significant first) of the `total`-bit
/// value `x`.
pub open spec fn bit_group(x: nat, total: nat, w: nat, j: nat) -> nat {
    (x / pow2((total - w * (j + 1)) as nat)) % pow2(w)
}

pub proof fn lemma_div_mul_pow2(v: nat, p: nat, e: nat)
    ensures
        (v * pow2(p)) / pow2(p + e) == v / pow2(e),
{
    lemma_pow2_pos(p);
    lemma_pow2_pos(e);
    lemma_pow2_adds(p, e);
    lemma_fundamental_div_mod_converse((v * pow2(p)) as int, pow2(p) as int, v as int, 0);
    lemma_div_denominator((v * pow2(p)) as int, pow2(p) as int, pow2(e) as int);
}

/// Shifting in `w` low bits commutes with keeping only the low bits.
pub proof fn lemma_shift_mod(a: nat, x: nat, b: nat, w: nat)
    requires
        x < pow2(w),
    ensures
        (a % pow2(b)) * pow2(w) + x == (a * pow2(w) + x) % pow2(b + w),
        (a % pow2(b)) * pow2(w) + x < pow2(b + w),
{
    let pb = pow2(b) as int;
    let pw = pow2(w) as int;
    lemma_pow2_pos(b);
    lemma_pow2_pos(w);
    lemma_pow2_adds(b, w);
    let q = a as int / pb;
    let r = a as int % pb;
    lemma_fundamental_div_mod(a as int, pb);
    lemma_mod_bound(a as int, pb);
    assert(r * pw + x < pb * pw) by (nonlinear_arith)
        requires
            0 <= r < pb,
            0 <= x < pw,
    ;
    assert(a * pw + x == q * (pb * pw) + (r * pw + x)) by (nonlinear_arith)
        requires
            a == pb * q + r,
    ;
    assert(0 <= r * pw) by (nonlinear_arith)
        requires
            0 <= r,
            0 < pw,
    ;
    lemma_fundamental_div_mod_converse((a * pw + x) as int, pb * pw, q, r * pw + x);
}

/// Taking the top `w` bits of the low `b + w` bits.
pub proof fn lemma_extract(v: nat, b: nat, w: nat)
    ensures
        (v % pow2(b + w)) / pow2(b) == (v / pow2(b)) % pow2(w),
        (v % pow2(b + w)) % pow2(b) == v % pow2(b),
{
    let pb = pow2(b) as int;
    let pw = pow2(w) as int;
    lemma_pow2_pos(b);
    lemma_pow2_pos(w);
    lemma_pow2_adds(b, w);
    let q = v as int / pb;
    let r = v as int % pb;
    lemma_fundamental_div_mod(v as int, pb);
    lemma_mod_bound(v as int, pb);
    assert(q >= 0) by {
        lemma_div_pos_is_pos(v as int, pb);
    }
    let q1 = q / pw;
    let q2 = q % pw;
    lemma_fundamental_div_mod(q, pw);
    lemma_mod_bound(q, pw);
    assert(q2 * pb + r < pw * pb) by (nonlinear_arith)
        requires
            0 <= r < pb,
            0 <= q2 < pw,
    ;
    assert(0 <= q2 * pb) by (nonlinear_arith)
        requires
            0 <= q2,
            0 < pb,
    ;
    assert(v == q1 * (pb * pw) + (q2 * pb + r)) by (nonlinear_arith)
        requires
            v == pb * q + r,
            q == pw * q1 + q2,
    ;
    lemma_fundamental_div_mod_converse(v as int, pb * pw, q1, q2 * pb + r);
    lemma_fundamental_div_mod_converse(q2 * pb + r, pb, q2, r);
    lemma_mod_mod(v as int, pb, pw);
}

/// Appending a digit to a number does not change its earlier bit groups.
pub proof fn lemma_extend_group(v: nat, x: nat, wi: nat, t: nat, wo: nat, j: nat)
    requires
        x < pow2(wi),
        wo * (j + 1) <= t,
    ensures
        bit_group(v * pow2(wi) + x, t + wi, wo, j) == bit_group(v, t, wo, j),
{
    let e = (t - wo * (j + 1)) as nat;
    assert((t + wi - wo * (j + 1)) as nat == wi + e);
    lemma_pow2_pos(wi);
    lemma_pow2_pos(e);
    lemma_pow2_adds(wi, e);
    lemma_fundamental_div_mod_converse((v * pow2(wi) + x) as int, pow2(wi) as int, v as int, x as int);
    lemma_div_denominator((v * pow2(wi) + x) as int, pow2(wi) as int, pow2(e) as int);
}

/// The value of a digit string fits in its bit length.
pub proof fn lemma_value_bound(d: Seq<u8>, w: nat)
    requires
        digits_fit(d, w),
    ensures
        digits_value(d, w) < pow2(w * d.len()),
    decreases d.len(),
{
    if d.len() == 0 {
        lemma_pow2_pos(0);
        assert(w * d.len() == 0);
    } else {
        let p = d.drop_last();
        assert(digits_fit(p, w)) by {
            assert forall|i: int| 0 <= i < p.len() implies (#[trigger] p[i] as nat) < pow2(w) by {
                assert(p[i] == d[i]);
            }
        }
        lemma_value_bound(p, w);
        let vp = digits_value(p, w);
        let a = pow2(w * p.len());
        let pw = pow2(w);
        assert(d.last() == d[d.len() - 1]);
        assert(vp * pw + d.last() < a * pw) by (nonlinear_arith)
            requires
                vp < a,
                (d.last() as nat) < pw,
        ;
        assert(w * p.len() + w == w * d.len()) by (nonlinear_arith)
            requires
                p.len() + 1 == d.len(),
        ;
        lemma_pow2_adds(w * p.len(), w);
    }
}

/// Each digit is the corresponding bit group of the value.
pub proof fn lemma_digit_is_group(d: Seq<u8>, w: nat, t: int)
    requires
        digits_fit(d, w),
        0 <= t < d.len(),
    ensures
        d[t] as nat == bit_group(digits_value(d, w), w * d.len(), w, t as nat),
    decreases d.len(),
{
    let n = d.len();
    let p = d.drop_last();
    let vp = digits_value(p, w);
    let last = d.last() as nat;
    lemma_pow2_pos(w);
    assert(d.last() == d[n - 1]);
    assert(w * n == w * p.len() + w) by (nonlinear_arith)
        requires
            p.len() + 1 == n,
    ;
    if t == n - 1 {
        assert((w * n - w * (t + 1)) as nat == 0) by (nonlinear_arith)
            requires
                t + 1 == n,
        ;
        lemma_pow2(0);
        assert(pow2(0) == 1) by {
            vstd::arithmetic::power::lemma_pow0(2);
        }
        lemma_fundamental_div_mod_converse((vp * pow2(w) + last) as int, pow2(w) as int, vp as int, last as int);
        let val = digits_value(d, w);
        assert(val == vp * pow2(w) + last);
        assert(val / pow2(0) == val) by {
            lemma_div_basics(val as int);
        }
    } else {
        assert(digits_fit(p, w)) by {
            assert forall|i: int| 0 <= i < p.len() implies (#[trigger] p[i] as nat) < pow2(w) by {
                assert(p[i] == d[i]);
            }
        }
        lemma_digit_is_group(p, w, t);
        assert(w * (t + 1) <= w * p.len()) by (nonlinear_arith)
            requires
                t + 1 <= p.len(),
        ;
        lemma_extend_group(vp, last, w, w * p.len(), w, t as nat);
        assert(p[t] == d[t]);
    }
}

/// A digit string whose digits are the bit groups of `x` denotes `x`.
pub proof fn lemma_groups_value(d: Seq<u8>, x: nat, w: nat)
    requires
        x < pow2(w * d.len()),
        forall|j: int| 0 <= j < d.len() ==> (#[trigger] d[j]) as nat == bit_group(x, w * d.len(), w, j as nat),
    ensures
        digits_value(d, w) == x,
    decreases d.len(),
{
    let n = d.len();
    lemma_pow2_pos(w);
    if n == 0 {
        assert(w * n == 0) by (nonlinear_arith)
            requires
                n == 0,
        ;
        assert(pow2(0) == 1) by {
            lemma_pow2(0);
            vstd::arithmetic::power::lemma_pow0(2);
        }
    } else {
        let p = d.drop_last();
        let pw = pow2(w) as int;
        let xq = x / pow2(w);
        assert(w * n == w * p.len() + w) by (nonlinear_arith)
            requires
                p.len() + 1 == n,
        ;
        lemma_pow2_adds(w * p.len(), w);
        lemma_pow2_pos(w * p.len());
        lemma_fundamental_div_mod(x as int, pw);
        lemma_mod_bound(x as int, pw);
        assert(xq < pow2(w * p.len())) by {
            let a = pow2(w * p.len()) as int;
            assert(x < a * pw);
            assert(xq * pw <= x) by (nonlinear_arith)
                requires
                    x == pw * xq + (x as int) % pw,
                    0 <= (x as int) % pw,
            ;
            assert(xq < a) by (nonlinear_arith)
                requires
                    xq * pw <= x,
                    x < a * pw,
                    pw > 0,
            ;
        }
        assert forall|j: int| 0 <= j < p.len() implies (#[trigger] p[j]) as nat == bit_group(xq, w * p.len(), w, j as nat) by {
            assert(p[j] == d[j]);
            let e = (w * p.len() - w * (j + 1)) as nat;
            assert(w * (j + 1) <= w * p.len()) by (nonlinear_arith)
                requires
                    j + 1 <= p.len(),
            ;
            assert((w * n - w * (j + 1)) as nat == w + e);
            lemma_pow2_adds(w, e);
            lemma_pow2_pos(e);
            lemma_div_denominator(x as int, pw, pow2(e) as int);
        }
        lemma_groups_value(p, xq, w);
        assert(d.last() == d[n - 1]);
        assert((w * n - w * ((n - 1) + 1)) as nat == 0) by (nonlinear_arith)
            requires
                n >= 1,
        ;
        assert(pow2(0) == 1) by {
            lemma_pow2(0);
            vstd::arithmetic::power::lemma_pow0(2);
        }
        assert(x / pow2(0) == x) by {
            lemma_div_basics(x as int);
        }
        assert(d[n - 1] as nat == bit_group(x, w * n, w, (n - 1) as nat));
        assert(d[n - 1] as nat == x % pow2(w));
    }
}

/// `2^k` for small `k`.
pub fn pow2_u32(k: u32) -> (r: u32)
    requires
        k <= 16,
    ensures
        r as nat == pow2(k as nat),
{
    let mut r: u32 = 1;
    let mut i: u32 = 0;
    proof {
        lemma_pow2(0);
        vstd::arithmetic::power::lemma_pow0(2);
    }
    while i < k
        invariant
            i <= k <= 16,
            r as nat == pow2(i as nat),
        decreases k - i,
    {
        proof {
            lemma_pow2_unfold((i + 1) as nat);
            lemma_pow2_strictly_increases((i + 1) as nat, 17);
            lemma2_to64();
        }
        r = r * 2;
        i = i + 1;
    }
    r
}

/// Read the bit string of `input` (digits of `wi` bits) in groups of `wo`
/// bits. Returns the full groups, plus the value and width of the bits that
/// are left over (fewer than `wo`).
pub fn regroup(input: &Vec<u8>, wi: u32, wo: u32) -> (res: (Vec<u8>, u32, u32))
    requires
        1 <= wi <= 8,
        1 <= wo <= 8,
        digits_fit(input@, wi as nat),
    ensures
        res.2 < wo,
        res.2 + wo * res.0@.len() == wi * input@.len(),
        res.1 as nat == digits_value(input@, wi as nat) % pow2(res.2 as nat),
        digits_fit(res.0@, wo as nat),
        forall|j: int|
            0 <= j < res.0@.len() ==> (#[trigger] res.0@[j]) as nat == bit_group(
                digits_value(input@, wi as nat),
                (wi * input@.len()) as nat,
                wo as nat,
                j as nat,
            ),
{
    let mut out: Vec<u8> = Vec::new();
    let mut buffer: u32 = 0;
    let mut bits: u32 = 0;
    let mut i: usize = 0;
    let pwi = pow2_u32(wi);
    proof {
        lemma2_to64();
        assert(input@.take(0) =~= Seq::<u8>::empty());
        lemma_pow2(0);
        vstd::arithmetic::power::lemma_pow0(2);
    }
    while i < input.len()
        invariant
            i <= input@.len(),
            1 <= wi <= 8,
            1 <= wo <= 8,
            pwi as nat == pow2(wi as nat),
            digits_fit(input@, wi as nat),
            bits < wo,
            bits + wo * out@.len() == wi * i,
            buffer as nat == digits_value(input@.take(i as int), wi as nat) % pow2(bits as nat),
            digits_fit(out@, wo as nat),
            forall|j: int|
                0 <= j < out@.len() ==> (#[trigger] out@[j]) as nat == bit_group(
                    digits_value(input@.take(i as int), wi as nat),
                    (wi * i) as nat,
                    wo as nat,
                    j as nat,
                ),
        decreases input@.len() - i,
    {
        let x = input[i];
        let ghost v = digits_value(input@.take(i as int), wi as nat);
        let ghost v2 = digits_value(input@.take(i + 1), wi as nat);
        proof {
            assert(input@.take(i + 1).drop_last() =~= input@.take(i as int));
            assert(input@.take(i + 1).last() == x);
            assert(v2 == v * pow2(wi as nat) + x as nat);
            assert((x as nat) < pow2(wi as nat));
            lemma_shift_mod(v, x as nat, bits as nat, wi as nat);
            lemma_pow2_pos(bits as nat);
            lemma_mod_bound(v as int, pow2(bits as nat) as int);
            lemma_pow2_strictly_increases(bits as nat, 8);
            lemma_pow2_strictly_increases(wi as nat, 9);
            lemma2_to64();
            assert(buffer * pwi + x < 256 * 512 + 256) by (nonlinear_arith)
                requires
                    buffer < 256,
                    pwi < 512,
                    x < 256,
            ;
            lemma_pow2_strictly_increases((bits + wi) as nat, 17);
            lemma_pow2_adds(bits as nat, wi as nat);
            assert forall|j: int| 0 <= j < out@.len() implies (#[trigger] out@[j]) as nat == bit_group(
                v2,
                (wi * (i + 1)) as nat,
                wo as nat,
                j as nat,
            ) by {
                assert(wo * (j + 1) <= wo * out@.len()) by (nonlinear_arith)
                    requires
                        j + 1 <= out@.len(),
                ;
                assert(wi * (i + 1) == wi * i + wi) by (nonlinear_arith);
                lemma_extend_group(v, x as nat, wi as nat, (wi * i) as nat, wo as nat, j as nat);
            }
        }
        buffer = buffer * pwi + x as u32;
        bits = bits + wi;
        proof {
            assert(wi * (i + 1) == wi * i + wi) by (nonlinear_arith);
        }
        while bits >= wo
            invariant
                1 <= wi <= 8,
                1 <= wo <= 8,
                bits < wo + wi,
                bits + wo * out@.len() == (wi * (i + 1)) as nat,
                buffer as nat == v2 % pow2(bits as nat),
                digits_fit(out@, wo as nat),
                forall|j: int|
                    0 <= j < out@.len() ==> (#[trigger] out@[j]) as nat == bit_group(
                        v2,
                        (wi * (i + 1)) as nat,
                        wo as nat,
                        j as nat,
                    ),
            decreases bits,
        {
            bits = bits - wo;
            let p = pow2_u32(bits);
            proof {
                lemma_pow2_pos(bits as nat);
                lemma_pow2_pos(wo as nat);
                lemma_extract(v2, bits as nat, wo as nat);
                lemma_mod_bound((v2 / pow2(bits as nat)) as int, pow2(wo as nat) as int);
                lemma_pow2_pos(wo as nat);
                lemma_pow2_strictly_increases(wo as nat, 9);
                lemma2_to64();
                assert(wo * (out@.len() + 1) == wo * out@.len() + wo) by (nonlinear_arith);
                assert((wi * (i + 1) - wo * (out@.len() + 1)) as nat == bits as nat);
            }
            let d = buffer / p;
            buffer = buffer % p;
            let ghost old_out = out@;
            out.push(d as u8);
            proof {
                assert forall|j: int| 0 <= j < out@.len() implies (#[trigger] out@[j]) as nat == bit_group(
                    v2,
                    (wi * (i + 1)) as nat,
                    wo as nat,
                    j as nat,
                ) by {
                    if j < old_out.len() {
                        assert(out@[j] == old_out[j]);
                    }
                }
                assert(digits_fit(out@, wo as nat)) by {
                    assert forall|k: int| 0 <= k < out@.len() implies (#[trigger] out@[k] as nat) < pow2(wo as nat) by {
                        if k < old_out.len() {
                            assert(out@[k] == old_out[k]);
                        }
                    }
                }
            }
        }
        i = i + 1;
    }
    proof {
        assert(input@.take(input@.len() as int) =~= input@);
    }
    (out, buffer, bits)
}

} // verus!
