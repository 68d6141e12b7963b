//! IEEE-754 binary64 arithmetic carried out on raw bit patterns.
//!
//! The numeric variant of [`crate::values::Value`] stores the 64 bits of a
//! binary64 number; this module defines, as spec functions over those bits,
//! what negation, addition, multiplication, division, equality and ordering
//! mean (round to nearest, ties to even, with signed zeroes, infinities,
//! subnormals and a canonical quiet NaN), and proves the executable
//! implementations equal to them.
use vstd::prelude::*;
use vstd::arithmetic::power2::pow2;
use vstd::arithmetic::power2::lemma_pow2_unfold;
use vstd::arithmetic::power2::lemma_pow2_strictly_increases;
use vstd::arithmetic::power2::lemma2_to64;
use vstd::arithmetic::power2::lemma2_to64_rest;
use core::cmp::Ordering;

verus! {

/// All bits but the sign.
pub const ABS_MASK: u64 = 0x7fff_ffff_ffff_ffff;

/// The fraction field.
pub const FRAC_MASK: u64 = 0xf_ffff_ffff_ffff;

/// The hidden (integer) bit of a normal number's significand.
pub const HIDDEN_BIT: u64 = 0x10_0000_0000_0000;

/// The canonical quiet NaN this module produces.
pub const QUIET_NAN: u64 = 0x7ff8_0000_0000_0000;

pub open spec fn sign_of(b: u64) -> u64 {
    b >> 63u64
}

pub open spec fn biased_exp(b: u64) -> u64 {
    (b >> 52u64) & 0x7ff
}

pub open spec fn fraction_of(b: u64) -> u64 {
    b & FRAC_MASK
}

pub open spec fn is_nan_bits(b: u64) -> bool {
    biased_exp(b) == 0x7ff && fraction_of(b) != 0
}

pub open spec fn is_inf_bits(b: u64) -> bool {
    biased_exp(b) == 0x7ff && fraction_of(b) == 0
}

pub open spec fn is_zero_bits(b: u64) -> bool {
    b & ABS_MASK == 0
}

/// The significand with the hidden bit restored for normal numbers.
pub open spec fn mantissa_of(b: u64) -> u64 {
    if biased_exp(b) == 0 {
        fraction_of(b)
    } else {
        (fraction_of(b) + HIDDEN_BIT) as u64
    }
}

/// The effective biased exponent: subnormals sit at exponent 1.
pub open spec fn exp_val(b: u64) -> int {
    if biased_exp(b) == 0 {
        1
    } else {
        biased_exp(b) as int
    }
}

pub open spec fn pack_bits(sign: u64, exp: u64, frac: u64) -> u64 {
    ((sign << 63u64) | (exp << 52u64)) | frac
}

pub open spec fn pack_inf(sign: u64) -> u64 {
    pack_bits(sign, 0x7ff, 0)
}

/// Right shift that folds the discarded bits into a sticky flag.
pub open spec fn shr_sticky64(v: u64, k: int, st: bool) -> (u64, bool) {
    if k <= 0 {
        (v, st)
    } else if k >= 64 {
        (0u64, st || v != 0)
    } else {
        (v >> (k as u64), st || (v & (((1u64 << (k as u64)) - 1) as u64)) != 0)
    }
}

pub open spec fn shr_sticky128(v: u128, k: int, st: bool) -> (u128, bool) {
    if k <= 0 {
        (v, st)
    } else if k >= 128 {
        (0u128, st || v != 0)
    } else {
        (v >> (k as u128), st || (v & (((1u128 << (k as u128)) - 1) as u128)) != 0)
    }
}

/// Doubles `v` (halving the exponent's weight) until it reaches `lim`.
pub open spec fn norm_to(v: u64, e: int, lim: u64) -> (u64, int)
    decreases (if v >= lim { 0int } else { lim - v }),
{
    if v == 0 || v >= lim || v >= 0x4000_0000_0000_0000 {
        (v, e)
    } else {
        norm_to((v * 2) as u64, e - 1, lim)
    }
}

/// A finite nonzero number's significand normalized into
/// `[2^52, 2^53)`, with the matching biased exponent.
pub open spec fn norm_mant(b: u64) -> (u64, int) {
    norm_to(mantissa_of(b), exp_val(b), HIDDEN_BIT)
}

/// Rounds a 55-bit significand (two rounding bits below the target
/// precision, plus a sticky flag) to nearest, ties to even.
pub open spec fn rounded_keep(sig: u64, st: bool) -> u64 {
    let keep = sig >> 2u64;
    let rb = (sig >> 1u64) & 1;
    let low = sig & 1;
    if rb == 1 && (low == 1 || st || (keep & 1) == 1) {
        (keep + 1) as u64
    } else {
        keep
    }
}

/// Packs a rounded significand at biased exponent `e >= 1`, spilling into
/// the subnormal range or up to infinity as the magnitude demands.
pub open spec fn round_finish(sign: u64, e: int, sig: u64, st: bool) -> u64 {
    let k = rounded_keep(sig, st);
    if k >= 0x20_0000_0000_0000 {
        if e + 1 >= 2047 {
            pack_inf(sign)
        } else {
            pack_bits(sign, (e + 1) as u64, 0)
        }
    } else if k >= HIDDEN_BIT {
        if e >= 2047 {
            pack_inf(sign)
        } else {
            pack_bits(sign, e as u64, (k - HIDDEN_BIT) as u64)
        }
    } else {
        pack_bits(sign, 0, k)
    }
}

/// Rounds and packs a significand `sig < 2^55` whose value is
/// `(sig + sticky fraction) * 2^(e - 1077)`.
pub open spec fn round_pack(sign: u64, e: int, sig: u64, st: bool) -> u64 {
    if e >= 2047 {
        pack_inf(sign)
    } else if e < 1 {
        let p = shr_sticky64(sig, 1 - e, st);
        round_finish(sign, 1, p.0, p.1)
    } else {
        round_finish(sign, e, sig, st)
    }
}

/// Negation: the sign bit flips, NaNs included.
pub open spec fn neg_bits(b: u64) -> u64 {
    b ^ 0x8000_0000_0000_0000
}

/// Addition, round to nearest, ties to even.
pub open spec fn add_bits(a: u64, b: u64) -> u64 {
    if is_nan_bits(a) || is_nan_bits(b) {
        QUIET_NAN
    } else if is_inf_bits(a) {
        if is_inf_bits(b) && sign_of(a) != sign_of(b) {
            QUIET_NAN
        } else {
            a
        }
    } else if is_inf_bits(b) {
        b
    } else if is_zero_bits(a) && is_zero_bits(b) {
        pack_bits(sign_of(a) & sign_of(b), 0, 0)
    } else if is_zero_bits(a) {
        b
    } else if is_zero_bits(b) {
        a
    } else {
        let swap = exp_val(b) > exp_val(a) || (exp_val(b) == exp_val(a) && mantissa_of(b)
            > mantissa_of(a));
        let hi = if swap { b } else { a };
        let lo = if swap { a } else { b };
        let wh = mantissa_of(hi) << 9u64;
        let wl = mantissa_of(lo) << 9u64;
        let d = exp_val(hi) - exp_val(lo);
        let p = shr_sticky64(wl, d, false);
        if sign_of(hi) == sign_of(lo) {
            let sum = (wh + p.0) as u64;
            if sum >= 0x4000_0000_0000_0000 {
                let q = shr_sticky64(sum, 1, p.1);
                let r = shr_sticky64(q.0, 7, q.1);
                round_pack(sign_of(hi), exp_val(hi) + 1, r.0, r.1)
            } else {
                let r = shr_sticky64(sum, 7, p.1);
                round_pack(sign_of(hi), exp_val(hi), r.0, r.1)
            }
        } else {
            let diff = if p.1 {
                (wh - p.0 - 1) as u64
            } else {
                (wh - p.0) as u64
            };
            if diff == 0 {
                0u64
            } else {
                let nd = norm_to(diff, exp_val(hi), 0x2000_0000_0000_0000);
                let r = shr_sticky64(nd.0, 7, p.1);
                round_pack(sign_of(hi), nd.1, r.0, r.1)
            }
        }
    }
}

/// Subtraction: addition of the negated right operand, as in IEEE-754.
pub open spec fn sub_bits(a: u64, b: u64) -> u64 {
    add_bits(a, neg_bits(b))
}

/// Multiplication, round to nearest, ties to even.
pub open spec fn mul_bits(a: u64, b: u64) -> u64 {
    let sign = sign_of(a) ^ sign_of(b);
    if is_nan_bits(a) || is_nan_bits(b) {
        QUIET_NAN
    } else if is_inf_bits(a) {
        if is_zero_bits(b) {
            QUIET_NAN
        } else {
            pack_inf(sign)
        }
    } else if is_inf_bits(b) {
        if is_zero_bits(a) {
            QUIET_NAN
        } else {
            pack_inf(sign)
        }
    } else if is_zero_bits(a) || is_zero_bits(b) {
        pack_bits(sign, 0, 0)
    } else {
        let na = norm_mant(a);
        let nb = norm_mant(b);
        let prod = ((na.0 as u128) * (nb.0 as u128)) as u128;
        if prod >= 0x200_0000_0000_0000_0000_0000_0000 {
            let t = shr_sticky128(prod, 51, false);
            round_pack(sign, na.1 + nb.1 - 1022, t.0 as u64, t.1)
        } else {
            let t = shr_sticky128(prod, 50, false);
            round_pack(sign, na.1 + nb.1 - 1023, t.0 as u64, t.1)
        }
    }
}

/// Division, round to nearest, ties to even.
pub open spec fn div_bits(a: u64, b: u64) -> u64 {
    let sign = sign_of(a) ^ sign_of(b);
    if is_nan_bits(a) || is_nan_bits(b) {
        QUIET_NAN
    } else if is_inf_bits(a) {
        if is_inf_bits(b) {
            QUIET_NAN
        } else {
            pack_inf(sign)
        }
    } else if is_inf_bits(b) {
        pack_bits(sign, 0, 0)
    } else if is_zero_bits(b) {
        if is_zero_bits(a) {
            QUIET_NAN
        } else {
            pack_inf(sign)
        }
    } else if is_zero_bits(a) {
        pack_bits(sign, 0, 0)
    } else {
        let na = norm_mant(a);
        let nb = norm_mant(b);
        let num = (na.0 as u128) << 56u128;
        let q = num / (nb.0 as u128);
        let st = num % (nb.0 as u128) != 0;
        if q >= 0x100_0000_0000_0000 {
            let t = shr_sticky128(q, 2, st);
            round_pack(sign, na.1 - nb.1 + 1023, t.0 as u64, t.1)
        } else {
            let t = shr_sticky128(q, 1, st);
            round_pack(sign, na.1 - nb.1 + 1022, t.0 as u64, t.1)
        }
    }
}

/// IEEE equality: NaN equals nothing, the two zeroes are equal, and
/// otherwise equality is bit equality.
pub open spec fn eq_bits(a: u64, b: u64) -> bool {
    !is_nan_bits(a) && !is_nan_bits(b) && (a == b || (is_zero_bits(a) && is_zero_bits(b)))
}

/// The IEEE partial order: undefined when a NaN is involved, otherwise
/// sign-magnitude comparison with the two zeroes equal.
pub open spec fn cmp_bits(a: u64, b: u64) -> Option<Ordering> {
    if is_nan_bits(a) || is_nan_bits(b) {
        None
    } else if a == b || (is_zero_bits(a) && is_zero_bits(b)) {
        Some(Ordering::Equal)
    } else if sign_of(a) == 1 && sign_of(b) == 0 {
        Some(Ordering::Less)
    } else if sign_of(a) == 0 && sign_of(b) == 1 {
        Some(Ordering::Greater)
    } else if sign_of(a) == 0 {
        if a < b {
            Some(Ordering::Less)
        } else {
            Some(Ordering::Greater)
        }
    } else {
        if a > b {
            Some(Ordering::Less)
        } else {
            Some(Ordering::Greater)
        }
    }
}

fn shr_sticky64_x(v: u64, k: u64, st: bool) -> (r: (u64, bool))
    ensures
        (r.0, r.1) == shr_sticky64(v, k as int, st),
        r.0 <= v,
{
    if k == 0 {
        (v, st)
    } else if k >= 64 {
        (0, st || v != 0)
    } else {
        proof {
            assert(1u64 <= 63u64 < 64 ==> (1u64 << k) >= 1) by (bit_vector)
                requires 1 <= k < 64;
            assert(k < 64 ==> (v >> k) <= v) by (bit_vector);
        }
        let shifted = v >> k;
        let lost = v & ((1u64 << k) - 1);
        (shifted, st || lost != 0)
    }
}

fn shr_sticky128_x(v: u128, k: u128, st: bool) -> (r: (u128, bool))
    ensures
        (r.0, r.1) == shr_sticky128(v, k as int, st),
        r.0 <= v,
{
    if k == 0 {
        (v, st)
    } else if k >= 128 {
        (0, st || v != 0)
    } else {
        proof {
            assert(1u64 <= 127u64 < 128 ==> (1u128 << k) >= 1) by (bit_vector)
                requires 1 <= k < 128;
            assert(k < 128 ==> (v >> k) <= v) by (bit_vector);
        }
        let shifted = v >> k;
        let lost = v & ((1u128 << k) - 1);
        (shifted, st || lost != 0)
    }
}

fn norm_to_x(v0: u64, e0: i64, lim: u64) -> (r: (u64, i64))
    requires
        1 <= v0,
        1 <= lim <= 0x2000_0000_0000_0000,
        v0 < 0x4000_0000_0000_0000,
        -5000 <= e0 <= 5000,
    ensures
        (r.0, r.1 as int) == norm_to(v0, e0 as int, lim),
        e0 - 64 <= r.1 <= e0,
        r.0 >= lim,
        r.0 == v0 || r.0 < 2 * lim,
        r.0 < 0x4000_0000_0000_0000,
        v0 < lim ==> r.0 < 2 * lim,
{
    let mut v = v0;
    let mut e = e0;
    proof {
        lemma2_to64();
        lemma2_to64_rest();
        assert(pow2(0) == 1);
    }
    while v < lim
        invariant
            1 <= v < 0x4000_0000_0000_0000,
            1 <= lim <= 0x2000_0000_0000_0000,
            e <= e0,
            0 <= e0 - e <= 63,
            pow2((e0 - e) as nat) <= v,
            norm_to(v, e as int, lim) == norm_to(v0, e0 as int, lim),
            -5000 <= e0 <= 5000,
            v == v0 || v < 2 * lim,
        decreases (if v >= lim { 0int } else { lim - v }),
    {
        proof {
            lemma2_to64();
            lemma2_to64_rest();
            if e0 - e >= 62 {
                if e0 - e > 62 {
                    lemma_pow2_strictly_increases(62, (e0 - e) as nat);
                }
                assert(pow2((e0 - e) as nat) >= 0x4000_0000_0000_0000);
                assert(false);
            }
            lemma_pow2_unfold((e0 - e + 1) as nat);
        }
        v = v * 2;
        e = e - 1;
    }
    (v, e)
}

/// The significand and effective exponent of `b`, the significand
/// normalized into `[2^52, 2^53)`.
fn norm_mant_x(b: u64) -> (r: (u64, i64))
    requires
        !is_nan_bits(b),
        !is_inf_bits(b),
        !is_zero_bits(b),
    ensures
        (r.0, r.1 as int) == norm_mant(b),
        HIDDEN_BIT <= r.0 < 0x20_0000_0000_0000,
        -63 <= r.1 <= 2046,
{
    let exp = (b >> 52u64) & 0x7ff;
    let frac = b & FRAC_MASK;
    proof {
        assert((b >> 52u64) & 0x7ff < 0x800) by (bit_vector);
        assert(b & FRAC_MASK < 0x10_0000_0000_0000) by (bit_vector);
        assert(b & ABS_MASK == 0 || ((b >> 52u64) & 0x7ff) != 0 || (b & FRAC_MASK) != 0)
            by (bit_vector);
        assert(((b >> 52u64) & 0x7ff != 0x7ff) ==> ((b >> 52u64) & 0x7ff) < 0x7ff)
            by (bit_vector);
    }
    let (m, e): (u64, i64) = if exp == 0 {
        (frac, 1)
    } else {
        (frac + HIDDEN_BIT, exp as i64)
    };
    norm_to_x(m, e, HIDDEN_BIT)
}

fn rounded_keep_x(sig: u64, st: bool) -> (r: u64)
    requires
        sig < 0x80_0000_0000_0000,
    ensures
        r == rounded_keep(sig, st),
        r <= 0x20_0000_0000_0000,
{
    let keep = sig >> 2u64;
    let rb = (sig >> 1u64) & 1;
    let low = sig & 1;
    proof {
        assert(sig < 0x80_0000_0000_0000 ==> (sig >> 2u64) < 0x20_0000_0000_0000)
            by (bit_vector);
    }
    if rb == 1 && (low == 1 || st || (keep & 1) == 1) {
        keep + 1
    } else {
        keep
    }
}

fn round_finish_x(sign: u64, e: i64, sig: u64, st: bool) -> (r: u64)
    requires
        sign <= 1,
        1 <= e <= 2046,
        sig < 0x80_0000_0000_0000,
    ensures
        r == round_finish(sign, e as int, sig, st),
{
    let k = rounded_keep_x(sig, st);
    if k >= 0x20_0000_0000_0000 {
        if e + 1 >= 2047 {
            pack_x(sign, 0x7ff, 0)
        } else {
            pack_x(sign, (e + 1) as u64, 0)
        }
    } else if k >= HIDDEN_BIT {
        pack_x(sign, e as u64, k - HIDDEN_BIT)
    } else {
        pack_x(sign, 0, k)
    }
}

fn pack_x(sign: u64, exp: u64, frac: u64) -> (r: u64)
    ensures
        r == pack_bits(sign, exp, frac),
{
    ((sign << 63u64) | (exp << 52u64)) | frac
}

fn round_pack_x(sign: u64, e: i64, sig: u64, st: bool) -> (r: u64)
    requires
        sign <= 1,
        -5000 <= e <= 5000,
        sig < 0x80_0000_0000_0000,
    ensures
        r == round_pack(sign, e as int, sig, st),
{
    if e >= 2047 {
        pack_x(sign, 0x7ff, 0)
    } else if e < 1 {
        let p = shr_sticky64_x(sig, (1 - e) as u64, st);
        round_finish_x(sign, 1, p.0, p.1)
    } else {
        round_finish_x(sign, e, sig, st)
    }
}

/// Negation of a binary64 bit pattern.
pub fn neg_f(b: u64) -> (r: u64)
    ensures
        r == neg_bits(b),
{
    b ^ 0x8000_0000_0000_0000
}

fn is_nan_x(b: u64) -> (r: bool)
    ensures
        r == is_nan_bits(b),
{
    let exp = (b >> 52u64) & 0x7ff;
    let frac = b & FRAC_MASK;
    exp == 0x7ff && frac != 0
}

fn is_inf_x(b: u64) -> (r: bool)
    ensures
        r == is_inf_bits(b),
{
    let exp = (b >> 52u64) & 0x7ff;
    let frac = b & FRAC_MASK;
    exp == 0x7ff && frac == 0
}

fn is_zero_x(b: u64) -> (r: bool)
    ensures
        r == is_zero_bits(b),
{
    b & ABS_MASK == 0
}

fn sign_x(b: u64) -> (r: u64)
    ensures
        r == sign_of(b),
        r <= 1,
{
    proof {
        assert(b >> 63u64 <= 1) by (bit_vector);
    }
    b >> 63u64
}

/// Binary64 addition on bit patterns.
pub fn add_f(a: u64, b: u64) -> (r: u64)
    ensures
        r == add_bits(a, b),
{
    if is_nan_x(a) || is_nan_x(b) {
        return QUIET_NAN;
    }
    if is_inf_x(a) {
        if is_inf_x(b) && sign_x(a) != sign_x(b) {
            return QUIET_NAN;
        }
        return a;
    }
    if is_inf_x(b) {
        return b;
    }
    if is_zero_x(a) && is_zero_x(b) {
        return pack_x(sign_x(a) & sign_x(b), 0, 0);
    }
    if is_zero_x(a) {
        return b;
    }
    if is_zero_x(b) {
        return a;
    }
    let (ma, ea) = mant_exp_x(a);
    let (mb, eb) = mant_exp_x(b);
    let swap = eb > ea || (eb == ea && mb > ma);
    let (hs, hm, he): (u64, u64, i64) = if swap { (sign_x(b), mb, eb) } else { (sign_x(a), ma, ea) };
    let (ls, lm, le): (u64, u64, i64) = if swap { (sign_x(a), ma, ea) } else { (sign_x(b), mb, eb) };
    let wh = hm << 9u64;
    let wl = lm << 9u64;
    proof {
        assert(hm < 0x20_0000_0000_0000 ==> (hm << 9u64) < 0x4000_0000_0000_0000
            && (hm << 9u64) >= hm) by (bit_vector);
        assert(lm < 0x20_0000_0000_0000 ==> (lm << 9u64) < 0x4000_0000_0000_0000)
            by (bit_vector);
        assert(0x10_0000_0000_0000 <= hm < 0x20_0000_0000_0000
            ==> (hm << 9u64) >= 0x2000_0000_0000_0000) by (bit_vector);
        assert(1 <= hm < 0x20_0000_0000_0000 ==> (hm << 9u64) >= 0x200) by (bit_vector);
        assert(1 <= lm < 0x20_0000_0000_0000 ==> (lm << 9u64) >= 0x200) by (bit_vector);
    }
    let d = (he - le) as u64;
    let p = shr_sticky64_x(wl, d, false);
    if hs == ls {
        let sum = wh + p.0;
        if sum >= 0x4000_0000_0000_0000 {
            let q = shr_sticky64_x(sum, 1, p.1);
            proof {
                assert(sum < 0x8000_0000_0000_0000
                    ==> (sum >> 1u64) < 0x4000_0000_0000_0000) by (bit_vector);
            }
            let r = shr_sticky64_x(q.0, 7, q.1);
            proof {
                let ghost q0 = q.0;
                assert(q0 < 0x4000_0000_0000_0000
                    ==> (q0 >> 7u64) < 0x80_0000_0000_0000) by (bit_vector);
            }
            round_pack_x(hs, he + 1, r.0, r.1)
        } else {
            let r = shr_sticky64_x(sum, 7, p.1);
            proof {
                assert(sum < 0x4000_0000_0000_0000 ==> (sum >> 7u64) < 0x80_0000_0000_0000)
                    by (bit_vector);
            }
            round_pack_x(hs, he, r.0, r.1)
        }
    } else {
        proof {
            if d >= 64 {
                assert(shr_sticky64(wl, d as int, false).0 == 0);
            } else if d >= 1 {
                assert(1 <= d < 64 && wl < 0x4000_0000_0000_0000
                    ==> (wl >> d) < 0x2000_0000_0000_0000) by (bit_vector);
                assert(shr_sticky64(wl, d as int, false).0 == wl >> d);
            } else {
                assert(hm >= lm && hm < 0x20_0000_0000_0000 && lm < 0x20_0000_0000_0000
                    ==> (hm << 9u64) >= (lm << 9u64)) by (bit_vector);
            }
        }
        let diff = if p.1 { wh - p.0 - 1 } else { wh - p.0 };
        if diff == 0 {
            0u64
        } else {
            let nd = norm_to_x(diff, he, 0x2000_0000_0000_0000);
            let r = shr_sticky64_x(nd.0, 7, p.1);
            proof {
                let ghost n0 = nd.0;
                assert(n0 < 0x4000_0000_0000_0000 ==> (n0 >> 7u64) < 0x80_0000_0000_0000)
                    by (bit_vector);
            }
            round_pack_x(hs, nd.1, r.0, r.1)
        }
    }
}

/// The significand and effective exponent of a finite nonzero number,
/// before normalization (subnormals keep their small significand).
fn mant_exp_x(b: u64) -> (r: (u64, i64))
    requires
        !is_nan_bits(b),
        !is_inf_bits(b),
        !is_zero_bits(b),
    ensures
        r.0 == mantissa_of(b),
        r.1 as int == exp_val(b),
        1 <= r.0 < 0x20_0000_0000_0000,
        1 <= r.1 <= 2046,
        r.1 >= 2 ==> r.0 >= HIDDEN_BIT,
{
    let exp = (b >> 52u64) & 0x7ff;
    let frac = b & FRAC_MASK;
    proof {
        assert((b >> 52u64) & 0x7ff < 0x800) by (bit_vector);
        assert(b & FRAC_MASK < 0x10_0000_0000_0000) by (bit_vector);
        assert(b & ABS_MASK == 0 || ((b >> 52u64) & 0x7ff) != 0 || (b & FRAC_MASK) != 0)
            by (bit_vector);
    }
    if exp == 0 {
        (frac, 1)
    } else {
        (frac + HIDDEN_BIT, exp as i64)
    }
}

/// Binary64 subtraction on bit patterns.
pub fn sub_f(a: u64, b: u64) -> (r: u64)
    ensures
        r == sub_bits(a, b),
{
    add_f(a, neg_f(b))
}

/// Binary64 multiplication on bit patterns.
pub fn mul_f(a: u64, b: u64) -> (r: u64)
    ensures
        r == mul_bits(a, b),
{
    let sa = sign_x(a);
    let sb = sign_x(b);
    proof {
        assert(sa <= 1 && sb <= 1 ==> (sa ^ sb) <= 1) by (bit_vector);
    }
    let sign = sa ^ sb;
    if is_nan_x(a) || is_nan_x(b) {
        return QUIET_NAN;
    }
    if is_inf_x(a) {
        if is_zero_x(b) {
            return QUIET_NAN;
        }
        return pack_x(sign, 0x7ff, 0);
    }
    if is_inf_x(b) {
        if is_zero_x(a) {
            return QUIET_NAN;
        }
        return pack_x(sign, 0x7ff, 0);
    }
    if is_zero_x(a) || is_zero_x(b) {
        return pack_x(sign, 0, 0);
    }
    let na = norm_mant_x(a);
    let nb = norm_mant_x(b);
    proof {
        assert((na.0 as int) * (nb.0 as int) < 0x400_0000_0000_0000_0000_0000_0000)
            by (nonlinear_arith)
            requires
                na.0 < 0x20_0000_0000_0000,
                nb.0 < 0x20_0000_0000_0000,
        ;
    }
    let prod = (na.0 as u128) * (nb.0 as u128);
    if prod >= 0x200_0000_0000_0000_0000_0000_0000 {
        let t = shr_sticky128_x(prod, 51, false);
        proof {
            assert(prod < 0x400_0000_0000_0000_0000_0000_0000
                ==> (prod >> 51u128) < 0x80_0000_0000_0000) by (bit_vector);
        }
        round_pack_x(sign, na.1 + nb.1 - 1022, t.0 as u64, t.1)
    } else {
        let t = shr_sticky128_x(prod, 50, false);
        proof {
            assert(prod < 0x200_0000_0000_0000_0000_0000_0000
                ==> (prod >> 50u128) < 0x80_0000_0000_0000) by (bit_vector);
        }
        round_pack_x(sign, na.1 + nb.1 - 1023, t.0 as u64, t.1)
    }
}

/// Binary64 division on bit patterns.
pub fn div_f(a: u64, b: u64) -> (r: u64)
    ensures
        r == div_bits(a, b),
{
    let sa = sign_x(a);
    let sb = sign_x(b);
    proof {
        assert(sa <= 1 && sb <= 1 ==> (sa ^ sb) <= 1) by (bit_vector);
    }
    let sign = sa ^ sb;
    if is_nan_x(a) || is_nan_x(b) {
        return QUIET_NAN;
    }
    if is_inf_x(a) {
        if is_inf_x(b) {
            return QUIET_NAN;
        }
        return pack_x(sign, 0x7ff, 0);
    }
    if is_inf_x(b) {
        return pack_x(sign, 0, 0);
    }
    if is_zero_x(b) {
        if is_zero_x(a) {
            return QUIET_NAN;
        }
        return pack_x(sign, 0x7ff, 0);
    }
    if is_zero_x(a) {
        return pack_x(sign, 0, 0);
    }
    let na = norm_mant_x(a);
    let nb = norm_mant_x(b);
    let num = (na.0 as u128) << 56u128;
    let q = num / (nb.0 as u128);
    let rem = num % (nb.0 as u128);
    proof {
        let nbw = na.0 as u128;
        assert(nbw < 0x20_0000_0000_0000 ==> (nbw << 56u128) < 0x2000_0000_0000_0000_0000_0000_0000)
            by (bit_vector);
        vstd::arithmetic::div_mod::lemma_fundamental_div_mod(num as int, nb.0 as int);
        assert(q < 0x200_0000_0000_0000) by (nonlinear_arith)
            requires
                num as int == (nb.0 as int) * (q as int) + (rem as int),
                num < 0x2000_0000_0000_0000_0000_0000_0000,
                nb.0 as int >= 0x10_0000_0000_0000,
                rem as int >= 0,
                q as int >= 0,
        ;
    }
    let st = rem != 0;
    if q >= 0x100_0000_0000_0000 {
        let t = shr_sticky128_x(q, 2, st);
        proof {
            assert(q < 0x200_0000_0000_0000 ==> (q >> 2u128) < 0x80_0000_0000_0000)
                by (bit_vector);
        }
        round_pack_x(sign, na.1 - nb.1 + 1023, t.0 as u64, t.1)
    } else {
        let t = shr_sticky128_x(q, 1, st);
        proof {
            assert(q < 0x100_0000_0000_0000 ==> (q >> 1u128) < 0x80_0000_0000_0000)
                by (bit_vector);
        }
        round_pack_x(sign, na.1 - nb.1 + 1022, t.0 as u64, t.1)
    }
}

/// Binary64 equality on bit patterns.
pub fn eq_f(a: u64, b: u64) -> (r: bool)
    ensures
        r == eq_bits(a, b),
{
    !is_nan_x(a) && !is_nan_x(b) && (a == b || (is_zero_x(a) && is_zero_x(b)))
}

/// The binary64 partial order on bit patterns.
pub fn cmp_f(a: u64, b: u64) -> (r: Option<Ordering>)
    ensures
        r == cmp_bits(a, b),
{
    if is_nan_x(a) || is_nan_x(b) {
        None
    } else if a == b || (is_zero_x(a) && is_zero_x(b)) {
        Some(Ordering::Equal)
    } else if sign_x(a) == 1 && sign_x(b) == 0 {
        Some(Ordering::Less)
    } else if sign_x(a) == 0 && sign_x(b) == 1 {
        Some(Ordering::Greater)
    } else if sign_x(a) == 0 {
        if a < b {
            Some(Ordering::Less)
        } else {
            Some(Ordering::Greater)
        }
    } else {
        if a > b {
            Some(Ordering::Less)
        } else {
            Some(Ordering::Greater)
        }
    }
}

} // verus!
