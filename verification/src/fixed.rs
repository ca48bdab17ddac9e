//! Fixed-point scalars.
//!
//! A quantity is stored as a signed 64-bit integer holding the real value
//! scaled by `FX_ONE` (2^32).  Addition and subtraction saturate at the
//! `i64` range; multiplication and division rescale with division truncated
//! toward zero and then saturate.  Division by zero yields zero, so every
//! operation is total.  The spec functions below give each operation its
//! exact mathematical meaning, and the executable operations are proved to
//! return exactly those values.

use vstd::prelude::*;

verus! {

/// The representation of 1.0: one whole unit is 2^32 raw steps.
pub const FX_ONE: i64 = 4294967296;

/// A fixed-point scalar: the real value `raw / FX_ONE`.
#[derive(Clone, Copy, PartialEq, Eq, Structural, Debug)]
pub struct Fx {
    pub raw: i64,
}

/// Clamp a mathematical integer into the `i64` range.
pub open spec fn sat64(v: int) -> int {
    if v > i64::MAX {
        i64::MAX as int
    } else if v < i64::MIN {
        i64::MIN as int
    } else {
        v
    }
}

/// Division truncated toward zero, the rounding used by all fixed-point
/// rescaling.  (The `/` of specifications is Euclidean, which differs on
/// negative dividends.)
pub open spec fn tdiv(a: int, b: int) -> int
    recommends
        b != 0,
{
    let q = abs_int(a) / abs_int(b);
    if (a < 0) == (b < 0) {
        q
    } else {
        -q
    }
}

pub open spec fn abs_int(a: int) -> int {
    if a < 0 {
        -a
    } else {
        a
    }
}

/// The fixed-point value closest to the raw integer `v` (saturating).
pub open spec fn fx(v: int) -> Fx {
    Fx { raw: sat64(v) as i64 }
}

pub open spec fn fx_add_s(a: Fx, b: Fx) -> Fx {
    fx(a.raw + b.raw)
}

pub open spec fn fx_sub_s(a: Fx, b: Fx) -> Fx {
    fx(a.raw - b.raw)
}

pub open spec fn fx_neg_s(a: Fx) -> Fx {
    fx(-a.raw)
}

pub open spec fn fx_mul_s(a: Fx, b: Fx) -> Fx {
    fx(tdiv(a.raw * b.raw, FX_ONE as int))
}

/// Division of fixed-point values; a zero divisor yields zero.
pub open spec fn fx_div_s(a: Fx, b: Fx) -> Fx {
    if b.raw == 0 {
        Fx { raw: 0 }
    } else {
        fx(tdiv(a.raw * FX_ONE, b.raw as int))
    }
}

impl Fx {
    pub open spec fn spec_zero() -> Fx {
        Fx { raw: 0 }
    }

    pub fn zero() -> (r: Fx)
        ensures
            r == Fx::spec_zero(),
    {
        Fx { raw: 0 }
    }

    pub fn from_raw(raw: i64) -> (r: Fx)
        ensures
            r.raw == raw,
    {
        Fx { raw }
    }

    /// The fixed-point image of a small integer.
    pub fn from_int(v: i32) -> (r: Fx)
        ensures
            r.raw == v * FX_ONE,
    {
        Fx { raw: (v as i64) * FX_ONE }
    }

    pub fn raw(&self) -> (r: i64)
        ensures
            r == self.raw,
    {
        self.raw
    }
}

/// For a nonnegative dividend and positive divisor, truncating division is
/// plain floor division, with its usual bounds.
pub proof fn lemma_tdiv_pos(a: int, b: int)
    requires
        a >= 0,
        b > 0,
    ensures
        tdiv(a, b) == a / b,
        tdiv(a, b) >= 0,
        tdiv(a, b) * b <= a,
        a < (tdiv(a, b) + 1) * b,
{
    vstd::arithmetic::div_mod::lemma_fundamental_div_mod(a, b);
    assert(a / b >= 0) by {
        vstd::arithmetic::div_mod::lemma_div_pos_is_pos(a, b);
    }
    assert((a / b) * b == b * (a / b)) by (nonlinear_arith);
    assert((a / b + 1) * b == b * (a / b) + b) by (nonlinear_arith);
}

/// Evaluate one truncating division from an explicit quotient and
/// remainder witness.
pub proof fn lemma_tdiv_exact(a: int, b: int, q: int, r: int)
    requires
        b > 0,
        a >= 0,
        a == b * q + r,
        0 <= r < b,
    ensures
        tdiv(a, b) == q,
{
    assert(a == q * b + r) by (nonlinear_arith)
        requires
            a == b * q + r,
    ;
    vstd::arithmetic::div_mod::lemma_fundamental_div_mod_converse(a, b, q, r);
}

/// Saturation never increases a nonnegative value, and keeps it nonnegative.
pub proof fn lemma_sat64_nonneg(v: int)
    requires
        v >= 0,
    ensures
        0 <= sat64(v) <= v,
        v <= i64::MAX ==> sat64(v) == v,
{
}

/// The product of nonnegative fixed-point values is nonnegative and no
/// larger than the exact rational product.
pub proof fn lemma_fx_mul_nonneg(a: Fx, b: Fx)
    requires
        a.raw >= 0,
        b.raw >= 0,
    ensures
        0 <= fx_mul_s(a, b).raw,
        fx_mul_s(a, b).raw * (FX_ONE as int) <= a.raw * b.raw,
{
    assert(a.raw * b.raw >= 0) by (nonlinear_arith)
        requires
            a.raw >= 0,
            b.raw >= 0,
    ;
    lemma_tdiv_pos(a.raw * b.raw, FX_ONE as int);
    let q = tdiv(a.raw * b.raw, FX_ONE as int);
    lemma_sat64_nonneg(q);
    assert(sat64(q) * (FX_ONE as int) <= q * (FX_ONE as int)) by (nonlinear_arith)
        requires
            0 <= sat64(q) <= q,
    ;
}

/// The quotient of nonnegative fixed-point values is nonnegative.
pub proof fn lemma_fx_div_nonneg(a: Fx, b: Fx)
    requires
        a.raw >= 0,
        b.raw >= 0,
    ensures
        0 <= fx_div_s(a, b).raw,
{
    if b.raw != 0 {
        lemma_tdiv_pos(a.raw * FX_ONE, b.raw as int);
        lemma_sat64_nonneg(tdiv(a.raw * FX_ONE, b.raw as int));
    }
}

/// Floor division of a signed value by a positive one, matching the `/` of
/// specifications (Euclidean division has a floor quotient for positive
/// divisors).
pub fn floor_div_i64(a: i64, b: i64) -> (r: i64)
    requires
        b > 0,
    ensures
        r as int == a as int / b as int,
{
    if a >= 0 {
        let q = (a as u64) / (b as u64);
        q as i64
    } else {
        let na: u128 = (-(a as i128)) as u128;
        let q: u128 = (na + (b as u128) - 1) / (b as u128);
        proof {
            let ai = a as int;
            let bi = b as int;
            vstd::arithmetic::div_mod::lemma_fundamental_div_mod(ai, bi);
            let qe = ai / bi;
            let re = ai % bi;
            assert(na as int + bi - 1 == bi * (-qe) + (bi - 1 - re)) by (nonlinear_arith)
                requires
                    ai == bi * qe + re,
                    na as int == -ai,
            ;
            vstd::arithmetic::div_mod::lemma_fundamental_div_mod_converse(
                na as int + bi - 1,
                bi,
                -qe,
                bi - 1 - re,
            );
            assert(q as int == -qe);
            assert(qe <= 0) by {
                vstd::arithmetic::div_mod::lemma_div_is_ordered(ai, 0, bi);
                vstd::arithmetic::div_mod::lemma_div_basics(bi);
            }
            assert(qe >= ai) by (nonlinear_arith)
                requires
                    ai == bi * qe + re,
                    0 <= re < bi,
                    bi >= 1,
                    ai < 0,
                    qe <= 0,
            ;
        }
        let r: i128 = -(q as i128);
        r as i64
    }
}

/// Clamp an `i128` into the `i64` range.
fn clamp_to_i64(v: i128) -> (r: i64)
    ensures
        r == sat64(v as int),
{
    if v > i64::MAX as i128 {
        i64::MAX
    } else if v < i64::MIN as i128 {
        i64::MIN
    } else {
        v as i64
    }
}

/// Truncating division on `i128`, via unsigned division of magnitudes.
fn tdiv_i128(a: i128, b: i128) -> (r: i128)
    requires
        b != 0,
        a > i128::MIN,
        b > i128::MIN,
    ensures
        r == tdiv(a as int, b as int),
        abs_int(r as int) <= abs_int(a as int),
{
    let ua: u128 = if a < 0 { (-a) as u128 } else { a as u128 };
    let ub: u128 = if b < 0 { (-b) as u128 } else { b as u128 };
    let q: u128 = ua / ub;
    assert(q <= ua) by {
        assert(ua / ub <= ua / 1) by {
            vstd::arithmetic::div_mod::lemma_div_is_ordered_by_denominator(ua as int, 1, ub as int);
        }
        assert(ua / 1 == ua) by {
            vstd::arithmetic::div_mod::lemma_div_basics(ua as int);
        }
    }
    if (a < 0) != (b < 0) {
        -(q as i128)
    } else {
        q as i128
    }
}

pub fn fx_add(a: Fx, b: Fx) -> (r: Fx)
    ensures
        r == fx_add_s(a, b),
{
    let v: i128 = a.raw as i128 + b.raw as i128;
    Fx { raw: clamp_to_i64(v) }
}

pub fn fx_sub(a: Fx, b: Fx) -> (r: Fx)
    ensures
        r == fx_sub_s(a, b),
{
    let v: i128 = a.raw as i128 - b.raw as i128;
    Fx { raw: clamp_to_i64(v) }
}

pub fn fx_neg(a: Fx) -> (r: Fx)
    ensures
        r == fx_neg_s(a),
{
    let v: i128 = -(a.raw as i128);
    Fx { raw: clamp_to_i64(v) }
}

pub fn fx_mul(a: Fx, b: Fx) -> (r: Fx)
    ensures
        r == fx_mul_s(a, b),
{
    let wa = a.raw as i128;
    let wb = b.raw as i128;
    assert(-0x4000_0000_0000_0000_0000_0000_0000_0000 <= wa * wb
        <= 0x4000_0000_0000_0000_0000_0000_0000_0000) by (nonlinear_arith)
        requires
            -0x8000_0000_0000_0000 <= wa <= 0x7fff_ffff_ffff_ffff,
            -0x8000_0000_0000_0000 <= wb <= 0x7fff_ffff_ffff_ffff,
    ;
    let p: i128 = wa * wb;
    let q = tdiv_i128(p, FX_ONE as i128);
    Fx { raw: clamp_to_i64(q) }
}

pub fn fx_div(a: Fx, b: Fx) -> (r: Fx)
    ensures
        r == fx_div_s(a, b),
{
    if b.raw == 0 {
        Fx { raw: 0 }
    } else {
        let wa = a.raw as i128;
        assert(-0x8000_0000_0000_0000_0000_0000 <= wa * (FX_ONE as i128)
            <= 0x8000_0000_0000_0000_0000_0000) by (nonlinear_arith)
            requires
                -0x8000_0000_0000_0000 <= wa <= 0x7fff_ffff_ffff_ffff,
        ;
        let p: i128 = wa * (FX_ONE as i128);
        let q = tdiv_i128(p, b.raw as i128);
        Fx { raw: clamp_to_i64(q) }
    }
}

} // verus!
