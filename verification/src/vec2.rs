//! Two-dimensional fixed-point vectors.
//!
//! Componentwise arithmetic follows the scalar rules of `fixed`; the length
//! is the integer square root of the sum of squared raw components, which is
//! exact because the scale factor passes through the square root unchanged.

use vstd::prelude::*;
use crate::fixed::{
    fx, fx_add, fx_add_s, fx_div, fx_div_s, fx_mul, fx_mul_s, fx_neg, fx_neg_s, fx_sub, fx_sub_s,
    sat64, tdiv, Fx,
};

verus! {

#[derive(Clone, Copy, PartialEq, Eq, Structural, Debug)]
pub struct Vec2Fx {
    pub x: Fx,
    pub y: Fx,
}

/// The nonnegative integer square root: the unique `r` with
/// `r * r <= n < (r + 1) * (r + 1)`.
pub open spec fn isqrt_s(n: nat) -> nat
    decreases n,
{
    if n == 0 {
        0
    } else {
        let r = isqrt_s((n - 1) as nat);
        if (r + 1) * (r + 1) <= n {
            r + 1
        } else {
            r
        }
    }
}

pub proof fn lemma_isqrt_bounds(n: nat)
    ensures
        isqrt_s(n) * isqrt_s(n) <= n,
        n < (isqrt_s(n) + 1) * (isqrt_s(n) + 1),
    decreases n,
{
    if n == 0 {
        assert(isqrt_s(0) == 0);
        assert(isqrt_s(n) * isqrt_s(n) <= n);
        assert(n < (isqrt_s(n) + 1) * (isqrt_s(n) + 1)) by (nonlinear_arith)
            requires
                n == 0,
                isqrt_s(n) == 0,
        ;
    } else {
        let r = isqrt_s((n - 1) as nat);
        lemma_isqrt_bounds((n - 1) as nat);
        assert(r * r <= n - 1);
        assert(n - 1 < (r + 1) * (r + 1));
        if (r + 1) * (r + 1) <= n {
            assert(isqrt_s(n) == r + 1);
            assert(n < (r + 2) * (r + 2)) by (nonlinear_arith)
                requires
                    n <= (r + 1) * (r + 1) + 1,
            ;
            assert(isqrt_s(n) * isqrt_s(n) <= n);
            assert(n < (isqrt_s(n) + 1) * (isqrt_s(n) + 1));
        } else {
            assert(isqrt_s(n) == r);
            assert(n < (r + 1) * (r + 1));
            assert(isqrt_s(n) * isqrt_s(n) <= n);
            assert(n < (isqrt_s(n) + 1) * (isqrt_s(n) + 1));
        }
    }
}

pub proof fn lemma_isqrt_unique(n: nat, r: nat)
    requires
        r * r <= n,
        n < (r + 1) * (r + 1),
    ensures
        r == isqrt_s(n),
{
    lemma_isqrt_bounds(n);
    let s = isqrt_s(n);
    assert(r == s) by (nonlinear_arith)
        requires
            r * r <= n,
            n < (r + 1) * (r + 1),
            s * s <= n,
            n < (s + 1) * (s + 1),
    ;
}

/// Executable integer square root by binary search.
pub fn isqrt(n: u128) -> (r: u64)
    ensures
        r == isqrt_s(n as nat),
{
    let mut lo: u128 = 0;
    let mut hi: u128 = 18446744073709551616;
    proof {
        assert((18446744073709551616 as int) * (18446744073709551616 as int) > n as int)
            by (nonlinear_arith);
    }
    while hi - lo > 1
        invariant
            lo < hi,
            hi <= 18446744073709551616,
            (lo as int) * (lo as int) <= n as int,
            (n as int) < (hi as int) * (hi as int),
        decreases hi - lo,
    {
        let mid: u128 = lo + (hi - lo) / 2;
        assert(mid * mid < 0x1_0000_0000_0000_0000_0000_0000_0000_0000) by (nonlinear_arith)
            requires
                mid < 18446744073709551616,
        ;
        if mid * mid <= n {
            lo = mid;
        } else {
            hi = mid;
        }
    }
    proof {
        lemma_isqrt_unique(n as nat, lo as nat);
    }
    lo as u64
}

/// Raw squared length, as a mathematical integer.
pub open spec fn v2_sqlen_raw(v: Vec2Fx) -> int {
    v.x.raw * v.x.raw + v.y.raw * v.y.raw
}

/// The length of a vector: `sqrt(x^2 + y^2)` carried out on raw components,
/// saturating at the `i64` maximum.
pub open spec fn v2_len_s(v: Vec2Fx) -> Fx {
    fx(isqrt_s(v2_sqlen_raw(v) as nat) as int)
}

pub open spec fn v2_zero() -> Vec2Fx {
    Vec2Fx { x: Fx { raw: 0 }, y: Fx { raw: 0 } }
}

pub open spec fn v2_add_s(a: Vec2Fx, b: Vec2Fx) -> Vec2Fx {
    Vec2Fx { x: fx_add_s(a.x, b.x), y: fx_add_s(a.y, b.y) }
}

pub open spec fn v2_sub_s(a: Vec2Fx, b: Vec2Fx) -> Vec2Fx {
    Vec2Fx { x: fx_sub_s(a.x, b.x), y: fx_sub_s(a.y, b.y) }
}

pub open spec fn v2_neg_s(a: Vec2Fx) -> Vec2Fx {
    Vec2Fx { x: fx_neg_s(a.x), y: fx_neg_s(a.y) }
}

/// Componentwise scaling by a fixed-point scalar.
pub open spec fn v2_scale_s(a: Vec2Fx, k: Fx) -> Vec2Fx {
    Vec2Fx { x: fx_mul_s(a.x, k), y: fx_mul_s(a.y, k) }
}

/// Componentwise division by a fixed-point scalar (zero divisor gives zero).
pub open spec fn v2_div_s(a: Vec2Fx, k: Fx) -> Vec2Fx {
    Vec2Fx { x: fx_div_s(a.x, k), y: fx_div_s(a.y, k) }
}

/// The unit vector along `a`; the zero vector normalises to zero.
pub open spec fn v2_normalise_s(a: Vec2Fx) -> Vec2Fx {
    v2_div_s(a, v2_len_s(a))
}

/// Zero behaves as expected under the saturating vector operations: it is
/// an additive identity, and scaling or dividing it gives zero again.
pub proof fn lemma_v2_zero_ops(v: Vec2Fx, k: Fx)
    ensures
        v2_add_s(v, v2_zero()) == v,
        v2_add_s(v2_zero(), v) == v,
        v2_scale_s(v2_zero(), k) == v2_zero(),
        v2_div_s(v2_zero(), k) == v2_zero(),
{
    assert(tdiv(0, crate::fixed::FX_ONE as int) == 0) by {
        vstd::arithmetic::div_mod::lemma_div_basics(crate::fixed::FX_ONE as int);
    }
    if k.raw != 0 {
        assert(tdiv(0, k.raw as int) == 0) by {
            vstd::arithmetic::div_mod::lemma_div_basics(crate::fixed::abs_int(k.raw as int));
        }
    }
}

impl Vec2Fx {
    pub fn new(x: Fx, y: Fx) -> (r: Vec2Fx)
        ensures
            r.x == x,
            r.y == y,
    {
        Vec2Fx { x, y }
    }

    pub fn zero() -> (r: Vec2Fx)
        ensures
            r == v2_zero(),
    {
        Vec2Fx { x: Fx { raw: 0 }, y: Fx { raw: 0 } }
    }

    pub fn add(self, other: Vec2Fx) -> (r: Vec2Fx)
        ensures
            r == v2_add_s(self, other),
    {
        Vec2Fx { x: fx_add(self.x, other.x), y: fx_add(self.y, other.y) }
    }

    pub fn sub(self, other: Vec2Fx) -> (r: Vec2Fx)
        ensures
            r == v2_sub_s(self, other),
    {
        Vec2Fx { x: fx_sub(self.x, other.x), y: fx_sub(self.y, other.y) }
    }

    pub fn neg(self) -> (r: Vec2Fx)
        ensures
            r == v2_neg_s(self),
    {
        Vec2Fx { x: fx_neg(self.x), y: fx_neg(self.y) }
    }

    pub fn scale(self, k: Fx) -> (r: Vec2Fx)
        ensures
            r == v2_scale_s(self, k),
    {
        Vec2Fx { x: fx_mul(self.x, k), y: fx_mul(self.y, k) }
    }

    pub fn div(self, k: Fx) -> (r: Vec2Fx)
        ensures
            r == v2_div_s(self, k),
    {
        Vec2Fx { x: fx_div(self.x, k), y: fx_div(self.y, k) }
    }

    pub fn length(self) -> (r: Fx)
        ensures
            r == v2_len_s(self),
    {
        let wx = self.x.raw as i128;
        let wy = self.y.raw as i128;
        assert(0 <= wx * wx <= 0x4000_0000_0000_0000_0000_0000_0000_0000
            && 0 <= wy * wy <= 0x4000_0000_0000_0000_0000_0000_0000_0000) by (nonlinear_arith)
            requires
                -0x8000_0000_0000_0000 <= wx <= 0x7fff_ffff_ffff_ffff,
                -0x8000_0000_0000_0000 <= wy <= 0x7fff_ffff_ffff_ffff,
        ;
        let sx: i128 = wx * wx;
        let sy: i128 = wy * wy;
        let sq: u128 = sx as u128 + sy as u128;
        let root: u64 = isqrt(sq);
        let raw: i64 = if root > i64::MAX as u64 {
            i64::MAX
        } else {
            root as i64
        };
        proof {
            assert(sat64(isqrt_s(sq as nat) as int) == raw);
        }
        Fx { raw }
    }

    pub fn normalise(self) -> (r: Vec2Fx)
        ensures
            r == v2_normalise_s(self),
    {
        let len = self.length();
        self.div(len)
    }
}

} // verus!
