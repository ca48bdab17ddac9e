//! Smoothing kernels: pure weighting functions of (distance, smoothing
//! radius).
//!
//! Every kernel has compact support: it is exactly zero once the distance
//! reaches the cutoff.  Each executable kernel returns precisely the value of
//! its spec-level mirror, which spells out the fixed-point evaluation order,
//! so callers can reason about kernel values to the last raw unit.

use vstd::prelude::*;
use crate::fixed::{
    fx_div, fx_div_s, fx_mul, fx_mul_s, fx_neg, fx_neg_s, fx_sub, fx_sub_s, lemma_fx_div_nonneg,
    lemma_fx_mul_nonneg, lemma_sat64_nonneg, lemma_tdiv_pos, sat64, tdiv, Fx, FX_ONE,
};

verus! {

/// The circle constant scaled by `FX_ONE`: round(pi * 2^32).
pub const PI_RAW: i64 = 13493037705;

pub open spec fn fx_pi() -> Fx {
    Fx { raw: PI_RAW }
}

pub open spec fn fx_int(v: i64) -> Fx
    recommends
        -0x8000_0000 <= v < 0x8000_0000,
{
    Fx { raw: (v * FX_ONE) as i64 }
}

fn pi() -> (w: Fx)
    ensures
        w == fx_pi(),
{
    Fx { raw: PI_RAW }
}

fn small(v: i32) -> (w: Fx)
    ensures
        w == fx_int(v as i64),
{
    Fx { raw: (v as i64) * FX_ONE }
}

/// `distance^2 / radius^2`-free cubic spline with support `2 * radius`.
pub open spec fn cubic_spline_smoothing_kernel_s(d: Fx, r: Fx) -> Fx {
    let ratio = fx_div_s(d, r);
    if ratio.raw > 2 * FX_ONE {
        Fx { raw: 0 }
    } else {
        let r2 = fx_mul_s(r, r);
        let norm = fx_div_s(fx_int(15), fx_mul_s(fx_mul_s(fx_int(14), fx_pi()), r2));
        let two_less = fx_sub_s(fx_int(2), ratio);
        let cube2 = fx_mul_s(fx_mul_s(two_less, two_less), two_less);
        if 0 <= ratio.raw && ratio.raw < FX_ONE {
            let one_less = fx_sub_s(fx_int(1), ratio);
            let cube1 = fx_mul_s(fx_mul_s(one_less, one_less), one_less);
            fx_mul_s(norm, fx_sub_s(cube2, fx_mul_s(fx_int(4), cube1)))
        } else {
            fx_mul_s(norm, cube2)
        }
    }
}

pub fn cubic_spline_smoothing_kernel(distance: Fx, smoothing_radius: Fx) -> (w: Fx)
    ensures
        w == cubic_spline_smoothing_kernel_s(distance, smoothing_radius),
{
    let ratio = fx_div(distance, smoothing_radius);
    if ratio.raw > 2 * FX_ONE {
        return Fx { raw: 0 };
    }
    let r2 = fx_mul(smoothing_radius, smoothing_radius);
    let norm = fx_div(small(15), fx_mul(fx_mul(small(14), pi()), r2));
    let two_less = fx_sub(small(2), ratio);
    let cube2 = fx_mul(fx_mul(two_less, two_less), two_less);
    if 0 <= ratio.raw && ratio.raw < FX_ONE {
        let one_less = fx_sub(small(1), ratio);
        let cube1 = fx_mul(fx_mul(one_less, one_less), one_less);
        fx_mul(norm, fx_sub(cube2, fx_mul(small(4), cube1)))
    } else {
        fx_mul(norm, cube2)
    }
}

/// Slope of the cubic spline kernel.
pub open spec fn cubic_spline_smoothing_kernel_derivative_s(d: Fx, r: Fx) -> Fx {
    let ratio = fx_div_s(d, r);
    if ratio.raw > 2 * FX_ONE {
        Fx { raw: 0 }
    } else {
        let r2 = fx_mul_s(r, r);
        let norm = fx_div_s(fx_int(15), fx_mul_s(fx_mul_s(fx_int(14), fx_pi()), r2));
        if 0 <= ratio.raw && ratio.raw < FX_ONE {
            let nine_sq = fx_mul_s(fx_int(9), fx_mul_s(ratio, ratio));
            fx_mul_s(norm, fx_sub_s(nine_sq, fx_mul_s(fx_int(12), ratio)))
        } else {
            let two_less = fx_sub_s(fx_int(2), ratio);
            fx_mul_s(fx_mul_s(fx_int(3), norm), fx_mul_s(two_less, two_less))
        }
    }
}

pub fn cubic_spline_smoothing_kernel_derivative(distance: Fx, smoothing_radius: Fx) -> (w: Fx)
    ensures
        w == cubic_spline_smoothing_kernel_derivative_s(distance, smoothing_radius),
{
    let ratio = fx_div(distance, smoothing_radius);
    if ratio.raw > 2 * FX_ONE {
        return Fx { raw: 0 };
    }
    let r2 = fx_mul(smoothing_radius, smoothing_radius);
    let norm = fx_div(small(15), fx_mul(fx_mul(small(14), pi()), r2));
    if 0 <= ratio.raw && ratio.raw < FX_ONE {
        let nine_sq = fx_mul(small(9), fx_mul(ratio, ratio));
        fx_mul(norm, fx_sub(nine_sq, fx_mul(small(12), ratio)))
    } else {
        let two_less = fx_sub(small(2), ratio);
        fx_mul(fx_mul(small(3), norm), fx_mul(two_less, two_less))
    }
}

/// The spiky kernel `(r - d)^3 / (pi r^6 / 15)`: the density self-term.
pub open spec fn spiky_smoothing_kernel_s(d: Fx, r: Fx) -> Fx {
    if d.raw >= r.raw {
        Fx { raw: 0 }
    } else {
        let r2 = fx_mul_s(r, r);
        let r4 = fx_mul_s(r2, r2);
        let r6 = fx_mul_s(r4, r2);
        let volume = fx_div_s(fx_mul_s(fx_pi(), r6), fx_int(15));
        let rd = fx_sub_s(r, d);
        let rd3 = fx_mul_s(fx_mul_s(rd, rd), rd);
        fx_div_s(rd3, volume)
    }
}

pub fn spiky_smoothing_kernel(distance: Fx, smoothing_radius: Fx) -> (w: Fx)
    ensures
        w == spiky_smoothing_kernel_s(distance, smoothing_radius),
{
    if distance.raw >= smoothing_radius.raw {
        return Fx { raw: 0 };
    }
    let r2 = fx_mul(smoothing_radius, smoothing_radius);
    let r4 = fx_mul(r2, r2);
    let r6 = fx_mul(r4, r2);
    let volume = fx_div(fx_mul(pi(), r6), small(15));
    let rd = fx_sub(smoothing_radius, distance);
    let rd3 = fx_mul(fx_mul(rd, rd), rd);
    fx_div(rd3, volume)
}

/// Slope of the spiky kernel: `-60 / (pi r^6) * (r - d)`.
pub open spec fn spiky_smoothing_kernel_derivative_s(d: Fx, r: Fx) -> Fx {
    if d.raw >= r.raw {
        Fx { raw: 0 }
    } else {
        let r2 = fx_mul_s(r, r);
        let r4 = fx_mul_s(r2, r2);
        let r6 = fx_mul_s(r4, r2);
        let scale = fx_neg_s(fx_div_s(fx_int(60), fx_mul_s(fx_pi(), r6)));
        fx_mul_s(scale, fx_sub_s(r, d))
    }
}

pub fn spiky_smoothing_kernel_derivative(distance: Fx, smoothing_radius: Fx) -> (w: Fx)
    ensures
        w == spiky_smoothing_kernel_derivative_s(distance, smoothing_radius),
{
    if distance.raw >= smoothing_radius.raw {
        return Fx { raw: 0 };
    }
    let r2 = fx_mul(smoothing_radius, smoothing_radius);
    let r4 = fx_mul(r2, r2);
    let r6 = fx_mul(r4, r2);
    let scale = fx_neg(fx_div(small(60), fx_mul(pi(), r6)));
    fx_mul(scale, fx_sub(smoothing_radius, distance))
}

/// Second derivative form used by the viscous term: `(r - d) / (pi r^6 / 45)`.
pub open spec fn viscosity_smoothing_kernel_second_derivative_s(d: Fx, r: Fx) -> Fx {
    if d.raw >= r.raw {
        Fx { raw: 0 }
    } else {
        let r2 = fx_mul_s(r, r);
        let r4 = fx_mul_s(r2, r2);
        let r6 = fx_mul_s(r4, r2);
        let volume = fx_div_s(fx_mul_s(fx_pi(), r6), fx_int(45));
        fx_div_s(fx_sub_s(r, d), volume)
    }
}

pub fn viscosity_smoothing_kernel_second_derivative(distance: Fx, smoothing_radius: Fx) -> (w: Fx)
    ensures
        w == viscosity_smoothing_kernel_second_derivative_s(distance, smoothing_radius),
{
    if distance.raw >= smoothing_radius.raw {
        return Fx { raw: 0 };
    }
    let r2 = fx_mul(smoothing_radius, smoothing_radius);
    let r4 = fx_mul(r2, r2);
    let r6 = fx_mul(r4, r2);
    let volume = fx_div(fx_mul(pi(), r6), small(45));
    fx_div(fx_sub(smoothing_radius, distance), volume)
}

/// The quadratic kernel `(r - d)^2 * 6 / (pi r^4)`: the density
/// neighbour-contribution weight.
pub open spec fn sb_smoothing_kernel_s(d: Fx, r: Fx) -> Fx {
    if d.raw >= r.raw {
        Fx { raw: 0 }
    } else {
        let r2 = fx_mul_s(r, r);
        let r4 = fx_mul_s(r2, r2);
        let rd = fx_sub_s(r, d);
        fx_div_s(fx_mul_s(fx_mul_s(rd, rd), fx_int(6)), fx_mul_s(fx_pi(), r4))
    }
}

pub fn sb_smoothing_kernel(distance: Fx, smoothing_radius: Fx) -> (w: Fx)
    ensures
        w == sb_smoothing_kernel_s(distance, smoothing_radius),
{
    if distance.raw >= smoothing_radius.raw {
        return Fx { raw: 0 };
    }
    let r2 = fx_mul(smoothing_radius, smoothing_radius);
    let r4 = fx_mul(r2, r2);
    let rd = fx_sub(smoothing_radius, distance);
    fx_div(fx_mul(fx_mul(rd, rd), small(6)), fx_mul(pi(), r4))
}

/// Slope of the quadratic kernel: `(d - r) * 12 / (pi r^4)`.
pub open spec fn sb_smoothing_kernel_derivative_s(d: Fx, r: Fx) -> Fx {
    if d.raw >= r.raw {
        Fx { raw: 0 }
    } else {
        let r2 = fx_mul_s(r, r);
        let r4 = fx_mul_s(r2, r2);
        fx_div_s(fx_mul_s(fx_sub_s(d, r), fx_int(12)), fx_mul_s(fx_pi(), r4))
    }
}

pub fn sb_smoothing_kernel_derivative(distance: Fx, smoothing_radius: Fx) -> (w: Fx)
    ensures
        w == sb_smoothing_kernel_derivative_s(distance, smoothing_radius),
{
    if distance.raw >= smoothing_radius.raw {
        return Fx { raw: 0 };
    }
    let r2 = fx_mul(smoothing_radius, smoothing_radius);
    let r4 = fx_mul(r2, r2);
    fx_div(fx_mul(fx_sub(distance, smoothing_radius), small(12)), fx_mul(pi(), r4))
}

/// The poly6 kernel `(r^2 - d^2)^3 * 315 / (64 pi r^9)`.
pub open spec fn poly6_smoothing_kernel_s(d: Fx, r: Fx) -> Fx {
    if d.raw >= r.raw {
        Fx { raw: 0 }
    } else {
        let r2 = fx_mul_s(r, r);
        let d2 = fx_mul_s(d, d);
        let diff = fx_sub_s(r2, d2);
        let diff3 = fx_mul_s(fx_mul_s(diff, diff), diff);
        let r4 = fx_mul_s(r2, r2);
        let r8 = fx_mul_s(r4, r4);
        let r9 = fx_mul_s(r8, r);
        let norm = fx_div_s(fx_int(315), fx_mul_s(fx_mul_s(fx_int(64), fx_pi()), r9));
        fx_mul_s(diff3, norm)
    }
}

pub fn poly6_smoothing_kernel(distance: Fx, smoothing_radius: Fx) -> (w: Fx)
    ensures
        w == poly6_smoothing_kernel_s(distance, smoothing_radius),
{
    if distance.raw >= smoothing_radius.raw {
        return Fx { raw: 0 };
    }
    let r2 = fx_mul(smoothing_radius, smoothing_radius);
    let d2 = fx_mul(distance, distance);
    let diff = fx_sub(r2, d2);
    let diff3 = fx_mul(fx_mul(diff, diff), diff);
    let r4 = fx_mul(r2, r2);
    let r8 = fx_mul(r4, r4);
    let r9 = fx_mul(r8, smoothing_radius);
    let norm = fx_div(small(315), fx_mul(fx_mul(small(64), pi()), r9));
    fx_mul(diff3, norm)
}

/// Smoothing radii in this window keep the fixed-point kernels away from
/// both underflow to zero and saturation: one sixteenth of a unit up to
/// sixteen units.
pub open spec fn radius_in_range(r: Fx) -> bool {
    FX_ONE / 8 <= r.raw <= 16 * FX_ONE
}

/// A nonnegative distance never makes the density-style kernels negative.
pub proof fn lemma_sb_kernel_nonneg(d: Fx, r: Fx)
    requires
        d.raw >= 0,
    ensures
        sb_smoothing_kernel_s(d, r).raw >= 0,
{
    if d.raw < r.raw {
        let r2 = fx_mul_s(r, r);
        lemma_fx_mul_nonneg(r, r);
        let r4 = fx_mul_s(r2, r2);
        lemma_fx_mul_nonneg(r2, r2);
        let rd = fx_sub_s(r, d);
        lemma_sat64_nonneg(r.raw - d.raw);
        lemma_fx_mul_nonneg(rd, rd);
        lemma_fx_mul_nonneg(fx_mul_s(rd, rd), fx_int(6));
        lemma_fx_mul_nonneg(fx_pi(), r4);
        lemma_fx_div_nonneg(fx_mul_s(fx_mul_s(rd, rd), fx_int(6)), fx_mul_s(fx_pi(), r4));
    }
}

pub proof fn lemma_spiky_kernel_nonneg(d: Fx, r: Fx)
    requires
        d.raw >= 0,
    ensures
        spiky_smoothing_kernel_s(d, r).raw >= 0,
{
    if d.raw < r.raw {
        let r2 = fx_mul_s(r, r);
        lemma_fx_mul_nonneg(r, r);
        let r4 = fx_mul_s(r2, r2);
        lemma_fx_mul_nonneg(r2, r2);
        let r6 = fx_mul_s(r4, r2);
        lemma_fx_mul_nonneg(r4, r2);
        lemma_fx_mul_nonneg(fx_pi(), r6);
        let volume = fx_div_s(fx_mul_s(fx_pi(), r6), fx_int(15));
        lemma_fx_div_nonneg(fx_mul_s(fx_pi(), r6), fx_int(15));
        let rd = fx_sub_s(r, d);
        lemma_sat64_nonneg(r.raw - d.raw);
        lemma_fx_mul_nonneg(rd, rd);
        lemma_fx_mul_nonneg(fx_mul_s(rd, rd), rd);
        lemma_fx_div_nonneg(fx_mul_s(fx_mul_s(rd, rd), rd), volume);
    }
}

pub proof fn lemma_viscosity_kernel_nonneg(d: Fx, r: Fx)
    requires
        d.raw >= 0,
    ensures
        viscosity_smoothing_kernel_second_derivative_s(d, r).raw >= 0,
{
    if d.raw < r.raw {
        let r2 = fx_mul_s(r, r);
        lemma_fx_mul_nonneg(r, r);
        let r4 = fx_mul_s(r2, r2);
        lemma_fx_mul_nonneg(r2, r2);
        let r6 = fx_mul_s(r4, r2);
        lemma_fx_mul_nonneg(r4, r2);
        lemma_fx_mul_nonneg(fx_pi(), r6);
        let volume = fx_div_s(fx_mul_s(fx_pi(), r6), fx_int(45));
        lemma_fx_div_nonneg(fx_mul_s(fx_pi(), r6), fx_int(45));
        lemma_sat64_nonneg(r.raw - d.raw);
        lemma_fx_div_nonneg(fx_sub_s(r, d), volume);
    }
}

/// The density kernel at distance zero is a strictly positive finite
/// constant for every smoothing radius in the supported window, so the
/// mandatory self-contribution bounds every particle's density away from
/// zero.
pub proof fn lemma_density_kernel_positive_at_zero(r: Fx)
    requires
        radius_in_range(r),
    ensures
        spiky_smoothing_kernel_s(Fx { raw: 0 }, r).raw > 0,
{
    let s = FX_ONE as int;
    let x = r.raw as int;
    let d = Fx { raw: 0 };

    let r2 = fx_mul_s(r, r);
    lemma_tdiv_pos(x * x, s);
    assert(x * x <= 16 * s * (16 * s)) by (nonlinear_arith)
        requires
            0 < x <= 16 * s,
    ;
    assert(tdiv(x * x, s) * s <= x * x && x * x < (tdiv(x * x, s) + 1) * s);
    let a = tdiv(x * x, s);
    assert(a <= 16 * 16 * s) by (nonlinear_arith)
        requires
            a * s <= x * x,
            x * x <= 16 * s * (16 * s),
            s == 4294967296,
            a >= 0,
    ;
    assert(a >= s / 64 - 1) by (nonlinear_arith)
        requires
            x * x < (a + 1) * s,
            x >= s / 8,
            s == 4294967296,
    ;
    lemma_sat64_nonneg(a);
    assert(r2.raw == a);

    let r4 = fx_mul_s(r2, r2);
    lemma_tdiv_pos(a * a, s);
    let b = tdiv(a * a, s);
    assert(b <= 65536 * s) by (nonlinear_arith)
        requires
            b * s <= a * a,
            0 <= a <= 256 * s,
            s == 4294967296,
            b >= 0,
    ;
    lemma_sat64_nonneg(b);
    assert(r4.raw == b);

    let r6 = fx_mul_s(r4, r2);
    lemma_tdiv_pos(b * a, s);
    assert(b * a >= 0) by (nonlinear_arith)
        requires
            b >= 0,
            a >= 0,
    ;
    let c = tdiv(b * a, s);
    assert(c <= 16777216 * s) by (nonlinear_arith)
        requires
            c * s <= b * a,
            0 <= b <= 65536 * s,
            0 <= a <= 256 * s,
            s == 4294967296,
            c >= 0,
    ;
    lemma_sat64_nonneg(c);
    assert(r6.raw == c);

    let pir6 = fx_mul_s(fx_pi(), r6);
    lemma_tdiv_pos(PI_RAW * c, s);
    let pc = tdiv(PI_RAW * c, s);
    assert(pc <= 4 * 16777216 * s) by (nonlinear_arith)
        requires
            pc * s <= PI_RAW * c,
            0 <= c <= 16777216 * s,
            PI_RAW == 13493037705,
            s == 4294967296,
            pc >= 0,
    ;
    lemma_sat64_nonneg(pc);
    assert(pir6.raw == pc);

    let volume = fx_div_s(pir6, fx_int(15));
    lemma_tdiv_pos(pc * s, 15 * s);
    let v = tdiv(pc * s, 15 * s);
    assert(v <= 5000000 * s) by (nonlinear_arith)
        requires
            v * (15 * s) <= pc * s,
            0 <= pc <= 4 * 16777216 * s,
            s == 4294967296,
            v >= 0,
    ;
    lemma_sat64_nonneg(v);
    assert(volume.raw == v);

    let rd = fx_sub_s(r, d);
    assert(rd.raw == x);
    let rd2 = fx_mul_s(rd, rd);
    assert(rd2.raw == a);
    let rd3 = fx_mul_s(rd2, rd);
    lemma_tdiv_pos(a * x, s);
    let e = tdiv(a * x, s);
    assert(e >= 8388591) by (nonlinear_arith)
        requires
            a * x < (e + 1) * s,
            a >= s / 64 - 1,
            x >= s / 8,
            s == 4294967296,
    ;
    assert(e <= a * x) by {
        assert(e * s >= e * 1 && e * 1 == e) by (nonlinear_arith)
            requires
                e >= 0,
                s >= 1,
        ;
    }
    lemma_sat64_nonneg(e);
    assert(e <= i64::MAX) by (nonlinear_arith)
        requires
            e * s <= a * x,
            0 <= a <= 256 * s,
            0 < x <= 16 * s,
            s == 4294967296,
            e >= 0,
    ;
    assert(rd3.raw == e);

    assert(b >= 1000000) by (nonlinear_arith)
        requires
            a * a < (b + 1) * s,
            a >= s / 64 - 1,
            s == 4294967296,
    ;
    assert(c >= 15000) by (nonlinear_arith)
        requires
            b * a < (c + 1) * s,
            b >= 1000000,
            a >= s / 64 - 1,
            s == 4294967296,
    ;
    assert(pc >= 15) by (nonlinear_arith)
        requires
            PI_RAW * c < (pc + 1) * s,
            c >= 15000,
            PI_RAW == 13493037705,
            s == 4294967296,
    ;
    assert(v >= 1) by (nonlinear_arith)
        requires
            pc * s < (v + 1) * (15 * s),
            pc >= 15,
            s == 4294967296,
    ;
    assert(volume.raw > 0);

    let w = spiky_smoothing_kernel_s(d, r);
    lemma_tdiv_pos(e * s, v);
    let q = tdiv(e * s, v);
    assert(q >= 1) by (nonlinear_arith)
        requires
            e * s < (q + 1) * v,
            e >= 8388591,
            0 < v <= 5000000 * s,
            s == 4294967296,
            q >= 0,
    ;
    lemma_sat64_nonneg(q);
    assert(w.raw == sat64(q));
    assert(w.raw > 0);
}

} // verus!
