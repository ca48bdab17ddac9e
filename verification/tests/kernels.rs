//! Smoothing kernels and the fixed-point layer they are built on.

use fluid_sph::fixed::{fx_add, fx_div, fx_mul, Fx, FX_ONE};
use fluid_sph::kernels::{
    cubic_spline_smoothing_kernel, cubic_spline_smoothing_kernel_derivative,
    poly6_smoothing_kernel, sb_smoothing_kernel, sb_smoothing_kernel_derivative,
    spiky_smoothing_kernel, spiky_smoothing_kernel_derivative,
    viscosity_smoothing_kernel_second_derivative,
};
use fluid_sph::vec2::{isqrt, Vec2Fx};

#[test]
fn density_kernel_at_zero_distance_is_strictly_positive() {
    let radius = Fx::from_int(14);
    let w = spiky_smoothing_kernel(Fx::zero(), radius);
    assert_eq!(w.raw(), 7473381);
    assert!(w.raw() > 0);
    let w2 = sb_smoothing_kernel(Fx::zero(), radius);
    assert_eq!(w2.raw(), 41850935);
    assert!(w2.raw() > 0);
}

#[test]
fn kernels_vanish_at_and_beyond_the_cutoff() {
    let radius = Fx::from_int(14);
    for d in [14, 15, 100] {
        let d = Fx::from_int(d);
        assert_eq!(spiky_smoothing_kernel(d, radius).raw(), 0);
        assert_eq!(sb_smoothing_kernel(d, radius).raw(), 0);
        assert_eq!(sb_smoothing_kernel_derivative(d, radius).raw(), 0);
        assert_eq!(viscosity_smoothing_kernel_second_derivative(d, radius).raw(), 0);
    }
}

#[test]
fn kernel_values_inside_the_support() {
    let radius = Fx::from_int(14);
    let d = Fx::from_int(7);
    assert_eq!(viscosity_smoothing_kernel_second_derivative(d, radius).raw(), 57194);
    assert_eq!(sb_smoothing_kernel_derivative(d, radius).raw(), -2989352);
    assert!(viscosity_smoothing_kernel_second_derivative(d, radius).raw() > 0);
    assert!(sb_smoothing_kernel_derivative(d, radius).raw() < 0);
}

#[test]
fn remaining_kernel_family_values() {
    let radius = Fx::from_int(14);
    let d = Fx::from_int(7);
    assert_eq!(cubic_spline_smoothing_kernel(d, radius).raw(), 21485970);
    assert_eq!(cubic_spline_smoothing_kernel_derivative(d, radius).raw(), -28025178);
    assert_eq!(poly6_smoothing_kernel(d, radius).raw(), 2001209490);
    assert_eq!(spiky_smoothing_kernel_derivative(d, radius).raw(), -76258);
    // the cubic spline's support is two radii
    let beyond = Fx::from_int(30);
    assert_eq!(cubic_spline_smoothing_kernel(beyond, radius).raw(), 0);
    assert_eq!(cubic_spline_smoothing_kernel_derivative(beyond, radius).raw(), 0);
    assert_eq!(poly6_smoothing_kernel(Fx::from_int(14), radius).raw(), 0);
    assert_eq!(spiky_smoothing_kernel_derivative(Fx::from_int(14), radius).raw(), 0);
}

#[test]
fn fixed_point_arithmetic_is_exact_and_total() {
    let two = Fx::from_int(2);
    let three = Fx::from_int(3);
    assert_eq!(fx_add(two, three).raw(), 5 * FX_ONE);
    assert_eq!(fx_mul(two, three).raw(), 6 * FX_ONE);
    assert_eq!(fx_div(three, two).raw(), FX_ONE + FX_ONE / 2);
    // division by zero is total and yields zero
    assert_eq!(fx_div(three, Fx::zero()).raw(), 0);
    // addition saturates instead of wrapping
    assert_eq!(fx_add(Fx::from_raw(i64::MAX), Fx::from_int(1)).raw(), i64::MAX);
}

#[test]
fn vector_length_is_the_integer_square_root() {
    let v = Vec2Fx::new(Fx::from_int(3), Fx::from_int(4));
    assert_eq!(v.length().raw(), 5 * FX_ONE);
    let n = v.normalise();
    assert_eq!(n.x.raw(), 2576980377);
    assert_eq!(n.y.raw(), 3435973836);
    assert_eq!(isqrt(0), 0);
    assert_eq!(isqrt(15), 3);
    assert_eq!(isqrt(16), 4);
    assert_eq!(isqrt(u64::MAX as u128), 4294967295);
}
