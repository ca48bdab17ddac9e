//! SPH interaction engine and attractor, exercised on hand-built particle
//! sets.

use fluid_sph::external_attractor::ExternalAttractor;
use fluid_sph::fixed::{Fx, FX_ONE};
use fluid_sph::particle::Particle;
use fluid_sph::smoothed_interaction::SmoothedInteraction;
use fluid_sph::vec2::Vec2Fx;

fn at(x: i32, y: i32) -> Vec2Fx {
    Vec2Fx::new(Fx::from_int(x), Fx::from_int(y))
}

fn engine() -> SmoothedInteraction {
    SmoothedInteraction::new(
        Fx::from_int(800000),
        Fx::from_raw(128849),
        Fx::from_int(14),
        Fx::from_raw(171798692),
    )
}

#[test]
fn isolated_particle_density_is_the_self_term() {
    let engine = engine();
    let particles = vec![Particle::new(0, at(300, 300))];
    let neighbours = vec![0usize];
    let density = engine.calculate_density(0, &neighbours, &particles);
    // mass 0.0008 times the spiky kernel at zero distance
    assert_eq!(density.raw(), 5978);
}

#[test]
fn neighbour_mass_adds_density() {
    let engine = engine();
    let particles = vec![
        Particle::new(0, at(300, 300)),
        Particle::new(1, at(307, 300)),
    ];
    let neighbours = vec![0usize, 1];
    let density = engine.calculate_density(0, &neighbours, &particles);
    let solo = engine.calculate_density(0, &vec![0usize], &particles);
    assert!(density.raw() > solo.raw());
}

#[test]
fn coincident_pair_yields_positive_density_and_defined_acceleration() {
    let engine = engine();
    let particles = vec![
        Particle::new(0, at(300, 300)),
        Particle::new(1, at(300, 300)),
    ];
    let neighbours = vec![0usize, 1];
    let d0 = engine.calculate_density(0, &neighbours, &particles);
    let d1 = engine.calculate_density(1, &neighbours, &particles);
    assert!(d0.raw() > 0);
    assert!(d1.raw() > 0);
    let densities = vec![d0, d1];
    let a = engine.calculate_acceleration(0, &neighbours, &particles, &densities);
    // a defined value came back; the degenerate direction was substituted
    assert!(a.x.raw().checked_abs().is_some());
    assert!(a.y.raw().checked_abs().is_some());
}

#[test]
fn far_apart_particles_exert_no_force() {
    let engine = engine();
    let particles = vec![
        Particle::new(0, at(100, 100)),
        Particle::new(1, at(500, 500)),
    ];
    let neighbours = vec![0usize, 1];
    let densities = vec![Fx::from_raw(5978), Fx::from_raw(5978)];
    let a = engine.calculate_acceleration(0, &neighbours, &particles, &densities);
    assert_eq!(a, Vec2Fx::zero());
}

#[test]
fn attractor_contributes_zero_when_inactive_or_far() {
    let attractor = ExternalAttractor::new();
    let p = Particle::new(0, at(300, 300));
    let zero = attractor.get_external_attraction_acceleration(&p, Fx::from_int(1));
    assert_eq!(zero, Vec2Fx::zero());

    let mut active = ExternalAttractor::new();
    active.activate(at(900, 300));
    // 600 units away, radius is 100: still zero
    let far = active.get_external_attraction_acceleration(&p, Fx::from_int(1));
    assert_eq!(far, Vec2Fx::zero());
}

#[test]
fn attractor_damps_velocity_within_its_radius() {
    let mut attractor = ExternalAttractor::new();
    attractor.activate(at(300, 300));
    let mut p = Particle::new(0, at(300, 300));
    p.velocity = Vec2Fx::new(Fx::from_int(10000), Fx::zero());
    let a = attractor.get_external_attraction_acceleration(&p, Fx::from_int(1));
    // at distance zero the pull vanishes and the damping term is exactly
    // velocity / 10000 / density, opposing the motion
    assert_eq!(a.x.raw(), -FX_ONE);
    assert_eq!(a.y.raw(), 0);
}

#[test]
fn pressure_is_symmetric_between_the_pair() {
    // shared pressure averages the two conversions, so swapping the
    // densities gives the same value
    let engine = engine();
    let particles = vec![
        Particle::new(0, at(300, 300)),
        Particle::new(1, at(305, 300)),
    ];
    let neighbours01 = vec![1usize];
    let neighbours10 = vec![0usize];
    let densities = vec![Fx::from_raw(9000), Fx::from_raw(4000)];
    let a0 = engine.calculate_acceleration(0, &neighbours01, &particles, &densities);
    let a1 = engine.calculate_acceleration(1, &neighbours10, &particles, &densities);
    // opposite directions along the x axis
    assert!(a0.x.raw() != 0);
    assert!((a0.x.raw() > 0) != (a1.x.raw() > 0));
    assert_eq!(a0.y.raw(), 0);
    assert_eq!(a1.y.raw(), 0);
}
