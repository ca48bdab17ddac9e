//! Whole-simulation behaviour: construction, stepping, control events.

use fluid_sph::config::{ConfigError, SimConfig};
use fluid_sph::fixed::{Fx, FX_ONE};
use fluid_sph::fluid_simulation_app::{FluidSimulationApp, SimEvent};
use fluid_sph::vec2::Vec2Fx;

fn reference_config() -> SimConfig {
    SimConfig {
        particle_count: 4,
        box_width: 1000,
        box_height: 800,
        smoothing_radius: Fx::from_int(14),
        pressure_multiplier: Fx::from_int(800000),
        target_density: Fx::from_raw(128849),  // 0.00003
        viscosity: Fx::from_raw(171798692),  // 0.04
        delta_time: Fx::from_raw(FX_ONE / 100),
        is_gravity_on: false,
    }
}

fn at(x: i32, y: i32) -> Vec2Fx {
    Vec2Fx::new(Fx::from_int(x), Fx::from_int(y))
}

fn expect_err(result: Result<FluidSimulationApp, ConfigError>) -> ConfigError {
    match result {
        Ok(_) => panic!("expected a configuration error"),
        Err(error) => error,
    }
}

#[test]
fn construction_rejects_bad_configurations() {
    let good = reference_config();
    assert!(FluidSimulationApp::new(good).is_ok());

    let mut c = good;
    c.particle_count = 0;
    assert_eq!(expect_err(FluidSimulationApp::new(c)), ConfigError::ZeroParticleCount);

    let mut c = good;
    c.smoothing_radius = Fx::zero();
    assert_eq!(
        expect_err(FluidSimulationApp::new(c)),
        ConfigError::SmoothingRadiusOutOfRange
    );
    c.smoothing_radius = Fx::from_int(100);
    assert_eq!(
        expect_err(FluidSimulationApp::new(c)),
        ConfigError::SmoothingRadiusOutOfRange
    );

    let mut c = good;
    c.box_width = 0;
    assert_eq!(expect_err(FluidSimulationApp::new(c)), ConfigError::DegenerateBox);

    let mut c = good;
    c.delta_time = Fx::zero();
    assert_eq!(expect_err(FluidSimulationApp::new(c)), ConfigError::NonPositiveTimestep);

    let mut c = good;
    c.box_width = 1000000;
    c.box_height = 1000000;
    c.smoothing_radius = Fx::from_raw(FX_ONE / 8);
    assert_eq!(expect_err(FluidSimulationApp::new(c)), ConfigError::GridTooLarge);
}

#[test]
fn particles_spawn_at_rest_inside_the_pool() {
    let mut config = reference_config();
    config.particle_count = 50;
    let sim = FluidSimulationApp::new(config).unwrap();
    assert_eq!(sim.particles.len(), 50);
    for (i, p) in sim.particles.iter().enumerate() {
        assert_eq!(p.id, i);
        assert_eq!(p.velocity, Vec2Fx::zero());
        assert!(0 <= p.position.x.raw() && p.position.x.raw() < 600 * FX_ONE);
        assert!(0 <= p.position.y.raw() && p.position.y.raw() < 800 * FX_ONE);
    }
}

#[test]
fn rest_particle_in_isolation_never_moves() {
    let mut config = reference_config();
    config.particle_count = 1;
    let mut sim = FluidSimulationApp::new(config).unwrap();
    sim.particles[0].position = at(300, 300);
    for _ in 0..50 {
        sim.update();
    }
    assert_eq!(sim.particles[0].position, at(300, 300));
    assert_eq!(sim.particles[0].velocity, Vec2Fx::zero());
    // in isolation the density is exactly the self-contribution
    assert_eq!(sim.densities[0].raw(), 5978);
}

#[test]
fn coincident_particles_produce_positive_density_and_finite_forces() {
    let mut config = reference_config();
    config.particle_count = 2;
    let mut sim = FluidSimulationApp::new(config).unwrap();
    sim.particles[0].position = at(300, 300);
    sim.particles[1].position = at(300, 300);
    sim.update();
    assert!(sim.densities[0].raw() > 0);
    assert!(sim.densities[1].raw() > 0);
    // the accelerations are well-defined values, not poisoned
    let a0 = sim.accelerations[0];
    let a1 = sim.accelerations[1];
    assert!(a0.x.raw().checked_abs().is_some());
    assert!(a1.x.raw().checked_abs().is_some());
    sim.update();
    assert!(sim.densities[0].raw() > 0);
}

#[test]
fn breaking_the_dam_twice_is_the_same_as_once() {
    let mut sim = FluidSimulationApp::new(reference_config()).unwrap();
    assert!(sim.dam_obstacle.is_dam_active);
    sim.break_dam();
    assert!(!sim.dam_obstacle.is_dam_active);
    let snapshot: Vec<_> = sim.particles.clone();
    sim.break_dam();
    assert!(!sim.dam_obstacle.is_dam_active);
    assert_eq!(sim.particles.len(), snapshot.len());
    for (p, q) in sim.particles.iter().zip(snapshot.iter()) {
        assert_eq!(p.position, q.position);
        assert_eq!(p.velocity, q.velocity);
    }
}

#[test]
fn events_drive_the_control_state() {
    let mut sim = FluidSimulationApp::new(reference_config()).unwrap();
    assert!(!sim.dynamics_manager.is_gravity_on);
    sim.handle_event(SimEvent::ToggleGravity);
    assert!(sim.dynamics_manager.is_gravity_on);
    sim.handle_event(SimEvent::ToggleGravity);
    assert!(!sim.dynamics_manager.is_gravity_on);

    assert!(!sim.external_attractor.active);
    sim.handle_event(SimEvent::AttractorPressed);
    assert!(sim.external_attractor.active);
    sim.handle_event(SimEvent::AttractorMoved(Fx::from_int(10), Fx::from_int(20)));
    assert_eq!(sim.external_attractor.position, at(10, 20));
    sim.handle_event(SimEvent::AttractorReleased);
    assert!(!sim.external_attractor.active);

    sim.handle_event(SimEvent::BreakDam);
    assert!(!sim.dam_obstacle.is_dam_active);
}

#[test]
fn gravity_pulls_a_lone_particle_downward() {
    let mut config = reference_config();
    config.particle_count = 1;
    config.is_gravity_on = true;
    let mut sim = FluidSimulationApp::new(config).unwrap();
    sim.particles[0].position = at(300, 300);
    let y0 = sim.particles[0].position.y.raw();
    sim.update();
    sim.update();
    assert!(sim.particles[0].position.y.raw() > y0);
    assert!(sim.particles[0].velocity.y.raw() > 0);
}
