//! Integrator and boundary reactors.

use fluid_sph::collision_manager::CollisionManager;
use fluid_sph::fixed::{Fx, FX_ONE};
use fluid_sph::obstacle_collision_manager::ObstacleCollisionManager;
use fluid_sph::obstacles::dam_obstacle::DamObstacle;
use fluid_sph::obstacles::obstacle_trait::Obstacle;
use fluid_sph::obstacles::rectangle_obstacle::RectangleObstacle;
use fluid_sph::particle::Particle;
use fluid_sph::particle_dynamics_manager::ParticleDynamicsManager;
use fluid_sph::vec2::Vec2Fx;

fn at(x: i32, y: i32) -> Vec2Fx {
    Vec2Fx::new(Fx::from_int(x), Fx::from_int(y))
}

#[test]
fn integrator_advances_velocity_then_position() {
    // gravity off, dt = 0.5, acceleration (1, 0), starting at rest at
    // (300, 300): velocity becomes 0.25 and position 300.25 exactly.
    let dynamics = ParticleDynamicsManager::new(false, Fx::from_raw(FX_ONE / 2));
    let mut p = Particle::new(0, at(300, 300));
    let mut prev = Vec2Fx::zero();
    let acc = Vec2Fx::new(Fx::from_int(1), Fx::zero());
    dynamics.update_velocity(&mut p, acc, &mut prev);
    assert_eq!(p.velocity.x.raw(), FX_ONE / 4);
    assert_eq!(p.velocity.y.raw(), 0);
    assert_eq!(prev.x.raw(), FX_ONE);
    dynamics.update_position(&mut p, acc);
    assert_eq!(p.position.x.raw(), 300 * FX_ONE + FX_ONE / 4);
    assert_eq!(p.position.y.raw(), 300 * FX_ONE);
}

#[test]
fn gravity_toggle_flips_the_flag() {
    let mut dynamics = ParticleDynamicsManager::new(false, Fx::from_raw(FX_ONE / 100));
    dynamics.toggle_gravity();
    assert!(dynamics.is_gravity_on);
    dynamics.toggle_gravity();
    assert!(!dynamics.is_gravity_on);
}

#[test]
fn particle_at_rest_with_no_forces_stays_put() {
    let dynamics = ParticleDynamicsManager::new(false, Fx::from_raw(FX_ONE / 100));
    let collisions = ObstacleCollisionManager::new([1000, 800]);
    let dam = DamObstacle::new([1000, 800]);
    let rect = RectangleObstacle::new([1000, 800]);
    let mut p = Particle::new(0, at(300, 300));
    let mut prev = Vec2Fx::zero();
    for _ in 0..100 {
        dynamics.update_velocity(&mut p, Vec2Fx::zero(), &mut prev);
        dynamics.update_position(&mut p, Vec2Fx::zero());
        collisions.apply_boundary_conditions(&mut p);
        dam.apply_obstruction_boundary(&mut p);
        rect.apply_obstruction_boundary(&mut p);
    }
    assert_eq!(p.position, at(300, 300));
    assert_eq!(p.velocity, Vec2Fx::zero());
}

#[test]
fn wall_reflection_clamps_and_flips_velocity() {
    // pushed past the left wall: clamped to the 9-unit margin, horizontal
    // velocity sign-flipped with unchanged magnitude, vertical untouched.
    let collisions = ObstacleCollisionManager::new([1000, 800]);
    let mut p = Particle::new(0, at(5, 400));
    p.velocity = Vec2Fx::new(Fx::from_int(-10), Fx::from_int(3));
    collisions.apply_boundary_conditions(&mut p);
    assert_eq!(p.position.x.raw(), 9 * FX_ONE);
    assert_eq!(p.position.y.raw(), 400 * FX_ONE);
    assert_eq!(p.velocity.x.raw(), 10 * FX_ONE);
    assert_eq!(p.velocity.y.raw(), 3 * FX_ONE);
}

#[test]
fn every_wall_reflects() {
    let collisions = ObstacleCollisionManager::new([1000, 800]);
    // right wall
    let mut p = Particle::new(0, at(997, 400));
    p.velocity = Vec2Fx::new(Fx::from_int(4), Fx::zero());
    collisions.apply_boundary_conditions(&mut p);
    assert_eq!(p.position.x.raw(), 991 * FX_ONE);
    assert_eq!(p.velocity.x.raw(), -4 * FX_ONE);
    // top wall (small y)
    let mut p = Particle::new(0, at(500, 2));
    p.velocity = Vec2Fx::new(Fx::zero(), Fx::from_int(-7));
    collisions.apply_boundary_conditions(&mut p);
    assert_eq!(p.position.y.raw(), 9 * FX_ONE);
    assert_eq!(p.velocity.y.raw(), 7 * FX_ONE);
    // bottom wall (large y)
    let mut p = Particle::new(0, at(500, 795));
    p.velocity = Vec2Fx::new(Fx::zero(), Fx::from_int(7));
    collisions.apply_boundary_conditions(&mut p);
    assert_eq!(p.position.y.raw(), 791 * FX_ONE);
    assert_eq!(p.velocity.y.raw(), -7 * FX_ONE);
}

#[test]
fn dam_reflects_until_broken_and_break_is_irreversible() {
    let mut dam = DamObstacle::new([1000, 800]);
    let mut p = Particle::new(0, at(700, 400));
    p.velocity = Vec2Fx::new(Fx::from_int(2), Fx::zero());
    dam.apply_obstruction_boundary(&mut p);
    assert_eq!(p.position.x.raw(), 600 * FX_ONE);
    assert_eq!(p.velocity.x.raw(), -2 * FX_ONE);

    dam.break_dam();
    assert!(!dam.is_dam_active);
    let mut q = Particle::new(1, at(700, 400));
    q.velocity = Vec2Fx::new(Fx::from_int(2), Fx::zero());
    dam.apply_obstruction_boundary(&mut q);
    assert_eq!(q.position, at(700, 400));
    assert_eq!(q.velocity.x.raw(), 2 * FX_ONE);

    // breaking again changes nothing
    dam.break_dam();
    assert!(!dam.is_dam_active);
    let mut r = Particle::new(2, at(700, 400));
    r.velocity = Vec2Fx::new(Fx::from_int(2), Fx::zero());
    dam.apply_obstruction_boundary(&mut r);
    assert_eq!(r.position, at(700, 400));
}

#[test]
fn rectangle_resolves_against_deepest_face() {
    let rect = RectangleObstacle::new([1000, 800]);
    // just inside the left edge of the (100,400)-(200,750) obstacle:
    // fraction to the left face dominates, so x snaps back to 100.
    let mut p = Particle::new(0, at(101, 575));
    p.velocity = Vec2Fx::new(Fx::from_int(5), Fx::from_int(1));
    rect.apply_obstruction_boundary(&mut p);
    assert_eq!(p.position.x.raw(), 100 * FX_ONE);
    assert_eq!(p.position.y.raw(), 575 * FX_ONE);
    assert_eq!(p.velocity.x.raw(), -5 * FX_ONE);
    assert_eq!(p.velocity.y.raw(), 1 * FX_ONE);
    // near the bottom face: y snaps to 750.
    let mut q = Particle::new(1, at(150, 749));
    q.velocity = Vec2Fx::new(Fx::zero(), Fx::from_int(2));
    rect.apply_obstruction_boundary(&mut q);
    assert_eq!(q.position.y.raw(), 750 * FX_ONE);
    assert_eq!(q.velocity.y.raw(), -2 * FX_ONE);
    // outside: untouched.
    let mut r = Particle::new(2, at(50, 500));
    rect.apply_obstruction_boundary(&mut r);
    assert_eq!(r.position, at(50, 500));
}

#[test]
fn combined_reactor_applies_walls_obstruction_and_dam() {
    let mut reactor = CollisionManager::new([1000, 800]);
    // beyond the dam plane at 600 - 3 (one particle radius)
    let mut p = Particle::new(0, at(700, 100));
    p.velocity = Vec2Fx::new(Fx::from_int(6), Fx::zero());
    reactor.apply_boundary_conditions(&mut p);
    assert_eq!(p.position.x.raw(), 597 * FX_ONE);
    assert_eq!(p.velocity.x.raw(), -6 * FX_ONE);
    // inside the built-in obstruction near its left face
    let mut q = Particle::new(1, at(101, 575));
    q.velocity = Vec2Fx::new(Fx::from_int(5), Fx::zero());
    reactor.apply_boundary_conditions(&mut q);
    assert_eq!(q.position.x.raw(), 100 * FX_ONE);
    assert_eq!(q.velocity.x.raw(), -5 * FX_ONE);
    // once broken, the dam plane never reacts again
    reactor.break_dam();
    let mut r = Particle::new(2, at(700, 100));
    r.velocity = Vec2Fx::new(Fx::from_int(6), Fx::zero());
    reactor.apply_boundary_conditions(&mut r);
    assert_eq!(r.position, at(700, 100));
    reactor.break_dam();
    assert!(!reactor.is_dam_active);
}

#[test]
fn obstacle_moves_respect_their_guards() {
    let mut rect = RectangleObstacle::new([1000, 800]);
    // the default obstacle's top edge is inside the box, so move_up is a
    // no-op, while move_down grows it by one unit on each side
    let before = (rect.top_left_corner, rect.bottom_right_corner);
    rect.move_up();
    assert_eq!((rect.top_left_corner, rect.bottom_right_corner), before);
    rect.move_down();
    assert_eq!(rect.top_left_corner.y.raw(), 399 * FX_ONE);
    assert_eq!(rect.bottom_right_corner.y.raw(), 751 * FX_ONE);
    rect.move_right();
    assert_eq!(rect.top_left_corner.x.raw(), 99 * FX_ONE);
    assert_eq!(rect.bottom_right_corner.x.raw(), 201 * FX_ONE);
    rect.move_left();
    assert_eq!(rect.top_left_corner.x.raw(), 99 * FX_ONE);
}

#[test]
fn predicted_position_and_speed() {
    let mut p = Particle::new(0, at(10, 10));
    p.velocity = Vec2Fx::new(Fx::from_int(120), Fx::zero());
    let predicted = p.get_predicted_position();
    // one 120th of a second ahead at 120 units per second: just under one
    // unit ahead (the lookahead factor rounds down by two raw steps).
    assert!((predicted.x.raw() - 11 * FX_ONE).abs() < 1000);
    assert_eq!(predicted.y.raw(), 10 * FX_ONE);
    assert_eq!(p.speed().raw(), 120 * FX_ONE);
}
