//! Spatial hash grid: cell keys, neighbour enumeration, and the key/coord
//! round trip.

use fluid_sph::cell_manager::CellManager;
use fluid_sph::fixed::{Fx, FX_ONE};
use fluid_sph::particle::Particle;
use fluid_sph::vec2::Vec2Fx;

fn half(units: i32) -> Fx {
    // units + 0.5, e.g. half(1) is 1.5
    Fx::from_raw((units as i64) * FX_ONE + FX_ONE / 2)
}

fn nine_particles() -> Vec<Particle> {
    let mut particles = Vec::new();
    let coords = [
        (0, 0),
        (0, 1),
        (0, 2),
        (1, 0),
        (1, 1),
        (1, 2),
        (2, 0),
        (2, 1),
        (2, 2),
    ];
    for (i, (x, y)) in coords.iter().enumerate() {
        particles.push(Particle::new(i, Vec2Fx::new(half(*x), half(*y))));
    }
    particles
}

#[test]
fn test_update_cell_keys() {
    let particle_count: usize = 9;
    let box_dimensions: [usize; 2] = [3, 3];
    let smoothing_radius = Fx::from_raw(FX_ONE / 2);
    let mut particles = nine_particles();
    let mut cell_manager =
        CellManager::new(particle_count, box_dimensions, smoothing_radius).unwrap();

    cell_manager.update(&mut particles);

    for index in 0..8 {
        assert_eq!(particles[index].cell_key, index);
    }
}

#[test]
fn test_get_adjancet_particles() {
    let particle_count: usize = 9;
    let box_dimensions: [usize; 2] = [3, 3];
    let smoothing_radius = Fx::from_raw(FX_ONE / 2);
    let mut particles = nine_particles();
    let mut cell_manager =
        CellManager::new(particle_count, box_dimensions, smoothing_radius).unwrap();
    cell_manager.update(&mut particles);

    let adjacent_particles_indices =
        cell_manager.get_adjacent_particles_indices(particles[4].position);

    assert_eq!(adjacent_particles_indices.len(), 9);
}

#[test]
fn cell_keys_unique_and_monotone() {
    let mut particles = nine_particles();
    let mut cell_manager = CellManager::new(9, [3, 3], Fx::from_raw(FX_ONE / 2)).unwrap();
    cell_manager.update(&mut particles);
    let mut keys: Vec<usize> = particles.iter().map(|p| p.cell_key).collect();
    for w in keys.windows(2) {
        assert!(w[0] < w[1]);
    }
    keys.dedup();
    assert_eq!(keys.len(), 9);
}

#[test]
fn corner_particle_sees_only_its_quadrant() {
    let mut particles = nine_particles();
    let mut cell_manager = CellManager::new(9, [3, 3], Fx::from_raw(FX_ONE / 2)).unwrap();
    cell_manager.update(&mut particles);
    let mut near = cell_manager.get_adjacent_particles_indices(particles[0].position);
    near.sort();
    assert_eq!(near, vec![0, 1, 3, 4]);
}

#[test]
fn center_particle_sees_exactly_all_nine() {
    let mut particles = nine_particles();
    let mut cell_manager = CellManager::new(9, [3, 3], Fx::from_raw(FX_ONE / 2)).unwrap();
    cell_manager.update(&mut particles);
    let mut near = cell_manager.get_adjacent_particles_indices(particles[4].position);
    near.sort();
    assert_eq!(near, vec![0, 1, 2, 3, 4, 5, 6, 7, 8]);
}

#[test]
fn cell_key_round_trip_recovers_coordinate() {
    let cell_manager = CellManager::new(9, [3, 3], Fx::from_raw(FX_ONE / 2)).unwrap();
    for x in 0..3usize {
        for y in 0..3usize {
            let key = x * 3 + y;
            let coord = cell_manager.cell_key_to_cell_coord(key);
            assert_eq!(coord, (x, y));
        }
    }
}

#[test]
fn empty_cell_yields_no_neighbours() {
    // two particles in one corner of a 4x4 box: a query at the far corner
    // sees nothing.
    let mut particles = vec![
        Particle::new(0, Vec2Fx::new(half(0), half(0))),
        Particle::new(1, Vec2Fx::new(half(0), half(0))),
    ];
    let mut cell_manager = CellManager::new(2, [4, 4], Fx::from_raw(FX_ONE / 2)).unwrap();
    cell_manager.update(&mut particles);
    let far = cell_manager.get_adjacent_particles_indices(Vec2Fx::new(half(3), half(3)));
    assert!(far.is_empty());
}
