//! The particle record: identity is the stable index into the simulation's
//! fixed-size particle array; all other attributes are fixed-point values.

use vstd::prelude::*;
use crate::fixed::Fx;
use crate::vec2::{v2_add_s, v2_len_s, v2_scale_s, v2_zero, Vec2Fx};

verus! {

/// Mass shared by every particle (0.0008 units, scaled by `FX_ONE`).
pub const PARTICLE_MASS_RAW: i64 = 3435974;

/// Initial local density before the first density pass (0.01 units).
pub const INITIAL_DENSITY_RAW: i64 = 42949673;

/// Lookahead factor for the predicted position: one 120th of a unit.
pub const PREDICT_FACTOR_RAW: i64 = 35791394;

#[derive(Clone, Copy, PartialEq, Eq, Structural, Debug)]
pub struct Particle {
    pub id: usize,
    pub cell_key: usize,
    pub position: Vec2Fx,
    pub velocity: Vec2Fx,
    pub mass: Fx,
    pub local_density: Fx,
    pub acceleration: Vec2Fx,
    pub previous_acceleration: Vec2Fx,
}

impl Particle {
    /// A fresh particle at `position`, at rest, with the shared mass.
    pub fn new(id: usize, position: Vec2Fx) -> (p: Particle)
        ensures
            p.id == id,
            p.cell_key == 0,
            p.position == position,
            p.velocity == v2_zero(),
            p.mass.raw == PARTICLE_MASS_RAW,
            p.local_density.raw == INITIAL_DENSITY_RAW,
            p.acceleration == v2_zero(),
            p.previous_acceleration == v2_zero(),
    {
        Particle {
            id,
            cell_key: 0,
            position,
            velocity: Vec2Fx::zero(),
            mass: Fx { raw: PARTICLE_MASS_RAW },
            local_density: Fx { raw: INITIAL_DENSITY_RAW },
            acceleration: Vec2Fx::zero(),
            previous_acceleration: Vec2Fx::zero(),
        }
    }

    /// Where the particle would sit one 120th of a unit of time ahead.
    pub fn get_predicted_position(&self) -> (r: Vec2Fx)
        ensures
            r == v2_add_s(
                self.position,
                v2_scale_s(self.velocity, Fx { raw: PREDICT_FACTOR_RAW }),
            ),
    {
        self.position.add(self.velocity.scale(Fx { raw: PREDICT_FACTOR_RAW }))
    }

    /// The magnitude of the velocity.
    pub fn speed(&self) -> (r: Fx)
        ensures
            r == v2_len_s(self.velocity),
    {
        self.velocity.length()
    }
}

} // verus!
