//! The time integrator: a velocity-Verlet-style scheme that averages the
//! previous and current acceleration into the velocity, with toggleable
//! gravity and a fixed timestep.

use vstd::prelude::*;
use crate::fixed::Fx;
use crate::particle::Particle;
use crate::vec2::{v2_add_s, v2_scale_s, Vec2Fx};

verus! {

/// Downward gravitational acceleration, 490 units per time unit squared.
pub const GRAVITY_RAW: i64 = 2104533975040;

/// One half, in fixed point.
pub const HALF_RAW: i64 = 2147483648;

pub struct ParticleDynamicsManager {
    pub is_gravity_on: bool,
    pub delta_time: Fx,
}

impl ParticleDynamicsManager {
    /// The gravity vector currently in force: zero when gravity is off.
    pub open spec fn gravity_vector(self) -> Vec2Fx {
        Vec2Fx {
            x: Fx { raw: 0 },
            y: if self.is_gravity_on {
                Fx { raw: GRAVITY_RAW }
            } else {
                Fx { raw: 0 }
            },
        }
    }

    /// `v + (g + a + a_prev) * dt / 2`: the velocity after one step.
    pub open spec fn velocity_after(self, v: Vec2Fx, acc: Vec2Fx, prev: Vec2Fx) -> Vec2Fx {
        let total = v2_add_s(self.gravity_vector(), acc);
        v2_add_s(
            v,
            v2_scale_s(v2_scale_s(v2_add_s(total, prev), self.delta_time), Fx { raw: HALF_RAW }),
        )
    }

    /// `p + v * dt + (g + a) / 2 * dt^2`: the position after one step.
    pub open spec fn position_after(self, pos: Vec2Fx, v: Vec2Fx, acc: Vec2Fx) -> Vec2Fx {
        let total = v2_add_s(self.gravity_vector(), acc);
        let dt2 = crate::fixed::fx_mul_s(self.delta_time, self.delta_time);
        v2_add_s(
            pos,
            v2_add_s(
                v2_scale_s(v, self.delta_time),
                v2_scale_s(v2_scale_s(total, Fx { raw: HALF_RAW }), dt2),
            ),
        )
    }

    pub fn new(is_gravity_on: bool, delta_time: Fx) -> (r: ParticleDynamicsManager)
        ensures
            r.is_gravity_on == is_gravity_on,
            r.delta_time == delta_time,
    {
        ParticleDynamicsManager { is_gravity_on, delta_time }
    }

    pub fn toggle_gravity(&mut self)
        ensures
            final(self).is_gravity_on == !old(self).is_gravity_on,
            final(self).delta_time == old(self).delta_time,
    {
        self.is_gravity_on = !self.is_gravity_on;
    }

    fn gravity(&self) -> (g: Vec2Fx)
        ensures
            g == self.gravity_vector(),
    {
        Vec2Fx {
            x: Fx { raw: 0 },
            y: if self.is_gravity_on {
                Fx { raw: GRAVITY_RAW }
            } else {
                Fx { raw: 0 }
            },
        }
    }

    /// Average the previous and the fresh total acceleration into the
    /// velocity, then remember the fresh total as the previous one.
    pub fn update_velocity(
        &self,
        particle: &mut Particle,
        acceleration: Vec2Fx,
        previous_acceleration: &mut Vec2Fx,
    )
        ensures
            (*final(particle) == Particle {
                velocity: self.velocity_after(
                    old(particle).velocity,
                    acceleration,
                    *old(previous_acceleration),
                ),
                ..*old(particle)
            }),
            *final(previous_acceleration) == v2_add_s(self.gravity_vector(), acceleration),
    {
        let total = self.gravity().add(acceleration);
        let half = Fx { raw: HALF_RAW };
        particle.velocity = particle.velocity.add(
            total.add(*previous_acceleration).scale(self.delta_time).scale(half),
        );
        *previous_acceleration = total;
    }

    /// Advance the position with the freshly updated velocity and the same
    /// total acceleration.
    pub fn update_position(&self, particle: &mut Particle, acceleration: Vec2Fx)
        ensures
            (*final(particle) == Particle {
                position: self.position_after(
                    old(particle).position,
                    old(particle).velocity,
                    acceleration,
                ),
                ..*old(particle)
            }),
    {
        let total = self.gravity().add(acceleration);
        let half = Fx { raw: HALF_RAW };
        let dt2 = crate::fixed::fx_mul(self.delta_time, self.delta_time);
        particle.position = particle.position.add(
            particle.velocity.scale(self.delta_time).add(total.scale(half).scale(dt2)),
        );
    }
}

} // verus!
