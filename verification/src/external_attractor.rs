//! The optional user-controlled point force: a constant pull toward the
//! attractor point plus a damping term against the particle's own velocity,
//! both normalised by the particle's local density.  Inactive, or beyond its
//! radius, it contributes exactly zero.

use vstd::prelude::*;
use crate::fixed::{fx_div_s, fx_sub_s, Fx, FX_ONE};
use crate::particle::Particle;
use crate::vec2::{
    v2_div_s, v2_len_s, v2_normalise_s, v2_scale_s, v2_sub_s, v2_zero, Vec2Fx,
};

verus! {

/// The attractor's reach: 100 length units.
pub const ATTRACTOR_RADIUS_RAW: i64 = 429496729600;

/// Scale of the constant pull: the unit direction divided by 100.
pub const PULL_DIVISOR_RAW: i64 = 429496729600;

/// Scale of the velocity damping term: divided by 10000.
pub const DAMP_DIVISOR_RAW: i64 = 42949672960000;

pub struct ExternalAttractor {
    pub position: Vec2Fx,
    pub active: bool,
    pub radius: Fx,
}

/// The acceleration the attractor adds to a particle with local density
/// `density`.
pub open spec fn attractor_acceleration(
    a: ExternalAttractor,
    p: Particle,
    density: Fx,
) -> Vec2Fx {
    if !a.active {
        v2_zero()
    } else {
        let to_point = v2_sub_s(a.position, p.position);
        let distance = v2_len_s(to_point);
        if distance.raw >= a.radius.raw {
            v2_zero()
        } else {
            let pull = v2_div_s(v2_normalise_s(to_point), Fx { raw: PULL_DIVISOR_RAW });
            let damping = v2_div_s(
                v2_scale_s(p.velocity, fx_sub_s(Fx { raw: FX_ONE }, fx_div_s(distance, a.radius))),
                Fx { raw: DAMP_DIVISOR_RAW },
            );
            v2_div_s(v2_sub_s(pull, damping), density)
        }
    }
}

impl ExternalAttractor {
    pub fn new() -> (a: ExternalAttractor)
        ensures
            a.position == v2_zero(),
            !a.active,
            a.radius.raw == ATTRACTOR_RADIUS_RAW,
    {
        ExternalAttractor {
            position: Vec2Fx::zero(),
            active: false,
            radius: Fx { raw: ATTRACTOR_RADIUS_RAW },
        }
    }

    pub fn activate(&mut self, position: Vec2Fx)
        ensures
            final(self).active,
            final(self).position == position,
            final(self).radius == old(self).radius,
    {
        self.active = true;
        self.position = position;
    }

    /// The attractor's contribution to one particle's acceleration.
    pub fn get_external_attraction_acceleration(&self, particle: &Particle, density: Fx) -> (r:
        Vec2Fx)
        ensures
            r == attractor_acceleration(*self, *particle, density),
    {
        if !self.active {
            return Vec2Fx::zero();
        }
        let to_point = self.position.sub(particle.position);
        let distance = to_point.length();
        if distance.raw >= self.radius.raw {
            return Vec2Fx::zero();
        }
        let pull = to_point.normalise().div(Fx { raw: PULL_DIVISOR_RAW });
        let damping = particle.velocity.scale(
            crate::fixed::fx_sub(Fx { raw: FX_ONE }, crate::fixed::fx_div(distance, self.radius)),
        ).div(Fx { raw: DAMP_DIVISOR_RAW });
        pull.sub(damping).div(density)
    }
}

} // verus!
