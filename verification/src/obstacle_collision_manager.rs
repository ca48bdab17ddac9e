//! The outer box reactor: particles crossing any of the four walls are
//! clamped to the wall offset (three particle radii) and the perpendicular
//! velocity component is reversed, a perfectly reflective collision.

use vstd::prelude::*;
use crate::config::MAX_BOX_DIM;
use crate::fixed::{fx_mul_s, fx_neg_s, fx_sub_s, Fx, FX_ONE};
use crate::particle::Particle;
use crate::vec2::Vec2Fx;

verus! {

/// Particle radius used by boundary reactions: 3 length units.
pub const PARTICLE_RADIUS_RAW: i64 = 12884901888;

pub struct ObstacleCollisionManager {
    pub box_width: Fx,
    pub box_height: Fx,
    pub particle_radius: Fx,
}

/// The wall offset: particles are kept three radii away from each wall.
pub open spec fn wall_margin(radius: Fx) -> Fx {
    fx_mul_s(radius, Fx { raw: (3 * FX_ONE) as i64 })
}

/// Reflect `p` off the four box walls, one wall after another in the fixed
/// order left, right, bottom, top, each test seeing the previous clamps.
pub open spec fn box_boundary(bw: Fx, bh: Fx, radius: Fx, p: Particle) -> Particle {
    let m = wall_margin(radius);
    let p1 = if p.position.x.raw < m.raw {
        Particle {
            position: Vec2Fx { x: m, ..p.position },
            velocity: Vec2Fx { x: fx_neg_s(p.velocity.x), ..p.velocity },
            ..p
        }
    } else {
        p
    };
    let p2 = if p1.position.x.raw > fx_sub_s(bw, m).raw {
        Particle {
            position: Vec2Fx { x: fx_sub_s(bw, m), ..p1.position },
            velocity: Vec2Fx { x: fx_neg_s(p1.velocity.x), ..p1.velocity },
            ..p1
        }
    } else {
        p1
    };
    let p3 = if p2.position.y.raw < m.raw {
        Particle {
            position: Vec2Fx { y: m, ..p2.position },
            velocity: Vec2Fx { y: fx_neg_s(p2.velocity.y), ..p2.velocity },
            ..p2
        }
    } else {
        p2
    };
    if p3.position.y.raw > fx_sub_s(bh, m).raw {
        Particle {
            position: Vec2Fx { y: fx_sub_s(bh, m), ..p3.position },
            velocity: Vec2Fx { y: fx_neg_s(p3.velocity.y), ..p3.velocity },
            ..p3
        }
    } else {
        p3
    }
}

impl ObstacleCollisionManager {
    pub fn new(box_dimensions: [usize; 2]) -> (m: ObstacleCollisionManager)
        requires
            box_dimensions[0] <= MAX_BOX_DIM,
            box_dimensions[1] <= MAX_BOX_DIM,
        ensures
            m.box_width.raw == box_dimensions[0] * FX_ONE,
            m.box_height.raw == box_dimensions[1] * FX_ONE,
            m.particle_radius.raw == PARTICLE_RADIUS_RAW,
    {
        ObstacleCollisionManager {
            box_width: Fx { raw: (box_dimensions[0] as i64) * FX_ONE },
            box_height: Fx { raw: (box_dimensions[1] as i64) * FX_ONE },
            particle_radius: Fx { raw: PARTICLE_RADIUS_RAW },
        }
    }

    pub fn apply_boundary_conditions(&self, particle: &mut Particle)
        ensures
            *final(particle) == box_boundary(
                self.box_width,
                self.box_height,
                self.particle_radius,
                *old(particle),
            ),
    {
        self.apply_box_boundary(particle)
    }

    fn apply_box_boundary(&self, particle: &mut Particle)
        ensures
            *final(particle) == box_boundary(
                self.box_width,
                self.box_height,
                self.particle_radius,
                *old(particle),
            ),
    {
        let m = crate::fixed::fx_mul(self.particle_radius, Fx { raw: 3 * FX_ONE });
        let far_x = crate::fixed::fx_sub(self.box_width, m);
        let far_y = crate::fixed::fx_sub(self.box_height, m);
        if particle.position.x.raw < m.raw {
            particle.position = Vec2Fx { x: m, ..particle.position };
            particle.velocity = Vec2Fx {
                x: crate::fixed::fx_neg(particle.velocity.x),
                ..particle.velocity
            };
        }
        if particle.position.x.raw > far_x.raw {
            particle.position = Vec2Fx { x: far_x, ..particle.position };
            particle.velocity = Vec2Fx {
                x: crate::fixed::fx_neg(particle.velocity.x),
                ..particle.velocity
            };
        }
        if particle.position.y.raw < m.raw {
            particle.position = Vec2Fx { y: m, ..particle.position };
            particle.velocity = Vec2Fx {
                y: crate::fixed::fx_neg(particle.velocity.y),
                ..particle.velocity
            };
        }
        if particle.position.y.raw > far_y.raw {
            particle.position = Vec2Fx { y: far_y, ..particle.position };
            particle.velocity = Vec2Fx {
                y: crate::fixed::fx_neg(particle.velocity.y),
                ..particle.velocity
            };
        }
    }
}

/// A particle pushed into the left wall, with its vertical coordinate away
/// from the horizontal walls, is clamped exactly to the wall offset and its
/// horizontal velocity reverses sign with unchanged magnitude.
pub proof fn lemma_box_wall_reflection(bw: Fx, bh: Fx, radius: Fx, p: Particle)
    requires
        p.position.x.raw < wall_margin(radius).raw,
        wall_margin(radius).raw <= fx_sub_s(bw, wall_margin(radius)).raw,
        wall_margin(radius).raw <= p.position.y.raw <= fx_sub_s(bh, wall_margin(radius)).raw,
        p.velocity.x.raw > i64::MIN,
    ensures
        box_boundary(bw, bh, radius, p).position.x == wall_margin(radius),
        box_boundary(bw, bh, radius, p).position.y == p.position.y,
        box_boundary(bw, bh, radius, p).velocity.x.raw == -p.velocity.x.raw,
        box_boundary(bw, bh, radius, p).velocity.y == p.velocity.y,
{
}

/// The mirror statement for the right wall.
pub proof fn lemma_box_wall_reflection_right(bw: Fx, bh: Fx, radius: Fx, p: Particle)
    requires
        p.position.x.raw > fx_sub_s(bw, wall_margin(radius)).raw,
        wall_margin(radius).raw <= fx_sub_s(bw, wall_margin(radius)).raw,
        wall_margin(radius).raw <= p.position.y.raw <= fx_sub_s(bh, wall_margin(radius)).raw,
        p.velocity.x.raw > i64::MIN,
    ensures
        box_boundary(bw, bh, radius, p).position.x == fx_sub_s(bw, wall_margin(radius)),
        box_boundary(bw, bh, radius, p).position.y == p.position.y,
        box_boundary(bw, bh, radius, p).velocity.x.raw == -p.velocity.x.raw,
        box_boundary(bw, bh, radius, p).velocity.y == p.velocity.y,
{
}

/// The mirror statement for the wall at small `y`.
pub proof fn lemma_box_wall_reflection_low(bw: Fx, bh: Fx, radius: Fx, p: Particle)
    requires
        p.position.y.raw < wall_margin(radius).raw,
        wall_margin(radius).raw <= fx_sub_s(bh, wall_margin(radius)).raw,
        wall_margin(radius).raw <= p.position.x.raw <= fx_sub_s(bw, wall_margin(radius)).raw,
        p.velocity.y.raw > i64::MIN,
    ensures
        box_boundary(bw, bh, radius, p).position.y == wall_margin(radius),
        box_boundary(bw, bh, radius, p).position.x == p.position.x,
        box_boundary(bw, bh, radius, p).velocity.y.raw == -p.velocity.y.raw,
        box_boundary(bw, bh, radius, p).velocity.x == p.velocity.x,
{
}

/// The mirror statement for the wall at large `y`.
pub proof fn lemma_box_wall_reflection_high(bw: Fx, bh: Fx, radius: Fx, p: Particle)
    requires
        p.position.y.raw > fx_sub_s(bh, wall_margin(radius)).raw,
        wall_margin(radius).raw <= fx_sub_s(bh, wall_margin(radius)).raw,
        wall_margin(radius).raw <= p.position.x.raw <= fx_sub_s(bw, wall_margin(radius)).raw,
        p.velocity.y.raw > i64::MIN,
    ensures
        box_boundary(bw, bh, radius, p).position.y == fx_sub_s(bh, wall_margin(radius)),
        box_boundary(bw, bh, radius, p).position.x == p.position.x,
        box_boundary(bw, bh, radius, p).velocity.y.raw == -p.velocity.y.raw,
        box_boundary(bw, bh, radius, p).velocity.x == p.velocity.x,
{
}

} // verus!
