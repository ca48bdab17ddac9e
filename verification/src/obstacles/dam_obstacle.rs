//! The retractable dam: a vertical plane that reflects particles moving past
//! it while it stands.  Breaking it is a one-shot, irreversible operation.

use vstd::prelude::*;
use crate::fixed::{fx_neg_s, Fx};
use crate::obstacles::obstacle_trait::Obstacle;
use crate::particle::Particle;
use crate::vec2::Vec2Fx;

verus! {

/// Where the dam plane stands: 600 length units from the left wall.
pub const DAM_X_RAW: i64 = 2576980377600;

pub struct DamObstacle {
    pub x_position: Fx,
    pub is_dam_active: bool,
    pub box_dimensions: [usize; 2],
}

/// The dam's reaction: while active, a particle beyond the plane is clamped
/// to it and its horizontal velocity reversed; a broken dam does nothing.
pub open spec fn dam_obstruction(dam: DamObstacle, p: Particle) -> Particle {
    if !dam.is_dam_active {
        p
    } else if p.position.x.raw > dam.x_position.raw {
        Particle {
            position: Vec2Fx { x: dam.x_position, ..p.position },
            velocity: Vec2Fx { x: fx_neg_s(p.velocity.x), ..p.velocity },
            ..p
        }
    } else {
        p
    }
}

/// `d` after its dam has been broken.
pub open spec fn dam_broken(d: DamObstacle) -> DamObstacle {
    DamObstacle { is_dam_active: false, ..d }
}

impl Obstacle for DamObstacle {
    open spec fn obstruction_spec(&self, p: Particle) -> Particle {
        dam_obstruction(*self, p)
    }

    fn apply_obstruction_boundary(&self, particle: &mut Particle) {
        if !self.is_dam_active {
            return ;
        }
        if particle.position.x.raw > self.x_position.raw {
            particle.position = Vec2Fx { x: self.x_position, ..particle.position };
            particle.velocity = Vec2Fx {
                x: crate::fixed::fx_neg(particle.velocity.x),
                ..particle.velocity
            };
        }
    }
}

impl DamObstacle {
    pub fn new(box_dimensions: [usize; 2]) -> (d: DamObstacle)
        ensures
            d.x_position.raw == DAM_X_RAW,
            d.is_dam_active,
            d.box_dimensions == box_dimensions,
    {
        DamObstacle { x_position: Fx { raw: DAM_X_RAW }, is_dam_active: true, box_dimensions }
    }

    pub fn break_dam(&mut self)
        ensures
            *final(self) == dam_broken(*old(self)),
    {
        self.is_dam_active = false;
    }
}

/// Breaking the dam is irreversible and idempotent: breaking a broken dam
/// changes nothing, and a broken dam never moves a particle again.
pub proof fn lemma_break_dam_irreversible(d: DamObstacle)
    ensures
        dam_broken(dam_broken(d)) == dam_broken(d),
        forall|p: Particle| #[trigger] dam_obstruction(dam_broken(d), p) == p,
{
}

} // verus!
