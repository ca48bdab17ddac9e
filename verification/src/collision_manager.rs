//! The combined boundary reactor: outer box walls, the built-in rectangular
//! obstruction, and a retractable dam plane, applied in that order.

use vstd::prelude::*;
use crate::config::MAX_BOX_DIM;
use crate::fixed::{fx_neg_s, fx_sub_s, Fx, FX_ONE};
use crate::obstacle_collision_manager::{box_boundary, wall_margin, PARTICLE_RADIUS_RAW};
use crate::obstacles::dam_obstacle::DAM_X_RAW;
use crate::obstacles::obstacle_trait::Obstacle;
use crate::obstacles::rectangle_obstacle::{
    rect_obstruction, RectangleObstacle, RECT_BOTTOM_RAW, RECT_LEFT_RAW, RECT_RIGHT_RAW,
    RECT_TOP_RAW,
};
use crate::particle::Particle;
use crate::vec2::Vec2Fx;

verus! {

pub struct CollisionManager {
    pub box_width: Fx,
    pub box_height: Fx,
    pub is_dam_active: bool,
    pub particle_radius: Fx,
}

/// The built-in obstruction: the rectangle from (100, 400) to (200, 750).
pub open spec fn builtin_rectangle() -> RectangleObstacle {
    RectangleObstacle {
        top_left_corner: Vec2Fx { x: Fx { raw: RECT_LEFT_RAW }, y: Fx { raw: RECT_TOP_RAW } },
        bottom_right_corner: Vec2Fx {
            x: Fx { raw: RECT_RIGHT_RAW },
            y: Fx { raw: RECT_BOTTOM_RAW },
        },
        dimensions: [
            fx_sub_s(Fx { raw: RECT_RIGHT_RAW }, Fx { raw: RECT_LEFT_RAW }),
            fx_sub_s(Fx { raw: RECT_BOTTOM_RAW }, Fx { raw: RECT_TOP_RAW }),
        ],
        bounding_box_dimensions: [0, 0],
    }
}

/// The dam plane reaction: while the dam stands, a particle beyond
/// `600 - particle_radius` is clamped there and reflected.
pub open spec fn dam_plane_boundary(radius: Fx, p: Particle) -> Particle {
    let plane = fx_sub_s(Fx { raw: DAM_X_RAW }, radius);
    if p.position.x.raw > plane.raw {
        Particle {
            position: Vec2Fx { x: plane, ..p.position },
            velocity: Vec2Fx { x: fx_neg_s(p.velocity.x), ..p.velocity },
            ..p
        }
    } else {
        p
    }
}

/// One full pass of this reactor.
pub open spec fn collision_sequence(m: CollisionManager, p: Particle) -> Particle {
    let p1 = box_boundary(m.box_width, m.box_height, m.particle_radius, p);
    let p2 = rect_obstruction(builtin_rectangle(), p1);
    if m.is_dam_active {
        dam_plane_boundary(m.particle_radius, p2)
    } else {
        p2
    }
}

impl CollisionManager {
    pub fn new(box_dimensions: [usize; 2]) -> (m: CollisionManager)
        requires
            box_dimensions[0] <= MAX_BOX_DIM,
            box_dimensions[1] <= MAX_BOX_DIM,
        ensures
            m.box_width.raw == box_dimensions[0] * FX_ONE,
            m.box_height.raw == box_dimensions[1] * FX_ONE,
            m.is_dam_active,
            m.particle_radius.raw == PARTICLE_RADIUS_RAW,
    {
        CollisionManager {
            box_width: Fx { raw: (box_dimensions[0] as i64) * FX_ONE },
            box_height: Fx { raw: (box_dimensions[1] as i64) * FX_ONE },
            is_dam_active: true,
            particle_radius: Fx { raw: PARTICLE_RADIUS_RAW },
        }
    }

    pub fn apply_boundary_conditions(&self, particle: &mut Particle)
        ensures
            *final(particle) == collision_sequence(*self, *old(particle)),
    {
        self.apply_box_boundary(particle);
        self.apply_obstruction(particle);
        if self.is_dam_active {
            self.apply_dam_boundary(particle);
        }
    }

    /// Breaking the dam is a one-shot operation: afterwards the dam plane
    /// never reacts again, and breaking it a second time changes nothing.
    pub fn break_dam(&mut self)
        ensures
            (*final(self) == CollisionManager { is_dam_active: false, ..*old(self) }),
    {
        self.is_dam_active = false;
    }

    fn apply_dam_boundary(&self, particle: &mut Particle)
        ensures
            *final(particle) == dam_plane_boundary(self.particle_radius, *old(particle)),
    {
        let plane = crate::fixed::fx_sub(Fx { raw: DAM_X_RAW }, self.particle_radius);
        if particle.position.x.raw > plane.raw {
            particle.position = Vec2Fx { x: plane, ..particle.position };
            particle.velocity = Vec2Fx {
                x: crate::fixed::fx_neg(particle.velocity.x),
                ..particle.velocity
            };
        }
    }

    fn apply_box_boundary(&self, particle: &mut Particle)
        ensures
            *final(particle) == box_boundary(
                self.box_width,
                self.box_height,
                self.particle_radius,
                *old(particle),
            ),
    {
        let m = crate::fixed::fx_mul(self.particle_radius, Fx { raw: 3 * FX_ONE });
        let far_x = crate::fixed::fx_sub(self.box_width, m);
        let far_y = crate::fixed::fx_sub(self.box_height, m);
        proof {
            assert(m == wall_margin(self.particle_radius));
        }
        if particle.position.x.raw < m.raw {
            particle.position = Vec2Fx { x: m, ..particle.position };
            particle.velocity = Vec2Fx {
                x: crate::fixed::fx_neg(particle.velocity.x),
                ..particle.velocity
            };
        }
        if particle.position.x.raw > far_x.raw {
            particle.position = Vec2Fx { x: far_x, ..particle.position };
            particle.velocity = Vec2Fx {
                x: crate::fixed::fx_neg(particle.velocity.x),
                ..particle.velocity
            };
        }
        if particle.position.y.raw < m.raw {
            particle.position = Vec2Fx { y: m, ..particle.position };
            particle.velocity = Vec2Fx {
                y: crate::fixed::fx_neg(particle.velocity.y),
                ..particle.velocity
            };
        }
        if particle.position.y.raw > far_y.raw {
            particle.position = Vec2Fx { y: far_y, ..particle.position };
            particle.velocity = Vec2Fx {
                y: crate::fixed::fx_neg(particle.velocity.y),
                ..particle.velocity
            };
        }
    }

    fn apply_obstruction(&self, particle: &mut Particle)
        ensures
            *final(particle) == rect_obstruction(builtin_rectangle(), *old(particle)),
    {
        let rect = RectangleObstacle {
            top_left_corner: Vec2Fx {
                x: Fx { raw: RECT_LEFT_RAW },
                y: Fx { raw: RECT_TOP_RAW },
            },
            bottom_right_corner: Vec2Fx {
                x: Fx { raw: RECT_RIGHT_RAW },
                y: Fx { raw: RECT_BOTTOM_RAW },
            },
            dimensions: [
                crate::fixed::fx_sub(Fx { raw: RECT_RIGHT_RAW }, Fx { raw: RECT_LEFT_RAW }),
                crate::fixed::fx_sub(Fx { raw: RECT_BOTTOM_RAW }, Fx { raw: RECT_TOP_RAW }),
            ],
            bounding_box_dimensions: [0, 0],
        };
        proof {
            assert(rect == builtin_rectangle());
        }
        rect.apply_obstruction_boundary(particle);
    }
}

} // verus!
