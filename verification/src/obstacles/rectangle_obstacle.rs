//! The axis-aligned rectangular obstacle.  A particle that enters its
//! interior is resolved against the most deeply penetrated face: the four
//! penetration fractions are compared and only the axis of the deepest one
//! is reflected.  Ties go to the later face in the fixed order right, left,
//! top, bottom, which makes the resolution deterministic.

use vstd::prelude::*;
use crate::fixed::{fx_add_s, fx_div_s, fx_neg_s, fx_sub_s, Fx, FX_ONE};
use crate::obstacles::obstacle_trait::Obstacle;
use crate::particle::Particle;
use crate::vec2::Vec2Fx;

verus! {

pub struct RectangleObstacle {
    pub top_left_corner: Vec2Fx,
    pub bottom_right_corner: Vec2Fx,
    pub dimensions: [Fx; 2],
    pub bounding_box_dimensions: [usize; 2],
}

/// Which face is penetrated most deeply: 1 right, 2 left, 3 top, 4 bottom.
/// Ties pick the face latest in that order.
pub open spec fn rect_region(fr: Fx, fl: Fx, ft: Fx, fb: Fx) -> int {
    if fb.raw >= fr.raw && fb.raw >= fl.raw && fb.raw >= ft.raw {
        4
    } else if ft.raw >= fr.raw && ft.raw >= fl.raw {
        3
    } else if fl.raw >= fr.raw {
        2
    } else {
        1
    }
}

/// The rectangle's reaction to a particle.
pub open spec fn rect_obstruction(r: RectangleObstacle, p: Particle) -> Particle {
    let inside = p.position.x.raw > r.top_left_corner.x.raw && p.position.x.raw
        < r.bottom_right_corner.x.raw && p.position.y.raw > r.top_left_corner.y.raw
        && p.position.y.raw < r.bottom_right_corner.y.raw;
    if !inside {
        p
    } else {
        let one = Fx { raw: FX_ONE };
        let fr = fx_div_s(fx_sub_s(p.position.x, r.top_left_corner.x), r.dimensions[0]);
        let fl = fx_sub_s(one, fr);
        let ft = fx_div_s(fx_sub_s(p.position.y, r.top_left_corner.y), r.dimensions[1]);
        let fb = fx_sub_s(one, ft);
        let region = rect_region(fr, fl, ft, fb);
        if region == 4 {
            Particle {
                position: Vec2Fx { y: r.top_left_corner.y, ..p.position },
                velocity: Vec2Fx { y: fx_neg_s(p.velocity.y), ..p.velocity },
                ..p
            }
        } else if region == 3 {
            Particle {
                position: Vec2Fx { y: r.bottom_right_corner.y, ..p.position },
                velocity: Vec2Fx { y: fx_neg_s(p.velocity.y), ..p.velocity },
                ..p
            }
        } else if region == 2 {
            Particle {
                position: Vec2Fx { x: r.top_left_corner.x, ..p.position },
                velocity: Vec2Fx { x: fx_neg_s(p.velocity.x), ..p.velocity },
                ..p
            }
        } else {
            Particle {
                position: Vec2Fx { x: r.bottom_right_corner.x, ..p.position },
                velocity: Vec2Fx { x: fx_neg_s(p.velocity.x), ..p.velocity },
                ..p
            }
        }
    }
}

impl Obstacle for RectangleObstacle {
    open spec fn obstruction_spec(&self, p: Particle) -> Particle {
        rect_obstruction(*self, p)
    }

    fn apply_obstruction_boundary(&self, particle: &mut Particle) {
        let inside = particle.position.x.raw > self.top_left_corner.x.raw
            && particle.position.x.raw < self.bottom_right_corner.x.raw
            && particle.position.y.raw > self.top_left_corner.y.raw && particle.position.y.raw
            < self.bottom_right_corner.y.raw;
        if !inside {
            return ;
        }
        let one = Fx { raw: FX_ONE };
        let fr = crate::fixed::fx_div(
            crate::fixed::fx_sub(particle.position.x, self.top_left_corner.x),
            self.dimensions[0],
        );
        let fl = crate::fixed::fx_sub(one, fr);
        let ft = crate::fixed::fx_div(
            crate::fixed::fx_sub(particle.position.y, self.top_left_corner.y),
            self.dimensions[1],
        );
        let fb = crate::fixed::fx_sub(one, ft);
        if fb.raw >= fr.raw && fb.raw >= fl.raw && fb.raw >= ft.raw {
            particle.position = Vec2Fx { y: self.top_left_corner.y, ..particle.position };
            particle.velocity = Vec2Fx {
                y: crate::fixed::fx_neg(particle.velocity.y),
                ..particle.velocity
            };
        } else if ft.raw >= fr.raw && ft.raw >= fl.raw {
            particle.position = Vec2Fx { y: self.bottom_right_corner.y, ..particle.position };
            particle.velocity = Vec2Fx {
                y: crate::fixed::fx_neg(particle.velocity.y),
                ..particle.velocity
            };
        } else if fl.raw >= fr.raw {
            particle.position = Vec2Fx { x: self.top_left_corner.x, ..particle.position };
            particle.velocity = Vec2Fx {
                x: crate::fixed::fx_neg(particle.velocity.x),
                ..particle.velocity
            };
        } else {
            particle.position = Vec2Fx { x: self.bottom_right_corner.x, ..particle.position };
            particle.velocity = Vec2Fx {
                x: crate::fixed::fx_neg(particle.velocity.x),
                ..particle.velocity
            };
        }
    }
}

/// Default obstacle corners: (100, 400) to (200, 750), in length units.
pub const RECT_LEFT_RAW: i64 = 429496729600;

pub const RECT_TOP_RAW: i64 = 1717986918400;

pub const RECT_RIGHT_RAW: i64 = 858993459200;

pub const RECT_BOTTOM_RAW: i64 = 3221225472000;

impl RectangleObstacle {
    pub fn new(bounding_box_dimensions: [usize; 2]) -> (r: RectangleObstacle)
        ensures
            (r.top_left_corner == Vec2Fx {
                x: Fx { raw: RECT_LEFT_RAW },
                y: Fx { raw: RECT_TOP_RAW },
            }),
            (r.bottom_right_corner == Vec2Fx {
                x: Fx { raw: RECT_RIGHT_RAW },
                y: Fx { raw: RECT_BOTTOM_RAW },
            }),
            r.dimensions[0] == fx_sub_s(r.bottom_right_corner.x, r.top_left_corner.x),
            r.dimensions[1] == fx_sub_s(r.bottom_right_corner.y, r.top_left_corner.y),
            r.bounding_box_dimensions == bounding_box_dimensions,
    {
        let top_left_corner = Vec2Fx {
            x: Fx { raw: RECT_LEFT_RAW },
            y: Fx { raw: RECT_TOP_RAW },
        };
        let bottom_right_corner = Vec2Fx {
            x: Fx { raw: RECT_RIGHT_RAW },
            y: Fx { raw: RECT_BOTTOM_RAW },
        };
        let dimensions = [
            crate::fixed::fx_sub(bottom_right_corner.x, top_left_corner.x),
            crate::fixed::fx_sub(bottom_right_corner.y, top_left_corner.y),
        ];
        RectangleObstacle {
            top_left_corner,
            bottom_right_corner,
            dimensions,
            bounding_box_dimensions,
        }
    }

    /// Shrink the obstacle upward by one unit on each vertical side, when
    /// its top edge lies above the box.
    pub fn move_up(&mut self)
        ensures
            (*final(self) == if old(self).top_left_corner.y.raw < 0 {
                RectangleObstacle {
                    top_left_corner: Vec2Fx {
                        y: fx_add_s(old(self).top_left_corner.y, Fx { raw: FX_ONE }),
                        ..old(self).top_left_corner
                    },
                    bottom_right_corner: Vec2Fx {
                        y: fx_sub_s(old(self).bottom_right_corner.y, Fx { raw: FX_ONE }),
                        ..old(self).bottom_right_corner
                    },
                    ..*old(self)
                }
            } else {
                *old(self)
            }),
    {
        if self.top_left_corner.y.raw < 0 {
            let one = Fx { raw: FX_ONE };
            self.top_left_corner = Vec2Fx {
                y: crate::fixed::fx_add(self.top_left_corner.y, one),
                ..self.top_left_corner
            };
            self.bottom_right_corner = Vec2Fx {
                y: crate::fixed::fx_sub(self.bottom_right_corner.y, one),
                ..self.bottom_right_corner
            };
        }
    }

    /// Grow the obstacle downward while its bottom edge is inside the box.
    pub fn move_down(&mut self)
        ensures
            (*final(self) == if (old(self).bottom_right_corner.y.raw as int) < (old(
                self,
            ).bounding_box_dimensions[1] as int) * FX_ONE {
                RectangleObstacle {
                    top_left_corner: Vec2Fx {
                        y: fx_sub_s(old(self).top_left_corner.y, Fx { raw: FX_ONE }),
                        ..old(self).top_left_corner
                    },
                    bottom_right_corner: Vec2Fx {
                        y: fx_add_s(old(self).bottom_right_corner.y, Fx { raw: FX_ONE }),
                        ..old(self).bottom_right_corner
                    },
                    ..*old(self)
                }
            } else {
                *old(self)
            }),
    {
        let limit: i128 = (self.bounding_box_dimensions[1] as i128) * (FX_ONE as i128);
        if (self.bottom_right_corner.y.raw as i128) < limit {
            let one = Fx { raw: FX_ONE };
            self.top_left_corner = Vec2Fx {
                y: crate::fixed::fx_sub(self.top_left_corner.y, one),
                ..self.top_left_corner
            };
            self.bottom_right_corner = Vec2Fx {
                y: crate::fixed::fx_add(self.bottom_right_corner.y, one),
                ..self.bottom_right_corner
            };
        }
    }

    /// Grow the obstacle to the right while its right edge is inside the box.
    pub fn move_right(&mut self)
        ensures
            (*final(self) == if (old(self).bottom_right_corner.x.raw as int) < (old(
                self,
            ).bounding_box_dimensions[0] as int) * FX_ONE {
                RectangleObstacle {
                    top_left_corner: Vec2Fx {
                        x: fx_sub_s(old(self).top_left_corner.x, Fx { raw: FX_ONE }),
                        ..old(self).top_left_corner
                    },
                    bottom_right_corner: Vec2Fx {
                        x: fx_add_s(old(self).bottom_right_corner.x, Fx { raw: FX_ONE }),
                        ..old(self).bottom_right_corner
                    },
                    ..*old(self)
                }
            } else {
                *old(self)
            }),
    {
        let limit: i128 = (self.bounding_box_dimensions[0] as i128) * (FX_ONE as i128);
        if (self.bottom_right_corner.x.raw as i128) < limit {
            let one = Fx { raw: FX_ONE };
            self.top_left_corner = Vec2Fx {
                x: crate::fixed::fx_sub(self.top_left_corner.x, one),
                ..self.top_left_corner
            };
            self.bottom_right_corner = Vec2Fx {
                x: crate::fixed::fx_add(self.bottom_right_corner.x, one),
                ..self.bottom_right_corner
            };
        }
    }

    /// Shrink the obstacle from the left when its left edge lies outside.
    pub fn move_left(&mut self)
        ensures
            (*final(self) == if old(self).top_left_corner.x.raw < 0 {
                RectangleObstacle {
                    top_left_corner: Vec2Fx {
                        x: fx_add_s(old(self).top_left_corner.x, Fx { raw: FX_ONE }),
                        ..old(self).top_left_corner
                    },
                    bottom_right_corner: Vec2Fx {
                        x: fx_sub_s(old(self).bottom_right_corner.x, Fx { raw: FX_ONE }),
                        ..old(self).bottom_right_corner
                    },
                    ..*old(self)
                }
            } else {
                *old(self)
            }),
    {
        if self.top_left_corner.x.raw < 0 {
            let one = Fx { raw: FX_ONE };
            self.top_left_corner = Vec2Fx {
                x: crate::fixed::fx_add(self.top_left_corner.x, one),
                ..self.top_left_corner
            };
            self.bottom_right_corner = Vec2Fx {
                x: crate::fixed::fx_sub(self.bottom_right_corner.x, one),
                ..self.bottom_right_corner
            };
        }
    }
}

} // verus!
