//! The library's only source of randomness: one trusted wrapper around the
//! `rand` crate, and verified helpers built on it.

use vstd::prelude::*;
use rand::Rng;
use crate::fixed::{Fx, FX_ONE};
use crate::vec2::Vec2Fx;

verus! {

/// Relies on rand::Rng::gen_range on a half-open i64 range: it panics only
/// on an empty range, and returns a value of the given range.
#[verifier::external_body]
pub(crate) fn random_raw_in(lo: i64, hi: i64) -> (r: i64)
    requires
        lo < hi,
    ensures
        lo <= r < hi,
{
    let mut rng = rand::thread_rng();
    rng.gen_range(lo..hi)
}

/// A usable substitute direction: both components within one unit, not both
/// zero, so normalising it cannot degenerate.
pub open spec fn valid_direction(d: Vec2Fx) -> bool {
    &&& -FX_ONE <= d.x.raw <= FX_ONE
    &&& -FX_ONE <= d.y.raw <= FX_ONE
    &&& !(d.x.raw == 0 && d.y.raw == 0)
}

/// A random nonzero direction, used when two particles coincide exactly.
pub fn random_direction() -> (d: Vec2Fx)
    ensures
        valid_direction(d),
{
    let x = random_raw_in(-FX_ONE, FX_ONE);
    let y = random_raw_in(-FX_ONE, FX_ONE);
    if x == 0 && y == 0 {
        Vec2Fx { x: Fx { raw: FX_ONE }, y: Fx { raw: 0 } }
    } else {
        Vec2Fx { x: Fx { raw: x }, y: Fx { raw: y } }
    }
}

/// A random position in the rectangle `[0, x_hi) x [0, y_hi)`.
pub fn random_position_in(x_hi: Fx, y_hi: Fx) -> (pos: Vec2Fx)
    requires
        x_hi.raw > 0,
        y_hi.raw > 0,
    ensures
        0 <= pos.x.raw < x_hi.raw,
        0 <= pos.y.raw < y_hi.raw,
{
    let x = random_raw_in(0, x_hi.raw);
    let y = random_raw_in(0, y_hi.raw);
    Vec2Fx { x: Fx { raw: x }, y: Fx { raw: y } }
}

} // verus!
