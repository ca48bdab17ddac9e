//! The closed obstacle capability: every obstacle reacts to a particle as a
//! pure function of the obstacle and the particle, and the executable
//! reaction returns exactly what its spec-level mirror says.

use vstd::prelude::*;
use crate::particle::Particle;

verus! {

pub trait Obstacle {
    /// The particle as it looks after this obstacle has reacted to it.
    spec fn obstruction_spec(&self, p: Particle) -> Particle;

    /// Apply the reaction in place.
    fn apply_obstruction_boundary(&self, particle: &mut Particle)
        ensures
            *final(particle) == self.obstruction_spec(*old(particle)),
    ;
}

} // verus!
