//! Construction-time configuration.
//!
//! Every tunable of the simulation is supplied once, at construction, in a
//! plain structure.  Invalid configurations are rejected before the step
//! loop can run, each with a descriptive error.

use vstd::prelude::*;
use crate::fixed::Fx;
use crate::kernels::radius_in_range;

verus! {

/// Largest accepted box side, in whole length units.
pub const MAX_BOX_DIM: usize = 1000000;

/// Largest accepted number of grid cells.
pub const MAX_CELLS: usize = 4194304;

#[derive(Clone, Copy, PartialEq, Eq, Structural, Debug)]
pub enum ConfigError {
    /// The particle count must be positive.
    ZeroParticleCount,
    /// The smoothing radius must lie in the supported positive window.
    SmoothingRadiusOutOfRange,
    /// Box sides must be positive and at most `MAX_BOX_DIM` units.
    DegenerateBox,
    /// The box and radius together would need more than `MAX_CELLS` cells.
    GridTooLarge,
    /// The timestep must be positive.
    NonPositiveTimestep,
}

#[derive(Clone, Copy, PartialEq, Eq, Structural, Debug)]
pub struct SimConfig {
    /// Number of particles, fixed for the whole run.
    pub particle_count: usize,
    /// Box width in whole length units.
    pub box_width: usize,
    /// Box height in whole length units.
    pub box_height: usize,
    /// Kernel cutoff distance.
    pub smoothing_radius: Fx,
    /// Stiffness converting density deviation into pressure.
    pub pressure_multiplier: Fx,
    /// Density at which net pressure force vanishes.
    pub target_density: Fx,
    /// Viscous coupling coefficient.
    pub viscosity: Fx,
    /// Length of one timestep.
    pub delta_time: Fx,
    /// Whether gravity starts switched on.
    pub is_gravity_on: bool,
}

impl SimConfig {
    /// The conditions under which construction succeeds.
    pub open spec fn valid(self) -> bool {
        &&& self.particle_count >= 1
        &&& radius_in_range(self.smoothing_radius)
        &&& 1 <= self.box_width <= MAX_BOX_DIM
        &&& 1 <= self.box_height <= MAX_BOX_DIM
        &&& self.delta_time.raw > 0
    }
}

} // verus!
