//! A two-dimensional smoothed-particle-hydrodynamics (SPH) fluid core.
//!
//! Particles carry mass, position and velocity; each fixed-size timestep
//! derives per-particle forces (pressure, viscosity, gravity, boundary
//! reaction, an optional attractor) from local neighbour density and applies
//! them through a velocity-Verlet-style integrator.  All quantities are
//! fixed-point numbers (`fixed::Fx`), so every arithmetic step has an exact
//! integer meaning that the contracts state and the verifier checks.
//!
//! The layers, leaf first: `fixed` and `vec2` are the saturating fixed-point
//! scalars and vectors; `kernels` holds the smoothing kernels; `particle` the
//! particle record; `cell_manager` the uniform spatial hash grid whose
//! neighbour queries are proved to return exactly the particles in the 3x3
//! cell neighbourhood; `smoothed_interaction` the density and acceleration
//! passes; `particle_dynamics_manager` the integrator; the collision modules
//! and `obstacles` the box, dam and rectangle reactors; `external_attractor`
//! the optional point force; and `fluid_simulation_app` the step
//! orchestrator, whose `update_rel` contract pins down one whole timestep.

pub mod cell_manager;
pub mod collision_manager;
pub mod config;
pub mod external_attractor;
pub mod fixed;
pub mod fluid_simulation_app;
pub mod kernels;
pub mod obstacle_collision_manager;
pub mod obstacles;
pub mod particle;
pub mod particle_dynamics_manager;
pub mod rng;
pub mod smoothed_interaction;
pub mod vec2;
