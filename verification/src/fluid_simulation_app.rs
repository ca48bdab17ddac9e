//! The simulation step orchestrator.
//!
//! One `update` runs four phases with full barriers between them: integrate
//! and apply boundary reactions to every particle, rebuild the spatial hash
//! grid, compute every particle's density (read-only over positions), and
//! only then compute every particle's acceleration from the completed
//! density field.  The contract `update_rel` states each phase exactly: the
//! only freedom left open is the sequence of substitute directions drawn
//! when two particles coincide, and the order of each neighbour list, which
//! is itself pinned by the grid's membership contract.

use vstd::prelude::*;
use crate::cell_manager::{stamped, CellManager};
use crate::config::{ConfigError, SimConfig, MAX_CELLS};
use crate::external_attractor::{attractor_acceleration, ExternalAttractor};
use crate::fixed::{fx_add_s, Fx, FX_ONE};
use crate::obstacle_collision_manager::{box_boundary, ObstacleCollisionManager};
use crate::obstacles::dam_obstacle::{dam_broken, dam_obstruction, DamObstacle};
use crate::obstacles::obstacle_trait::Obstacle;
use crate::obstacles::rectangle_obstacle::{rect_obstruction, RectangleObstacle};
use crate::particle::Particle;
use crate::particle_dynamics_manager::ParticleDynamicsManager;
use crate::rng::{random_position_in, valid_direction};
use crate::smoothed_interaction::SmoothedInteraction;
use crate::vec2::{v2_add_s, v2_zero, Vec2Fx};

verus! {

/// Density every slot starts with before the first density pass (0.001).
pub const STARTING_DENSITY_RAW: i64 = 4294967;

/// Particles are seeded at most this far from the left wall (the dam pool).
pub const SPAWN_WIDTH_RAW: i64 = 2576980377600;

/// Updates per second reported to the embedding event loop.
pub const UPDATES_PER_SECOND: usize = 100;

/// A discrete control event, decoded by the embedding input layer.
#[derive(Clone, Copy, PartialEq, Eq, Structural, Debug)]
pub enum SimEvent {
    ToggleGravity,
    BreakDam,
    AttractorPressed,
    AttractorMoved(Fx, Fx),
    AttractorReleased,
}

pub struct FluidSimulationApp {
    pub particles: Vec<Particle>,
    pub densities: Vec<Fx>,
    pub accelerations: Vec<Vec2Fx>,
    pub previous_accelerations: Vec<Vec2Fx>,
    pub dynamics_manager: ParticleDynamicsManager,
    pub smoothed_interaction: SmoothedInteraction,
    pub external_attractor: ExternalAttractor,
    pub collision_manager: ObstacleCollisionManager,
    pub cell_manager: CellManager,
    pub dam_obstacle: DamObstacle,
    pub rectangle_obstacle: RectangleObstacle,
    pub ups: usize,
}

/// One particle taken through phase one: velocity update, position update,
/// then the box walls, the dam, and the rectangular obstacle, in that order.
pub open spec fn advanced_particle(s: FluidSimulationApp, i: int) -> Particle {
    let p = s.particles@[i];
    let p1 = Particle {
        velocity: s.dynamics_manager.velocity_after(
            p.velocity,
            s.accelerations@[i],
            s.previous_accelerations@[i],
        ),
        ..p
    };
    let p2 = Particle {
        position: s.dynamics_manager.position_after(p1.position, p1.velocity, s.accelerations@[i]),
        ..p1
    };
    let p3 = box_boundary(
        s.collision_manager.box_width,
        s.collision_manager.box_height,
        s.collision_manager.particle_radius,
        p2,
    );
    let p4 = dam_obstruction(s.dam_obstacle, p3);
    rect_obstruction(s.rectangle_obstacle, p4)
}

/// `ns` is a neighbour list for a query at `pos`: no duplicates, and it
/// holds exactly the indices of particles in the 3x3 in-bounds cell
/// neighbourhood of `pos`.
pub open spec fn neighbour_list_ok(
    cm: CellManager,
    particles: Seq<Particle>,
    pos: Vec2Fx,
    ns: Seq<usize>,
) -> bool {
    &&& ns.no_duplicates()
    &&& forall|j: usize| #[trigger]
        ns.contains(j) <==> (j < particles.len() && cm.neighbourhood(
            pos,
            particles[j as int].position,
        ))
}

/// The density slot `d` is the density pass's answer for particle `i`.
pub open spec fn density_slot_ok(
    cm: CellManager,
    si: SmoothedInteraction,
    particles: Seq<Particle>,
    i: int,
    d: Fx,
) -> bool {
    exists|ns: Seq<usize>|
        #![auto]
        neighbour_list_ok(cm, particles, particles[i].position, ns) && d == si.density_fold(
            particles,
            i,
            ns,
        )
}

/// The acceleration slot `a` is the acceleration pass's answer for particle
/// `i`: the pairwise fold over some neighbour list with some valid
/// substitute directions, plus the attractor's contribution.
pub open spec fn acceleration_slot_ok(
    cm: CellManager,
    si: SmoothedInteraction,
    att: ExternalAttractor,
    particles: Seq<Particle>,
    densities: Seq<Fx>,
    i: int,
    a: Vec2Fx,
) -> bool {
    exists|ns: Seq<usize>, dirs: Seq<Vec2Fx>|
        #![auto]
        neighbour_list_ok(cm, particles, particles[i].position, ns) && dirs.len() == ns.len() && (
        forall|q: int| 0 <= q < dirs.len() ==> valid_direction(#[trigger] dirs[q])) && a
            == v2_add_s(
            si.acceleration_result(particles, densities, i, ns, dirs),
            attractor_acceleration(att, particles[i], densities[i]),
        )
}

impl FluidSimulationApp {
    /// Internal consistency: the four per-particle arrays share one length,
    /// the grid belongs to that particle count, and each particle's id is
    /// its index.
    pub open spec fn wf(self) -> bool {
        &&& self.cell_manager.geometry_wf()
        &&& self.particles@.len() == self.cell_manager.particle_count
        &&& self.densities@.len() == self.particles@.len()
        &&& self.accelerations@.len() == self.particles@.len()
        &&& self.previous_accelerations@.len() == self.particles@.len()
        &&& forall|i: int|
            0 <= i < self.particles@.len() ==> (#[trigger] self.particles@[i]).id == i
    }
}

/// Everything one `update` promises about the step it took.
pub open spec fn update_rel(s0: FluidSimulationApp, s1: FluidSimulationApp) -> bool {
    let n = s0.particles@.len() as int;
    &&& s1.dynamics_manager == s0.dynamics_manager
    &&& s1.smoothed_interaction == s0.smoothed_interaction
    &&& s1.external_attractor == s0.external_attractor
    &&& s1.collision_manager == s0.collision_manager
    &&& s1.dam_obstacle == s0.dam_obstacle
    &&& s1.rectangle_obstacle == s0.rectangle_obstacle
    &&& s1.ups == s0.ups
    &&& s1.cell_manager.particle_count == s0.cell_manager.particle_count
    &&& s1.cell_manager.cell_size == s0.cell_manager.cell_size
    &&& s1.cell_manager.number_of_columns == s0.cell_manager.number_of_columns
    &&& s1.cell_manager.number_of_rows == s0.cell_manager.number_of_rows
    &&& s1.cell_manager.number_of_cells == s0.cell_manager.number_of_cells
    &&& s1.cell_manager.table_wf()
    &&& s1.particles@.len() == n
    &&& forall|i: int|
        0 <= i < n ==> #[trigger] s1.particles@[i] == stamped(
            s0.cell_manager,
            advanced_particle(s0, i),
        )
    &&& s1.previous_accelerations@.len() == n
    &&& forall|i: int|
        0 <= i < n ==> #[trigger] s1.previous_accelerations@[i] == v2_add_s(
            s0.dynamics_manager.gravity_vector(),
            s0.accelerations@[i],
        )
    &&& s1.densities@.len() == n
    &&& forall|i: int|
        0 <= i < n ==> density_slot_ok(
            s1.cell_manager,
            s0.smoothed_interaction,
            s1.particles@,
            i,
            #[trigger] s1.densities@[i],
        )
    &&& s1.accelerations@.len() == n
    &&& forall|i: int|
        0 <= i < n ==> acceleration_slot_ok(
            s1.cell_manager,
            s0.smoothed_interaction,
            s0.external_attractor,
            s1.particles@,
            s1.densities@,
            i,
            #[trigger] s1.accelerations@[i],
        )
}

impl FluidSimulationApp {
    /// Build a simulation from a validated configuration: particles are
    /// seeded at rest at random positions in the dam pool, every density
    /// slot starts at the initial density, and every acceleration is zero.
    pub fn new(config: SimConfig) -> (result: Result<FluidSimulationApp, ConfigError>)
        ensures
            match result {
                Ok(sim) => {
                    &&& config.valid()
                    &&& sim.wf()
                    &&& sim.particles@.len() == config.particle_count
                    &&& forall|i: int|
                        0 <= i < config.particle_count ==> {
                            let p = #[trigger] sim.particles@[i];
                            &&& p.id == i
                            &&& p.velocity == v2_zero()
                            &&& p.acceleration == v2_zero()
                            &&& p.previous_acceleration == v2_zero()
                            &&& p.mass.raw == crate::particle::PARTICLE_MASS_RAW
                            &&& 0 <= p.position.x.raw < SPAWN_WIDTH_RAW
                            &&& p.position.x.raw < config.box_width * FX_ONE
                            &&& 0 <= p.position.y.raw < config.box_height * FX_ONE
                        }
                    &&& forall|i: int|
                        0 <= i < config.particle_count ==> (#[trigger] sim.densities@[i]).raw
                            == STARTING_DENSITY_RAW
                    &&& forall|i: int|
                        0 <= i < config.particle_count ==> #[trigger] sim.accelerations@[i]
                            == v2_zero()
                    &&& forall|i: int|
                        0 <= i < config.particle_count ==> #[trigger] sim.previous_accelerations@[i]
                            == v2_zero()
                    &&& sim.dynamics_manager.is_gravity_on == config.is_gravity_on
                    &&& sim.dynamics_manager.delta_time == config.delta_time
                    &&& (sim.smoothed_interaction == SmoothedInteraction {
                        pressure_multiplier: config.pressure_multiplier,
                        target_density: config.target_density,
                        smoothing_radius: config.smoothing_radius,
                        viscosity: config.viscosity,
                    })
                    &&& !sim.external_attractor.active
                    &&& sim.collision_manager.box_width.raw == config.box_width * FX_ONE
                    &&& sim.collision_manager.box_height.raw == config.box_height * FX_ONE
                    &&& sim.cell_manager.table_wf()
                    &&& sim.cell_manager.cell_size == fx_add_s(
                        config.smoothing_radius,
                        config.smoothing_radius,
                    )
                    &&& sim.dam_obstacle.is_dam_active
                    &&& sim.ups == UPDATES_PER_SECOND
                },
                Err(ConfigError::ZeroParticleCount) => config.particle_count == 0,
                Err(ConfigError::SmoothingRadiusOutOfRange) => config.particle_count >= 1
                    && !crate::kernels::radius_in_range(config.smoothing_radius),
                Err(ConfigError::DegenerateBox) => config.particle_count >= 1
                    && crate::kernels::radius_in_range(config.smoothing_radius) && (
                config.box_width == 0 || config.box_width > crate::config::MAX_BOX_DIM
                    || config.box_height == 0 || config.box_height > crate::config::MAX_BOX_DIM),
                Err(ConfigError::NonPositiveTimestep) => config.particle_count >= 1
                    && crate::kernels::radius_in_range(config.smoothing_radius) && 1
                    <= config.box_width <= crate::config::MAX_BOX_DIM && 1 <= config.box_height
                    <= crate::config::MAX_BOX_DIM && config.delta_time.raw <= 0,
                Err(ConfigError::GridTooLarge) => config.valid() && crate::cell_manager::grid_extent(
                    config.box_width as int,
                    fx_add_s(config.smoothing_radius, config.smoothing_radius).raw as int,
                ) * crate::cell_manager::grid_extent(
                    config.box_height as int,
                    fx_add_s(config.smoothing_radius, config.smoothing_radius).raw as int,
                ) > MAX_CELLS,
            },
    {
        if config.particle_count == 0 {
            return Err(ConfigError::ZeroParticleCount);
        }
        if config.smoothing_radius.raw < FX_ONE / 8 || config.smoothing_radius.raw > 16 * FX_ONE {
            return Err(ConfigError::SmoothingRadiusOutOfRange);
        }
        if config.box_width == 0 || config.box_width > crate::config::MAX_BOX_DIM
            || config.box_height == 0 || config.box_height > crate::config::MAX_BOX_DIM {
            return Err(ConfigError::DegenerateBox);
        }
        if config.delta_time.raw <= 0 {
            return Err(ConfigError::NonPositiveTimestep);
        }
        let cell_manager = match CellManager::new(
            config.particle_count,
            [config.box_width, config.box_height],
            config.smoothing_radius,
        ) {
            Ok(cm) => cm,
            Err(e) => {
                return Err(e);
            },
        };
        let n = config.particle_count;
        let box_width_fx = Fx { raw: (config.box_width as i64) * FX_ONE };
        let box_height_fx = Fx { raw: (config.box_height as i64) * FX_ONE };
        let spawn_width = if box_width_fx.raw < SPAWN_WIDTH_RAW {
            box_width_fx
        } else {
            Fx { raw: SPAWN_WIDTH_RAW }
        };
        let mut particles: Vec<Particle> = Vec::new();
        let mut i: usize = 0;
        while i < n
            invariant
                particles@.len() == i,
                i <= n,
                spawn_width.raw > 0,
                spawn_width.raw <= SPAWN_WIDTH_RAW,
                spawn_width.raw <= config.box_width * FX_ONE,
                box_height_fx.raw == config.box_height * FX_ONE,
                box_height_fx.raw > 0,
                forall|j: int|
                    0 <= j < i ==> {
                        let p = #[trigger] particles@[j];
                        &&& p.id == j
                        &&& p.velocity == v2_zero()
                        &&& p.acceleration == v2_zero()
                        &&& p.previous_acceleration == v2_zero()
                        &&& p.mass.raw == crate::particle::PARTICLE_MASS_RAW
                        &&& 0 <= p.position.x.raw < spawn_width.raw
                        &&& 0 <= p.position.y.raw < box_height_fx.raw
                    },
            decreases n - i,
        {
            let position = random_position_in(spawn_width, box_height_fx);
            particles.push(Particle::new(i, position));
            i = i + 1;
        }
        let mut densities: Vec<Fx> = Vec::new();
        let mut accelerations: Vec<Vec2Fx> = Vec::new();
        let mut previous_accelerations: Vec<Vec2Fx> = Vec::new();
        let mut k: usize = 0;
        while k < n
            invariant
                densities@.len() == k,
                accelerations@.len() == k,
                previous_accelerations@.len() == k,
                k <= n,
                forall|j: int|
                    0 <= j < k ==> (#[trigger] densities@[j]).raw == STARTING_DENSITY_RAW,
                forall|j: int| 0 <= j < k ==> #[trigger] accelerations@[j] == v2_zero(),
                forall|j: int| 0 <= j < k ==> #[trigger] previous_accelerations@[j] == v2_zero(),
            decreases n - k,
        {
            densities.push(Fx { raw: STARTING_DENSITY_RAW });
            accelerations.push(Vec2Fx::zero());
            previous_accelerations.push(Vec2Fx::zero());
            k = k + 1;
        }
        Ok(
            FluidSimulationApp {
                particles,
                densities,
                accelerations,
                previous_accelerations,
                dynamics_manager: ParticleDynamicsManager::new(
                    config.is_gravity_on,
                    config.delta_time,
                ),
                smoothed_interaction: SmoothedInteraction::new(
                    config.pressure_multiplier,
                    config.target_density,
                    config.smoothing_radius,
                    config.viscosity,
                ),
                external_attractor: ExternalAttractor::new(),
                collision_manager: ObstacleCollisionManager::new(
                    [config.box_width, config.box_height],
                ),
                cell_manager,
                dam_obstacle: DamObstacle::new([config.box_width, config.box_height]),
                rectangle_obstacle: RectangleObstacle::new([config.box_width, config.box_height]),
                ups: UPDATES_PER_SECOND,
            },
        )
    }

    /// Advance the simulation by one fixed timestep.
    pub fn update(&mut self)
        requires
            old(self).wf(),
        ensures
            final(self).wf(),
            update_rel(*old(self), *final(self)),
    {
        let ghost s0 = *self;
        let n = self.particles.len();

        // Phase 1: integrate and react every particle independently.
        let mut i: usize = 0;
        while i < n
            invariant
                i <= n,
                n == s0.particles@.len(),
                self.dynamics_manager == s0.dynamics_manager,
                self.smoothed_interaction == s0.smoothed_interaction,
                self.external_attractor == s0.external_attractor,
                self.collision_manager == s0.collision_manager,
                self.cell_manager == s0.cell_manager,
                self.dam_obstacle == s0.dam_obstacle,
                self.rectangle_obstacle == s0.rectangle_obstacle,
                self.ups == s0.ups,
                self.densities@ == s0.densities@,
                self.accelerations@ == s0.accelerations@,
                s0.wf(),
                self.particles@.len() == n,
                self.previous_accelerations@.len() == n,
                forall|j: int|
                    0 <= j < i ==> #[trigger] self.particles@[j] == advanced_particle(s0, j),
                forall|j: int|
                    0 <= j < i ==> #[trigger] self.previous_accelerations@[j] == v2_add_s(
                        s0.dynamics_manager.gravity_vector(),
                        s0.accelerations@[j],
                    ),
                forall|j: int| i <= j < n ==> #[trigger] self.particles@[j] == s0.particles@[j],
                forall|j: int|
                    i <= j < n ==> #[trigger] self.previous_accelerations@[j]
                        == s0.previous_accelerations@[j],
            decreases n - i,
        {
            let mut p = self.particles[i];
            let mut prev = self.previous_accelerations[i];
            let acc = self.accelerations[i];
            self.dynamics_manager.update_velocity(&mut p, acc, &mut prev);
            self.dynamics_manager.update_position(&mut p, acc);
            self.collision_manager.apply_boundary_conditions(&mut p);
            self.dam_obstacle.apply_obstruction_boundary(&mut p);
            self.rectangle_obstacle.apply_obstruction_boundary(&mut p);
            proof {
                let p0 = s0.particles@[i as int];
                let p1 = Particle {
                    velocity: s0.dynamics_manager.velocity_after(
                        p0.velocity,
                        s0.accelerations@[i as int],
                        s0.previous_accelerations@[i as int],
                    ),
                    ..p0
                };
                let p2 = Particle {
                    position: s0.dynamics_manager.position_after(
                        p1.position,
                        p1.velocity,
                        s0.accelerations@[i as int],
                    ),
                    ..p1
                };
                let p3 = box_boundary(
                    s0.collision_manager.box_width,
                    s0.collision_manager.box_height,
                    s0.collision_manager.particle_radius,
                    p2,
                );
                let p4 = dam_obstruction(s0.dam_obstacle, p3);
                assert(p == rect_obstruction(s0.rectangle_obstacle, p4));
                assert(p == advanced_particle(s0, i as int));
            }
            self.particles[i] = p;
            self.previous_accelerations[i] = prev;
            i = i + 1;
        }

        // Phase 2: rebuild the spatial grid from the new positions.
        proof {
            assert forall|j: int|
                0 <= j < n implies (#[trigger] self.particles@[j]).id == j by {
                assert(self.particles@[j] == advanced_particle(s0, j));
            }
        }
        let ghost mid = self.particles@;
        self.cell_manager.update(&mut self.particles);
        let ghost s2 = *self;
        proof {
            assert forall|j: int|
                0 <= j < n implies (#[trigger] s2.particles@[j]).position == mid[j].position by {
                assert(s2.particles@[j] == stamped(s0.cell_manager, mid[j]));
            }
            assert forall|k: usize, j: usize|
                #[trigger] s2.cell_manager.spatial_lookup@.contains((k, j)) <==> (j < n && k
                    as int == s2.cell_manager.cell_key_of_position(
                    s2.particles@[j as int].position,
                )) by {
                if j < n {
                    assert(s2.particles@[j as int].position == mid[j as int].position);
                }
            }
        }

        // Phase 3: the density pass, one private slot per particle.
        let mut new_densities: Vec<Fx> = Vec::new();
        let mut i: usize = 0;
        while i < n
            invariant
                i <= n,
                *self == s2,
                n == s2.particles@.len(),
                s2.cell_manager.table_wf(),
                s2.cell_manager.particle_count == n,
                forall|k: usize, j: usize|
                    #[trigger] s2.cell_manager.spatial_lookup@.contains((k, j)) <==> (j < n && k
                        as int == s2.cell_manager.cell_key_of_position(
                        s2.particles@[j as int].position,
                    )),
                new_densities@.len() == i,
                forall|j: int|
                    0 <= j < i ==> density_slot_ok(
                        s2.cell_manager,
                        s2.smoothed_interaction,
                        s2.particles@,
                        j,
                        #[trigger] new_densities@[j],
                    ),
            decreases n - i,
        {
            let neighbors = self.cell_manager.get_adjacent_particles_indices(
                self.particles[i].position,
            );
            proof {
                lemma_neighbour_list(s2.cell_manager, s2.particles@, s2.particles@[i as int].position, neighbors@);
                assert forall|q: int|
                    0 <= q < neighbors@.len() implies (#[trigger] neighbors@[q])
                    < self.particles@.len() by {
                    assert(neighbors@.contains(neighbors@[q]));
                }
            }
            let d = self.smoothed_interaction.calculate_density(i, &neighbors, &self.particles);
            new_densities.push(d);
            i = i + 1;
        }
        self.densities = new_densities;
        let ghost s3 = *self;

        // Phase 4: the acceleration pass, reading the completed densities.
        let mut new_accelerations: Vec<Vec2Fx> = Vec::new();
        let mut i: usize = 0;
        while i < n
            invariant
                i <= n,
                *self == s3,
                n == s3.particles@.len(),
                s3.densities@.len() == n,
                s3.cell_manager.table_wf(),
                s3.cell_manager.particle_count == n,
                forall|k: usize, j: usize|
                    #[trigger] s3.cell_manager.spatial_lookup@.contains((k, j)) <==> (j < n && k
                        as int == s3.cell_manager.cell_key_of_position(
                        s3.particles@[j as int].position,
                    )),
                new_accelerations@.len() == i,
                forall|j: int|
                    0 <= j < i ==> acceleration_slot_ok(
                        s3.cell_manager,
                        s3.smoothed_interaction,
                        s3.external_attractor,
                        s3.particles@,
                        s3.densities@,
                        j,
                        #[trigger] new_accelerations@[j],
                    ),
            decreases n - i,
        {
            let neighbors = self.cell_manager.get_adjacent_particles_indices(
                self.particles[i].position,
            );
            proof {
                lemma_neighbour_list(s3.cell_manager, s3.particles@, s3.particles@[i as int].position, neighbors@);
                assert forall|q: int|
                    0 <= q < neighbors@.len() implies (#[trigger] neighbors@[q])
                    < self.particles@.len() by {
                    assert(neighbors@.contains(neighbors@[q]));
                }
            }
            let mut acceleration = self.smoothed_interaction.calculate_acceleration(
                i,
                &neighbors,
                &self.particles,
                &self.densities,
            );
            acceleration = acceleration.add(
                self.external_attractor.get_external_attraction_acceleration(
                    &self.particles[i],
                    self.densities[i],
                ),
            );
            new_accelerations.push(acceleration);
            i = i + 1;
        }
        self.accelerations = new_accelerations;
    }

    /// Switch gravity on or off.
    pub fn toggle_gravity(&mut self)
        ensures
            final(self).dynamics_manager.is_gravity_on == !old(
                self,
            ).dynamics_manager.is_gravity_on,
            final(self).dynamics_manager.delta_time == old(self).dynamics_manager.delta_time,
            (*final(self) == FluidSimulationApp {
                dynamics_manager: final(self).dynamics_manager,
                ..*old(self)
            }),
    {
        self.dynamics_manager.toggle_gravity();
    }

    /// Break the dam.  Idempotent after the first call: the dam never comes
    /// back for the rest of the run.
    pub fn break_dam(&mut self)
        ensures
            (*final(self) == FluidSimulationApp {
                dam_obstacle: dam_broken(old(self).dam_obstacle),
                ..*old(self)
            }),
    {
        self.dam_obstacle.break_dam();
    }

    /// Switch the attractor on or off.
    pub fn set_attractor_active(&mut self, active: bool)
        ensures
            final(self).external_attractor.active == active,
            final(self).external_attractor.position == old(self).external_attractor.position,
            final(self).external_attractor.radius == old(self).external_attractor.radius,
            (*final(self) == FluidSimulationApp {
                external_attractor: final(self).external_attractor,
                ..*old(self)
            }),
    {
        self.external_attractor.active = active;
    }

    /// Move the attractor point.
    pub fn set_attractor_position(&mut self, x: Fx, y: Fx)
        ensures
            (final(self).external_attractor.position == Vec2Fx { x, y }),
            final(self).external_attractor.active == old(self).external_attractor.active,
            final(self).external_attractor.radius == old(self).external_attractor.radius,
            (*final(self) == FluidSimulationApp {
                external_attractor: final(self).external_attractor,
                ..*old(self)
            }),
    {
        self.external_attractor.position = Vec2Fx { x, y };
    }

    /// Dispatch one decoded control event.
    pub fn handle_event(&mut self, event: SimEvent)
        ensures
            (match event {
                SimEvent::ToggleGravity => {
                    &&& final(self).dynamics_manager.is_gravity_on
                        == !old(self).dynamics_manager.is_gravity_on
                    &&& final(self).dynamics_manager.delta_time
                        == old(self).dynamics_manager.delta_time
                    &&& *final(self) == FluidSimulationApp {
                        dynamics_manager: final(self).dynamics_manager,
                        ..*old(self)
                    }
                },
                SimEvent::BreakDam => {
                    *final(self) == FluidSimulationApp {
                        dam_obstacle: dam_broken(old(self).dam_obstacle),
                        ..*old(self)
                    }
                },
                SimEvent::AttractorPressed => {
                    &&& final(self).external_attractor.active
                    &&& final(self).external_attractor.position
                        == old(self).external_attractor.position
                    &&& *final(self) == FluidSimulationApp {
                        external_attractor: final(self).external_attractor,
                        ..*old(self)
                    }
                },
                SimEvent::AttractorMoved(x, y) => {
                    &&& final(self).external_attractor.position == Vec2Fx { x, y }
                    &&& final(self).external_attractor.active
                        == old(self).external_attractor.active
                    &&& *final(self) == FluidSimulationApp {
                        external_attractor: final(self).external_attractor,
                        ..*old(self)
                    }
                },
                SimEvent::AttractorReleased => {
                    &&& !final(self).external_attractor.active
                    &&& final(self).external_attractor.position
                        == old(self).external_attractor.position
                    &&& *final(self) == FluidSimulationApp {
                        external_attractor: final(self).external_attractor,
                        ..*old(self)
                    }
                },
            }),
    {
        match event {
            SimEvent::ToggleGravity => self.toggle_gravity(),
            SimEvent::BreakDam => self.break_dam(),
            SimEvent::AttractorPressed => self.set_attractor_active(true),
            SimEvent::AttractorMoved(x, y) => self.set_attractor_position(x, y),
            SimEvent::AttractorReleased => self.set_attractor_active(false),
        }
    }
}

/// `pos` is strictly inside the simulation volume: at or beyond the wall
/// margin on every side, not past the dam plane, and outside the
/// rectangular obstacle's interior, so no reactor moves a particle there.
pub open spec fn interior_position(s: FluidSimulationApp, pos: Vec2Fx) -> bool {
    let m = crate::obstacle_collision_manager::wall_margin(s.collision_manager.particle_radius);
    &&& pos.x.raw >= m.raw
    &&& pos.x.raw <= crate::fixed::fx_sub_s(s.collision_manager.box_width, m).raw
    &&& pos.y.raw >= m.raw
    &&& pos.y.raw <= crate::fixed::fx_sub_s(s.collision_manager.box_height, m).raw
    &&& pos.x.raw <= s.dam_obstacle.x_position.raw
    &&& !(pos.x.raw > s.rectangle_obstacle.top_left_corner.x.raw && pos.x.raw
        < s.rectangle_obstacle.bottom_right_corner.x.raw && pos.y.raw
        > s.rectangle_obstacle.top_left_corner.y.raw && pos.y.raw
        < s.rectangle_obstacle.bottom_right_corner.y.raw)
}

/// The simulation holds a single particle, at rest in the interior, with no
/// pending acceleration, gravity off and the attractor inactive.
pub open spec fn at_rest_isolated(s: FluidSimulationApp) -> bool {
    &&& s.wf()
    &&& s.particles@.len() == 1
    &&& s.particles@[0].velocity == v2_zero()
    &&& s.accelerations@[0] == v2_zero()
    &&& s.previous_accelerations@[0] == v2_zero()
    &&& !s.dynamics_manager.is_gravity_on
    &&& !s.external_attractor.active
    &&& interior_position(s, s.particles@[0].position)
}

/// A particle at rest in isolation stays exactly where it is: one step of
/// the simulation neither moves it nor gives it velocity or acceleration,
/// and it is again at rest in isolation, so the same holds for every later
/// step.
pub proof fn lemma_rest_particle_stationary(s0: FluidSimulationApp, s1: FluidSimulationApp)
    requires
        at_rest_isolated(s0),
        update_rel(s0, s1),
        s1.wf(),
    ensures
        s1.particles@[0].position == s0.particles@[0].position,
        s1.particles@[0].velocity == v2_zero(),
        s1.accelerations@[0] == v2_zero(),
        at_rest_isolated(s1),
{
    let p0 = s0.particles@[0];
    let zero = v2_zero();
    let dyn0 = s0.dynamics_manager;
    assert(dyn0.gravity_vector() == zero);
    crate::vec2::lemma_v2_zero_ops(zero, dyn0.delta_time);
    crate::vec2::lemma_v2_zero_ops(zero, Fx { raw: crate::particle_dynamics_manager::HALF_RAW });
    crate::vec2::lemma_v2_zero_ops(
        zero,
        crate::fixed::fx_mul_s(dyn0.delta_time, dyn0.delta_time),
    );
    assert(dyn0.velocity_after(zero, zero, zero) == zero);
    crate::vec2::lemma_v2_zero_ops(p0.position, dyn0.delta_time);
    assert(dyn0.position_after(p0.position, zero, zero) == p0.position);
    let p2 = Particle { position: p0.position, velocity: zero, ..p0 };
    assert(advanced_particle(s0, 0) == p2) by {
        assert(box_boundary(
            s0.collision_manager.box_width,
            s0.collision_manager.box_height,
            s0.collision_manager.particle_radius,
            p2,
        ) == p2);
        assert(dam_obstruction(s0.dam_obstacle, p2) == p2);
        assert(rect_obstruction(s0.rectangle_obstacle, p2) == p2);
    }
    assert(s1.particles@[0] == stamped(s0.cell_manager, p2));
    assert(s1.particles@[0].position == p0.position);
    assert(s1.particles@[0].velocity == zero);
    assert(s1.previous_accelerations@[0] == v2_add_s(zero, zero));
    assert(s1.previous_accelerations@[0] == zero) by {
        crate::vec2::lemma_v2_zero_ops(zero, dyn0.delta_time);
    }

    assert(s1.accelerations@[0] == zero) by {
        let cm = s1.cell_manager;
        let si = s0.smoothed_interaction;
        let att = s0.external_attractor;
        assert(acceleration_slot_ok(cm, si, att, s1.particles@, s1.densities@, 0, s1.accelerations@[0]));
        let (ns, dirs) = choose|ns: Seq<usize>, dirs: Seq<Vec2Fx>|
            #![auto]
            neighbour_list_ok(cm, s1.particles@, s1.particles@[0].position, ns) && dirs.len()
                == ns.len() && (forall|q: int|
                0 <= q < dirs.len() ==> valid_direction(#[trigger] dirs[q]))
                && s1.accelerations@[0] == v2_add_s(
                si.acceleration_result(s1.particles@, s1.densities@, 0, ns, dirs),
                attractor_acceleration(att, s1.particles@[0], s1.densities@[0]),
            );
        assert forall|q: int| 0 <= q < ns.len() implies (#[trigger] ns[q]) as int == 0 by {
            assert(ns.contains(ns[q]));
        }
        si.lemma_acceleration_fold_self_only(s1.particles@, s1.densities@, 0, ns, dirs);
        crate::vec2::lemma_v2_zero_ops(zero, s1.densities@[0]);
        assert(si.acceleration_result(s1.particles@, s1.densities@, 0, ns, dirs) == zero);
        assert(attractor_acceleration(att, s1.particles@[0], s1.densities@[0]) == zero);
        crate::vec2::lemma_v2_zero_ops(zero, s1.densities@[0]);
        assert(v2_add_s(zero, zero) == zero);
    }
    assert(interior_position(s1, s1.particles@[0].position));
}

/// Stationarity holds over any number of steps: along a chain of updates
/// that starts from a particle at rest in isolation, every state still
/// holds the particle at its original position, at rest.
pub proof fn lemma_rest_particle_stationary_forever(states: Seq<FluidSimulationApp>)
    requires
        states.len() >= 1,
        at_rest_isolated(states[0]),
        forall|q: int|
            0 <= q < states.len() - 1 ==> update_rel(#[trigger] states[q], states[q + 1])
                && states[q + 1].wf(),
    ensures
        forall|q: int|
            0 <= q < states.len() ==> at_rest_isolated(#[trigger] states[q])
                && states[q].particles@[0].position == states[0].particles@[0].position,
    decreases states.len(),
{
    if states.len() > 1 {
        let prefix = states.drop_last();
        assert(prefix[0] == states[0]);
        assert forall|q: int|
            0 <= q < prefix.len() - 1 implies update_rel(#[trigger] prefix[q], prefix[q + 1])
            && prefix[q + 1].wf() by {
            assert(prefix[q] == states[q] && prefix[q + 1] == states[q + 1]);
        }
        lemma_rest_particle_stationary_forever(prefix);
        let last = states.len() - 1;
        assert(states[last - 1] == prefix[last - 1]);
        lemma_rest_particle_stationary(states[last - 1], states[last]);
        assert forall|q: int|
            0 <= q < states.len() implies at_rest_isolated(#[trigger] states[q])
            && states[q].particles@[0].position == states[0].particles@[0].position by {
            if q < last {
                assert(states[q] == prefix[q]);
            }
        }
    }
}

/// What the grid's neighbour query answers, translated to geometry: the
/// returned list holds exactly the particles whose cells lie in bounds in
/// the 3x3 block around the query position.
pub proof fn lemma_neighbour_list(
    cm: CellManager,
    particles: Seq<Particle>,
    pos: Vec2Fx,
    ns: Seq<usize>,
)
    requires
        cm.table_wf(),
        cm.particle_count == particles.len(),
        forall|k: usize, j: usize|
            #[trigger] cm.spatial_lookup@.contains((k, j)) <==> (j < particles.len() && k as int
                == cm.cell_key_of_position(particles[j as int].position)),
        ns.no_duplicates(),
        forall|j: usize|
            #[trigger] ns.contains(j) <==> exists|k: usize|
                #![auto]
                cm.is_adjacent_key(pos, k) && cm.spatial_lookup@.contains((k, j)),
    ensures
        neighbour_list_ok(cm, particles, pos, ns),
{
    assert forall|j: usize|
        #[trigger] ns.contains(j) <==> (j < particles.len() && cm.neighbourhood(
            pos,
            particles[j as int].position,
        )) by {
        cm.lemma_neighbourhood_key(pos, particles[j as int].position);
        if ns.contains(j) {
            let k = choose|k: usize|
                #![auto]
                cm.is_adjacent_key(pos, k) && cm.spatial_lookup@.contains((k, j));
            assert(j < particles.len());
            assert(k as int == cm.cell_key_of_position(particles[j as int].position));
        }
        if j < particles.len() && cm.neighbourhood(pos, particles[j as int].position) {
            let k = choose|k: usize|
                cm.is_adjacent_key(pos, k) && k as int == cm.cell_key_of_position(
                    particles[j as int].position,
                );
            assert(cm.spatial_lookup@.contains((k, j)));
        }
    }
}

} // verus!
