//! The SPH interaction engine: local density from neighbour masses, then
//! pressure and viscosity acceleration.
//!
//! Both passes fold over the neighbour index list the grid hands them, in
//! that list's (deterministic) order, and their contracts state the result
//! as exactly that fold.  A neighbour at exactly the same position gets a
//! random substitute direction, so the acceleration contract holds for some
//! sequence of valid directions rather than for one fixed value.

use vstd::prelude::*;
use crate::fixed::{
    fx_add_s, fx_div_s, fx_mul_s, fx_neg_s, fx_sub_s, lemma_fx_mul_nonneg, lemma_sat64_nonneg,
    Fx, FX_ONE,
};
use crate::kernels::{
    sb_smoothing_kernel, sb_smoothing_kernel_derivative, sb_smoothing_kernel_derivative_s,
    sb_smoothing_kernel_s, spiky_smoothing_kernel, spiky_smoothing_kernel_s,
    viscosity_smoothing_kernel_second_derivative, viscosity_smoothing_kernel_second_derivative_s,
};
use crate::particle::Particle;
use crate::rng::{random_direction, valid_direction};
use crate::vec2::{
    v2_add_s, v2_div_s, v2_len_s, v2_normalise_s, v2_scale_s, v2_sub_s, v2_zero, Vec2Fx,
};

verus! {

/// One half, used to average the two particles' pressures.
pub const TWO_RAW: i64 = 8589934592;

pub struct SmoothedInteraction {
    pub pressure_multiplier: Fx,
    pub target_density: Fx,
    pub smoothing_radius: Fx,
    pub viscosity: Fx,
}

impl SmoothedInteraction {
    /// Pressure from density deviation: `-k * (density - target)`.
    pub open spec fn pressure_of(self, density: Fx) -> Fx {
        fx_mul_s(fx_neg_s(self.pressure_multiplier), fx_sub_s(density, self.target_density))
    }

    /// The symmetrised pressure of a pair, guaranteeing pairwise force
    /// cancellation.
    pub open spec fn shared_pressure(self, density_a: Fx, density_b: Fx) -> Fx {
        fx_div_s(
            fx_add_s(self.pressure_of(density_a), self.pressure_of(density_b)),
            Fx { raw: TWO_RAW },
        )
    }

    /// What neighbour `pj` adds to `pi`'s density.
    pub open spec fn density_contribution(self, pi: Particle, pj: Particle) -> Fx {
        let distance = v2_len_s(v2_sub_s(pi.position, pj.position));
        fx_mul_s(pj.mass, sb_smoothing_kernel_s(distance, self.smoothing_radius))
    }

    /// The density of particle `i`: its own self-contribution at distance
    /// zero plus one term per neighbour index, the particle itself skipped.
    pub open spec fn density_fold(self, particles: Seq<Particle>, i: int, ns: Seq<usize>) -> Fx
        decreases ns.len(),
    {
        if ns.len() == 0 {
            fx_mul_s(
                particles[i].mass,
                spiky_smoothing_kernel_s(Fx { raw: 0 }, self.smoothing_radius),
            )
        } else {
            let prev = self.density_fold(particles, i, ns.drop_last());
            let j = ns.last() as int;
            if particles[i].id == particles[j].id {
                prev
            } else {
                fx_add_s(prev, self.density_contribution(particles[i], particles[j]))
            }
        }
    }

    /// What neighbour `pj` adds to `pi`'s acceleration, given both local
    /// densities and the substitute direction used when the two positions
    /// coincide.  A zero pressure slope skips the pair entirely.
    pub open spec fn acceleration_contribution(
        self,
        pi: Particle,
        pj: Particle,
        di: Fx,
        dj: Fx,
        dir: Vec2Fx,
    ) -> Vec2Fx {
        let relative = v2_sub_s(pi.position, pj.position);
        let distance = v2_len_s(relative);
        let direction = if distance.raw == 0 {
            dir
        } else {
            relative
        };
        let slope = sb_smoothing_kernel_derivative_s(distance, self.smoothing_radius);
        if slope.raw == 0 {
            v2_zero()
        } else {
            let pressure_term = v2_div_s(
                v2_scale_s(
                    v2_scale_s(v2_scale_s(v2_normalise_s(direction), self.shared_pressure(di, dj)), slope),
                    pj.mass,
                ),
                dj,
            );
            let influence = viscosity_smoothing_kernel_second_derivative_s(
                distance,
                self.smoothing_radius,
            );
            let viscosity_term = v2_div_s(
                v2_scale_s(
                    v2_scale_s(v2_scale_s(v2_sub_s(pj.velocity, pi.velocity), self.viscosity), pj.mass),
                    influence,
                ),
                dj,
            );
            v2_add_s(pressure_term, viscosity_term)
        }
    }

    /// The summed pairwise acceleration of particle `i`, before the final
    /// division by its own density.
    pub open spec fn acceleration_fold(
        self,
        particles: Seq<Particle>,
        densities: Seq<Fx>,
        i: int,
        ns: Seq<usize>,
        dirs: Seq<Vec2Fx>,
    ) -> Vec2Fx
        decreases ns.len(),
    {
        if ns.len() == 0 {
            v2_zero()
        } else {
            let prev = self.acceleration_fold(
                particles,
                densities,
                i,
                ns.drop_last(),
                dirs.drop_last(),
            );
            let j = ns.last() as int;
            if particles[i].id == particles[j].id {
                prev
            } else {
                v2_add_s(
                    prev,
                    self.acceleration_contribution(
                        particles[i],
                        particles[j],
                        densities[i],
                        densities[j],
                        dirs.last(),
                    ),
                )
            }
        }
    }

    /// The full acceleration of particle `i` for one choice of substitute
    /// directions.
    pub open spec fn acceleration_result(
        self,
        particles: Seq<Particle>,
        densities: Seq<Fx>,
        i: int,
        ns: Seq<usize>,
        dirs: Seq<Vec2Fx>,
    ) -> Vec2Fx {
        v2_div_s(self.acceleration_fold(particles, densities, i, ns, dirs), densities[i])
    }

    pub fn new(
        pressure_multiplier: Fx,
        target_density: Fx,
        smoothing_radius: Fx,
        viscosity: Fx,
    ) -> (r: SmoothedInteraction)
        ensures
            r.pressure_multiplier == pressure_multiplier,
            r.target_density == target_density,
            r.smoothing_radius == smoothing_radius,
            r.viscosity == viscosity,
    {
        SmoothedInteraction { pressure_multiplier, target_density, smoothing_radius, viscosity }
    }

    fn convert_density_to_pressure(&self, density: Fx) -> (r: Fx)
        ensures
            r == self.pressure_of(density),
    {
        crate::fixed::fx_mul(
            crate::fixed::fx_neg(self.pressure_multiplier),
            crate::fixed::fx_sub(density, self.target_density),
        )
    }

    fn calculate_shared_pressure(&self, density_a: Fx, density_b: Fx) -> (r: Fx)
        ensures
            r == self.shared_pressure(density_a, density_b),
    {
        crate::fixed::fx_div(
            crate::fixed::fx_add(
                self.convert_density_to_pressure(density_a),
                self.convert_density_to_pressure(density_b),
            ),
            Fx { raw: TWO_RAW },
        )
    }

    /// The density pass for one particle: fold the neighbour list.
    pub fn calculate_density(
        &self,
        particle_index: usize,
        adjacent_particle_indices: &Vec<usize>,
        particles: &Vec<Particle>,
    ) -> (density: Fx)
        requires
            particle_index < particles@.len(),
            forall|q: int|
                0 <= q < adjacent_particle_indices@.len() ==> (#[trigger] adjacent_particle_indices@[q])
                    < particles@.len(),
        ensures
            density == self.density_fold(
                particles@,
                particle_index as int,
                adjacent_particle_indices@,
            ),
    {
        let mut density = crate::fixed::fx_mul(
            particles[particle_index].mass,
            spiky_smoothing_kernel(Fx { raw: 0 }, self.smoothing_radius),
        );
        let mut q: usize = 0;
        while q < adjacent_particle_indices.len()
            invariant
                particle_index < particles@.len(),
                q <= adjacent_particle_indices@.len(),
                forall|qq: int|
                    0 <= qq < adjacent_particle_indices@.len() ==> (
                    #[trigger] adjacent_particle_indices@[qq]) < particles@.len(),
                density == self.density_fold(
                    particles@,
                    particle_index as int,
                    adjacent_particle_indices@.subrange(0, q as int),
                ),
            decreases adjacent_particle_indices@.len() - q,
        {
            let j = adjacent_particle_indices[q];
            let ghost prefix = adjacent_particle_indices@.subrange(0, q as int);
            let ghost prefix1 = adjacent_particle_indices@.subrange(0, q as int + 1);
            proof {
                assert(prefix1.drop_last() =~= prefix);
                assert(prefix1.last() == adjacent_particle_indices@[q as int]);
            }
            if particles[particle_index].id != particles[j].id {
                let relative = particles[particle_index].position.sub(particles[j].position);
                let distance = relative.length();
                let influence = sb_smoothing_kernel(distance, self.smoothing_radius);
                density = crate::fixed::fx_add(
                    density,
                    crate::fixed::fx_mul(particles[j].mass, influence),
                );
            }
            q = q + 1;
        }
        proof {
            assert(adjacent_particle_indices@.subrange(
                0,
                adjacent_particle_indices@.len() as int,
            ) =~= adjacent_particle_indices@);
        }
        density
    }

    /// The acceleration pass for one particle: fold the neighbour list with
    /// pressure and viscosity terms, then divide by the particle's own
    /// density.  The result is the spec-level fold for some sequence of
    /// valid substitute directions (fresh randomness defuses coincident
    /// pairs).
    pub fn calculate_acceleration(
        &self,
        particle_index: usize,
        adjacent_particle_indices: &Vec<usize>,
        particles: &Vec<Particle>,
        local_densities: &Vec<Fx>,
    ) -> (acceleration: Vec2Fx)
        requires
            particle_index < particles@.len(),
            local_densities@.len() == particles@.len(),
            forall|q: int|
                0 <= q < adjacent_particle_indices@.len() ==> (#[trigger] adjacent_particle_indices@[q])
                    < particles@.len(),
        ensures
            exists|dirs: Seq<Vec2Fx>|
                #![auto]
                dirs.len() == adjacent_particle_indices@.len() && (forall|q: int|
                    0 <= q < dirs.len() ==> valid_direction(#[trigger] dirs[q]))
                    && acceleration == self.acceleration_result(
                    particles@,
                    local_densities@,
                    particle_index as int,
                    adjacent_particle_indices@,
                    dirs,
                ),
    {
        let mut acceleration = Vec2Fx::zero();
        let ghost mut dirs: Seq<Vec2Fx> = Seq::empty();
        let mut q: usize = 0;
        while q < adjacent_particle_indices.len()
            invariant
                particle_index < particles@.len(),
                local_densities@.len() == particles@.len(),
                q <= adjacent_particle_indices@.len(),
                forall|qq: int|
                    0 <= qq < adjacent_particle_indices@.len() ==> (
                    #[trigger] adjacent_particle_indices@[qq]) < particles@.len(),
                dirs.len() == q,
                forall|qq: int| 0 <= qq < dirs.len() ==> valid_direction(#[trigger] dirs[qq]),
                acceleration == self.acceleration_fold(
                    particles@,
                    local_densities@,
                    particle_index as int,
                    adjacent_particle_indices@.subrange(0, q as int),
                    dirs,
                ),
            decreases adjacent_particle_indices@.len() - q,
        {
            let j = adjacent_particle_indices[q];
            let ghost prefix = adjacent_particle_indices@.subrange(0, q as int);
            let ghost prefix1 = adjacent_particle_indices@.subrange(0, q as int + 1);
            let ghost dirs0 = dirs;
            let ghost acc0 = acceleration;
            proof {
                assert(prefix1.drop_last() =~= prefix);
                assert(prefix1.last() == adjacent_particle_indices@[q as int]);
            }
            if particles[particle_index].id == particles[j].id {
                proof {
                    dirs = dirs.push(Vec2Fx { x: Fx { raw: FX_ONE }, y: Fx { raw: 0 } });
                    assert(dirs.drop_last() =~= dirs0);
                    assert(self.acceleration_fold(
                        particles@,
                        local_densities@,
                        particle_index as int,
                        prefix1,
                        dirs,
                    ) == acc0);
                }
            } else {
                let relative = particles[particle_index].position.sub(particles[j].position);
                let distance = relative.length();
                let direction = if distance.raw == 0 {
                    random_direction()
                } else {
                    relative
                };
                proof {
                    dirs = dirs.push(if v2_len_s(relative).raw == 0 {
                        direction
                    } else {
                        Vec2Fx { x: Fx { raw: FX_ONE }, y: Fx { raw: 0 } }
                    });
                    assert(dirs.drop_last() =~= dirs0);
                }
                let ghost contribution = self.acceleration_contribution(
                    particles@[particle_index as int],
                    particles@[j as int],
                    local_densities@[particle_index as int],
                    local_densities@[j as int],
                    dirs.last(),
                );
                let slope = sb_smoothing_kernel_derivative(distance, self.smoothing_radius);
                if slope.raw != 0 {
                    let shared = self.calculate_shared_pressure(
                        local_densities[particle_index],
                        local_densities[j],
                    );
                    let pressure_term = direction.normalise().scale(shared).scale(slope).scale(
                        particles[j].mass,
                    ).div(local_densities[j]);
                    let influence = viscosity_smoothing_kernel_second_derivative(
                        distance,
                        self.smoothing_radius,
                    );
                    let viscosity_term = particles[j].velocity.sub(
                        particles[particle_index].velocity,
                    ).scale(self.viscosity).scale(particles[j].mass).scale(influence).div(
                        local_densities[j],
                    );
                    acceleration = acceleration.add(pressure_term.add(viscosity_term));
                    proof {
                        assert(acceleration == v2_add_s(acc0, contribution));
                    }
                } else {
                    proof {
                        assert(contribution == v2_zero());
                        assert(acceleration == v2_add_s(acc0, contribution));
                    }
                }
                proof {
                    assert(self.acceleration_fold(
                        particles@,
                        local_densities@,
                        particle_index as int,
                        prefix1,
                        dirs,
                    ) == v2_add_s(acc0, contribution));
                }
            }
            q = q + 1;
        }
        proof {
            assert(adjacent_particle_indices@.subrange(
                0,
                adjacent_particle_indices@.len() as int,
            ) =~= adjacent_particle_indices@);
        }
        let result = acceleration.div(local_densities[particle_index]);
        proof {
            assert(result == self.acceleration_result(
                particles@,
                local_densities@,
                particle_index as int,
                adjacent_particle_indices@,
                dirs,
            ));
        }
        result
    }

    /// A neighbour list naming only the particle itself contributes no
    /// force at all: every entry is skipped as self-interaction.
    pub proof fn lemma_acceleration_fold_self_only(
        self,
        particles: Seq<Particle>,
        densities: Seq<Fx>,
        i: int,
        ns: Seq<usize>,
        dirs: Seq<Vec2Fx>,
    )
        requires
            0 <= i < particles.len(),
            forall|q: int| 0 <= q < ns.len() ==> (#[trigger] ns[q]) as int == i,
        ensures
            self.acceleration_fold(particles, densities, i, ns, dirs) == v2_zero(),
        decreases ns.len(),
    {
        if ns.len() > 0 {
            self.lemma_acceleration_fold_self_only(
                particles,
                densities,
                i,
                ns.drop_last(),
                dirs.drop_last(),
            );
            assert(ns.last() == ns[ns.len() - 1]);
        }
    }

    /// With the reference mass and smoothing radius, the self-contribution
    /// term alone is strictly positive, so two particles at identical
    /// coordinates still produce a strictly positive, divisible density.
    pub proof fn lemma_reference_density_strictly_positive(
        self,
        particles: Seq<Particle>,
        i: int,
        ns: Seq<usize>,
    )
        requires
            self.smoothing_radius.raw == 14 * FX_ONE,
            0 <= i < particles.len(),
            particles[i].mass.raw == crate::particle::PARTICLE_MASS_RAW,
            forall|q: int| 0 <= q < ns.len() ==> 0 <= (#[trigger] ns[q]) < particles.len(),
            forall|j: int| 0 <= j < particles.len() ==> (#[trigger] particles[j]).mass.raw >= 0,
        ensures
            self.density_fold(particles, i, ns).raw > 0,
    {
        self.lemma_density_positive(particles, i, ns);
        let r = Fx { raw: (14 * FX_ONE) as i64 };
        let d0 = Fx { raw: 0 };
        assert(r.raw == 60129542144);
        assert((60129542144 as int) * (60129542144 as int) == 3615561838447072116736)
            by (nonlinear_arith);
        assert((841813590016 as int) * (841813590016 as int) == 708650120335626134880256)
            by (nonlinear_arith);
        assert((164995463643136 as int) * (841813590016 as int) == 138895423585782722436530176)
            by (nonlinear_arith);
        assert((13493037705 as int) * (32339110874054656 as int) == 436352842369794979638804480)
            by (nonlinear_arith);
        assert((101596313149154880 as int) * (4294967296 as int) == 436352842369794979638804480)
            by (nonlinear_arith);
        assert((841813590016 as int) * (60129542144 as int) == 50617865738259009634304)
            by (nonlinear_arith);
        assert((11785390260224 as int) * (4294967296 as int) == 50617865738259009634304)
            by (nonlinear_arith);
        assert((3435974 as int) * (7473381 as int) == 25678342808094) by (nonlinear_arith);
        let r2 = fx_mul_s(r, r);
        crate::fixed::lemma_tdiv_exact(
            3615561838447072116736,
            4294967296,
            841813590016,
            0,
        );
        assert(r2.raw == 841813590016);
        let r4 = fx_mul_s(r2, r2);
        crate::fixed::lemma_tdiv_exact(
            708650120335626134880256,
            4294967296,
            164995463643136,
            0,
        );
        assert(r4.raw == 164995463643136);
        let r6 = fx_mul_s(r4, r2);
        crate::fixed::lemma_tdiv_exact(
            138895423585782722436530176,
            4294967296,
            32339110874054656,
            0,
        );
        assert(r6.raw == 32339110874054656);
        let pir6 = fx_mul_s(crate::kernels::fx_pi(), r6);
        crate::fixed::lemma_tdiv_exact(
            436352842369794979638804480,
            4294967296,
            101596313149154880,
            0,
        );
        assert(pir6.raw == 101596313149154880);
        let vol = fx_div_s(pir6, crate::kernels::fx_int(15));
        crate::fixed::lemma_tdiv_exact(
            436352842369794979638804480,
            64424509440,
            6773087543276992,
            0,
        );
        assert(vol.raw == 6773087543276992);
        let rd3 = fx_mul_s(fx_mul_s(fx_sub_s(r, d0), fx_sub_s(r, d0)), fx_sub_s(r, d0));
        crate::fixed::lemma_tdiv_exact(
            50617865738259009634304,
            4294967296,
            11785390260224,
            0,
        );
        assert(rd3.raw == 11785390260224);
        let w0 = spiky_smoothing_kernel_s(d0, r);
        assert(w0 == fx_div_s(rd3, vol));
        crate::fixed::lemma_tdiv_exact(
            50617865738259009634304,
            6773087543276992,
            7473381,
            1980996059884352,
        );
        assert(w0.raw == 7473381);
        crate::fixed::lemma_tdiv_exact(25678342808094, 4294967296, 5978, 3028312606);
        assert(fx_mul_s(Fx { raw: crate::particle::PARTICLE_MASS_RAW }, w0).raw == 5978);
    }

    /// Every density contribution is nonnegative, so the folded density
    /// never drops below the self-contribution term; with a positive
    /// self-term (mass times the kernel at distance zero) the density of any
    /// particle, including one sharing its exact position with another, is
    /// strictly positive and safe to divide by.
    pub proof fn lemma_density_positive(
        self,
        particles: Seq<Particle>,
        i: int,
        ns: Seq<usize>,
    )
        requires
            0 <= i < particles.len(),
            forall|q: int| 0 <= q < ns.len() ==> 0 <= (#[trigger] ns[q]) < particles.len(),
            forall|j: int| 0 <= j < particles.len() ==> (#[trigger] particles[j]).mass.raw >= 0,
        ensures
            self.density_fold(particles, i, ns).raw >= fx_mul_s(
                particles[i].mass,
                spiky_smoothing_kernel_s(Fx { raw: 0 }, self.smoothing_radius),
            ).raw,
        decreases ns.len(),
    {
        let base = fx_mul_s(
            particles[i].mass,
            spiky_smoothing_kernel_s(Fx { raw: 0 }, self.smoothing_radius),
        );
        assert(base.raw >= 0) by {
            crate::kernels::lemma_spiky_kernel_nonneg(Fx { raw: 0 }, self.smoothing_radius);
            lemma_fx_mul_nonneg(
                particles[i].mass,
                spiky_smoothing_kernel_s(Fx { raw: 0 }, self.smoothing_radius),
            );
        }
        if ns.len() == 0 {
        } else {
            self.lemma_density_positive(particles, i, ns.drop_last());
            let j = ns.last() as int;
            if particles[i].id == particles[j].id {
            } else {
                let prev = self.density_fold(particles, i, ns.drop_last());
                let contribution = self.density_contribution(particles[i], particles[j]);
                assert(contribution.raw >= 0) by {
                    let distance = v2_len_s(v2_sub_s(particles[i].position, particles[j].position));
                    assert(distance.raw >= 0) by {
                        crate::vec2::lemma_isqrt_bounds(
                            crate::vec2::v2_sqlen_raw(
                                v2_sub_s(particles[i].position, particles[j].position),
                            ) as nat,
                        );
                    }
                    crate::kernels::lemma_sb_kernel_nonneg(distance, self.smoothing_radius);
                    lemma_fx_mul_nonneg(
                        particles[j].mass,
                        sb_smoothing_kernel_s(distance, self.smoothing_radius),
                    );
                }
                assert(fx_add_s(prev, contribution).raw >= prev.raw) by {
                    lemma_sat64_nonneg(prev.raw + contribution.raw);
                }
            }
        }
    }
}

} // verus!
