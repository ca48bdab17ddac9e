//! The uniform spatial hash grid.
//!
//! The box is split into cells of side `2 * smoothing_radius`.  Each step the
//! grid is rebuilt from scratch: every particle is stamped with the key of
//! its cell, the `(cell_key, particle_index)` pairs are sorted by key (ties
//! broken by index, so the enumeration order is fully deterministic), and a
//! start-index table marks the first occurrence of each key.  A particle
//! whose cell coordinate falls outside the grid is stamped with the sentinel
//! key `number_of_cells`, which no query ever scans, so such a particle is
//! never returned as a neighbour.

use vstd::prelude::*;
use vstd::seq_lib::{to_multiset_contains, to_multiset_insert, to_multiset_remove};
use crate::config::{ConfigError, MAX_BOX_DIM, MAX_CELLS};
use crate::fixed::{floor_div_i64, fx_add, fx_add_s, Fx, FX_ONE};
use crate::particle::Particle;
use crate::vec2::Vec2Fx;

verus! {

pub struct CellManager {
    pub particle_count: usize,
    pub spatial_lookup: Vec<(usize, usize)>,
    pub starting_indices: Vec<usize>,
    pub number_of_columns: usize,
    pub number_of_rows: usize,
    pub cell_size: Fx,
    pub number_of_cells: usize,
}

/// Ordering of lookup entries: by cell key, ties by particle index.
pub open spec fn entry_le(a: (usize, usize), b: (usize, usize)) -> bool {
    a.0 < b.0 || (a.0 == b.0 && a.1 <= b.1)
}

pub open spec fn lookup_sorted(s: Seq<(usize, usize)>) -> bool {
    forall|p: int, q: int| 0 <= p < q < s.len() ==> entry_le(#[trigger] s[p], #[trigger] s[q])
}

/// No particle index appears twice in the table.
pub open spec fn distinct_indices(s: Seq<(usize, usize)>) -> bool {
    forall|p: int, q: int| 0 <= p < q < s.len() ==> (#[trigger] s[p]).1 != (#[trigger] s[q]).1
}

/// Ceiling of `box_dim * FX_ONE / cell`, the number of cells along one axis.
pub open spec fn grid_extent(box_dim: int, cell: int) -> int
    recommends
        cell > 0,
{
    (box_dim * FX_ONE + cell - 1) / cell
}

/// Column offset (-1, 0, or 1) encoded by the combination number `dd`.
pub open spec fn combo_dx(dd: int) -> int {
    dd / 3 - 1
}

/// Row offset (-1, 0, or 1) encoded by the combination number `dd`.
pub open spec fn combo_dy(dd: int) -> int {
    dd % 3 - 1
}

/// Distinct combination numbers encode distinct offset pairs.
pub proof fn lemma_combo_distinct(d1: int, d2: int)
    requires
        0 <= d1 < 9,
        0 <= d2 < 9,
        combo_dx(d1) == combo_dx(d2),
        combo_dy(d1) == combo_dy(d2),
    ensures
        d1 == d2,
{
    vstd::arithmetic::div_mod::lemma_fundamental_div_mod(d1, 3);
    vstd::arithmetic::div_mod::lemma_fundamental_div_mod(d2, 3);
}

/// The particle as it looks after the grid stamps its cell key.
pub open spec fn stamped(cm: CellManager, p: Particle) -> Particle {
    Particle { cell_key: cm.cell_key_of_position(p.position) as usize, ..p }
}

/// Start-index correctness restricted to the first `si` lookup positions.
pub open spec fn start_partial_ok(
    lu: Seq<(usize, usize)>,
    starts: Seq<usize>,
    n: int,
    k: int,
    si: int,
) -> bool {
    let s = starts[k] as int;
    if s == n {
        forall|j: int| 0 <= j < si ==> (#[trigger] lu[j]).0 != k
    } else {
        &&& 0 <= s < si
        &&& lu[s].0 == k
        &&& forall|j: int| 0 <= j < s ==> (#[trigger] lu[j]).0 != k
    }
}

/// Strict "sorts earlier" test: `a` must come before `b`.
fn entry_before(a: (usize, usize), b: (usize, usize)) -> (r: bool)
    ensures
        r == !entry_le(b, a),
{
    a.0 < b.0 || (a.0 == b.0 && a.1 < b.1)
}

/// Insertion sort of the lookup table by (key, index), preserving the
/// multiset of entries.
fn sort_lookup(v: &mut Vec<(usize, usize)>)
    ensures
        final(v)@.len() == old(v)@.len(),
        final(v)@.to_multiset() == old(v)@.to_multiset(),
        lookup_sorted(final(v)@),
{
    broadcast use to_multiset_insert, to_multiset_remove, to_multiset_contains;
    broadcast use vstd::multiset::group_multiset_axioms;

    let ghost orig = v@;
    let mut i: usize = 1;
    while i < v.len()
        invariant
            i >= 1,
            v@.len() == orig.len(),
            v@.to_multiset() == orig.to_multiset(),
            forall|p: int, q: int|
                0 <= p < q < i && q < v@.len() ==> entry_le(#[trigger] v@[p], #[trigger] v@[q]),
        decreases v@.len() - i,
    {
        let ghost before = v@;
        let x = v.remove(i);
        let ghost mid = v@;
        proof {
            to_multiset_remove(before, i as int);
            assert(mid.to_multiset() == before.to_multiset().remove(x));
            assert(mid.to_multiset() == orig.to_multiset().remove(x));
        }
        let mut j: usize = i;
        while j > 0 && entry_before(x, v[j - 1])
            invariant
                j <= i,
                i < before.len(),
                v@ == mid,
                mid.len() == before.len() - 1,
                forall|p: int| j <= p < i ==> !entry_le(#[trigger] mid[p], x),
            decreases j,
        {
            j = j - 1;
        }
        v.insert(j, x);
        proof {
            assert(v@.to_multiset() =~= orig.to_multiset()) by {
                to_multiset_insert(mid, j as int, x);
                assert(v@.to_multiset() == mid.to_multiset().insert(x));
                assert(before.to_multiset().count(x) > 0) by {
                    assert(before[i as int] == x);
                    assert(before.contains(x));
                    to_multiset_contains(before, x);
                }
                assert(orig.to_multiset().count(x) > 0);
                assert(v@.to_multiset() =~= orig.to_multiset().remove(x).insert(x));
            }
            assert forall|p: int, q: int|
                0 <= p < q < i + 1 && q < v@.len() implies entry_le(
                #[trigger] v@[p],
                #[trigger] v@[q],
            ) by {
                let jj = j as int;
                if q < jj {
                    assert(v@[p] == mid[p] && v@[q] == mid[q]);
                } else if q == jj {
                    assert(v@[q] == x);
                    if p < jj {
                        assert(v@[p] == mid[p]);
                        assert(entry_le(mid[jj - 1], x));
                        assert(entry_le(mid[p], mid[jj - 1]) || p == jj - 1);
                    }
                } else {
                    assert(v@[q] == mid[q - 1]);
                    if p < jj {
                        assert(v@[p] == mid[p]);
                        if q - 1 < i {
                            assert(!entry_le(mid[q - 1], x));
                        }
                        if jj > 0 {
                            assert(entry_le(mid[jj - 1], x));
                        }
                        assert(entry_le(mid[p], mid[q - 1]) || p == q - 1);
                    } else if p == jj {
                        assert(v@[p] == x);
                        assert(!entry_le(mid[q - 1], x));
                    } else {
                        assert(v@[p] == mid[p - 1]);
                    }
                }
            }
        }
        i = i + 1;
    }
}

impl CellManager {
    /// Consistency of the geometry fields.
    pub open spec fn geometry_wf(self) -> bool {
        &&& self.cell_size.raw > 0
        &&& self.number_of_columns >= 1
        &&& self.number_of_rows >= 1
        &&& self.number_of_cells == self.number_of_columns * self.number_of_rows
        &&& self.number_of_cells <= MAX_CELLS
    }

    /// The column of a position (may fall outside `[0, columns)`).
    pub open spec fn coord_x(self, pos: Vec2Fx) -> int {
        pos.x.raw as int / self.cell_size.raw as int
    }

    /// The row of a position (may fall outside `[0, rows)`).
    pub open spec fn coord_y(self, pos: Vec2Fx) -> int {
        pos.y.raw as int / self.cell_size.raw as int
    }

    pub open spec fn coord_in_bounds(self, cx: int, cy: int) -> bool {
        0 <= cx < self.number_of_columns && 0 <= cy < self.number_of_rows
    }

    /// Row-major (by column) key of an in-bounds cell coordinate.
    pub open spec fn key_at(self, cx: int, cy: int) -> int {
        cx * self.number_of_rows + cy
    }

    /// The key a particle at `pos` is stamped with: its cell's key when the
    /// coordinate is in bounds, the sentinel `number_of_cells` otherwise.
    pub open spec fn cell_key_of_position(self, pos: Vec2Fx) -> int {
        if self.coord_in_bounds(self.coord_x(pos), self.coord_y(pos)) {
            self.key_at(self.coord_x(pos), self.coord_y(pos))
        } else {
            self.number_of_cells as int
        }
    }

    /// Correctness of one start-index entry: it points at the first lookup
    /// position holding the key, or equals the sentinel `particle_count`
    /// when the cell is empty.
    pub open spec fn start_ok(self, k: int) -> bool {
        let s = self.starting_indices[k] as int;
        let lu = self.spatial_lookup@;
        if s == self.particle_count {
            forall|j: int| 0 <= j < lu.len() ==> (#[trigger] lu[j]).0 != k
        } else {
            &&& 0 <= s < lu.len()
            &&& lu[s].0 == k
            &&& forall|j: int| 0 <= j < s ==> (#[trigger] lu[j]).0 != k
        }
    }

    /// Full well-formedness of the table.
    pub open spec fn table_wf(self) -> bool {
        &&& self.geometry_wf()
        &&& self.spatial_lookup@.len() == self.particle_count
        &&& self.starting_indices@.len() == self.number_of_cells
        &&& lookup_sorted(self.spatial_lookup@)
        &&& distinct_indices(self.spatial_lookup@)
        &&& forall|j: int|
            0 <= j < self.spatial_lookup@.len() ==> (#[trigger] self.spatial_lookup@[j]).1
                < self.particle_count && self.spatial_lookup@[j].0 <= self.number_of_cells
        &&& forall|k: int| 0 <= k < self.number_of_cells ==> self.start_ok(k)
    }

    /// An in-bounds coordinate's key lies strictly below `number_of_cells`.
    pub proof fn lemma_key_in_range(self, cx: int, cy: int)
        requires
            self.geometry_wf(),
            self.coord_in_bounds(cx, cy),
        ensures
            0 <= self.key_at(cx, cy) < self.number_of_cells,
    {
        let rows = self.number_of_rows as int;
        let cols = self.number_of_columns as int;
        assert(0 <= cx * rows + cy < cols * rows) by (nonlinear_arith)
            requires
                0 <= cx < cols,
                0 <= cy < rows,
                rows >= 1,
        ;
    }

    /// The key map is invertible on in-bounds coordinates: dividing the key
    /// by the row count recovers the column, the remainder the row.
    pub proof fn lemma_cell_key_round_trip(self, cx: int, cy: int)
        requires
            self.geometry_wf(),
            self.coord_in_bounds(cx, cy),
        ensures
            self.key_at(cx, cy) / (self.number_of_rows as int) == cx,
            self.key_at(cx, cy) % (self.number_of_rows as int) == cy,
    {
        let rows = self.number_of_rows as int;
        vstd::arithmetic::div_mod::lemma_fundamental_div_mod_converse(
            cx * rows + cy,
            rows,
            cx,
            cy,
        );
    }

    /// Keys increase strictly with the row-major order of in-bounds
    /// coordinates; in particular distinct coordinates get distinct keys.
    pub proof fn lemma_cell_keys_monotone(self, x1: int, y1: int, x2: int, y2: int)
        requires
            self.geometry_wf(),
            self.coord_in_bounds(x1, y1),
            self.coord_in_bounds(x2, y2),
            x1 < x2 || (x1 == x2 && y1 < y2),
        ensures
            self.key_at(x1, y1) < self.key_at(x2, y2),
    {
        let rows = self.number_of_rows as int;
        assert(x1 * rows + y1 < x2 * rows + y2) by (nonlinear_arith)
            requires
                x1 < x2 || (x1 == x2 && y1 < y2),
                0 <= y1 < rows,
                0 <= y2 < rows,
                rows >= 1,
        ;
    }

    pub proof fn lemma_cell_keys_unique(self, x1: int, y1: int, x2: int, y2: int)
        requires
            self.geometry_wf(),
            self.coord_in_bounds(x1, y1),
            self.coord_in_bounds(x2, y2),
            self.key_at(x1, y1) == self.key_at(x2, y2),
        ensures
            x1 == x2 && y1 == y2,
    {
        self.lemma_cell_key_round_trip(x1, y1);
        self.lemma_cell_key_round_trip(x2, y2);
    }

    /// Build a grid for the given box and smoothing radius.  The cell side
    /// is `2 * smoothing_radius`; columns and rows are the ceilings of the
    /// box sides divided by the cell side.  Rejects non-positive radii,
    /// degenerate boxes, and grids above `MAX_CELLS` cells.
    pub fn new(particle_count: usize, box_dimensions: [usize; 2], smoothing_radius: Fx) -> (result:
        Result<CellManager, ConfigError>)
        ensures
            match result {
                Ok(cm) => {
                    &&& smoothing_radius.raw > 0
                    &&& 1 <= box_dimensions[0] <= MAX_BOX_DIM
                    &&& 1 <= box_dimensions[1] <= MAX_BOX_DIM
                    &&& cm.table_wf()
                    &&& cm.particle_count == particle_count
                    &&& cm.cell_size == fx_add_s(smoothing_radius, smoothing_radius)
                    &&& cm.number_of_columns as int == grid_extent(
                        box_dimensions[0] as int,
                        cm.cell_size.raw as int,
                    )
                    &&& cm.number_of_rows as int == grid_extent(
                        box_dimensions[1] as int,
                        cm.cell_size.raw as int,
                    )
                    &&& grid_extent(box_dimensions[0] as int, cm.cell_size.raw as int)
                        * grid_extent(box_dimensions[1] as int, cm.cell_size.raw as int)
                        <= MAX_CELLS
                    &&& forall|j: int|
                        0 <= j < particle_count ==> #[trigger] cm.spatial_lookup@[j] == (
                        cm.number_of_cells,
                        j as usize,
                    )
                },
                Err(ConfigError::SmoothingRadiusOutOfRange) => smoothing_radius.raw <= 0,
                Err(ConfigError::DegenerateBox) => smoothing_radius.raw > 0 && (box_dimensions[0]
                    == 0 || box_dimensions[0] > MAX_BOX_DIM || box_dimensions[1] == 0
                    || box_dimensions[1] > MAX_BOX_DIM),
                Err(ConfigError::GridTooLarge) => smoothing_radius.raw > 0 && 1 <= box_dimensions[0]
                    <= MAX_BOX_DIM && 1 <= box_dimensions[1] <= MAX_BOX_DIM && grid_extent(
                    box_dimensions[0] as int,
                    fx_add_s(smoothing_radius, smoothing_radius).raw as int,
                ) * grid_extent(
                    box_dimensions[1] as int,
                    fx_add_s(smoothing_radius, smoothing_radius).raw as int,
                ) > MAX_CELLS,
                Err(_) => false,
            },
    {
        if smoothing_radius.raw <= 0 {
            return Err(ConfigError::SmoothingRadiusOutOfRange);
        }
        if box_dimensions[0] == 0 || box_dimensions[0] > MAX_BOX_DIM || box_dimensions[1] == 0
            || box_dimensions[1] > MAX_BOX_DIM {
            return Err(ConfigError::DegenerateBox);
        }
        let cell_size = fx_add(smoothing_radius, smoothing_radius);
        let cell = cell_size.raw as u64;
        let bw: u64 = (box_dimensions[0] as u64) * (FX_ONE as u64);
        let bh: u64 = (box_dimensions[1] as u64) * (FX_ONE as u64);
        let cols64: u64 = (bw + (cell - 1)) / cell;
        let rows64: u64 = (bh + (cell - 1)) / cell;
        proof {
            assert(bw >= 1 && bh >= 1);
            assert(cols64 >= 1 && rows64 >= 1) by {
                vstd::arithmetic::div_mod::lemma_div_is_ordered(
                    cell as int,
                    bw as int + cell - 1,
                    cell as int,
                );
                vstd::arithmetic::div_mod::lemma_div_is_ordered(
                    cell as int,
                    bh as int + cell - 1,
                    cell as int,
                );
                assert(cell as int / cell as int == 1) by (nonlinear_arith)
                    requires
                        cell >= 1,
                ;
            }
        }
        assert((cols64 as int) * (rows64 as int) < 0x1_0000_0000_0000_0000_0000_0000_0000_0000)
            by (nonlinear_arith)
            requires
                cols64 <= 0xffff_ffff_ffff_ffff,
                rows64 <= 0xffff_ffff_ffff_ffff,
        ;
        let cells128: u128 = (cols64 as u128) * (rows64 as u128);
        if cells128 > MAX_CELLS as u128 {
            return Err(ConfigError::GridTooLarge);
        }
        let cols = cols64 as usize;
        let rows = rows64 as usize;
        let cells = (cells128 as u64) as usize;
        proof {
            assert(cols64 <= cells128 && rows64 <= cells128) by (nonlinear_arith)
                requires
                    cells128 == cols64 as u128 * rows64 as u128,
                    cols64 >= 1,
                    rows64 >= 1,
            ;
            assert(cells == cols * rows) by (nonlinear_arith)
                requires
                    cells as u128 == cols as u128 * rows as u128,
                    cols == cols64,
                    rows == rows64,
                    cells128 == cols64 as u128 * rows64 as u128,
                    cells as u128 == cells128,
            ;
        }
        let mut spatial_lookup: Vec<(usize, usize)> = Vec::new();
        let mut i: usize = 0;
        while i < particle_count
            invariant
                spatial_lookup@.len() == i,
                i <= particle_count,
                forall|j: int| 0 <= j < i ==> #[trigger] spatial_lookup@[j] == (cells, j as usize),
            decreases particle_count - i,
        {
            spatial_lookup.push((cells, i));
            i = i + 1;
        }
        let mut starting_indices: Vec<usize> = Vec::new();
        let mut k: usize = 0;
        while k < cells
            invariant
                starting_indices@.len() == k,
                k <= cells,
                forall|j: int| 0 <= j < k ==> starting_indices@[j] == particle_count,
            decreases cells - k,
        {
            starting_indices.push(particle_count);
            k = k + 1;
        }
        let cm = CellManager {
            particle_count,
            spatial_lookup,
            starting_indices,
            number_of_columns: cols,
            number_of_rows: rows,
            cell_size,
            number_of_cells: cells,
        };
        proof {
            assert forall|kk: int| 0 <= kk < cm.number_of_cells implies cm.start_ok(kk) by {
                assert(cm.starting_indices[kk] == particle_count);
            }
        }
        Ok(cm)
    }

    /// Stamp every particle with its cell key, rebuild the lookup table,
    /// sort it, and derive the start-index table.  Afterwards the lookup
    /// table holds exactly one `(key, index)` pair per particle.
    pub fn update(&mut self, particles: &mut Vec<Particle>)
        requires
            old(self).geometry_wf(),
            old(particles)@.len() == old(self).particle_count,
            forall|i: int| 0 <= i < old(particles)@.len() ==> (#[trigger] old(
                particles,
            )@[i]).id == i,
        ensures
            final(self).table_wf(),
            final(self).particle_count == old(self).particle_count,
            final(self).cell_size == old(self).cell_size,
            final(self).number_of_columns == old(self).number_of_columns,
            final(self).number_of_rows == old(self).number_of_rows,
            final(self).number_of_cells == old(self).number_of_cells,
            final(particles)@.len() == old(particles)@.len(),
            forall|i: int|
                0 <= i < old(particles)@.len() ==> #[trigger] final(particles)@[i] == stamped(
                    *old(self),
                    old(particles)@[i],
                ),
            forall|k: usize, j: usize|
                #[trigger] final(self).spatial_lookup@.contains((k, j)) <==> (j < old(
                    self,
                ).particle_count && k as int == old(self).cell_key_of_position(
                    old(particles)@[j as int].position,
                )),
    {
        broadcast use to_multiset_contains;

        let n = self.particle_count;
        let ghost cm0 = *self;
        let ghost ps0 = particles@;
        let mut lookup: Vec<(usize, usize)> = Vec::new();
        let mut i: usize = 0;
        while i < n
            invariant
                *self == cm0,
                cm0.geometry_wf(),
                n == cm0.particle_count,
                particles@.len() == n,
                ps0.len() == n,
                i <= n,
                lookup@.len() == i,
                forall|j: int|
                    0 <= j < i ==> #[trigger] lookup@[j] == (
                        cm0.cell_key_of_position(ps0[j].position) as usize,
                        j as usize,
                    ),
                forall|j: int| 0 <= j < i ==> #[trigger] particles@[j] == stamped(cm0, ps0[j]),
                forall|j: int| i <= j < n ==> #[trigger] particles@[j] == ps0[j],
            decreases n - i,
        {
            let key = self.position_to_key(particles[i].position);
            let mut p = particles[i];
            p.cell_key = key;
            particles[i] = p;
            lookup.push((key, i));
            i = i + 1;
        }
        let ghost pre = lookup@;
        proof {
            assert forall|j: int|
                0 <= j < n implies 0 <= cm0.cell_key_of_position(#[trigger] ps0[j].position)
                <= cm0.number_of_cells by {
                let pos = ps0[j].position;
                if cm0.coord_in_bounds(cm0.coord_x(pos), cm0.coord_y(pos)) {
                    cm0.lemma_key_in_range(cm0.coord_x(pos), cm0.coord_y(pos));
                }
            }
            assert(pre.no_duplicates()) by {
                assert forall|p: int, q: int|
                    0 <= p < q < pre.len() implies pre[p] != pre[q] by {
                    assert(pre[p].1 == p && pre[q].1 == q);
                }
            }
        }
        sort_lookup(&mut lookup);
        self.spatial_lookup = lookup;
        proof {
            let lu = self.spatial_lookup@;
            pre.lemma_multiset_has_no_duplicates();
            assert forall|k: usize, j: usize| #[trigger] lu.contains((k, j)) <==> (j < n && k
                as int == cm0.cell_key_of_position(ps0[j as int].position)) by {
                if lu.contains((k, j)) {
                    to_multiset_contains(lu, (k, j));
                    assert(lu.to_multiset().count((k, j)) > 0);
                    to_multiset_contains(pre, (k, j));
                    assert(pre.to_multiset().count((k, j)) > 0);
                    assert(pre.contains((k, j)));
                    let idx = choose|idx: int| 0 <= idx < pre.len() && pre[idx] == (k, j);
                    assert(pre[idx] == (
                        cm0.cell_key_of_position(ps0[idx].position) as usize,
                        idx as usize,
                    ));
                    assert(idx as usize == j);
                    assert(k as int == cm0.cell_key_of_position(ps0[j as int].position));
                }
                if j < n && k as int == cm0.cell_key_of_position(ps0[j as int].position) {
                    assert(pre[j as int] == (k, j));
                    assert(pre.contains((k, j)));
                    to_multiset_contains(pre, (k, j));
                    to_multiset_contains(lu, (k, j));
                    assert(lu.to_multiset().count((k, j)) > 0);
                    assert(lu.contains((k, j)));
                }
            }
            assert(distinct_indices(lu)) by {
                assert forall|p: int, q: int|
                    0 <= p < q < lu.len() implies (#[trigger] lu[p]).1 != (#[trigger] lu[q]).1 by {
                    assert(forall|x: (usize, usize)|
                        lu.to_multiset().contains(x) ==> lu.to_multiset().count(x) == 1);
                    lu.lemma_multiset_has_no_duplicates_conv();
                    assert(lu[p] != lu[q]);
                    if lu[p].1 == lu[q].1 {
                        assert(lu.contains(lu[p]) && lu.contains(lu[q]));
                        to_multiset_contains(lu, lu[p]);
                        to_multiset_contains(lu, lu[q]);
                        to_multiset_contains(pre, lu[p]);
                        to_multiset_contains(pre, lu[q]);
                        assert(pre.contains(lu[p]) && pre.contains(lu[q]));
                        let a = choose|a: int| 0 <= a < pre.len() && pre[a] == lu[p];
                        let b = choose|b: int| 0 <= b < pre.len() && pre[b] == lu[q];
                        assert(pre[a].1 == a as usize && pre[b].1 == b as usize);
                    }
                }
            }
            assert forall|j: int|
                0 <= j < lu.len() implies (#[trigger] lu[j]).1 < n && lu[j].0
                <= cm0.number_of_cells by {
                assert(lu.contains(lu[j]));
                to_multiset_contains(lu, lu[j]);
                to_multiset_contains(pre, lu[j]);
                assert(pre.contains(lu[j]));
                let a = choose|a: int| 0 <= a < pre.len() && pre[a] == lu[j];
                assert(pre[a] == (
                    cm0.cell_key_of_position(ps0[a].position) as usize,
                    a as usize,
                ));
            }
        }
        let cells = self.number_of_cells;
        let mut starts: Vec<usize> = Vec::new();
        let mut k: usize = 0;
        while k < cells
            invariant
                starts@.len() == k,
                k <= cells,
                forall|j: int| 0 <= j < k ==> starts@[j] == n,
            decreases cells - k,
        {
            starts.push(n);
            k = k + 1;
        }
        let ghost lusq = self.spatial_lookup@;
        let mut si: usize = 0;
        while si < n
            invariant
                self.particle_count == n,
                self.number_of_cells == cells,
                self.spatial_lookup@ == lusq,
                lusq.len() == n,
                starts@.len() == cells,
                si <= n,
                forall|kk: int| 0 <= kk < cells ==> start_partial_ok(lusq, starts@, n as int, kk, si as int),
            decreases n - si,
        {
            let key = self.spatial_lookup[si].0;
            let ghost prev = starts@;
            if key < cells {
                if starts[key] == n {
                    starts[key] = si;
                }
            }
            proof {
                assert forall|kk: int|
                    0 <= kk < cells implies #[trigger] start_partial_ok(
                    lusq,
                    starts@,
                    n as int,
                    kk,
                    si + 1,
                ) by {
                    assert(start_partial_ok(lusq, prev, n as int, kk, si as int));
                    assert(lusq[si as int].0 == key);
                    if key < cells && prev[key as int] == n {
                        assert(starts@ == prev.update(key as int, si));
                        if kk != key {
                            assert(starts@[kk] == prev[kk]);
                        }
                    } else {
                        assert(starts@ == prev);
                    }
                }
            }
            si = si + 1;
        }
        self.starting_indices = starts;
        proof {
            assert forall|kk: int| 0 <= kk < cells implies self.start_ok(kk) by {
                assert(start_partial_ok(lusq, self.starting_indices@, n as int, kk, n as int));
            }
        }
    }

    /// `k` is the key of some in-bounds cell in the 3x3 block around the
    /// cell coordinate of `pos`.
    pub open spec fn is_adjacent_key(self, pos: Vec2Fx, k: usize) -> bool {
        exists|qx: int, qy: int|
            #![trigger self.key_at(qx, qy)]
            self.coord_x(pos) - 1 <= qx <= self.coord_x(pos) + 1 && self.coord_y(pos) - 1 <= qy
                <= self.coord_y(pos) + 1 && self.coord_in_bounds(qx, qy) && k as int
                == self.key_at(qx, qy)
    }

    /// `q` lies in an in-bounds cell within one cell of `pos`'s cell.
    pub open spec fn neighbourhood(self, pos: Vec2Fx, q: Vec2Fx) -> bool {
        let cx = self.coord_x(pos);
        let cy = self.coord_y(pos);
        let qx = self.coord_x(q);
        let qy = self.coord_y(q);
        &&& self.coord_in_bounds(qx, qy)
        &&& cx - 1 <= qx <= cx + 1
        &&& cy - 1 <= qy <= cy + 1
    }

    /// A particle's stamped key is one of the keys adjacent to `pos` exactly
    /// when the particle's cell lies in bounds inside the 3x3 block around
    /// `pos`'s cell.  In particular a particle whose coordinate falls
    /// outside the grid is never a neighbour.
    pub proof fn lemma_neighbourhood_key(self, pos: Vec2Fx, q: Vec2Fx)
        requires
            self.geometry_wf(),
        ensures
            (exists|k: usize|
                self.is_adjacent_key(pos, k) && k as int == self.cell_key_of_position(q))
                <==> self.neighbourhood(pos, q),
    {
        let cx = self.coord_x(pos);
        let cy = self.coord_y(pos);
        let qx = self.coord_x(q);
        let qy = self.coord_y(q);
        if self.neighbourhood(pos, q) {
            self.lemma_key_in_range(qx, qy);
            let k = self.key_at(qx, qy) as usize;
            assert(self.is_adjacent_key(pos, k)) by {
                assert(cx - 1 <= qx <= cx + 1 && cy - 1 <= qy <= cy + 1 && self.coord_in_bounds(
                    qx,
                    qy,
                ) && k as int == self.key_at(qx, qy));
            }
            assert(k as int == self.cell_key_of_position(q));
        }
        if exists|k: usize|
            self.is_adjacent_key(pos, k) && k as int == self.cell_key_of_position(q) {
            let k = choose|k: usize|
                self.is_adjacent_key(pos, k) && k as int == self.cell_key_of_position(q);
            let (ax, ay) = choose|ax: int, ay: int|
                #![trigger self.key_at(ax, ay)]
                cx - 1 <= ax <= cx + 1 && cy - 1 <= ay <= cy + 1 && self.coord_in_bounds(ax, ay)
                    && k as int == self.key_at(ax, ay);
            self.lemma_key_in_range(ax, ay);
            assert(self.coord_in_bounds(qx, qy)) by {
                if !self.coord_in_bounds(qx, qy) {
                    assert(self.cell_key_of_position(q) == self.number_of_cells);
                }
            }
            self.lemma_cell_keys_unique(ax, ay, qx, qy);
        }
    }

    /// The grid's inverse mapping: split a cell key back into its cell
    /// coordinate (column, row).
    pub fn cell_key_to_cell_coord(&self, cell_key: usize) -> (coord: (usize, usize))
        requires
            self.geometry_wf(),
            cell_key < self.number_of_cells,
        ensures
            coord.0 as int == cell_key as int / (self.number_of_rows as int),
            coord.1 as int == cell_key as int % (self.number_of_rows as int),
            self.coord_in_bounds(coord.0 as int, coord.1 as int),
            self.key_at(coord.0 as int, coord.1 as int) == cell_key,
    {
        let x = cell_key / self.number_of_rows;
        let y = cell_key % self.number_of_rows;
        proof {
            let k = cell_key as int;
            let rows = self.number_of_rows as int;
            let cols = self.number_of_columns as int;
            vstd::arithmetic::div_mod::lemma_fundamental_div_mod(k, rows);
            assert(k / rows >= 0) by {
                vstd::arithmetic::div_mod::lemma_div_pos_is_pos(k, rows);
            }
            assert(k / rows < cols) by (nonlinear_arith)
                requires
                    k == rows * (k / rows) + k % rows,
                    0 <= k % rows < rows,
                    k < cols * rows,
                    rows >= 1,
                    k / rows >= 0,
            ;
            assert(self.key_at(x as int, y as int) == k) by (nonlinear_arith)
                requires
                    self.key_at(x as int, y as int) == (x as int) * rows + (y as int),
                    k == rows * (k / rows) + k % rows,
                    x as int == k / rows,
                    y as int == k % rows,
            ;
        }
        (x, y)
    }

    /// The keys of the in-bounds cells in the 3x3 block around `position`'s
    /// cell, each exactly once.
    pub fn get_adjacent_cell_keys_from_position(&self, position: Vec2Fx) -> (keys: Vec<usize>)
        requires
            self.geometry_wf(),
        ensures
            forall|k: usize| #[trigger]
                keys@.contains(k) <==> self.is_adjacent_key(position, k),
            keys@.no_duplicates(),
            forall|k: usize| #[trigger] keys@.contains(k) ==> k < self.number_of_cells,
    {
        let cx: i64 = floor_div_i64(position.x.raw, self.cell_size.raw);
        let cy: i64 = floor_div_i64(position.y.raw, self.cell_size.raw);
        let mut keys: Vec<usize> = Vec::new();
        let mut d: usize = 0;
        while d < 9
            invariant
                self.geometry_wf(),
                cx as int == self.coord_x(position),
                cy as int == self.coord_y(position),
                d <= 9,
                keys@.no_duplicates(),
                forall|k: usize| #[trigger]
                    keys@.contains(k) <==> exists|dd: int|
                        #![auto]
                        0 <= dd < d && self.combo_ok(position, dd) && k as int == self.combo_key(
                            position,
                            dd,
                        ),
            decreases 9 - d,
        {
            let dxi: i64 = (d / 3) as i64 - 1;
            let dyi: i64 = (d % 3) as i64 - 1;
            let qx: i128 = (cx as i128) + (dxi as i128);
            let qy: i128 = (cy as i128) + (dyi as i128);
            let ghost prev = keys@;
            if qx >= 0 && qy >= 0 && qx < (self.number_of_columns as i128) && qy < (
            self.number_of_rows as i128) {
                proof {
                    self.lemma_key_in_range(qx as int, qy as int);
                }
                let key: usize = (qx as usize) * self.number_of_rows + (qy as usize);
                proof {
                    assert(self.combo_ok(position, d as int) && key as int == self.combo_key(
                        position,
                        d as int,
                    ));
                    if prev.contains(key) {
                        let dd = choose|dd: int|
                            #![auto]
                            0 <= dd < d && self.combo_ok(position, dd) && key as int
                                == self.combo_key(position, dd);
                        self.lemma_cell_keys_unique(
                            self.coord_x(position) + combo_dx(dd),
                            self.coord_y(position) + combo_dy(dd),
                            qx as int,
                            qy as int,
                        );
                        lemma_combo_distinct(dd, d as int);
                        assert(false);
                    }
                }
                keys.push(key);
                proof {
                    assert forall|k: usize| #[trigger] keys@.contains(k) implies exists|dd: int|
                        #![auto]
                        0 <= dd < d + 1 && self.combo_ok(position, dd) && k as int
                            == self.combo_key(position, dd) by {
                        if k == key {
                            assert(self.combo_ok(position, d as int) && k as int
                                == self.combo_key(position, d as int));
                        } else {
                            assert(prev.contains(k));
                        }
                    }
                    assert forall|k: usize|
                        (exists|dd: int|
                            #![auto]
                            0 <= dd < d + 1 && self.combo_ok(position, dd) && k as int
                                == self.combo_key(position, dd)) implies #[trigger] keys@.contains(
                        k,
                    ) by {
                        let dd = choose|dd: int|
                            #![auto]
                            0 <= dd < d + 1 && self.combo_ok(position, dd) && k as int
                                == self.combo_key(position, dd);
                        if dd < d {
                            assert(prev.contains(k));
                            assert(keys@ == prev.push(key));
                            assert(keys@.contains(k)) by {
                                let ii = choose|ii: int| 0 <= ii < prev.len() && prev[ii] == k;
                                assert(keys@[ii] == k);
                            }
                        } else {
                            assert(k == key);
                            assert(keys@[keys@.len() - 1] == k);
                        }
                    }
                }
            } else {
                proof {
                    assert forall|k: usize|
                        (exists|dd: int|
                            #![auto]
                            0 <= dd < d + 1 && self.combo_ok(position, dd) && k as int
                                == self.combo_key(position, dd)) implies #[trigger] keys@.contains(
                        k,
                    ) by {
                        let dd = choose|dd: int|
                            #![auto]
                            0 <= dd < d + 1 && self.combo_ok(position, dd) && k as int
                                == self.combo_key(position, dd);
                        assert(dd < d);
                    }
                }
            }
            d = d + 1;
        }
        proof {
            assert forall|k: usize| #[trigger]
                keys@.contains(k) <==> self.is_adjacent_key(position, k) by {
                if keys@.contains(k) {
                    let dd = choose|dd: int|
                        #![auto]
                        0 <= dd < 9 && self.combo_ok(position, dd) && k as int == self.combo_key(
                            position,
                            dd,
                        );
                    assert(-1 <= combo_dx(dd) <= 1 && -1 <= combo_dy(dd) <= 1);
                    assert(self.key_at(
                        self.coord_x(position) + combo_dx(dd),
                        self.coord_y(position) + combo_dy(dd),
                    ) == k);
                }
                if self.is_adjacent_key(position, k) {
                    let (ax, ay) = choose|ax: int, ay: int|
                        #![trigger self.key_at(ax, ay)]
                        self.coord_x(position) - 1 <= ax <= self.coord_x(position) + 1
                            && self.coord_y(position) - 1 <= ay <= self.coord_y(position) + 1
                            && self.coord_in_bounds(ax, ay) && k as int == self.key_at(ax, ay);
                    let dx = ax - self.coord_x(position);
                    let dy = ay - self.coord_y(position);
                    let dd = (dx + 1) * 3 + (dy + 1);
                    vstd::arithmetic::div_mod::lemma_fundamental_div_mod_converse(
                        dd,
                        3,
                        dx + 1,
                        dy + 1,
                    );
                    assert(combo_dx(dd) == dx && combo_dy(dd) == dy);
                    assert(self.combo_ok(position, dd) && k as int == self.combo_key(
                        position,
                        dd,
                    ));
                }
            }
            assert forall|k: usize| #[trigger] keys@.contains(k) implies k
                < self.number_of_cells by {
                let dd = choose|dd: int|
                    #![auto]
                    0 <= dd < 9 && self.combo_ok(position, dd) && k as int == self.combo_key(
                        position,
                        dd,
                    );
                self.lemma_key_in_range(
                    self.coord_x(position) + combo_dx(dd),
                    self.coord_y(position) + combo_dy(dd),
                );
            }
        }
        keys
    }

    /// The offset combination `dd` (0 to 8) lands in bounds around `pos`.
    pub open spec fn combo_ok(self, pos: Vec2Fx, dd: int) -> bool {
        self.coord_in_bounds(
            self.coord_x(pos) + combo_dx(dd),
            self.coord_y(pos) + combo_dy(dd),
        )
    }

    pub open spec fn combo_key(self, pos: Vec2Fx, dd: int) -> int {
        self.key_at(self.coord_x(pos) + combo_dx(dd), self.coord_y(pos) + combo_dy(dd))
    }

    /// The particle indices stored under `cell_key`: scan the contiguous
    /// run in the sorted lookup table from the cell's start index.  An empty
    /// cell (sentinel start index) yields no indices.
    pub fn get_particle_indexes_from_cell(&self, cell_key: usize) -> (out: Vec<usize>)
        requires
            self.table_wf(),
            cell_key < self.number_of_cells,
        ensures
            forall|j: usize| #[trigger]
                out@.contains(j) <==> self.spatial_lookup@.contains((cell_key, j)),
            out@.no_duplicates(),
    {
        let n = self.particle_count;
        let ghost lu = self.spatial_lookup@;
        let mut out: Vec<usize> = Vec::new();
        let s = self.starting_indices[cell_key];
        if s >= n {
            proof {
                assert(self.start_ok(cell_key as int));
                assert forall|j: usize| !#[trigger] lu.contains((cell_key, j)) by {
                    if lu.contains((cell_key, j)) {
                        let p = choose|p: int| 0 <= p < lu.len() && lu[p] == (cell_key, j);
                        assert(lu[p].0 == cell_key);
                    }
                }
            }
            return out;
        }
        proof {
            assert(self.start_ok(cell_key as int));
        }
        let mut idx = s;
        while idx < n && self.spatial_lookup[idx].0 == cell_key
            invariant
                self.table_wf(),
                self.spatial_lookup@ == lu,
                n == self.particle_count,
                s <= idx <= n,
                s < n,
                lu[s as int].0 == cell_key,
                out@.len() == idx - s,
                forall|q: int| 0 <= q < out@.len() ==> #[trigger] out@[q] == lu[s + q].1,
                forall|p: int| s <= p < idx ==> (#[trigger] lu[p]).0 == cell_key,
            decreases n - idx,
        {
            out.push(self.spatial_lookup[idx].1);
            idx = idx + 1;
        }
        proof {
            assert forall|j: usize| #[trigger]
                out@.contains(j) <==> lu.contains((cell_key, j)) by {
                if out@.contains(j) {
                    let q = choose|q: int| 0 <= q < out@.len() && out@[q] == j;
                    assert(lu[s + q] == (cell_key, j));
                    assert(lu.contains((cell_key, j)));
                }
                if lu.contains((cell_key, j)) {
                    let p = choose|p: int| 0 <= p < lu.len() && lu[p] == (cell_key, j);
                    assert(p >= s) by {
                        assert(self.start_ok(cell_key as int));
                    }
                    assert(p < idx) by {
                        if p >= idx {
                            assert(idx < n);
                            assert(entry_le(lu[s as int], lu[idx as int]));
                            if p > idx {
                                assert(entry_le(lu[idx as int], lu[p]));
                            }
                            assert(lu[idx as int].0 != cell_key);
                        }
                    }
                    assert(out@[p - s] == lu[p].1);
                    assert(out@.contains(j));
                }
            }
            assert(out@.no_duplicates()) by {
                assert forall|q1: int, q2: int|
                    0 <= q1 < q2 < out@.len() implies out@[q1] != out@[q2] by {
                    assert(out@[q1] == lu[s + q1].1 && out@[q2] == lu[s + q2].1);
                }
            }
        }
        out
    }

    /// All particle indices in the 3x3 cell neighbourhood of
    /// `particle_position`, each exactly once.  A particle appears in the
    /// answer exactly when the lookup table stores it under one of the
    /// adjacent cell keys.
    pub fn get_adjacent_particles_indices(&self, particle_position: Vec2Fx) -> (out: Vec<usize>)
        requires
            self.table_wf(),
        ensures
            forall|j: usize| #[trigger]
                out@.contains(j) <==> exists|k: usize|
                    #![auto]
                    self.is_adjacent_key(particle_position, k) && self.spatial_lookup@.contains(
                        (k, j),
                    ),
            out@.no_duplicates(),
    {
        let keys = self.get_adjacent_cell_keys_from_position(particle_position);
        let ghost lu = self.spatial_lookup@;
        let mut out: Vec<usize> = Vec::new();
        let mut ki: usize = 0;
        while ki < keys.len()
            invariant
                self.table_wf(),
                self.spatial_lookup@ == lu,
                ki <= keys@.len(),
                keys@.no_duplicates(),
                forall|k: usize| #[trigger]
                    keys@.contains(k) <==> self.is_adjacent_key(particle_position, k),
                forall|k: usize| #[trigger] keys@.contains(k) ==> k < self.number_of_cells,
                out@.no_duplicates(),
                forall|j: usize| #[trigger]
                    out@.contains(j) <==> exists|kidx: int|
                        #![auto]
                        0 <= kidx < ki && lu.contains((keys@[kidx], j)),
            decreases keys@.len() - ki,
        {
            let cell = keys[ki];
            proof {
                assert(keys@.contains(cell)) by {
                    assert(keys@[ki as int] == cell);
                }
            }
            let sub = self.get_particle_indexes_from_cell(cell);
            let mut si: usize = 0;
            while si < sub.len()
                invariant
                    self.table_wf(),
                    self.spatial_lookup@ == lu,
                    ki < keys@.len(),
                    keys@[ki as int] == cell,
                    keys@.no_duplicates(),
                    si <= sub@.len(),
                    sub@.no_duplicates(),
                    forall|j: usize| #[trigger]
                        sub@.contains(j) <==> lu.contains((cell, j)),
                    out@.no_duplicates(),
                    forall|j: usize| #[trigger]
                        out@.contains(j) <==> (exists|kidx: int|
                            #![auto]
                            0 <= kidx < ki && lu.contains((keys@[kidx], j))) || (exists|q: int|
                            0 <= q < si && sub@[q] == j),
                decreases sub@.len() - si,
            {
                let j = sub[si];
                let ghost prev = out@;
                proof {
                    assert(sub@.contains(j)) by {
                        assert(sub@[si as int] == j);
                    }
                    assert(lu.contains((cell, j)));
                    if prev.contains(j) {
                        if exists|kidx: int| #![auto] 0 <= kidx < ki && lu.contains((
                            keys@[kidx],
                            j,
                        )) {
                            let kidx = choose|kidx: int|
                                #![auto]
                                0 <= kidx < ki && lu.contains((keys@[kidx], j));
                            let k2 = keys@[kidx];
                            assert(k2 != cell);
                            let p1 = choose|p1: int| 0 <= p1 < lu.len() && lu[p1] == (k2, j);
                            let p2 = choose|p2: int| 0 <= p2 < lu.len() && lu[p2] == (cell, j);
                            assert(p1 != p2);
                            assert(lu[p1].1 == lu[p2].1);
                            assert(false);
                        } else {
                            let q = choose|q: int| 0 <= q < si && sub@[q] == j;
                            assert(sub@[si as int] == j);
                            assert(false);
                        }
                    }
                }
                out.push(j);
                proof {
                    assert forall|jj: usize| #[trigger]
                        out@.contains(jj) <==> (exists|kidx: int|
                            #![auto]
                            0 <= kidx < ki && lu.contains((keys@[kidx], jj))) || (exists|q: int|
                            0 <= q < si + 1 && sub@[q] == jj) by {
                        if out@.contains(jj) {
                            let qq = choose|qq: int| 0 <= qq < out@.len() && out@[qq] == jj;
                            if qq < prev.len() {
                                assert(prev[qq] == jj);
                                assert(prev.contains(jj));
                            } else {
                                assert(jj == j);
                                assert(sub@[si as int] == jj);
                            }
                        }
                        if (exists|kidx: int| #![auto] 0 <= kidx < ki && lu.contains((
                            keys@[kidx],
                            jj,
                        ))) || (exists|q: int| 0 <= q < si + 1 && sub@[q] == jj) {
                            if exists|q: int| 0 <= q < si + 1 && sub@[q] == jj {
                                let q = choose|q: int| 0 <= q < si + 1 && sub@[q] == jj;
                                if q == si {
                                    assert(out@[out@.len() - 1] == jj);
                                } else {
                                    assert(prev.contains(jj));
                                    let qq = choose|qq: int|
                                        0 <= qq < prev.len() && prev[qq] == jj;
                                    assert(out@[qq] == jj);
                                }
                            } else {
                                assert(prev.contains(jj));
                                let qq = choose|qq: int| 0 <= qq < prev.len() && prev[qq] == jj;
                                assert(out@[qq] == jj);
                            }
                        }
                    }
                }
                si = si + 1;
            }
            proof {
                assert forall|j: usize| #[trigger]
                    out@.contains(j) <==> exists|kidx: int|
                        #![auto]
                        0 <= kidx < ki + 1 && lu.contains((keys@[kidx], j)) by {
                    if out@.contains(j) {
                        if exists|q: int| 0 <= q < si && sub@[q] == j {
                            assert(sub@.contains(j));
                            assert(lu.contains((keys@[ki as int], j)));
                        }
                    }
                    if exists|kidx: int| #![auto] 0 <= kidx < ki + 1 && lu.contains((
                        keys@[kidx],
                        j,
                    )) {
                        let kidx = choose|kidx: int|
                            #![auto]
                            0 <= kidx < ki + 1 && lu.contains((keys@[kidx], j));
                        if kidx == ki {
                            assert(sub@.contains(j));
                            let q = choose|q: int| 0 <= q < sub@.len() && sub@[q] == j;
                            assert(si == sub@.len());
                        }
                    }
                }
            }
            ki = ki + 1;
        }
        proof {
            assert forall|j: usize| #[trigger]
                out@.contains(j) <==> exists|k: usize|
                    #![auto]
                    self.is_adjacent_key(particle_position, k) && lu.contains((k, j)) by {
                if out@.contains(j) {
                    let kidx = choose|kidx: int|
                        #![auto]
                        0 <= kidx < keys@.len() && lu.contains((keys@[kidx], j));
                    let k = keys@[kidx];
                    assert(keys@.contains(k));
                }
                if exists|k: usize|
                    #![auto]
                    self.is_adjacent_key(particle_position, k) && lu.contains((k, j)) {
                    let k = choose|k: usize|
                        #![auto]
                        self.is_adjacent_key(particle_position, k) && lu.contains((k, j));
                    assert(keys@.contains(k));
                    let kidx = choose|kidx: int| 0 <= kidx < keys@.len() && keys@[kidx] == k;
                    assert(lu.contains((keys@[kidx], j)));
                }
            }
        }
        out
    }

    /// The key `pos` is stamped with, as executable code.
    fn position_to_key(&self, pos: Vec2Fx) -> (k: usize)
        requires
            self.geometry_wf(),
        ensures
            k as int == self.cell_key_of_position(pos),
    {
        let cx: i64 = floor_div_i64(pos.x.raw, self.cell_size.raw);
        let cy: i64 = floor_div_i64(pos.y.raw, self.cell_size.raw);
        if cx >= 0 && cy >= 0 && (cx as u64) < (self.number_of_columns as u64) && (cy as u64) < (
        self.number_of_rows as u64) {
            proof {
                self.lemma_key_in_range(cx as int, cy as int);
            }
            (cx as usize) * self.number_of_rows + (cy as usize)
        } else {
            self.number_of_cells
        }
    }
}

} // verus!
