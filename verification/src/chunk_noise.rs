//! The chunk noise sampler: evaluates the router's terrain density only at
//! the corners of a coarse cell lattice and interpolates to block resolution.
//!
//! The interpolation axis order is pinned: first along y, then along x, then
//! along z; changing it would change the terrain. At a lattice corner the
//! sampled value is exactly the router's coarse value: the interpolation
//! error is zero at cell boundaries.

use vstd::prelude::*;

use crate::density::{
    eval_density, lerp_trunc, spec_clamp_density, spec_div_trunc, spec_eval, spec_nodes_wf,
    DensityNode, NoiseCaches, DENSITY_BOUND,
};
use crate::density::spec_caches_wf;
use crate::random::RandomDeriver;

verus! {

/// Truncating linear interpolation between two bounded values, as the
/// sampler applies it along each axis.
pub open spec fn spec_lerp(v0: i64, v1: i64, num: int, den: int) -> i64 {
    spec_clamp_density(v0 as int + spec_div_trunc((v1 - v0) * num, den))
}

/// At fraction zero the interpolation returns the first value exactly.
pub proof fn lemma_lerp_exact_at_zero(v0: i64, v1: i64, den: int)
    requires
        -DENSITY_BOUND <= v0 <= DENSITY_BOUND,
        -DENSITY_BOUND <= v1 <= DENSITY_BOUND,
        den > 0,
    ensures
        spec_lerp(v0, v1, 0, den) == v0,
{
    assert((v1 - v0) * 0 == 0) by (nonlinear_arith);
}

/// The flattened corner-array index of lattice corner (ci, cj, ck):
/// x-major, then z, then y.
pub open spec fn spec_corner_index(ci: int, cj: int, ck: int, cells_y: int, cells_z: int) -> int {
    (ci * (cells_z + 1) + ck) * (cells_y + 1) + cj
}

/// The corner samples of one chunk: the router's terrain density at every
/// lattice corner, with the lattice geometry.
pub struct ChunkNoiseInterpolator {
    /// Sampled corner values, indexed by `spec_corner_index`.
    pub corners: Vec<i64>,
    /// Blocks per horizontal cell.
    pub cell_w: u8,
    /// Blocks per vertical cell.
    pub cell_h: u8,
    /// Horizontal cells per chunk edge (16 / cell_w).
    pub cells_xz: u8,
    /// Vertical cells over the shape's height.
    pub cells_y: u16,
    /// World block coordinates of the chunk origin.
    pub start_x: i32,
    pub start_z: i32,
    /// Bottom of the shape.
    pub min_y: i32,
}

impl ChunkNoiseInterpolator {
    /// Geometry sanity: supported cell sizes, cells covering the chunk, and
    /// every stored corner value inside the density range.
    pub open spec fn geometry_wf(self) -> bool {
        &&& (self.cell_w == 4 || self.cell_w == 8 || self.cell_w == 16)
        &&& 4 <= self.cell_h <= 16
        &&& self.cells_xz as int * self.cell_w as int == 16
        &&& 1 <= self.cells_y as int
        &&& self.cells_y as int * self.cell_h as int <= 0x10000
        &&& -0x4000_0000 <= self.start_x <= 0x4000_0000
        &&& -0x4000_0000 <= self.start_z <= 0x4000_0000
        &&& -0x10000 <= self.min_y <= 0x10000
        &&& self.corners@.len() == (self.cells_xz as int + 1) * (self.cells_xz as int + 1) * (
        self.cells_y as int + 1)
        &&& forall|i: int|
            0 <= i < self.corners@.len() ==> -DENSITY_BOUND <= #[trigger] self.corners@[i]
                <= DENSITY_BOUND
    }

    /// The tie to a router output: every stored corner is the pure
    /// evaluation of node `fidx` at the corner's block position.
    pub open spec fn corners_tied(
        self,
        nodes: Seq<DensityNode>,
        d: RandomDeriver,
        fidx: int,
    ) -> bool {
        forall|ci: int, cj: int, ck: int|
            0 <= ci <= self.cells_xz as int && 0 <= cj <= self.cells_y as int && 0 <= ck
                <= self.cells_xz as int ==> #[trigger] self.corners@[spec_corner_index(
                ci,
                cj,
                ck,
                self.cells_y as int,
                self.cells_xz as int,
            )] == spec_eval(
                nodes,
                d,
                fidx,
                (self.start_x + ci * self.cell_w) as i32,
                (self.min_y + cj * self.cell_h) as i32,
                (self.start_z + ck * self.cell_w) as i32,
            )
    }

    /// Geometry sanity together with the router tie.
    pub open spec fn wf(self, nodes: Seq<DensityNode>, d: RandomDeriver, fidx: int) -> bool {
        self.geometry_wf() && self.corners_tied(nodes, d, fidx)
    }

    /// The interpolated density at a block position inside the chunk: the
    /// eight enclosing corner values interpolated first along y, then along
    /// x, then along z.
    #[verifier::opaque]
    pub open spec fn spec_sample(self, x: i32, y: i32, z: i32) -> i64 {
        let dx = x as int - self.start_x as int;
        let dy = y as int - self.min_y as int;
        let dz = z as int - self.start_z as int;
        let w = self.cell_w as int;
        let h = self.cell_h as int;
        let ci = dx / w;
        let cj = dy / h;
        let ck = dz / w;
        let ox = dx % w;
        let oy = dy % h;
        let oz = dz % w;
        let cy = self.cells_y as int;
        let cz = self.cells_xz as int;
        let c000 = self.corners@[spec_corner_index(ci, cj, ck, cy, cz)];
        let c010 = self.corners@[spec_corner_index(ci, cj + 1, ck, cy, cz)];
        let c100 = self.corners@[spec_corner_index(ci + 1, cj, ck, cy, cz)];
        let c110 = self.corners@[spec_corner_index(ci + 1, cj + 1, ck, cy, cz)];
        let c001 = self.corners@[spec_corner_index(ci, cj, ck + 1, cy, cz)];
        let c011 = self.corners@[spec_corner_index(ci, cj + 1, ck + 1, cy, cz)];
        let c101 = self.corners@[spec_corner_index(ci + 1, cj, ck + 1, cy, cz)];
        let c111 = self.corners@[spec_corner_index(ci + 1, cj + 1, ck + 1, cy, cz)];
        let a0 = spec_lerp(c000, c010, oy, h);
        let a1 = spec_lerp(c100, c110, oy, h);
        let a2 = spec_lerp(c001, c011, oy, h);
        let a3 = spec_lerp(c101, c111, oy, h);
        let b0 = spec_lerp(a0, a1, ox, w);
        let b1 = spec_lerp(a2, a3, ox, w);
        spec_lerp(b0, b1, oz, w)
    }
}

/// The flattened corner-array position of a lattice corner, computed without
/// overflow for the supported lattice sizes.
pub fn corner_flat_index(ci: usize, cj: usize, ck: usize, cy: usize, cz: usize) -> (r: usize)
    requires
        ci <= cz,
        cj <= cy,
        ck <= cz,
        cz <= 4,
        cy <= 0x4000,
    ensures
        r == spec_corner_index(ci as int, cj as int, ck as int, cy as int, cz as int),
{
    proof {
        assert(ci * (cz + 1) <= 24 && (ci * (cz + 1) + ck) * (cy + 1) <= 28 * 0x4001 && (ci * (cz
            + 1) + ck) * (cy + 1) + cj <= 28 * 0x4001 + 0x4000) by (nonlinear_arith)
            requires
                ci <= cz,
                cj <= cy,
                ck <= cz,
                cz <= 4,
                cy <= 0x4000,
        ;
    }
    (ci * (cz + 1) + ck) * (cy + 1) + cj
}

/// A lattice corner index lies inside the corner array.
pub proof fn lemma_corner_index_bounds(ci: int, cj: int, ck: int, cy: int, cz: int)
    requires
        0 <= ci <= cz,
        0 <= cj <= cy,
        0 <= ck <= cz,
    ensures
        0 <= spec_corner_index(ci, cj, ck, cy, cz) < (cz + 1) * (cz + 1) * (cy + 1),
{
    assert(0 <= (ci * (cz + 1) + ck) * (cy + 1) + cj && (ci * (cz + 1) + ck) * (cy + 1) + cj < (cz
        + 1) * (cz + 1) * (cy + 1)) by (nonlinear_arith)
        requires
            0 <= ci <= cz,
            0 <= cj <= cy,
            0 <= ck <= cz,
    ;
}

impl ChunkNoiseInterpolator {
    /// Samples the router's terrain density at every lattice corner of one
    /// chunk. Corner evaluation goes through the per-chunk memo stores.
    #[verifier::loop_isolation(false)]
    pub fn new(
        nodes: &Vec<DensityNode>,
        d: &RandomDeriver,
        fidx: usize,
        start_x: i32,
        start_z: i32,
        min_y: i32,
        cell_w: u8,
        cell_h: u8,
        cells_xz: u8,
        cells_y: u16,
        caches: &mut NoiseCaches,
    ) -> (r: ChunkNoiseInterpolator)
        requires
            spec_nodes_wf(nodes@),
            fidx < nodes@.len(),
            spec_caches_wf(*old(caches), nodes@, *d),
            cell_w == 4 || cell_w == 8 || cell_w == 16,
            4 <= cell_h <= 16,
            cells_xz as int * cell_w as int == 16,
            1 <= cells_y as int,
            cells_y as int * cell_h as int <= 0x10000,
            -0x4000_0000 <= start_x <= 0x4000_0000,
            -0x4000_0000 <= start_z <= 0x4000_0000,
            -0x10000 <= min_y <= 0x10000,
        ensures
            r.wf(nodes@, *d, fidx as int),
            r.cell_w == cell_w,
            r.cell_h == cell_h,
            r.cells_xz == cells_xz,
            r.cells_y == cells_y,
            r.start_x == start_x,
            r.start_z == start_z,
            r.min_y == min_y,
            spec_caches_wf(*final(caches), nodes@, *d),
    {
        let mut corners: Vec<i64> = Vec::new();
        let cz = cells_xz as usize;
        let cy = cells_y as usize;
        proof {
            assert(cz <= 4) by (nonlinear_arith)
                requires
                    cz as int * cell_w as int == 16,
                    cell_w as int >= 4,
                    cz >= 0,
            ;
            assert(cy <= 0x4000) by (nonlinear_arith)
                requires
                    cy as int * cell_h as int <= 0x10000,
                    cell_h as int >= 4,
                    cy >= 0,
            ;
        }
        let ghost tie = |corners: Seq<i64>| forall|a: int, b: int, c: int|
            0 <= a <= cz as int && 0 <= b <= cy as int && 0 <= c <= cz as int && 0
                <= spec_corner_index(a, b, c, cy as int, cz as int) < corners.len()
                ==> #[trigger] corners[spec_corner_index(a, b, c, cy as int, cz as int)]
                == spec_eval(
                nodes@,
                *d,
                fidx as int,
                (start_x + a * cell_w) as i32,
                (min_y + b * cell_h) as i32,
                (start_z + c * cell_w) as i32,
            );
        let mut ci: usize = 0;
        proof {
            assert((0 * (cz + 1)) * (cy + 1) == 0) by (nonlinear_arith);
        }
        while ci <= cz
            invariant
                0 <= ci <= cz + 1,
                corners@.len() == ci * (cz + 1) * (cy + 1),
                spec_caches_wf(*caches, nodes@, *d),
                tie(corners@),
                forall|i: int|
                    0 <= i < corners@.len() ==> -DENSITY_BOUND <= #[trigger] corners@[i]
                        <= DENSITY_BOUND,
            decreases cz + 1 - ci,
        {
            let mut ck: usize = 0;
            proof {
                assert(ci * (cz + 1) * (cy + 1) == (ci * (cz + 1) + 0) * (cy + 1))
                    by (nonlinear_arith);
            }
            while ck <= cz
                invariant
                    0 <= ci <= cz,
                    0 <= ck <= cz + 1,
                    corners@.len() == (ci * (cz + 1) + ck) * (cy + 1),
                    spec_caches_wf(*caches, nodes@, *d),
                    tie(corners@),
                    forall|i: int|
                        0 <= i < corners@.len() ==> -DENSITY_BOUND <= #[trigger] corners@[i]
                            <= DENSITY_BOUND,
                decreases cz + 1 - ck,
            {
                let mut cj: usize = 0;
                while cj <= cy
                    invariant
                        0 <= ci <= cz,
                        0 <= ck <= cz,
                        0 <= cj <= cy + 1,
                        corners@.len() == (ci * (cz + 1) + ck) * (cy + 1) + cj,
                        spec_caches_wf(*caches, nodes@, *d),
                        tie(corners@),
                        forall|i: int|
                            0 <= i < corners@.len() ==> -DENSITY_BOUND <= #[trigger] corners@[i]
                                <= DENSITY_BOUND,
                    decreases cy + 1 - cj,
                {
                    proof {
                        assert(0 <= ci as int * cell_w as int <= 64 && 0 <= ck as int
                            * cell_w as int <= 64) by (nonlinear_arith)
                            requires
                                0 <= ci <= cz,
                                0 <= ck <= cz,
                                cz <= 4,
                                0 < cell_w as int <= 16,
                        ;
                        assert(0 <= cj as int * cell_h as int <= 0x10000 + 16)
                            by (nonlinear_arith)
                            requires
                                0 <= cj <= cy,
                                cy as int * cell_h as int <= 0x10000,
                                0 < cell_h as int <= 16,
                        ;
                    }
                    let px: i32 = start_x + (ci as i32) * (cell_w as i32);
                    let py: i32 = min_y + (cj as i32) * (cell_h as i32);
                    let pz: i32 = start_z + (ck as i32) * (cell_w as i32);
                    let v = eval_density(nodes, d, fidx, px, py, pz, caches);
                    corners.push(v);
                    proof {
                        assert forall|a: int, b: int, c: int|
                            0 <= a <= cz as int && 0 <= b <= cy as int && 0 <= c <= cz as int && 0
                                <= spec_corner_index(a, b, c, cy as int, cz as int)
                                < corners@.len() implies #[trigger] corners@[spec_corner_index(
                            a,
                            b,
                            c,
                            cy as int,
                            cz as int,
                        )] == spec_eval(
                            nodes@,
                            *d,
                            fidx as int,
                            (start_x + a * cell_w) as i32,
                            (min_y + b * cell_h) as i32,
                            (start_z + c * cell_w) as i32,
                        ) by {
                            let idx = spec_corner_index(a, b, c, cy as int, cz as int);
                            if idx < corners@.len() - 1 {
                            } else {
                                assert((a * (cz + 1) + c) * (cy + 1) + b == (ci * (cz + 1) + ck) * (
                                cy + 1) + cj ==> a == ci && b == cj && c == ck)
                                    by (nonlinear_arith)
                                    requires
                                        0 <= a <= cz as int,
                                        0 <= b <= cy as int,
                                        0 <= c <= cz as int,
                                        0 <= ci as int <= cz as int,
                                        0 <= cj as int <= cy as int,
                                        0 <= ck as int <= cz as int,
                                ;
                            }
                        }
                        assert(tie(corners@));
                    }
                    cj = cj + 1;
                }
                proof {
                    assert((ci * (cz + 1) + ck) * (cy + 1) + (cy + 1) == (ci * (cz + 1) + (ck + 1))
                        * (cy + 1)) by (nonlinear_arith);
                }
                ck = ck + 1;
            }
            proof {
                assert((ci * (cz + 1) + (cz + 1)) * (cy + 1) == (ci + 1) * (cz + 1) * (cy + 1))
                    by (nonlinear_arith);
            }
            ci = ci + 1;
        }
        proof {
            assert((cz + 1) * (cz + 1) * (cy + 1) == (cz as int + 1) * (cz as int + 1) * (cy as int
                + 1)) by (nonlinear_arith);
            assert forall|a: int, b: int, c: int|
                0 <= a <= cz && 0 <= b <= cy && 0 <= c <= cz implies 0 <= #[trigger]
            spec_corner_index(a, b, c, cy as int, cz as int) < corners@.len() by {
                lemma_corner_index_bounds(a, b, c, cy as int, cz as int);
            }
        }
        ChunkNoiseInterpolator {
            corners,
            cell_w,
            cell_h,
            cells_xz,
            cells_y,
            start_x,
            start_z,
            min_y,
        }
    }

    /// The interpolated density at a block position inside the chunk:
    /// trilinear between the eight enclosing lattice corners, first along y,
    /// then x, then z. At a lattice corner the result is exactly the stored
    /// corner value.
    pub fn sample(&self, x: i32, y: i32, z: i32) -> (r: i64)
        requires
            self.geometry_wf(),
            self.start_x <= x < self.start_x + 16,
            self.min_y <= y,
            (y as int) < self.min_y + self.cells_y as int * self.cell_h as int,
            self.start_z <= z < self.start_z + 16,
        ensures
            r == self.spec_sample(x, y, z),
            -DENSITY_BOUND <= r <= DENSITY_BOUND,
    {
        proof {
            reveal(ChunkNoiseInterpolator::spec_sample);
        }
        let w = self.cell_w as i32;
        let h = self.cell_h as i32;
        let dx: i32 = x - self.start_x;
        let dy: i32 = y - self.min_y;
        let dz: i32 = z - self.start_z;
        let ci = (dx / w) as usize;
        let cj = (dy / h) as usize;
        let ck = (dz / w) as usize;
        let ox: i64 = (dx % w) as i64;
        let oy: i64 = (dy % h) as i64;
        let oz: i64 = (dz % w) as i64;
        proof {
            assert(self.cells_xz as int <= 4) by (nonlinear_arith)
                requires
                    self.cells_xz as int * self.cell_w as int == 16,
                    self.cell_w as int >= 4,
                    self.cells_xz as int >= 0,
            ;
            assert(self.cells_y as int <= 0x4000) by (nonlinear_arith)
                requires
                    self.cells_y as int * self.cell_h as int <= 0x10000,
                    self.cell_h as int >= 4,
                    self.cells_y as int >= 0,
            ;
        }
        proof {
            assert((dx as int) < self.cell_w as int * self.cells_xz as int && (dy as int)
                < self.cell_h as int * self.cells_y as int && (dz as int) < self.cell_w as int
                * self.cells_xz as int) by (nonlinear_arith)
                requires
                    (dx as int) < self.cells_xz as int * self.cell_w as int,
                    (dy as int) < self.cells_y as int * self.cell_h as int,
                    (dz as int) < self.cells_xz as int * self.cell_w as int,
            ;
            vstd::arithmetic::div_mod::lemma_multiply_divide_lt(
                dx as int,
                self.cell_w as int,
                self.cells_xz as int,
            );
            vstd::arithmetic::div_mod::lemma_multiply_divide_lt(
                dy as int,
                self.cell_h as int,
                self.cells_y as int,
            );
            vstd::arithmetic::div_mod::lemma_multiply_divide_lt(
                dz as int,
                self.cell_w as int,
                self.cells_xz as int,
            );
        }
        let cy = self.cells_y as usize;
        let cz = self.cells_xz as usize;
        proof {
            lemma_corner_index_bounds(ci as int, cj as int, ck as int, cy as int, cz as int);
            lemma_corner_index_bounds(
                ci as int + 1,
                cj as int + 1,
                ck as int + 1,
                cy as int,
                cz as int,
            );
            lemma_corner_index_bounds(ci as int, cj as int + 1, ck as int, cy as int, cz as int);
            lemma_corner_index_bounds(ci as int + 1, cj as int, ck as int, cy as int, cz as int);
            lemma_corner_index_bounds(
                ci as int + 1,
                cj as int + 1,
                ck as int,
                cy as int,
                cz as int,
            );
            lemma_corner_index_bounds(ci as int, cj as int, ck as int + 1, cy as int, cz as int);
            lemma_corner_index_bounds(
                ci as int,
                cj as int + 1,
                ck as int + 1,
                cy as int,
                cz as int,
            );
            lemma_corner_index_bounds(
                ci as int + 1,
                cj as int,
                ck as int + 1,
                cy as int,
                cz as int,
            );
        }
        let c000 = self.corners[corner_flat_index(ci, cj, ck, cy, cz)];
        let c010 = self.corners[corner_flat_index(ci, cj + 1, ck, cy, cz)];
        let c100 = self.corners[corner_flat_index(ci + 1, cj, ck, cy, cz)];
        let c110 = self.corners[corner_flat_index(ci + 1, cj + 1, ck, cy, cz)];
        let c001 = self.corners[corner_flat_index(ci, cj, ck + 1, cy, cz)];
        let c011 = self.corners[corner_flat_index(ci, cj + 1, ck + 1, cy, cz)];
        let c101 = self.corners[corner_flat_index(ci + 1, cj, ck + 1, cy, cz)];
        let c111 = self.corners[corner_flat_index(ci + 1, cj + 1, ck + 1, cy, cz)];
        let a0 = lerp_trunc(c000, c010, oy, h as i64);
        let a1 = lerp_trunc(c100, c110, oy, h as i64);
        let a2 = lerp_trunc(c001, c011, oy, h as i64);
        let a3 = lerp_trunc(c101, c111, oy, h as i64);
        let b0 = lerp_trunc(a0, a1, ox, w as i64);
        let b1 = lerp_trunc(a2, a3, ox, w as i64);
        lerp_trunc(b0, b1, oz, w as i64)
    }
}

/// The interpolated terrain density as a pure function of the router, the
/// deriver and the lattice geometry alone, with the corner values written as
/// direct router evaluations.
#[verifier::opaque]
pub open spec fn spec_interp_density(
    nodes: Seq<DensityNode>,
    d: RandomDeriver,
    fidx: int,
    start_x: int,
    start_z: int,
    min_y: int,
    cell_w: int,
    cell_h: int,
    x: i32,
    y: i32,
    z: i32,
) -> i64 {
    let dx = x as int - start_x;
    let dy = y as int - min_y;
    let dz = z as int - start_z;
    let ci = dx / cell_w;
    let cj = dy / cell_h;
    let ck = dz / cell_w;
    let ox = dx % cell_w;
    let oy = dy % cell_h;
    let oz = dz % cell_w;
    let corner = |a: int, b: int, c: int|
        spec_eval(
            nodes,
            d,
            fidx,
            (start_x + a * cell_w) as i32,
            (min_y + b * cell_h) as i32,
            (start_z + c * cell_w) as i32,
        );
    let a0 = spec_lerp(corner(ci, cj, ck), corner(ci, cj + 1, ck), oy, cell_h);
    let a1 = spec_lerp(corner(ci + 1, cj, ck), corner(ci + 1, cj + 1, ck), oy, cell_h);
    let a2 = spec_lerp(corner(ci, cj, ck + 1), corner(ci, cj + 1, ck + 1), oy, cell_h);
    let a3 = spec_lerp(corner(ci + 1, cj, ck + 1), corner(ci + 1, cj + 1, ck + 1), oy, cell_h);
    let b0 = spec_lerp(a0, a1, ox, cell_w);
    let b1 = spec_lerp(a2, a3, ox, cell_w);
    spec_lerp(b0, b1, oz, cell_w)
}

/// Under the router tie, the stored-corner sample equals the pure
/// interpolated density.
pub proof fn lemma_sample_matches_interp(
    itp: ChunkNoiseInterpolator,
    nodes: Seq<DensityNode>,
    d: RandomDeriver,
    fidx: int,
    x: i32,
    y: i32,
    z: i32,
)
    requires
        itp.wf(nodes, d, fidx),
        itp.start_x <= x < itp.start_x + 16,
        itp.min_y <= y,
        (y as int) < itp.min_y + itp.cells_y as int * itp.cell_h as int,
        itp.start_z <= z < itp.start_z + 16,
    ensures
        itp.spec_sample(x, y, z) == spec_interp_density(
            nodes,
            d,
            fidx,
            itp.start_x as int,
            itp.start_z as int,
            itp.min_y as int,
            itp.cell_w as int,
            itp.cell_h as int,
            x,
            y,
            z,
        ),
{
    reveal(ChunkNoiseInterpolator::spec_sample);
    reveal(spec_interp_density);
    let dx = x as int - itp.start_x as int;
    let dy = y as int - itp.min_y as int;
    let dz = z as int - itp.start_z as int;
    let w = itp.cell_w as int;
    let h = itp.cell_h as int;
    assert(dx < w * itp.cells_xz as int && dy < h * itp.cells_y as int && dz < w
        * itp.cells_xz as int) by (nonlinear_arith)
        requires
            dx < itp.cells_xz as int * w,
            dy < itp.cells_y as int * h,
            dz < itp.cells_xz as int * w,
    ;
    vstd::arithmetic::div_mod::lemma_multiply_divide_lt(dx, w, itp.cells_xz as int);
    vstd::arithmetic::div_mod::lemma_multiply_divide_lt(dy, h, itp.cells_y as int);
    vstd::arithmetic::div_mod::lemma_multiply_divide_lt(dz, w, itp.cells_xz as int);
    vstd::arithmetic::div_mod::lemma_div_pos_is_pos(dx, w);
    vstd::arithmetic::div_mod::lemma_div_pos_is_pos(dy, h);
    vstd::arithmetic::div_mod::lemma_div_pos_is_pos(dz, w);
    let ci = dx / w;
    let cj = dy / h;
    let ck = dz / w;
    let cy = itp.cells_y as int;
    let cz = itp.cells_xz as int;
    lemma_corner_index_bounds(ci, cj, ck, cy, cz);
    lemma_corner_index_bounds(ci, cj + 1, ck, cy, cz);
    lemma_corner_index_bounds(ci + 1, cj, ck, cy, cz);
    lemma_corner_index_bounds(ci + 1, cj + 1, ck, cy, cz);
    lemma_corner_index_bounds(ci, cj, ck + 1, cy, cz);
    lemma_corner_index_bounds(ci, cj + 1, ck + 1, cy, cz);
    lemma_corner_index_bounds(ci + 1, cj, ck + 1, cy, cz);
    lemma_corner_index_bounds(ci + 1, cj + 1, ck + 1, cy, cz);
}

/// Law: sampling at a lattice corner returns exactly the router's coarse
/// value at that corner; the interpolation error is zero at the boundary.
pub proof fn lemma_interpolation_exact_at_corner(
    itp: ChunkNoiseInterpolator,
    nodes: Seq<DensityNode>,
    d: RandomDeriver,
    fidx: int,
    ci: int,
    cj: int,
    ck: int,
)
    requires
        itp.wf(nodes, d, fidx),
        0 <= ci < itp.cells_xz as int,
        0 <= cj < itp.cells_y as int,
        0 <= ck < itp.cells_xz as int,
    ensures
        itp.spec_sample(
            (itp.start_x + ci * itp.cell_w) as i32,
            (itp.min_y + cj * itp.cell_h) as i32,
            (itp.start_z + ck * itp.cell_w) as i32,
        ) == spec_eval(
            nodes,
            d,
            fidx,
            (itp.start_x + ci * itp.cell_w) as i32,
            (itp.min_y + cj * itp.cell_h) as i32,
            (itp.start_z + ck * itp.cell_w) as i32,
        ),
{
    reveal(ChunkNoiseInterpolator::spec_sample);
    let w = itp.cell_w as int;
    let h = itp.cell_h as int;
    assert(0 <= ci * w && ci * w < 16 && 0 <= ck * w && ck * w < 16) by (nonlinear_arith)
        requires
            0 <= ci < itp.cells_xz as int,
            0 <= ck < itp.cells_xz as int,
            itp.cells_xz as int * w == 16,
            w >= 4,
    ;
    assert(0 <= cj * h && cj * h + h <= itp.cells_y as int * h && itp.cells_y as int * h
        <= 0x10000) by (nonlinear_arith)
        requires
            0 <= cj < itp.cells_y as int,
            4 <= h <= 16,
            itp.cells_y as int * itp.cell_h as int <= 0x10000,
            h == itp.cell_h as int,
    ;
    let x = (itp.start_x + ci * itp.cell_w) as i32;
    let y = (itp.min_y + cj * itp.cell_h) as i32;
    let z = (itp.start_z + ck * itp.cell_w) as i32;
    assert(x as int == itp.start_x as int + ci * w);
    assert(y as int == itp.min_y as int + cj * h);
    assert(z as int == itp.start_z as int + ck * w);
    let dx = x as int - itp.start_x as int;
    let dy = y as int - itp.min_y as int;
    let dz = z as int - itp.start_z as int;
    assert(dx / w == ci && dx % w == 0) by {
        vstd::arithmetic::div_mod::lemma_fundamental_div_mod_converse(dx, w, ci, 0);
    }
    assert(dy / h == cj && dy % h == 0) by {
        vstd::arithmetic::div_mod::lemma_fundamental_div_mod_converse(dy, h, cj, 0);
    }
    assert(dz / w == ck && dz % w == 0) by {
        vstd::arithmetic::div_mod::lemma_fundamental_div_mod_converse(dz, w, ck, 0);
    }
    let cy = itp.cells_y as int;
    let cz = itp.cells_xz as int;
    lemma_corner_index_bounds(ci, cj, ck, cy, cz);
    lemma_corner_index_bounds(ci + 1, cj + 1, ck + 1, cy, cz);
    lemma_corner_index_bounds(ci, cj + 1, ck, cy, cz);
    lemma_corner_index_bounds(ci + 1, cj, ck, cy, cz);
    lemma_corner_index_bounds(ci + 1, cj + 1, ck, cy, cz);
    lemma_corner_index_bounds(ci, cj, ck + 1, cy, cz);
    lemma_corner_index_bounds(ci, cj + 1, ck + 1, cy, cz);
    lemma_corner_index_bounds(ci + 1, cj, ck + 1, cy, cz);
    let c000 = itp.corners@[spec_corner_index(ci, cj, ck, cy, cz)];
    let c010 = itp.corners@[spec_corner_index(ci, cj + 1, ck, cy, cz)];
    let c100 = itp.corners@[spec_corner_index(ci + 1, cj, ck, cy, cz)];
    let c110 = itp.corners@[spec_corner_index(ci + 1, cj + 1, ck, cy, cz)];
    let c001 = itp.corners@[spec_corner_index(ci, cj, ck + 1, cy, cz)];
    let c011 = itp.corners@[spec_corner_index(ci, cj + 1, ck + 1, cy, cz)];
    lemma_lerp_exact_at_zero(c000, c010, h);
    lemma_lerp_exact_at_zero(c100, c110, h);
    lemma_lerp_exact_at_zero(c001, c011, h);
    let c101 = itp.corners@[spec_corner_index(ci + 1, cj, ck + 1, cy, cz)];
    let c111 = itp.corners@[spec_corner_index(ci + 1, cj + 1, ck + 1, cy, cz)];
    lemma_lerp_exact_at_zero(c101, c111, h);
    lemma_lerp_exact_at_zero(c000, c100, w);
    lemma_lerp_exact_at_zero(c001, c101, w);
    lemma_lerp_exact_at_zero(c000, c001, w);
}

} // verus!
