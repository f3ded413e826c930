//! The aquifer sampler: noise-driven local fluid pockets. For a non-solid
//! position it selects the aquifer cell the position lies in, derives the
//! cell's candidate fluid level purely from the cell coordinates (no
//! neighbouring chunks), and blends a barrier field with the terrain density
//! to decide between air, the dimension's fluid, lava and solid stone.
//!
//! The candidate neighbourhood is pinned to the single containing cell of
//! 16 x 12 x 16 blocks.

use vstd::prelude::*;

use crate::random::{spec_source_output, spec_split_pos, RandomDeriver};
use crate::BlockStateId;
use crate::BLOCK_AIR;

verus! {

/// Horizontal extent of an aquifer cell in blocks.
pub const AQUIFER_CELL_XZ: i32 = 16;

/// Vertical extent of an aquifer cell in blocks.
pub const AQUIFER_CELL_Y: i32 = 12;

/// A barrier-plus-density value strictly above this keeps the position solid.
pub const AQUIFER_BARRIER_THRESHOLD: i64 = 0;

/// Positions fewer than this many blocks above the world bottom flood with
/// lava instead of the dimension's fluid.
pub const AQUIFER_LAVA_DEPTH: i32 = 9;

/// Floor division, the rounding cell coordinates need for negative
/// positions; computed by shifting the dividend into the non-negative range.
pub fn div_floor_i32(a: i32, b: i32) -> (r: i32)
    requires
        0 < b <= 0x10000,
    ensures
        r == (a as int) / (b as int),
{
    let shifted: i64 = (a as i64) + (b as i64) * 0x1_0000_0000i64;
    proof {
        assert(0 < (b as int) * 0x1_0000_0000 <= 0x1_0000_0000_0000 && (b as int) * 0x1_0000_0000
            >= 0x1_0000_0000) by (nonlinear_arith)
            requires
                0 < b as int <= 0x10000,
        ;
        vstd::arithmetic::div_mod::lemma_hoist_over_denominator(
            a as int,
            0x1_0000_0000,
            b as nat,
        );
        assert(0x1_0000_0000 * (b as int) == (b as int) * 0x1_0000_0000) by (nonlinear_arith);
        assert(a as int + 0x1_0000_0000 * (b as int) == shifted as int);
        vstd::arithmetic::div_mod::lemma_fundamental_div_mod(a as int, b as int);
        let q = a as int / b as int;
        let m = a as int % b as int;
        assert(-0x8000_0000 <= q <= 0x7FFF_FFFF) by (nonlinear_arith)
            requires
                a as int == (b as int) * q + m,
                0 <= m < b as int,
                1 <= b as int <= 0x10000,
                -0x8000_0000 <= a as int <= 0x7FFF_FFFF,
        ;
    }
    let q64: u64 = (shifted as u64) / (b as u64);
    ((q64 as i64) - 0x1_0000_0000i64) as i32
}

/// The fluid level of the aquifer cell holding (x, y, z): the surface level
/// as sampled by the router at the cell's centre, lowered for roughly a
/// third of the cells by a jitter drawn purely from the cell coordinates.
pub open spec fn spec_local_fluid_level(
    aquifer_deriver: RandomDeriver,
    surface_level: i32,
    x: i32,
    y: i32,
    z: i32,
) -> int {
    let cx = (x as int) / (AQUIFER_CELL_XZ as int);
    let cy = (y as int) / (AQUIFER_CELL_Y as int);
    let cz = (z as int) / (AQUIFER_CELL_XZ as int);
    let draw = spec_source_output(
        spec_split_pos(aquifer_deriver, cx as i32, cy as i32, cz as i32),
    );
    if draw % 3 == 0 {
        let local = cy * (AQUIFER_CELL_Y as int) + ((draw >> 8) % (AQUIFER_CELL_Y as u64)) as int;
        if local <= surface_level as int {
            local
        } else {
            surface_level as int
        }
    } else {
        surface_level as int
    }
}

/// The fluid level of the aquifer cell holding (x, y, z).
pub fn local_fluid_level(
    aquifer_deriver: &RandomDeriver,
    surface_level: i32,
    x: i32,
    y: i32,
    z: i32,
) -> (r: i64)
    requires
        -0x20000 <= surface_level <= 0x20000,
        -0x20000 <= y <= 0x20000,
    ensures
        r == spec_local_fluid_level(*aquifer_deriver, surface_level, x, y, z),
{
    let cx = div_floor_i32(x, AQUIFER_CELL_XZ);
    let cy = div_floor_i32(y, AQUIFER_CELL_Y);
    let cz = div_floor_i32(z, AQUIFER_CELL_XZ);
    let mut source = aquifer_deriver.split(cx, cy, cz);
    let draw = source.next_u64();
    proof {
        assert(cy as int * (AQUIFER_CELL_Y as int) <= y as int && (y as int - AQUIFER_CELL_Y as int)
            < cy as int * (AQUIFER_CELL_Y as int)) by {
            vstd::arithmetic::div_mod::lemma_fundamental_div_mod(y as int, AQUIFER_CELL_Y as int);
        }
    }
    if draw % 3 == 0 {
        let jitter = ((draw >> 8) % (AQUIFER_CELL_Y as u64)) as i64;
        let local: i64 = (cy as i64) * (AQUIFER_CELL_Y as i64) + jitter;
        if local <= surface_level as i64 {
            local
        } else {
            surface_level as i64
        }
    } else {
        surface_level as i64
    }
}

/// What a non-solid position resolves to: air above the local fluid level;
/// below it, solid stone where the barrier blended with the terrain density
/// is above the threshold, lava near the world bottom, and the dimension's
/// fluid otherwise.
pub open spec fn spec_aquifer_block(
    y: i32,
    density: i64,
    barrier: i64,
    fluid_level: int,
    min_y: i32,
    default_block: BlockStateId,
    default_fluid: BlockStateId,
    lava_block: BlockStateId,
) -> BlockStateId {
    if y as int >= fluid_level {
        BLOCK_AIR
    } else if barrier + density > AQUIFER_BARRIER_THRESHOLD {
        default_block
    } else if (y as int) < min_y as int + AQUIFER_LAVA_DEPTH as int {
        lava_block
    } else {
        default_fluid
    }
}

/// Resolves a non-solid position against the aquifer fields.
pub fn apply_aquifer(
    y: i32,
    density: i64,
    barrier: i64,
    fluid_level: i64,
    min_y: i32,
    default_block: BlockStateId,
    default_fluid: BlockStateId,
    lava_block: BlockStateId,
) -> (r: BlockStateId)
    requires
        -0x1_0000_0000 <= density <= 0x1_0000_0000,
        -0x1_0000_0000 <= barrier <= 0x1_0000_0000,
        -0x10000 <= min_y <= 0x10000,
    ensures
        r == spec_aquifer_block(
            y,
            density,
            barrier,
            fluid_level as int,
            min_y,
            default_block,
            default_fluid,
            lava_block,
        ),
{
    if (y as i64) >= fluid_level {
        BLOCK_AIR
    } else if barrier + density > AQUIFER_BARRIER_THRESHOLD {
        default_block
    } else if y < min_y + AQUIFER_LAVA_DEPTH {
        lava_block
    } else {
        default_fluid
    }
}

/// Law: below the local fluid level and away from the lava floor, a barrier
/// blended with the density on the open side of the threshold resolves to
/// the dimension's fluid; on the closed side it stays solid stone.
pub proof fn lemma_aquifer_threshold(
    y: i32,
    density: i64,
    barrier: i64,
    fluid_level: int,
    min_y: i32,
    default_block: BlockStateId,
    default_fluid: BlockStateId,
    lava_block: BlockStateId,
)
    requires
        (y as int) < fluid_level,
        min_y as int + AQUIFER_LAVA_DEPTH as int <= y as int,
    ensures
        barrier + density > AQUIFER_BARRIER_THRESHOLD ==> spec_aquifer_block(
            y,
            density,
            barrier,
            fluid_level,
            min_y,
            default_block,
            default_fluid,
            lava_block,
        ) == default_block,
        barrier + density <= AQUIFER_BARRIER_THRESHOLD ==> spec_aquifer_block(
            y,
            density,
            barrier,
            fluid_level,
            min_y,
            default_block,
            default_fluid,
            lava_block,
        ) == default_fluid,
{
}

} // verus!
