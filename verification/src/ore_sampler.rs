//! The ore-vein sampler: where the router's vein field exceeds the vein
//! threshold inside the gated height band, a solid block becomes an ore (or,
//! rarely, a raw-mineral block) with a per-block probability drawn from the
//! ore deriver split at the block coordinates, so vein edges are ragged
//! rather than uniform.

use vstd::prelude::*;

use crate::random::{spec_source_output, spec_split_pos, RandomDeriver};
use crate::BlockStateId;
use crate::{BLOCK_IRON_ORE, BLOCK_RAW_IRON_BLOCK};

verus! {

/// Vein field values strictly above this make a position a vein candidate.
pub const VEIN_THRESHOLD: i64 = 0x4000_0000;

/// Highest block height at which veins may form.
pub const VEIN_MAX_Y: i32 = 50;

/// Percentage of candidate blocks that actually become ore.
pub const VEIN_CHANCE_PERCENT: u64 = 30;

/// One in this many placed vein blocks is the raw-mineral variant.
pub const VEIN_RAW_ONE_IN: u64 = 50;

/// The ore block a position receives, if any: a candidate when the vein
/// field exceeds the threshold below the gated height, then a Bernoulli draw
/// from the ore deriver split at the block coordinates.
pub open spec fn spec_ore_block(
    ore_deriver: RandomDeriver,
    vein_value: i64,
    x: i32,
    y: i32,
    z: i32,
) -> Option<BlockStateId> {
    if vein_value > VEIN_THRESHOLD && y < VEIN_MAX_Y {
        let draw = spec_source_output(spec_split_pos(ore_deriver, x, y, z));
        if draw % 100 < VEIN_CHANCE_PERCENT {
            if (draw >> 32) % VEIN_RAW_ONE_IN == 0 {
                Some(BLOCK_RAW_IRON_BLOCK)
            } else {
                Some(BLOCK_IRON_ORE)
            }
        } else {
            None
        }
    } else {
        None
    }
}

/// The ore block a position receives, if any.
pub fn sample_ore(ore_deriver: &RandomDeriver, vein_value: i64, x: i32, y: i32, z: i32) -> (r:
    Option<BlockStateId>)
    ensures
        r == spec_ore_block(*ore_deriver, vein_value, x, y, z),
{
    if vein_value > VEIN_THRESHOLD && y < VEIN_MAX_Y {
        let mut source = ore_deriver.split(x, y, z);
        let draw = source.next_u64();
        if draw % 100 < VEIN_CHANCE_PERCENT {
            if (draw >> 32) % VEIN_RAW_ONE_IN == 0 {
                Some(BLOCK_RAW_IRON_BLOCK)
            } else {
                Some(BLOCK_IRON_ORE)
            }
        } else {
            None
        }
    } else {
        None
    }
}

} // verus!
