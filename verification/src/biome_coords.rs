//! Conversions between block, biome-cell (4 blocks) and chunk coordinates.

use vstd::prelude::*;

verus! {

/// Biome cell holding a block coordinate: an arithmetic shift right by two.
pub fn from_block(coord: i32) -> (r: i32)
    ensures
        r == coord >> 2,
{
    coord >> 2
}

/// First block coordinate of a biome cell: a shift left by two.
pub fn to_block(coord: i32) -> (r: i32)
    ensures
        r == coord << 2,
{
    coord << 2
}

/// First biome cell of a chunk: a shift left by two.
pub fn from_chunk(coord: i32) -> (r: i32)
    ensures
        r == coord << 2,
{
    coord << 2
}

/// Chunk holding a biome cell: an arithmetic shift right by two.
pub fn to_chunk(coord: i32) -> (r: i32)
    ensures
        r == coord >> 2,
{
    coord >> 2
}

} // verus!
