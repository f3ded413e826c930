//! Conversions between block coordinates and 16-block section coordinates.

use vstd::prelude::*;

verus! {

/// Section holding a block coordinate: an arithmetic shift right by four,
/// which rounds toward negative infinity.
pub fn block_to_section(coord: i32) -> (r: i32)
    ensures
        r == coord >> 4,
{
    coord >> 4
}

/// First block coordinate of a section: a shift left by four.
pub fn section_to_block(coord: i32) -> (r: i32)
    ensures
        r == coord << 4,
{
    coord << 4
}

} // verus!
