//! Integer lattice value noise: a deterministic draw per (salt, x, y, z),
//! derived from a deriver by salting it and splitting at the coordinates.
//! All noise consumed by the generation pipeline bottoms out here, so a noise
//! value is a pure function of (deriver, salt, position).

use vstd::prelude::*;

use crate::random::{
    spec_source_output, spec_split_pos, RandomDeriver,
};

verus! {

/// The deriver with its seed material xored with a salt, so that different
/// noises drawn from one deriver are independent.
pub open spec fn spec_salted(d: RandomDeriver, salt: u64) -> RandomDeriver {
    match d {
        RandomDeriver::Legacy { seed } => RandomDeriver::Legacy { seed: seed ^ salt },
        RandomDeriver::Xoroshiro { lo, hi } => RandomDeriver::Xoroshiro { lo: lo ^ salt, hi },
    }
}

/// The raw 64-bit noise value at a lattice point.
pub open spec fn spec_noise_u64(d: RandomDeriver, salt: u64, x: i32, y: i32, z: i32) -> u64 {
    spec_source_output(spec_split_pos(spec_salted(d, salt), x, y, z))
}

/// The signed noise value at a lattice point, reduced into [-amplitude, amplitude].
pub open spec fn spec_noise_signed(
    d: RandomDeriver,
    salt: u64,
    x: i32,
    y: i32,
    z: i32,
    amplitude: i64,
) -> i64 {
    ((spec_noise_u64(d, salt, x, y, z) % (2 * amplitude + 1) as u64) - amplitude) as i64
}

/// The deriver with its seed material xored with a salt.
pub fn salted(d: &RandomDeriver, salt: u64) -> (r: RandomDeriver)
    ensures
        r == spec_salted(*d, salt),
{
    match *d {
        RandomDeriver::Legacy { seed } => RandomDeriver::Legacy { seed: seed ^ salt },
        RandomDeriver::Xoroshiro { lo, hi } => RandomDeriver::Xoroshiro { lo: lo ^ salt, hi },
    }
}

/// The raw 64-bit noise value at a lattice point.
pub fn noise_u64(d: &RandomDeriver, salt: u64, x: i32, y: i32, z: i32) -> (r: u64)
    ensures
        r == spec_noise_u64(*d, salt, x, y, z),
{
    let sd = salted(d, salt);
    let mut source = sd.split(x, y, z);
    source.next_u64()
}

/// Largest amplitude a noise may be configured with.
pub const MAX_NOISE_AMPLITUDE: i64 = 0x100_0000_0000;

/// The signed noise value at a lattice point, in [-amplitude, amplitude].
pub fn noise_signed(d: &RandomDeriver, salt: u64, x: i32, y: i32, z: i32, amplitude: i64) -> (r:
    i64)
    requires
        0 < amplitude <= MAX_NOISE_AMPLITUDE,
    ensures
        r == spec_noise_signed(*d, salt, x, y, z, amplitude),
        -amplitude <= r <= amplitude,
{
    let raw = noise_u64(d, salt, x, y, z);
    let m = raw % (2 * (amplitude as u64) + 1);
    (m as i64) - amplitude
}

} // verus!
