//! The biome assigner: samples a six-dimensional climate vector from the
//! router at a coarse grid and selects the registered biome whose declared
//! parameter point minimizes the squared Euclidean distance to the sample.
//! Ties break toward the earliest registry entry, so assignment is a pure
//! function of (seed, coordinate, settings, registry) and never of
//! neighbouring chunks or generation order.

use vstd::prelude::*;

use crate::density::DENSITY_BOUND;
use crate::dimension::Dimension;

verus! {

/// A referenced biome or block is unknown or the registry is unusable,
/// fatal at generator construction.
#[derive(Clone, Copy, PartialEq, Eq, Structural, Debug)]
pub enum RegistryError {
    /// The biome registry holds no entries to assign from.
    EmptyRegistry,
    /// A declared parameter point lies outside the density range.
    PointOutOfRange,
}

/// A climate sample or a biome's declared parameter point.
#[derive(Clone, Copy, PartialEq, Eq, Structural, Debug)]
pub struct ClimatePoint {
    pub temperature: i64,
    pub vegetation: i64,
    pub continents: i64,
    pub erosion: i64,
    pub depth: i64,
    pub ridges: i64,
}

/// A registered biome: its identifier and its declared parameter point.
#[derive(Clone, Copy, PartialEq, Eq, Structural, Debug)]
pub struct BiomeEntry {
    pub biome_id: u8,
    pub point: ClimatePoint,
}

/// All components of a climate point lie in the density range.
pub open spec fn spec_point_bounded(p: ClimatePoint) -> bool {
    &&& -DENSITY_BOUND <= p.temperature <= DENSITY_BOUND
    &&& -DENSITY_BOUND <= p.vegetation <= DENSITY_BOUND
    &&& -DENSITY_BOUND <= p.continents <= DENSITY_BOUND
    &&& -DENSITY_BOUND <= p.erosion <= DENSITY_BOUND
    &&& -DENSITY_BOUND <= p.depth <= DENSITY_BOUND
    &&& -DENSITY_BOUND <= p.ridges <= DENSITY_BOUND
}

/// Squared Euclidean distance between two climate points.
pub open spec fn spec_sq_dist(a: ClimatePoint, b: ClimatePoint) -> int {
    (a.temperature - b.temperature) * (a.temperature - b.temperature) + (a.vegetation
        - b.vegetation) * (a.vegetation - b.vegetation) + (a.continents - b.continents) * (
    a.continents - b.continents) + (a.erosion - b.erosion) * (a.erosion - b.erosion) + (a.depth
        - b.depth) * (a.depth - b.depth) + (a.ridges - b.ridges) * (a.ridges - b.ridges)
}

/// Squared Euclidean distance between two bounded climate points, computed
/// exactly in 128 bits.
pub fn sq_dist(a: &ClimatePoint, b: &ClimatePoint) -> (r: i128)
    requires
        spec_point_bounded(*a),
        spec_point_bounded(*b),
    ensures
        r == spec_sq_dist(*a, *b),
        r >= 0,
{
    let dt = (a.temperature - b.temperature) as i128;
    let dv = (a.vegetation - b.vegetation) as i128;
    let dc = (a.continents - b.continents) as i128;
    let de = (a.erosion - b.erosion) as i128;
    let dd = (a.depth - b.depth) as i128;
    let dr = (a.ridges - b.ridges) as i128;
    proof {
        assert(dt * dt == (a.temperature - b.temperature) * (a.temperature - b.temperature) && 0
            <= dt * dt <= 0x4_0000_0000_0000_0000 && dv * dv == (a.vegetation - b.vegetation) * (
        a.vegetation - b.vegetation) && 0 <= dv * dv <= 0x4_0000_0000_0000_0000 && dc * dc == (
        a.continents - b.continents) * (a.continents - b.continents) && 0 <= dc * dc
            <= 0x4_0000_0000_0000_0000 && de * de == (a.erosion - b.erosion) * (a.erosion
            - b.erosion) && 0 <= de * de <= 0x4_0000_0000_0000_0000 && dd * dd == (a.depth
            - b.depth) * (a.depth - b.depth) && 0 <= dd * dd <= 0x4_0000_0000_0000_0000 && dr * dr
            == (a.ridges - b.ridges) * (a.ridges - b.ridges) && 0 <= dr * dr
            <= 0x4_0000_0000_0000_0000) by (nonlinear_arith)
            requires
                dt == a.temperature - b.temperature,
                dv == a.vegetation - b.vegetation,
                dc == a.continents - b.continents,
                de == a.erosion - b.erosion,
                dd == a.depth - b.depth,
                dr == a.ridges - b.ridges,
                -0x2_0000_0000 <= dt <= 0x2_0000_0000,
                -0x2_0000_0000 <= dv <= 0x2_0000_0000,
                -0x2_0000_0000 <= dc <= 0x2_0000_0000,
                -0x2_0000_0000 <= de <= 0x2_0000_0000,
                -0x2_0000_0000 <= dd <= 0x2_0000_0000,
                -0x2_0000_0000 <= dr <= 0x2_0000_0000,
        ;
    }
    dt * dt + dv * dv + dc * dc + de * de + dd * dd + dr * dr
}

/// The index of the registry entry nearest to the sample: the earliest entry
/// among those at minimal squared distance.
pub open spec fn spec_nearest_index(entries: Seq<BiomeEntry>, sample: ClimatePoint, r: int) -> bool {
    &&& 0 <= r < entries.len()
    &&& forall|k: int|
        0 <= k < entries.len() ==> spec_sq_dist(#[trigger] entries[k].point, sample)
            >= spec_sq_dist(entries[r].point, sample)
    &&& forall|k: int|
        0 <= k < r ==> spec_sq_dist(#[trigger] entries[k].point, sample) > spec_sq_dist(
            entries[r].point,
            sample,
        )
}

/// Every registry entry's parameter point lies in the density range.
pub open spec fn spec_registry_bounded(entries: Seq<BiomeEntry>) -> bool {
    forall|k: int| 0 <= k < entries.len() ==> spec_point_bounded((#[trigger] entries[k]).point)
}

/// The earliest registry entry whose parameter point minimizes the squared
/// distance to the sampled climate vector.
pub fn nearest_biome(registry: &Vec<BiomeEntry>, sample: &ClimatePoint) -> (r: usize)
    requires
        registry@.len() >= 1,
        spec_registry_bounded(registry@),
        spec_point_bounded(*sample),
    ensures
        spec_nearest_index(registry@, *sample, r as int),
{
    let n = registry.len();
    let mut best: usize = 0;
    let mut best_dist: i128 = sq_dist(&registry[0].point, sample);
    let mut k: usize = 1;
    while k < n
        invariant
            1 <= k <= n,
            n == registry@.len(),
            0 <= best < k,
            spec_registry_bounded(registry@),
            spec_point_bounded(*sample),
            best_dist == spec_sq_dist(registry@[best as int].point, *sample),
            forall|j: int|
                0 <= j < k ==> spec_sq_dist(#[trigger] registry@[j].point, *sample) >= best_dist,
            forall|j: int|
                0 <= j < best ==> spec_sq_dist(#[trigger] registry@[j].point, *sample) > best_dist,
        decreases n - k,
    {
        let d = sq_dist(&registry[k].point, sample);
        if d < best_dist {
            best = k;
            best_dist = d;
        }
        k = k + 1;
    }
    best
}

/// Validates a biome registry at generator construction: it must hold at
/// least one entry, and every declared parameter point must lie in the
/// density range. A failure here is fatal at startup; assignment itself
/// cannot fail afterwards.
pub fn validate_registry(registry: &Vec<BiomeEntry>) -> (r: Result<(), RegistryError>)
    ensures
        r is Ok <==> (registry@.len() >= 1 && spec_registry_bounded(registry@)),
        r is Err ==> r->Err_0 == RegistryError::EmptyRegistry || !spec_registry_bounded(registry@),
{
    if registry.len() == 0 {
        return Err(RegistryError::EmptyRegistry);
    }
    let n = registry.len();
    let mut i: usize = 0;
    while i < n
        invariant
            0 <= i <= n,
            n == registry@.len(),
            forall|k: int| 0 <= k < i ==> spec_point_bounded((#[trigger] registry@[k]).point),
        decreases n - i,
    {
        let p = &registry[i].point;
        let ok = -DENSITY_BOUND <= p.temperature && p.temperature <= DENSITY_BOUND && -DENSITY_BOUND
            <= p.vegetation && p.vegetation <= DENSITY_BOUND && -DENSITY_BOUND <= p.continents
            && p.continents <= DENSITY_BOUND && -DENSITY_BOUND <= p.erosion && p.erosion
            <= DENSITY_BOUND && -DENSITY_BOUND <= p.depth && p.depth <= DENSITY_BOUND
            && -DENSITY_BOUND <= p.ridges && p.ridges <= DENSITY_BOUND;
        if !ok {
            return Err(RegistryError::PointOutOfRange);
        }
        i = i + 1;
    }
    Ok(())
}

/// The built-in biome registry entry of a dimension at a registry position.
pub open spec fn spec_registry_entry(dimension: Dimension, i: int) -> BiomeEntry {
    match dimension {
        Dimension::Overworld => {
            if i == 0 {
                BiomeEntry {
                    biome_id: 1,
                    point: ClimatePoint {
                        temperature: 0,
                        vegetation: 0,
                        continents: 0x1000_0000,
                        erosion: 0,
                        depth: 0,
                        ridges: 0,
                    },
                }
            } else if i == 1 {
                BiomeEntry {
                    biome_id: 2,
                    point: ClimatePoint {
                        temperature: 0x2000_0000,
                        vegetation: -0x2000_0000i64,
                        continents: 0x1000_0000,
                        erosion: 0,
                        depth: 0,
                        ridges: 0,
                    },
                }
            } else {
                BiomeEntry {
                    biome_id: 3,
                    point: ClimatePoint {
                        temperature: 0,
                        vegetation: 0,
                        continents: -0x2000_0000i64,
                        erosion: 0,
                        depth: 0,
                        ridges: 0,
                    },
                }
            }
        },
        Dimension::Nether => BiomeEntry {
            biome_id: 4,
            point: ClimatePoint {
                temperature: 0,
                vegetation: 0,
                continents: 0,
                erosion: 0,
                depth: 0,
                ridges: 0,
            },
        },
        Dimension::End => BiomeEntry {
            biome_id: 5,
            point: ClimatePoint {
                temperature: 0,
                vegetation: 0,
                continents: 0,
                erosion: 0,
                depth: 0,
                ridges: 0,
            },
        },
    }
}

/// How many entries the built-in registry of a dimension has.
pub open spec fn spec_registry_len(dimension: Dimension) -> int {
    match dimension {
        Dimension::Overworld => 3,
        Dimension::Nether => 1,
        Dimension::End => 1,
    }
}

/// The built-in biome registry of a dimension: plains, desert and ocean for
/// the overworld, one biome each for the nether and the end.
pub fn default_biome_registry(dimension: &Dimension) -> (r: Vec<BiomeEntry>)
    ensures
        r@.len() == spec_registry_len(*dimension),
        forall|i: int| 0 <= i < r@.len() ==> #[trigger] r@[i] == spec_registry_entry(*dimension, i),
        spec_registry_bounded(r@),
        r@.len() >= 1,
{
    let mut out: Vec<BiomeEntry> = Vec::new();
    match dimension {
        Dimension::Overworld => {
            out.push(
                BiomeEntry {
                    biome_id: 1,
                    point: ClimatePoint {
                        temperature: 0,
                        vegetation: 0,
                        continents: 0x1000_0000,
                        erosion: 0,
                        depth: 0,
                        ridges: 0,
                    },
                },
            );
            out.push(
                BiomeEntry {
                    biome_id: 2,
                    point: ClimatePoint {
                        temperature: 0x2000_0000,
                        vegetation: -0x2000_0000i64,
                        continents: 0x1000_0000,
                        erosion: 0,
                        depth: 0,
                        ridges: 0,
                    },
                },
            );
            out.push(
                BiomeEntry {
                    biome_id: 3,
                    point: ClimatePoint {
                        temperature: 0,
                        vegetation: 0,
                        continents: -0x2000_0000i64,
                        erosion: 0,
                        depth: 0,
                        ridges: 0,
                    },
                },
            );
        },
        Dimension::Nether => {
            out.push(
                BiomeEntry {
                    biome_id: 4,
                    point: ClimatePoint {
                        temperature: 0,
                        vegetation: 0,
                        continents: 0,
                        erosion: 0,
                        depth: 0,
                        ridges: 0,
                    },
                },
            );
        },
        Dimension::End => {
            out.push(
                BiomeEntry {
                    biome_id: 5,
                    point: ClimatePoint {
                        temperature: 0,
                        vegetation: 0,
                        continents: 0,
                        erosion: 0,
                        depth: 0,
                        ridges: 0,
                    },
                },
            );
        },
    }
    out
}

} // verus!
