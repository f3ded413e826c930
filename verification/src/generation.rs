//! Generator construction: the world seed split into the independent
//! derivers the pipeline consumes, and the per-dimension generator built once
//! at startup from the settings table and a router.

use vstd::prelude::*;
use vstd::string::StringSliceAdditionalSpecFns;

use crate::dimension::Dimension;
use crate::density::{DensityNode, BinaryOperation};
use crate::noise_router::{NoiseRouterOutputs, ProtoNoiseRouters};
use crate::random::{
    spec_next_splitter_value, spec_split_string, spec_xo_from_seed, spec_legacy_scramble,
    LegacyRand, RandomDeriver, RandomSource, Xoroshiro,
};
use crate::settings::{
    gen_settings_from_dimension, spec_default_rule_result, spec_setting_of, spec_settings_scalars,
    GenerationSettings,
};
use crate::surface::{spec_try_apply, SurfaceContext};

verus! {

/// A compass direction on the block grid.
#[derive(Clone, Copy, PartialEq, Eq, Structural, Debug)]
pub enum Direction {
    North,
    NorthEast,
    East,
    SouthEast,
    South,
    SouthWest,
    West,
    NorthWest,
}

/// A world seed: the root of all determinism.
#[derive(Clone, Copy, PartialEq, Eq, Structural, Debug)]
pub struct Seed(pub u64);

/// The fresh stream a world seed yields under the chosen algorithm.
pub open spec fn spec_root_source(seed: u64, legacy: bool) -> RandomSource {
    if legacy {
        RandomSource::Legacy(LegacyRand { state: spec_legacy_scramble(seed) })
    } else {
        RandomSource::Xoroshiro(spec_xo_from_seed(seed))
    }
}

/// The world's base deriver: the splitter drawn from the root stream.
pub open spec fn spec_base_deriver(seed: u64, legacy: bool) -> RandomDeriver {
    spec_next_splitter_value(spec_root_source(seed, legacy))
}

/// The deriver dedicated to a named subsystem: the splitter drawn from the
/// base deriver's stream for that path.
pub open spec fn spec_deriver_for(base: RandomDeriver, name_bytes: Seq<u8>) -> RandomDeriver {
    spec_next_splitter_value(spec_split_string(base, name_bytes))
}

/// The seed-derived randomness a generator shares across all of its chunk
/// tasks: one base deriver plus dedicated derivers for aquifers and ores,
/// each a pure function of (seed, algorithm).
#[derive(Clone, Copy, PartialEq, Eq, Structural, Debug)]
pub struct GlobalRandomConfig {
    pub seed: u64,
    pub base_random_deriver: RandomDeriver,
    pub aquifer_random_deriver: RandomDeriver,
    pub ore_random_deriver: RandomDeriver,
}

impl GlobalRandomConfig {
    /// Derives the shared randomness for a world seed. Each field is pinned
    /// to a pure function of (seed, algorithm) alone, so deriving one
    /// subsystem's stream can never disturb another's.
    pub fn new(seed: u64, legacy: bool) -> (r: GlobalRandomConfig)
        ensures
            r.seed == seed,
            r.base_random_deriver == spec_base_deriver(seed, legacy),
            r.aquifer_random_deriver == spec_deriver_for(
                spec_base_deriver(seed, legacy),
                ("minecraft:aquifer").spec_bytes(),
            ),
            r.ore_random_deriver == spec_deriver_for(
                spec_base_deriver(seed, legacy),
                ("minecraft:ore").spec_bytes(),
            ),
    {
        let mut root = if legacy {
            RandomSource::Legacy(LegacyRand::from_seed(seed))
        } else {
            RandomSource::Xoroshiro(Xoroshiro::from_seed(seed))
        };
        let random_deriver = root.next_splitter();
        let mut aquifer_source = random_deriver.split_string("minecraft:aquifer");
        let aquifer_deriver = aquifer_source.next_splitter();
        let mut ore_source = random_deriver.split_string("minecraft:ore");
        let ore_deriver = ore_source.next_splitter();
        GlobalRandomConfig {
            seed,
            base_random_deriver: random_deriver,
            aquifer_random_deriver: aquifer_deriver,
            ore_random_deriver: ore_deriver,
        }
    }

    /// The world seed.
    pub fn seed(&self) -> (r: u64)
        ensures
            r == self.seed,
    {
        self.seed
    }

    /// The base deriver shared by the pipeline stages.
    pub fn base_random_deriver(&self) -> (r: RandomDeriver)
        ensures
            r == self.base_random_deriver,
    {
        self.base_random_deriver
    }

    /// The deriver dedicated to aquifer placement.
    pub fn aquifer_random_deriver(&self) -> (r: RandomDeriver)
        ensures
            r == self.aquifer_random_deriver,
    {
        self.aquifer_random_deriver
    }

    /// The deriver dedicated to ore-vein placement.
    pub fn ore_random_deriver(&self) -> (r: RandomDeriver)
        ensures
            r == self.ore_random_deriver,
    {
        self.ore_random_deriver
    }
}

/// Salts of the noises the built-in router draws.
pub const SALT_TEMPERATURE: u64 = 0x7431;

pub const SALT_VEGETATION: u64 = 0x7632;

pub const SALT_CONTINENTS: u64 = 0x6333;

pub const SALT_EROSION: u64 = 0x6534;

pub const SALT_RIDGES: u64 = 0x7235;

pub const SALT_TERRAIN: u64 = 0x6436;

pub const SALT_BARRIER: u64 = 0x6237;

pub const SALT_VEIN: u64 = 0x7638;

/// The built-in router of a dimension: a linear height gradient plus terrain
/// noise, interpolated and cached, as the final density; independent noises
/// for the climate outputs; a constant fluid-level field at sea level; and a
/// noise for ore veins.
pub fn default_router(min_y: i8, height: u16, sea_level: i32) -> (r: ProtoNoiseRouters)
    requires
        height >= 1,
        -0x10000 <= sea_level <= 0x10000,
    ensures
        r.wf(),
        // the fluid-level field is the constant sea level, everywhere
        forall|d: crate::random::RandomDeriver, x: i32, y: i32, z: i32|
            crate::density::spec_eval(
                r.nodes@,
                d,
                r.outputs.fluid_level as int,
                x,
                y,
                z,
            ) == sea_level as i64,
        // the terrain density is the height gradient plus the terrain noise
        forall|d: crate::random::RandomDeriver, x: i32, y: i32, z: i32|
            crate::density::spec_eval(
                r.nodes@,
                d,
                r.outputs.final_density as int,
                x,
                y,
                z,
            ) == crate::density::spec_clamp_density(
                crate::density::spec_gradient(
                    min_y as i32,
                    ((min_y as i32) + (height as i32)) as i32,
                    0x1000_0000,
                    -0x1000_0000i64,
                    y,
                ) as int + crate::noise::spec_noise_signed(
                    d,
                    SALT_TERRAIN,
                    x,
                    y,
                    z,
                    0x800_0000,
                ) as int,
            ),
{
    let mut nodes: Vec<DensityNode> = Vec::new();
    nodes.push(DensityNode::NoiseSample { salt: SALT_TEMPERATURE, amplitude: 0x1000_0000 });
    nodes.push(DensityNode::NoiseSample { salt: SALT_VEGETATION, amplitude: 0x1000_0000 });
    nodes.push(DensityNode::NoiseSample { salt: SALT_CONTINENTS, amplitude: 0x1000_0000 });
    nodes.push(DensityNode::NoiseSample { salt: SALT_EROSION, amplitude: 0x1000_0000 });
    nodes.push(
        DensityNode::YClampedGradient {
            from_y: min_y as i32,
            to_y: (min_y as i32) + (height as i32),
            from_value: 0x1000_0000,
            to_value: -0x1000_0000,
        },
    );
    nodes.push(DensityNode::NoiseSample { salt: SALT_RIDGES, amplitude: 0x1000_0000 });
    nodes.push(DensityNode::NoiseSample { salt: SALT_TERRAIN, amplitude: 0x800_0000 });
    nodes.push(DensityNode::BinaryOp { op: BinaryOperation::Add, left: 4, right: 6 });
    nodes.push(DensityNode::Interpolated { input: 7 });
    nodes.push(DensityNode::Cache { input: 8 });
    nodes.push(DensityNode::NoiseSample { salt: SALT_BARRIER, amplitude: 0x800_0000 });
    nodes.push(DensityNode::Constant { value: sea_level as i64 });
    nodes.push(DensityNode::NoiseSample { salt: SALT_VEIN, amplitude: 0x8000_0000 });
    let outputs = NoiseRouterOutputs {
        temperature: 0,
        vegetation: 1,
        continents: 2,
        erosion: 3,
        depth: 4,
        ridges: 5,
        final_density: 9,
        barrier: 10,
        fluid_level: 11,
        vein_toggle: 12,
    };
    proof {
        assert forall|i: int| 0 <= i < nodes@.len() implies crate::density::spec_node_wf(
            #[trigger] nodes@[i],
            i,
        ) by {
        }
        assert forall|d: crate::random::RandomDeriver, x: i32, y: i32, z: i32|
            crate::density::spec_eval(nodes@, d, 11, x, y, z) == sea_level as i64 by {
            assert(nodes@[11] == (DensityNode::Constant { value: sea_level as i64 }));
        }
        assert forall|d: crate::random::RandomDeriver, x: i32, y: i32, z: i32|
            crate::density::spec_eval(nodes@, d, 9, x, y, z)
                == crate::density::spec_clamp_density(
                crate::density::spec_gradient(
                    min_y as i32,
                    ((min_y as i32) + (height as i32)) as i32,
                    0x1000_0000,
                    -0x1000_0000i64,
                    y,
                ) as int + crate::noise::spec_noise_signed(d, SALT_TERRAIN, x, y, z, 0x800_0000)
                    as int,
            ) by {
            reveal_with_fuel(crate::density::spec_eval, 5);
            reveal_with_fuel(crate::density::spec_eval_child, 5);
            assert(nodes@[9] == (DensityNode::Cache { input: 8 }));
            assert(nodes@[8] == (DensityNode::Interpolated { input: 7 }));
            assert(nodes@[7] == (DensityNode::BinaryOp {
                op: BinaryOperation::Add,
                left: 4,
                right: 6,
            }));
            assert(nodes@[6] == (DensityNode::NoiseSample {
                salt: SALT_TERRAIN,
                amplitude: 0x800_0000,
            }));
            let a = crate::density::spec_eval(nodes@, d, 4, x, y, z);
            let b = crate::density::spec_eval(nodes@, d, 6, x, y, z);
            assert(crate::density::spec_eval(nodes@, d, 9, x, y, z)
                == crate::density::spec_clamp_density(a as int + b as int));
            assert(a == crate::density::spec_gradient(
                min_y as i32,
                ((min_y as i32) + (height as i32)) as i32,
                0x1000_0000,
                -0x1000_0000i64,
                y,
            ));
            assert(crate::density::spec_amp(0x800_0000) == 0x800_0000);
            assert(b == crate::noise::spec_noise_signed(d, SALT_TERRAIN, x, y, z, 0x800_0000));
        }
    }
    ProtoNoiseRouters { nodes, outputs }
}

/// A generator for one dimension: the immutable settings, router and
/// derivers built once and shared read-only by every chunk task.
pub struct VanillaGenerator {
    pub random_config: GlobalRandomConfig,
    pub settings: GenerationSettings,
    pub base_router: ProtoNoiseRouters,
}

impl VanillaGenerator {
    /// Everything a generator holds is a pure function of (seed, dimension).
    pub fn new(seed: Seed, dimension: Dimension) -> (r: VanillaGenerator)
        ensures
            r.settings.wf(),
            spec_settings_scalars(spec_setting_of(dimension), r.settings),
            forall|ctx: SurfaceContext|
                spec_try_apply(r.settings.surface_rule, ctx) == spec_default_rule_result(
                    spec_setting_of(dimension),
                    ctx,
                ),
            r.random_config.seed == seed.0,
            r.random_config.base_random_deriver == spec_base_deriver(
                seed.0,
                r.settings.legacy_random_source,
            ),
            r.base_router.wf(),
    {
        let settings = gen_settings_from_dimension(&dimension);
        let random_config = GlobalRandomConfig::new(seed.0, settings.legacy_random_source);
        let base_router = default_router(
            settings.shape.min_y,
            settings.shape.height,
            settings.sea_level,
        );
        VanillaGenerator { random_config, settings, base_router }
    }
}

/// The generator of a dimension for a world seed.
pub fn get_world_gen(seed: Seed, dimension: Dimension) -> (r: VanillaGenerator)
    ensures
        r.settings.wf(),
        spec_settings_scalars(spec_setting_of(dimension), r.settings),
        r.random_config.seed == seed.0,
        r.base_router.wf(),
{
    VanillaGenerator::new(seed, dimension)
}

} // verus!
