pub mod aquifer_sampler;
pub mod biome;
pub mod biome_coords;
pub mod blocks;
pub mod chunk_noise;
pub mod client_suggestions;
pub mod command_tree;
pub mod density;
pub mod dimension;
pub mod experience;
pub mod experience_command;
pub mod generation;
pub mod height_limit;
pub mod kill_command;
pub mod login;
pub mod noise;
pub mod noise_router;
pub mod ore_sampler;
pub mod packet;
pub mod proto_chunk;
pub mod random;
pub mod section_coords;
pub mod settings;
pub mod summonable_entities;
pub mod surface;
pub mod text;
pub mod viewer;

pub use crate::generation::GlobalRandomConfig;
pub use crate::noise_router::ProtoNoiseRouters;
pub use crate::proto_chunk::ProtoChunk;
pub use crate::settings::GeneratorSetting;

use vstd::prelude::*;

use crate::dimension::Dimension;
use crate::proto_chunk::Vector2;
use crate::settings::GenerationSettings;

verus! {

/// Identifier of a block kind in the block registry.
pub type BlockId = u16;

/// Identifier of a concrete block state (a block kind plus its property values).
pub type BlockStateId = u16;

/// Block states the built-in generation settings speak of. The registry of a
/// full server is far larger; the pipeline itself only ever reads and writes
/// state identifiers, so these few named states suffice for generation.
pub const BLOCK_AIR: BlockStateId = 0;

pub const BLOCK_STONE: BlockStateId = 1;

pub const BLOCK_WATER: BlockStateId = 2;

pub const BLOCK_LAVA: BlockStateId = 3;

pub const BLOCK_GRASS_BLOCK: BlockStateId = 4;

pub const BLOCK_DIRT: BlockStateId = 5;

pub const BLOCK_NETHERRACK: BlockStateId = 6;

pub const BLOCK_END_STONE: BlockStateId = 7;

pub const BLOCK_SOUL_SAND: BlockStateId = 8;

pub const BLOCK_GRAVEL: BlockStateId = 9;

pub const BLOCK_IRON_ORE: BlockStateId = 10;

pub const BLOCK_RAW_IRON_BLOCK: BlockStateId = 11;

/// Creates a chunk at the origin and runs the noise stage, for benchmarking.
pub fn bench_create_and_populate_noise(
    base_router: &ProtoNoiseRouters,
    random_config: &GlobalRandomConfig,
    settings: &GenerationSettings,
)
    requires
        base_router.wf(),
        settings.wf(),
{
    let mut chunk = ProtoChunk::new(Vector2::new(0, 0), base_router, random_config, settings);
    chunk.populate_noise();
}

/// Creates a chunk at the origin and runs the biome stage, for benchmarking.
pub fn bench_create_and_populate_biome(
    base_router: &ProtoNoiseRouters,
    random_config: &GlobalRandomConfig,
    settings: &GenerationSettings,
)
    requires
        base_router.wf(),
        settings.wf(),
{
    let mut chunk = ProtoChunk::new(Vector2::new(0, 0), base_router, random_config, settings);
    chunk.populate_biomes(Dimension::Overworld);
}

/// Creates a chunk at the origin and runs biomes, noise and surface, for
/// benchmarking.
pub fn bench_create_and_populate_noise_with_surface(
    base_router: &ProtoNoiseRouters,
    random_config: &GlobalRandomConfig,
    settings: &GenerationSettings,
)
    requires
        base_router.wf(),
        settings.wf(),
{
    let mut chunk = ProtoChunk::new(Vector2::new(0, 0), base_router, random_config, settings);
    chunk.populate_biomes(Dimension::Overworld);
    chunk.populate_noise();
    chunk.build_surface();
}

} // verus!
