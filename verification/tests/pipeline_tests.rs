use pumpkin_core::biome::{nearest_biome, validate_registry, BiomeEntry, ClimatePoint, RegistryError};
use pumpkin_core::noise_router::ConfigurationError;
use pumpkin_core::chunk_noise::ChunkNoiseInterpolator;
use pumpkin_core::density::{eval_once, DensityNode, NoiseCaches};
use pumpkin_core::dimension::Dimension;
use pumpkin_core::generation::{get_world_gen, GlobalRandomConfig, Seed};
use pumpkin_core::noise_router::{NoiseRouterOutputs, ProtoNoiseRouters};
use pumpkin_core::proto_chunk::{ProtoChunk, Vector2};
use pumpkin_core::settings::{BlockStateCodec, GenerationSettings, GenerationShapeConfig};
use pumpkin_core::surface::MaterialRule;
use pumpkin_core::{BLOCK_AIR, BLOCK_STONE, BLOCK_WATER};

fn outputs_all(idx: usize) -> NoiseRouterOutputs {
    NoiseRouterOutputs {
        temperature: idx,
        vegetation: idx,
        continents: idx,
        erosion: idx,
        depth: idx,
        ridges: idx,
        final_density: idx,
        barrier: idx,
        fluid_level: idx,
        vein_toggle: idx,
    }
}

/// A single analytic density: 62 - y, so terrain is solid strictly below
/// height 62.
fn analytic_router() -> ProtoNoiseRouters {
    let nodes = vec![DensityNode::YClampedGradient {
        from_y: 0,
        to_y: 128,
        from_value: 62,
        to_value: -66,
    }];
    ProtoNoiseRouters::build(nodes, outputs_all(0)).unwrap()
}

fn fixture_settings() -> GenerationSettings {
    GenerationSettings {
        aquifers_enabled: false,
        ore_veins_enabled: false,
        legacy_random_source: false,
        sea_level: 63,
        default_fluid: BlockStateCodec { state_id: BLOCK_WATER },
        shape: GenerationShapeConfig { min_y: 0, height: 128, size_horizontal: 1, size_vertical: 1 },
        surface_rule: MaterialRule::Sequence(Vec::new()),
        default_block: BlockStateCodec { state_id: BLOCK_STONE },
    }
}

fn block_index(x: usize, yi: usize, z: usize) -> usize {
    (yi * 16 + z) * 16 + x
}

#[test]
fn end_to_end_fixture_seed_zero_origin_chunk() {
    // With density 62 - y and sea level 63: stone strictly below 62, water at
    // 62, air from 63 up -- checked position for position.
    let router = analytic_router();
    let config = GlobalRandomConfig::new(0, false);
    let settings = fixture_settings();
    let mut chunk = ProtoChunk::new(Vector2::new(0, 0), &router, &config, &settings);
    chunk.populate_noise();
    for &(x, z) in &[(0usize, 0usize), (7, 3), (15, 15)] {
        for yi in 0..128usize {
            let b = chunk.blocks[block_index(x, yi, z)];
            if yi < 62 {
                assert_eq!(b, BLOCK_STONE, "x={} z={} y={}", x, z, yi);
            } else if yi == 62 {
                assert_eq!(b, BLOCK_WATER, "x={} z={} y={}", x, z, yi);
            } else {
                assert_eq!(b, BLOCK_AIR, "x={} z={} y={}", x, z, yi);
            }
        }
    }
}

#[test]
fn full_pipeline_is_deterministic() {
    let gen = get_world_gen(Seed(2024), Dimension::Overworld);
    let mut first = ProtoChunk::new(
        Vector2::new(3, -2),
        &gen.base_router,
        &gen.random_config,
        &gen.settings,
    );
    first.populate_biomes(Dimension::Overworld);
    first.populate_noise();
    first.build_surface();
    first.carve();
    let mut second = ProtoChunk::new(
        Vector2::new(3, -2),
        &gen.base_router,
        &gen.random_config,
        &gen.settings,
    );
    second.populate_biomes(Dimension::Overworld);
    second.populate_noise();
    second.build_surface();
    second.carve();
    assert_eq!(first.blocks, second.blocks);
    assert_eq!(first.biomes, second.biomes);
}

#[test]
fn chunk_generation_order_does_not_matter() {
    let gen = get_world_gen(Seed(77), Dimension::Overworld);
    // Generate (1, 0) alone.
    let mut alone = ProtoChunk::new(
        Vector2::new(1, 0),
        &gen.base_router,
        &gen.random_config,
        &gen.settings,
    );
    alone.populate_biomes(Dimension::Overworld);
    alone.populate_noise();
    alone.build_surface();
    alone.carve();
    // Generate (0, 0) first, then (1, 0).
    let mut origin = ProtoChunk::new(
        Vector2::new(0, 0),
        &gen.base_router,
        &gen.random_config,
        &gen.settings,
    );
    origin.populate_biomes(Dimension::Overworld);
    origin.populate_noise();
    origin.build_surface();
    origin.carve();
    let mut after = ProtoChunk::new(
        Vector2::new(1, 0),
        &gen.base_router,
        &gen.random_config,
        &gen.settings,
    );
    after.populate_biomes(Dimension::Overworld);
    after.populate_noise();
    after.build_surface();
    after.carve();
    assert_eq!(alone.blocks, after.blocks);
    assert_eq!(alone.biomes, after.biomes);
}

#[test]
fn interpolation_is_exact_at_lattice_corners() {
    let router = analytic_router();
    let config = GlobalRandomConfig::new(0, false);
    let deriver = config.base_random_deriver();
    let mut caches = NoiseCaches::new(router.nodes.len());
    let itp = ChunkNoiseInterpolator::new(
        &router.nodes,
        &deriver,
        router.outputs.final_density,
        0,
        0,
        0,
        4,
        4,
        4,
        32,
        &mut caches,
    );
    // Every lattice corner inside the chunk must sample to exactly the
    // router's coarse value there.
    for ci in 0..4i32 {
        for cj in 0..32i32 {
            for ck in 0..4i32 {
                let (x, y, z) = (ci * 4, cj * 4, ck * 4);
                let direct = eval_once(&router.nodes, &deriver, router.outputs.final_density, x, y, z);
                assert_eq!(itp.sample(x, y, z), direct);
                assert_eq!(direct, 62 - y as i64);
            }
        }
    }
}

#[test]
fn biomes_pick_the_nearest_registered_point() {
    let gen = get_world_gen(Seed(5), Dimension::Nether);
    let mut chunk = ProtoChunk::new(
        Vector2::new(0, 0),
        &gen.base_router,
        &gen.random_config,
        &gen.settings,
    );
    chunk.populate_biomes(Dimension::Nether);
    // The nether registry holds one biome, so every cell gets it.
    for &b in chunk.biomes.iter() {
        assert_eq!(b, 4);
    }
}

#[test]
fn nearest_biome_breaks_ties_by_registry_order() {
    let point = |t: i64| ClimatePoint {
        temperature: t,
        vegetation: 0,
        continents: 0,
        erosion: 0,
        depth: 0,
        ridges: 0,
    };
    let registry = vec![
        BiomeEntry { biome_id: 10, point: point(2) },
        BiomeEntry { biome_id: 11, point: point(-2) },
        BiomeEntry { biome_id: 12, point: point(0) },
    ];
    // A sample at 0 is equidistant from the first two entries only if they
    // tie; here the exact match wins.
    assert_eq!(nearest_biome(&registry, &point(0)), 2);
    // Equidistant between entries 0 and 1: the earlier one wins.
    let sample = point(0);
    let two_way = vec![
        BiomeEntry { biome_id: 10, point: point(2) },
        BiomeEntry { biome_id: 11, point: point(-2) },
    ];
    assert_eq!(nearest_biome(&two_way, &sample), 0);
}

#[test]
fn carving_only_removes_blocks() {
    let gen = get_world_gen(Seed(99), Dimension::Overworld);
    let mut chunk = ProtoChunk::new(
        Vector2::new(0, 0),
        &gen.base_router,
        &gen.random_config,
        &gen.settings,
    );
    chunk.populate_noise();
    let before = chunk.blocks.clone();
    chunk.carve();
    let mut changed = 0usize;
    for (i, (&old_b, &new_b)) in before.iter().zip(chunk.blocks.iter()).enumerate() {
        if old_b != new_b {
            changed += 1;
            assert!(
                new_b == pumpkin_core::BLOCK_AIR || new_b == pumpkin_core::BLOCK_LAVA,
                "carving wrote something else at {}",
                i
            );
        }
    }
    // The walk stays inside the chunk, so at most its step count changes.
    assert!(changed <= 64);
}

#[test]
fn registry_validation_reports_each_defect() {
    assert_eq!(validate_registry(&Vec::new()), Err(RegistryError::EmptyRegistry));
    let good = vec![BiomeEntry {
        biome_id: 1,
        point: ClimatePoint {
            temperature: 0,
            vegetation: 0,
            continents: 0,
            erosion: 0,
            depth: 0,
            ridges: 0,
        },
    }];
    assert_eq!(validate_registry(&good), Ok(()));
    let bad = vec![BiomeEntry {
        biome_id: 1,
        point: ClimatePoint {
            temperature: 0x1_0000_0000,
            vegetation: 0,
            continents: 0,
            erosion: 0,
            depth: 0,
            ridges: 0,
        },
    }];
    assert_eq!(validate_registry(&bad), Err(RegistryError::PointOutOfRange));
}

#[test]
fn router_construction_rejects_bad_definitions() {
    // A node referencing itself (or anything at or above its position) is a
    // dangling reference and fails construction.
    let nodes = vec![DensityNode::Interpolated { input: 0 }];
    match ProtoNoiseRouters::build(nodes, outputs_all(0)) {
        Err(ConfigurationError::MalformedNode) => {},
        Err(other) => panic!("expected a malformed node, got {:?}", other),
        Ok(_) => panic!("a dangling reference must fail construction"),
    }
    // An output pointing outside the arena fails construction.
    let nodes = vec![DensityNode::Constant { value: 0 }];
    match ProtoNoiseRouters::build(nodes, outputs_all(1)) {
        Err(ConfigurationError::UndefinedReference) => {},
        Err(other) => panic!("expected an undefined reference, got {:?}", other),
        Ok(_) => panic!("an out-of-range output must fail construction"),
    }
}
