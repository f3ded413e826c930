use pumpkin_core::aquifer_sampler::{apply_aquifer, div_floor_i32, local_fluid_level};
use pumpkin_core::density::DensityNode;
use pumpkin_core::generation::GlobalRandomConfig;
use pumpkin_core::noise_router::{NoiseRouterOutputs, ProtoNoiseRouters};
use pumpkin_core::proto_chunk::{ProtoChunk, Vector2};
use pumpkin_core::settings::{BlockStateCodec, GenerationSettings, GenerationShapeConfig};
use pumpkin_core::BLOCK_DIRT;
use pumpkin_core::dimension::Dimension;
use pumpkin_core::height_limit::HeightLimitView;
use pumpkin_core::random::RandomDeriver;
use pumpkin_core::settings::{gen_settings_from_dimension, settings_for, GeneratorSetting};
use pumpkin_core::surface::{try_apply, MaterialCondition, MaterialRule, SurfaceContext};
use pumpkin_core::{BLOCK_AIR, BLOCK_GRASS_BLOCK, BLOCK_LAVA, BLOCK_STONE, BLOCK_WATER};

fn ctx_with_stone_depth(stone_depth: u32) -> SurfaceContext {
    SurfaceContext {
        deriver: RandomDeriver::Xoroshiro { lo: 1, hi: 2 },
        x: 0,
        z: 0,
        y: 70,
        biome: 1,
        stone_depth,
        water_height: 70,
        preliminary_surface: 63,
    }
}

#[test]
fn sequence_short_circuits_on_stone_depth() {
    // Sequence [ Condition(stone_depth <= 2, Grass), Stone ]: depths 0, 1 and
    // 2 give grass, everything deeper gives stone.
    let rule = MaterialRule::Sequence(vec![
        MaterialRule::Condition(
            MaterialCondition::StoneDepthAtMost(2),
            Box::new(MaterialRule::Block(BLOCK_GRASS_BLOCK)),
        ),
        MaterialRule::Block(BLOCK_STONE),
    ]);
    for depth in 0u32..3 {
        assert_eq!(try_apply(&rule, &ctx_with_stone_depth(depth)), Some(BLOCK_GRASS_BLOCK));
    }
    for depth in 3u32..8 {
        assert_eq!(try_apply(&rule, &ctx_with_stone_depth(depth)), Some(BLOCK_STONE));
    }
}

#[test]
fn empty_sequence_yields_nothing() {
    let rule = MaterialRule::Sequence(Vec::new());
    assert_eq!(try_apply(&rule, &ctx_with_stone_depth(0)), None);
}

#[test]
fn condition_gates_its_child() {
    let rule = MaterialRule::Condition(
        MaterialCondition::YAbove(80),
        Box::new(MaterialRule::Block(BLOCK_GRASS_BLOCK)),
    );
    let mut low = ctx_with_stone_depth(0);
    low.y = 80;
    let mut high = ctx_with_stone_depth(0);
    high.y = 81;
    assert_eq!(try_apply(&rule, &low), None);
    assert_eq!(try_apply(&rule, &high), Some(BLOCK_GRASS_BLOCK));
}

#[test]
fn aquifer_barrier_threshold_decides_fluid_or_stone() {
    // Below the local fluid level and above the lava floor: a barrier value
    // on the closed side keeps stone, the open side floods with the fluid.
    let fluid_level: i64 = 60;
    let y = 40;
    let min_y = 0;
    let closed = apply_aquifer(y, -3, 4, fluid_level, min_y, BLOCK_STONE, BLOCK_WATER, BLOCK_LAVA);
    assert_eq!(closed, BLOCK_STONE);
    let open = apply_aquifer(y, -3, 3, fluid_level, min_y, BLOCK_STONE, BLOCK_WATER, BLOCK_LAVA);
    assert_eq!(open, BLOCK_WATER);
}

#[test]
fn aquifer_above_fluid_level_is_air_and_floor_is_lava() {
    assert_eq!(apply_aquifer(60, -3, 0, 60, 0, BLOCK_STONE, BLOCK_WATER, BLOCK_LAVA), BLOCK_AIR);
    assert_eq!(apply_aquifer(5, -3, -9, 60, 0, BLOCK_STONE, BLOCK_WATER, BLOCK_LAVA), BLOCK_LAVA);
}

#[test]
fn local_fluid_level_never_exceeds_the_surface_level() {
    let deriver = RandomDeriver::Xoroshiro { lo: 123, hi: 456 };
    for x in -8..8i32 {
        for y in -32..32i32 {
            let level = local_fluid_level(&deriver, 63, x, y, x * 3 + 1);
            assert!(level <= 63);
        }
    }
}

#[test]
fn floor_division_rounds_toward_negative_infinity() {
    assert_eq!(div_floor_i32(13, 12), 1);
    assert_eq!(div_floor_i32(-1, 12), -1);
    assert_eq!(div_floor_i32(-12, 12), -1);
    assert_eq!(div_floor_i32(-13, 12), -2);
    assert_eq!(div_floor_i32(0, 16), 0);
}

#[test]
fn builtin_settings_match_their_dimension() {
    let overworld = gen_settings_from_dimension(&Dimension::Overworld);
    assert!(overworld.aquifers_enabled);
    assert_eq!(overworld.sea_level, 63);
    assert_eq!(overworld.default_block.state_id, BLOCK_STONE);
    assert_eq!(overworld.default_fluid.state_id, BLOCK_WATER);
    let nether = gen_settings_from_dimension(&Dimension::Nether);
    assert!(!nether.aquifers_enabled);
    assert!(nether.legacy_random_source);
    assert_eq!(nether.sea_level, 32);
    assert_eq!(nether.default_fluid.state_id, BLOCK_LAVA);
    let caves = settings_for(&GeneratorSetting::Caves);
    assert_eq!(caves.sea_level, 63);
}

#[test]
fn shape_cell_counts_and_top() {
    let shape = gen_settings_from_dimension(&Dimension::Overworld).shape;
    assert_eq!(shape.horizontal_cell_block_count(), 4);
    assert_eq!(shape.vertical_cell_block_count(), 8);
    assert_eq!(shape.max_y(), 320);
}

#[test]
fn trim_height_clamps_into_the_runtime_limit() {
    let shape = gen_settings_from_dimension(&Dimension::Overworld).shape;
    let limit = HeightLimitView::new(-32, 100);
    let trimmed = shape.trim_height(&limit);
    assert_eq!(trimmed.min_y, -32);
    assert_eq!(trimmed.max_y(), 100);
    assert_eq!(trimmed.height, 132);
    // A wider limit leaves the shape untouched.
    let wide = HeightLimitView::new(-128, 1000);
    let same = shape.trim_height(&wide);
    assert_eq!(same.min_y, shape.min_y);
    assert_eq!(same.height, shape.height);
}

#[test]
fn surface_stage_rewrites_the_top_of_each_column() {
    // Analytic density 62 - y: stone below 62, water at 62, air above.
    let nodes = vec![DensityNode::YClampedGradient {
        from_y: 0,
        to_y: 128,
        from_value: 62,
        to_value: -66,
    }];
    let outputs = NoiseRouterOutputs {
        temperature: 0,
        vegetation: 0,
        continents: 0,
        erosion: 0,
        depth: 0,
        ridges: 0,
        final_density: 0,
        barrier: 0,
        fluid_level: 0,
        vein_toggle: 0,
    };
    let router = ProtoNoiseRouters::build(nodes, outputs).unwrap();
    let config = GlobalRandomConfig::new(0, false);
    let settings = GenerationSettings {
        aquifers_enabled: false,
        ore_veins_enabled: false,
        legacy_random_source: false,
        sea_level: 63,
        default_fluid: BlockStateCodec { state_id: BLOCK_WATER },
        shape: GenerationShapeConfig { min_y: 0, height: 128, size_horizontal: 1, size_vertical: 1 },
        surface_rule: gen_settings_from_dimension(&Dimension::Overworld).surface_rule,
        default_block: BlockStateCodec { state_id: BLOCK_STONE },
    };
    let mut chunk = ProtoChunk::new(Vector2::new(0, 0), &router, &config, &settings);
    chunk.populate_noise();
    chunk.build_surface();
    let block_index = |x: usize, yi: usize, z: usize| (yi * 16 + z) * 16 + x;
    for &(x, z) in &[(0usize, 0usize), (9, 14)] {
        // The top stone at height 61 sits under water, so the grass arm is
        // skipped and the dirt arm fires for stone depths 0, 1 and 2.
        assert_eq!(chunk.blocks[block_index(x, 61, z)], BLOCK_DIRT);
        assert_eq!(chunk.blocks[block_index(x, 60, z)], BLOCK_DIRT);
        assert_eq!(chunk.blocks[block_index(x, 59, z)], BLOCK_DIRT);
        assert_eq!(chunk.blocks[block_index(x, 58, z)], BLOCK_STONE);
        assert_eq!(chunk.blocks[block_index(x, 62, z)], BLOCK_WATER);
    }
}
