//! The in-progress chunk: a dense block-state array and a coarser biome
//! array, written by the pipeline stages in their fixed order (biomes, noise
//! with aquifer and ore overrides, surface, carving). Each stage's result is
//! pinned to a pure function of the seed-derived configuration, the settings
//! and the chunk coordinate, so the finished contents are reproducible and
//! independent of every other chunk.

use vstd::prelude::*;

use crate::aquifer_sampler::{
    apply_aquifer, local_fluid_level, spec_aquifer_block, spec_local_fluid_level,
};
use crate::biome::{
    default_biome_registry, nearest_biome, spec_nearest_index, spec_registry_entry,
    spec_registry_len, ClimatePoint,
};
use crate::chunk_noise::{
    lemma_sample_matches_interp, spec_interp_density, ChunkNoiseInterpolator,
};
use crate::density::{eval_density, spec_caches_wf, spec_eval, NoiseCaches, DENSITY_BOUND};
use crate::dimension::Dimension;
use crate::generation::GlobalRandomConfig;
use crate::noise_router::ProtoNoiseRouters;
use crate::ore_sampler::{sample_ore, spec_ore_block};
use crate::random::{spec_source_step, RandomDeriver, RandomSource};
use crate::settings::GenerationSettings;
use crate::surface::{spec_try_apply, try_apply, SurfaceContext};
use crate::BlockStateId;
use crate::{BLOCK_AIR, BLOCK_LAVA};

verus! {

/// A chunk coordinate on the horizontal grid.
#[derive(Clone, Copy, PartialEq, Eq, Structural, Debug)]
pub struct Vector2 {
    pub x: i32,
    pub z: i32,
}

impl Vector2 {
    /// The chunk coordinate (x, z).
    pub fn new(x: i32, z: i32) -> (r: Vector2)
        ensures
            r.x == x,
            r.z == z,
    {
        Vector2 { x, z }
    }
}

/// Flat position of local block (x, yi, z) in the block array; yi counts
/// from the bottom of the shape.
pub open spec fn spec_block_index(x: int, yi: int, z: int) -> int {
    (yi * 16 + z) * 16 + x
}

/// Flat position of biome cell (bx, by, bz) in the biome array.
pub open spec fn spec_biome_index(bx: int, by: int, bz: int) -> int {
    (by * 4 + bz) * 4 + bx
}

/// A block index lies inside the block array of a shape of this height.
pub proof fn lemma_block_index_bounds(x: int, yi: int, z: int, height: int)
    requires
        0 <= x < 16,
        0 <= z < 16,
        0 <= yi < height,
    ensures
        0 <= spec_block_index(x, yi, z) < 16 * 16 * height,
{
    assert(0 <= (yi * 16 + z) * 16 + x && (yi * 16 + z) * 16 + x < 16 * 16 * height)
        by (nonlinear_arith)
        requires
            0 <= x < 16,
            0 <= z < 16,
            0 <= yi < height,
    ;
}

/// Distinct local block positions have distinct flat positions.
pub proof fn lemma_block_index_injective(
    x1: int,
    yi1: int,
    z1: int,
    x2: int,
    yi2: int,
    z2: int,
)
    requires
        0 <= x1 < 16,
        0 <= z1 < 16,
        0 <= yi1,
        0 <= x2 < 16,
        0 <= z2 < 16,
        0 <= yi2,
        spec_block_index(x1, yi1, z1) == spec_block_index(x2, yi2, z2),
    ensures
        x1 == x2 && yi1 == yi2 && z1 == z2,
{
    assert((yi1 * 16 + z1) * 16 + x1 == (yi2 * 16 + z2) * 16 + x2 ==> (x1 == x2 && yi1 == yi2 && z1
        == z2)) by (nonlinear_arith)
        requires
            0 <= x1 < 16,
            0 <= z1 < 16,
            0 <= yi1,
            0 <= x2 < 16,
            0 <= z2 < 16,
            0 <= yi2,
    ;
}

/// Flat position of a local block, computed without overflow.
pub fn block_flat_index(x: usize, yi: usize, z: usize, height: usize) -> (r: usize)
    requires
        x < 16,
        z < 16,
        yi < height,
        height <= 0x10000,
    ensures
        r == spec_block_index(x as int, yi as int, z as int),
{
    proof {
        assert(yi * 16 + z <= 0x10000 * 16 + 16 && (yi * 16 + z) * 16 + x <= (0x10000 * 16 + 16)
            * 16 + 16) by (nonlinear_arith)
            requires
                x < 16,
                z < 16,
                yi < height,
                height <= 0x10000,
        ;
    }
    (yi * 16 + z) * 16 + x
}

/// A bounded fluid-level field value read as a block height.
pub open spec fn spec_clamp_level(v: i64) -> int {
    if v > 0x10000 {
        0x10000
    } else if v < -0x10000 {
        -0x10000
    } else {
        v as int
    }
}

/// The block the noise stage assigns at local position (x, yi, z) of the
/// chunk at `pos`: solid where the interpolated terrain density is positive;
/// otherwise decided by sea level, or by the aquifer fields when aquifers are
/// enabled; a solid block may then be replaced by an ore vein. A pure
/// function of the router, the derivers, the settings and the chunk
/// coordinate alone.
#[verifier::opaque]
pub open spec fn spec_block_state(
    router: ProtoNoiseRouters,
    config: GlobalRandomConfig,
    settings: GenerationSettings,
    pos: Vector2,
    x: int,
    yi: int,
    z: int,
) -> BlockStateId {
    let nodes = router.nodes@;
    let o = router.outputs;
    let d = config.base_random_deriver;
    let sx = pos.x as int * 16;
    let sz = pos.z as int * 16;
    let my = settings.shape.min_y as int;
    let wx = (sx + x) as i32;
    let wy = (my + yi) as i32;
    let wz = (sz + z) as i32;
    let cw = 4 * settings.shape.size_horizontal as int;
    let ch = 4 * settings.shape.size_vertical as int;
    let density = spec_interp_density(
        nodes,
        d,
        o.final_density as int,
        sx,
        sz,
        my,
        cw,
        ch,
        wx,
        wy,
        wz,
    );
    let base = if density > 0 {
        settings.default_block.state_id
    } else if !settings.aquifers_enabled {
        if (wy as int) < settings.sea_level as int {
            settings.default_fluid.state_id
        } else {
            BLOCK_AIR
        }
    } else {
        let barrier = spec_eval(nodes, d, o.barrier as int, wx, wy, wz);
        let surface_level = spec_clamp_level(spec_eval(nodes, d, o.fluid_level as int, wx, wy, wz));
        let fl = spec_local_fluid_level(
            config.aquifer_random_deriver,
            surface_level as i32,
            wx,
            wy,
            wz,
        );
        spec_aquifer_block(
            wy,
            density,
            barrier,
            fl,
            settings.shape.min_y as i32,
            settings.default_block.state_id,
            settings.default_fluid.state_id,
            BLOCK_LAVA,
        )
    };
    if settings.ore_veins_enabled && base == settings.default_block.state_id {
        let vein = spec_eval(nodes, d, o.vein_toggle as int, wx, wy, wz);
        match spec_ore_block(config.ore_random_deriver, vein, wx, wy, wz) {
            Some(b) => b,
            None => base,
        }
    } else {
        base
    }
}

/// Computes the block the noise stage assigns at one local position,
/// consulting and filling the per-chunk memo stores.
pub fn compute_block_state(
    router: &ProtoNoiseRouters,
    config: &GlobalRandomConfig,
    settings: &GenerationSettings,
    itp: &ChunkNoiseInterpolator,
    caches: &mut NoiseCaches,
    pos: Vector2,
    start_x: i32,
    start_z: i32,
    min_y: i32,
    x: usize,
    yi: usize,
    z: usize,
    hh: usize,
) -> (r: BlockStateId)
    requires
        router.wf(),
        settings.wf(),
        spec_caches_wf(*old(caches), router.nodes@, config.base_random_deriver),
        itp.wf(router.nodes@, config.base_random_deriver, router.outputs.final_density as int),
        itp.start_x == start_x,
        itp.start_z == start_z,
        itp.min_y == min_y,
        itp.cell_w == 4 * settings.shape.size_horizontal,
        itp.cell_h == 4 * settings.shape.size_vertical,
        itp.cells_y as int * itp.cell_h as int == settings.shape.height as int,
        hh == settings.shape.height,
        x < 16,
        z < 16,
        yi < hh,
        -0x10_0000 <= pos.x <= 0x10_0000,
        -0x10_0000 <= pos.z <= 0x10_0000,
        start_x as int == pos.x as int * 16,
        start_z as int == pos.z as int * 16,
        min_y as int == settings.shape.min_y as int,
    ensures
        r == spec_block_state(*router, *config, *settings, pos, x as int, yi as int, z as int),
        spec_caches_wf(*final(caches), router.nodes@, config.base_random_deriver),
{
    proof {
        reveal(spec_block_state);
    }
    let wx: i32 = start_x + x as i32;
    let wy: i32 = min_y + yi as i32;
    let wz: i32 = start_z + z as i32;
    let density = itp.sample(wx, wy, wz);
    proof {
        lemma_sample_matches_interp(
            *itp,
            router.nodes@,
            config.base_random_deriver,
            router.outputs.final_density as int,
            wx,
            wy,
            wz,
        );
    }
    let base: BlockStateId = if density > 0 {
        settings.default_block.state_id
    } else if !settings.aquifers_enabled {
        if wy < settings.sea_level {
            settings.default_fluid.state_id
        } else {
            BLOCK_AIR
        }
    } else {
        let barrier = eval_density(
            &router.nodes,
            &config.base_random_deriver,
            router.outputs.barrier,
            wx,
            wy,
            wz,
            caches,
        );
        let fl_field = eval_density(
            &router.nodes,
            &config.base_random_deriver,
            router.outputs.fluid_level,
            wx,
            wy,
            wz,
            caches,
        );
        let surface_level: i32 = if fl_field > 0x10000 {
            0x10000
        } else if fl_field < -0x10000 {
            -0x10000
        } else {
            fl_field as i32
        };
        let fl = local_fluid_level(&config.aquifer_random_deriver, surface_level, wx, wy, wz);
        apply_aquifer(
            wy,
            density,
            barrier,
            fl,
            min_y,
            settings.default_block.state_id,
            settings.default_fluid.state_id,
            BLOCK_LAVA,
        )
    };
    if settings.ore_veins_enabled && base == settings.default_block.state_id {
        let vein = eval_density(
            &router.nodes,
            &config.base_random_deriver,
            router.outputs.vein_toggle,
            wx,
            wy,
            wz,
            caches,
        );
        match sample_ore(&config.ore_random_deriver, vein, wx, wy, wz) {
            Some(b) => b,
            None => base,
        }
    } else {
        base
    }
}

/// A biome-cell index lies inside the biome array of a shape of this height.
pub proof fn lemma_biome_index_bounds(bx: int, by: int, bz: int, by_cells: int)
    requires
        0 <= bx < 4,
        0 <= bz < 4,
        0 <= by < by_cells,
    ensures
        0 <= spec_biome_index(bx, by, bz) < 16 * by_cells,
{
    assert(0 <= (by * 4 + bz) * 4 + bx && (by * 4 + bz) * 4 + bx < 16 * by_cells)
        by (nonlinear_arith)
        requires
            0 <= bx < 4,
            0 <= bz < 4,
            0 <= by < by_cells,
    ;
}

/// Distinct biome cells have distinct flat positions.
pub proof fn lemma_biome_index_injective(
    x1: int,
    y1: int,
    z1: int,
    x2: int,
    y2: int,
    z2: int,
)
    requires
        0 <= x1 < 4,
        0 <= z1 < 4,
        0 <= y1,
        0 <= x2 < 4,
        0 <= z2 < 4,
        0 <= y2,
        spec_biome_index(x1, y1, z1) == spec_biome_index(x2, y2, z2),
    ensures
        x1 == x2 && y1 == y2 && z1 == z2,
{
    assert((y1 * 4 + z1) * 4 + x1 == (y2 * 4 + z2) * 4 + x2 ==> (x1 == x2 && y1 == y2 && z1 == z2))
        by (nonlinear_arith)
        requires
            0 <= x1 < 4,
            0 <= z1 < 4,
            0 <= y1,
            0 <= x2 < 4,
            0 <= z2 < 4,
            0 <= y2,
    ;
}

/// The climate vector the router yields at a block position.
pub open spec fn spec_climate_at(
    router: ProtoNoiseRouters,
    config: GlobalRandomConfig,
    wx: i32,
    wy: i32,
    wz: i32,
) -> ClimatePoint {
    let nodes = router.nodes@;
    let o = router.outputs;
    let d = config.base_random_deriver;
    ClimatePoint {
        temperature: spec_eval(nodes, d, o.temperature as int, wx, wy, wz),
        vegetation: spec_eval(nodes, d, o.vegetation as int, wx, wy, wz),
        continents: spec_eval(nodes, d, o.continents as int, wx, wy, wz),
        erosion: spec_eval(nodes, d, o.erosion as int, wx, wy, wz),
        depth: spec_eval(nodes, d, o.depth as int, wx, wy, wz),
        ridges: spec_eval(nodes, d, o.ridges as int, wx, wy, wz),
    }
}

/// The built-in biome registry of a dimension, as a sequence.
pub open spec fn spec_registry_seq(dimension: Dimension) -> Seq<crate::biome::BiomeEntry> {
    Seq::new(spec_registry_len(dimension) as nat, |i: int| spec_registry_entry(dimension, i))
}

/// The nearest registry index is unique: two indices that both satisfy the
/// nearest-entry condition are equal.
pub proof fn lemma_nearest_unique(
    entries: Seq<crate::biome::BiomeEntry>,
    sample: ClimatePoint,
    r1: int,
    r2: int,
)
    requires
        spec_nearest_index(entries, sample, r1),
        spec_nearest_index(entries, sample, r2),
    ensures
        r1 == r2,
{
    if r1 < r2 {
        assert(crate::biome::spec_sq_dist(entries[r1].point, sample) > crate::biome::spec_sq_dist(
            entries[r2].point,
            sample,
        ));
    } else if r2 < r1 {
        assert(crate::biome::spec_sq_dist(entries[r2].point, sample) > crate::biome::spec_sq_dist(
            entries[r1].point,
            sample,
        ));
    }
}

/// The biome the assigner selects for biome cell (bx, by, bz) of the chunk
/// at `pos`: the earliest registered biome nearest to the climate vector
/// sampled at the cell's centre. A pure function of the router, the
/// derivers, the settings, the registry and the chunk coordinate alone.
#[verifier::opaque]
pub open spec fn spec_biome_at(
    router: ProtoNoiseRouters,
    config: GlobalRandomConfig,
    settings: GenerationSettings,
    pos: Vector2,
    dimension: Dimension,
    bx: int,
    by: int,
    bz: int,
) -> u8 {
    let wx = (pos.x as int * 16 + bx * 4 + 2) as i32;
    let wy = (settings.shape.min_y as int + by * 4 + 2) as i32;
    let wz = (pos.z as int * 16 + bz * 4 + 2) as i32;
    let sample = spec_climate_at(router, config, wx, wy, wz);
    let entries = spec_registry_seq(dimension);
    let idx = choose|r: int| spec_nearest_index(entries, sample, r);
    entries[idx].biome_id
}

/// Salt of the dedicated noise the preliminary surface estimate is drawn
/// from.
pub const SURFACE_ESTIMATE_SALT: u64 = 0x73757266;

/// The preliminary surface height estimate of a column: sea level jittered
/// by a dedicated noise sample, cached per column before actual generation
/// settles.
pub open spec fn spec_prelim_surface(d: RandomDeriver, sea_level: i32, wx: i32, wz: i32) -> int {
    sea_level + (crate::noise::spec_noise_u64(d, SURFACE_ESTIMATE_SALT, wx, 0, wz) % 16) - 8
}

/// The column of block states at local (x, z), bottom-up.
pub open spec fn spec_column(blocks: Seq<BlockStateId>, x: int, z: int, height: int) -> Seq<
    BlockStateId,
> {
    Seq::new(height as nat, |yi: int| blocks[spec_block_index(x, yi, z)])
}

/// Blocks of unbroken `db` directly above position yi of the column.
pub open spec fn spec_run_above(col: Seq<BlockStateId>, db: BlockStateId, yi: int) -> int
    decreases col.len() - yi,
    when yi <= col.len()
{
    if yi + 1 >= col.len() {
        0
    } else if col[yi + 1] == db {
        spec_run_above(col, db, yi + 1) + 1
    } else {
        0
    }
}

/// The running state the surface walk has at position yi of column (x, z):
/// position, biome, stone-depth and water counters over the pre-surface
/// column, and the column's preliminary surface estimate.
pub open spec fn spec_surface_ctx(
    config: GlobalRandomConfig,
    settings: GenerationSettings,
    biomes: Seq<u8>,
    col: Seq<BlockStateId>,
    pos: Vector2,
    x: int,
    z: int,
    yi: int,
) -> SurfaceContext {
    let wx = (pos.x as int * 16 + x) as i32;
    let wz = (pos.z as int * 16 + z) as i32;
    (SurfaceContext {
        deriver: config.base_random_deriver,
        x: wx,
        z: wz,
        y: (settings.shape.min_y as int + yi) as i32,
        biome: biomes[spec_biome_index(x / 4, yi / 4, z / 4)],
        stone_depth: spec_run_above(col, settings.default_block.state_id, yi) as u32,
        water_height: (settings.shape.min_y as int + yi + spec_run_above(
            col,
            settings.default_fluid.state_id,
            yi,
        )) as i32,
        preliminary_surface: spec_prelim_surface(
            config.base_random_deriver,
            settings.sea_level,
            wx,
            wz,
        ) as i32,
    })
}

/// The block the surface stage leaves at position yi of column (x, z): where
/// the pre-surface column holds the default block, the first material the
/// rule tree yields against the running state, the block itself otherwise.
#[verifier::opaque]
pub open spec fn spec_surface_col_block(
    config: GlobalRandomConfig,
    settings: GenerationSettings,
    biomes: Seq<u8>,
    col: Seq<BlockStateId>,
    pos: Vector2,
    x: int,
    z: int,
    yi: int,
) -> BlockStateId {
    let b = col[yi];
    if b == settings.default_block.state_id {
        match spec_try_apply(
            settings.surface_rule,
            spec_surface_ctx(config, settings, biomes, col, pos, x, z, yi),
        ) {
            Some(m) => m,
            None => b,
        }
    } else {
        b
    }
}

/// The mutable in-progress chunk. It borrows the dimension's shared,
/// immutable configuration and owns its block and biome arrays together with
/// fresh per-chunk memo stores, so no state is ever shared across chunks.
pub struct ProtoChunk<'a> {
    pub chunk_pos: Vector2,
    pub base_router: &'a ProtoNoiseRouters,
    pub random_config: &'a GlobalRandomConfig,
    pub settings: &'a GenerationSettings,
    pub blocks: Vec<BlockStateId>,
    pub biomes: Vec<u8>,
    pub caches: NoiseCaches,
}

impl<'a> ProtoChunk<'a> {
    /// Height of the shape in blocks.
    pub open spec fn height(self) -> int {
        self.settings.shape.height as int
    }

    /// Bottom of the shape.
    pub open spec fn min_y(self) -> int {
        self.settings.shape.min_y as int
    }

    /// World block coordinate of the chunk's west edge.
    pub open spec fn start_x(self) -> int {
        self.chunk_pos.x as int * 16
    }

    /// World block coordinate of the chunk's north edge.
    pub open spec fn start_z(self) -> int {
        self.chunk_pos.z as int * 16
    }

    /// The deriver the density graph draws from.
    pub open spec fn base_d(self) -> RandomDeriver {
        self.random_config.base_random_deriver
    }

    /// Internal consistency: valid configuration, arrays of the shape's
    /// size, a chunk coordinate in the supported world range, and memo
    /// stores that agree with the pure evaluation.
    pub open spec fn wf(self) -> bool {
        &&& self.base_router.wf()
        &&& self.settings.wf()
        &&& -0x10_0000 <= self.chunk_pos.x <= 0x10_0000
        &&& -0x10_0000 <= self.chunk_pos.z <= 0x10_0000
        &&& self.blocks@.len() == 16 * 16 * self.height()
        &&& self.biomes@.len() == 16 * (self.height() / 4)
        &&& spec_caches_wf(self.caches, self.base_router.nodes@, self.base_d())
    }

    /// A fresh chunk: air everywhere, no biomes assigned, empty memo stores.
    pub fn new(
        position: Vector2,
        base_router: &'a ProtoNoiseRouters,
        random_config: &'a GlobalRandomConfig,
        settings: &'a GenerationSettings,
    ) -> (r: ProtoChunk<'a>)
        requires
            base_router.wf(),
            settings.wf(),
            -0x10_0000 <= position.x <= 0x10_0000,
            -0x10_0000 <= position.z <= 0x10_0000,
        ensures
            r.wf(),
            r.chunk_pos == position,
            r.base_router == base_router,
            r.random_config == random_config,
            r.settings == settings,
            forall|i: int| 0 <= i < r.blocks@.len() ==> #[trigger] r.blocks@[i] == BLOCK_AIR,
            forall|i: int| 0 <= i < r.biomes@.len() ==> #[trigger] r.biomes@[i] == 0u8,
    {
        let height = settings.shape.height as usize;
        proof {
            assert(16 * 16 * height <= 0x100_0000 && 16 * (height / 4) <= 0x100_0000)
                by (nonlinear_arith)
                requires
                    height <= 0x10000,
            ;
        }
        let block_count: usize = 16 * 16 * height;
        let biome_count: usize = 16 * (height / 4);
        let mut blocks: Vec<BlockStateId> = Vec::new();
        let mut i: usize = 0;
        while i < block_count
            invariant
                0 <= i <= block_count,
                blocks@.len() == i,
                forall|k: int| 0 <= k < i ==> #[trigger] blocks@[k] == BLOCK_AIR,
            decreases block_count - i,
        {
            blocks.push(BLOCK_AIR);
            i = i + 1;
        }
        let mut biomes: Vec<u8> = Vec::new();
        let mut j: usize = 0;
        while j < biome_count
            invariant
                0 <= j <= biome_count,
                biomes@.len() == j,
                forall|k: int| 0 <= k < j ==> #[trigger] biomes@[k] == 0u8,
            decreases biome_count - j,
        {
            biomes.push(0u8);
            j = j + 1;
        }
        let caches = NoiseCaches::new(base_router.nodes.len());
        ProtoChunk { chunk_pos: position, base_router, random_config, settings, blocks, biomes, caches }
    }

    /// The block the noise stage assigns at local position (x, yi, z): solid
    /// where the interpolated terrain density is positive; otherwise decided
    /// by sea level, or by the aquifer fields when aquifers are enabled; a
    /// solid block may then be replaced by an ore vein. A pure function of
    /// the router, the derivers, the settings and the chunk coordinate.
    pub open spec fn spec_block_at(self, x: int, yi: int, z: int) -> BlockStateId {
        spec_block_state(
            *self.base_router,
            *self.random_config,
            *self.settings,
            self.chunk_pos,
            x,
            yi,
            z,
        )
    }

    /// Whether the noise pass in its fixed order has already written local
    /// position (a, b, c) when the loops stand at (x, yi, z).
    pub open spec fn spec_written(a: int, b: int, c: int, x: int, yi: int, z: int) -> bool {
        b < yi || (b == yi && (c < z || (c == z && a < x)))
    }

    /// Writes one west-to-east row of the noise stage: the sixteen blocks at
    /// fixed height and north-south position.
    #[verifier::loop_isolation(false)]
    #[verifier::rlimit(60)]
    fn populate_noise_row(
        &mut self,
        itp: &ChunkNoiseInterpolator,
        start_x: i32,
        start_z: i32,
        min_y: i32,
        yi: usize,
        z: usize,
        hh: usize,
    )
        requires
            old(self).base_router.wf(),
            old(self).settings.wf(),
            spec_caches_wf(old(self).caches, old(self).base_router.nodes@, old(self).base_d()),
            -0x10_0000 <= old(self).chunk_pos.x <= 0x10_0000,
            -0x10_0000 <= old(self).chunk_pos.z <= 0x10_0000,
            old(self).blocks@.len() == 16 * 16 * old(self).height(),
            itp.wf(
                old(self).base_router.nodes@,
                old(self).base_d(),
                old(self).base_router.outputs.final_density as int,
            ),
            itp.start_x == start_x,
            itp.start_z == start_z,
            itp.min_y == min_y,
            itp.cell_w == 4 * old(self).settings.shape.size_horizontal,
            itp.cell_h == 4 * old(self).settings.shape.size_vertical,
            itp.cells_y as int * itp.cell_h as int == old(self).settings.shape.height as int,
            start_x as int == old(self).start_x(),
            start_z as int == old(self).start_z(),
            min_y as int == old(self).min_y(),
            hh == old(self).settings.shape.height,
            z < 16,
            yi < hh,
        ensures
            final(self).chunk_pos == old(self).chunk_pos,
            final(self).base_router == old(self).base_router,
            final(self).random_config == old(self).random_config,
            final(self).settings == old(self).settings,
            final(self).biomes@ == old(self).biomes@,
            final(self).blocks@.len() == old(self).blocks@.len(),
            spec_caches_wf(
                final(self).caches,
                old(self).base_router.nodes@,
                old(self).base_d(),
            ),
            forall|a: int|
                0 <= a < 16 ==> final(self).blocks@[#[trigger] spec_block_index(
                    a,
                    yi as int,
                    z as int,
                )] == old(self).spec_block_at(a, yi as int, z as int),
            forall|a: int, b: int, c: int|
                0 <= a < 16 && 0 <= b < hh && 0 <= c < 16 && !(b == yi as int && c == z as int)
                    ==> final(self).blocks@[#[trigger] spec_block_index(a, b, c)] == old(
                    self,
                ).blocks@[spec_block_index(a, b, c)],
    {
        let router = self.base_router;
        let config = self.random_config;
        let settings = self.settings;
        let mut x: usize = 0;
        while x < 16
            invariant
                0 <= x <= 16,
                z < 16,
                yi < hh,
                self.chunk_pos == old(self).chunk_pos,
                self.base_router == old(self).base_router,
                self.random_config == old(self).random_config,
                self.settings == old(self).settings,
                self.biomes@ == old(self).biomes@,
                self.blocks@.len() == old(self).blocks@.len(),
                spec_caches_wf(self.caches, router.nodes@, config.base_random_deriver),
                forall|a: int|
                    0 <= a < x ==> self.blocks@[spec_block_index(a, yi as int, z as int)] == old(
                        self,
                    ).spec_block_at(a, yi as int, z as int),
                forall|a: int, b: int, c: int|
                    0 <= a < 16 && 0 <= b < hh && 0 <= c < 16 && !(b == yi as int && c == z as int
                        && a < x) ==> self.blocks@[#[trigger] spec_block_index(a, b, c)] == old(
                        self,
                    ).blocks@[spec_block_index(a, b, c)],
            decreases 16 - x,
        {
            let placed: BlockStateId = compute_block_state(
                router,
                config,
                settings,
                itp,
                &mut self.caches,
                self.chunk_pos,
                start_x,
                start_z,
                min_y,
                x,
                yi,
                z,
                hh,
            );
            let idx = block_flat_index(x, yi, z, hh);
            proof {
                lemma_block_index_bounds(x as int, yi as int, z as int, hh as int);
            }
            self.blocks.set(idx, placed);
            proof {
                assert(placed == old(self).spec_block_at(x as int, yi as int, z as int));
                assert forall|a: int|
                    0 <= a < x + 1 implies self.blocks@[spec_block_index(a, yi as int, z as int)]
                        == old(self).spec_block_at(a, yi as int, z as int) by {
                    lemma_block_index_bounds(a, yi as int, z as int, hh as int);
                    if a < x && spec_block_index(a, yi as int, z as int) == spec_block_index(
                        x as int,
                        yi as int,
                        z as int,
                    ) {
                        lemma_block_index_injective(
                            a,
                            yi as int,
                            z as int,
                            x as int,
                            yi as int,
                            z as int,
                        );
                    }
                }
                assert forall|a: int, b: int, c: int|
                    0 <= a < 16 && 0 <= b < hh && 0 <= c < 16 && !(b == yi as int && c == z as int
                        && a < x + 1) implies self.blocks@[spec_block_index(a, b, c)] == old(
                    self,
                ).blocks@[spec_block_index(a, b, c)] by {
                    lemma_block_index_bounds(a, b, c, hh as int);
                    if spec_block_index(a, b, c) == spec_block_index(
                        x as int,
                        yi as int,
                        z as int,
                    ) {
                        lemma_block_index_injective(a, b, c, x as int, yi as int, z as int);
                    }
                }
            }
            x = x + 1;
        }
    }

    /// The noise stage: shapes the chunk by the interpolated terrain
    /// density, consulting the aquifer and ore samplers per position. Every
    /// block comes out as `spec_block_at` says; the biome array is untouched.
    #[verifier::loop_isolation(false)]
    #[verifier::rlimit(80)]
    pub fn populate_noise(&mut self)
        requires
            old(self).wf(),
        ensures
            final(self).wf(),
            final(self).chunk_pos == old(self).chunk_pos,
            final(self).base_router == old(self).base_router,
            final(self).random_config == old(self).random_config,
            final(self).settings == old(self).settings,
            final(self).biomes@ == old(self).biomes@,
            final(self).blocks@.len() == old(self).blocks@.len(),
            forall|a: int, b: int, c: int|
                0 <= a < 16 && 0 <= b < old(self).height() && 0 <= c < 16
                    ==> final(self).blocks@[#[trigger] spec_block_index(a, b, c)] == old(
                    self,
                ).spec_block_at(a, b, c),
    {
        let router = self.base_router;
        let config = self.random_config;
        let settings = self.settings;
        let cw: u8 = settings.shape.horizontal_cell_block_count();
        let ch: u8 = settings.shape.vertical_cell_block_count();
        let cells_xz: u8 = if cw == 4 {
            4
        } else if cw == 8 {
            2
        } else {
            1
        };
        let height: u16 = settings.shape.height;
        let cells_y: u16 = height / (ch as u16);
        proof {
            assert(cells_xz as int * cw as int == 16);
            assert(height as int % (ch as int) == 0);
            assert(cells_y as int * ch as int == height as int) by {
                vstd::arithmetic::div_mod::lemma_fundamental_div_mod(height as int, ch as int);
                assert((ch as int) * (height as int / ch as int) == (height as int / ch as int) * (
                ch as int)) by (nonlinear_arith);
            }
            assert(cells_y >= 1) by {
                if (height as int) < (ch as int) {
                    vstd::arithmetic::div_mod::lemma_small_mod(height as nat, ch as nat);
                }
                if cells_y == 0 {
                    assert(cells_y as int * ch as int == 0) by (nonlinear_arith)
                        requires
                            cells_y as int == 0,
                    ;
                }
            }
        }
        let start_x: i32 = self.chunk_pos.x * 16;
        let start_z: i32 = self.chunk_pos.z * 16;
        let min_y: i32 = settings.shape.min_y as i32;
        let itp = ChunkNoiseInterpolator::new(
            &router.nodes,
            &config.base_random_deriver,
            router.outputs.final_density,
            start_x,
            start_z,
            min_y,
            cw,
            ch,
            cells_xz,
            cells_y,
            &mut self.caches,
        );
        let hh: usize = height as usize;
        let mut yi: usize = 0;
        while yi < hh
            invariant
                0 <= yi <= hh,
                self.blocks@.len() == old(self).blocks@.len(),
                self.biomes@ == old(self).biomes@,
                self.chunk_pos == old(self).chunk_pos,
                self.base_router == old(self).base_router,
                self.random_config == old(self).random_config,
                self.settings == old(self).settings,
                spec_caches_wf(self.caches, router.nodes@, config.base_random_deriver),
                forall|a: int, b: int, c: int|
                    0 <= a < 16 && 0 <= b < hh && 0 <= c < 16 && Self::spec_written(
                        a,
                        b,
                        c,
                        0,
                        yi as int,
                        0,
                    ) ==> self.blocks@[#[trigger] spec_block_index(a, b, c)] == old(self).spec_block_at(
                        a,
                        b,
                        c,
                    ),
                forall|a: int, b: int, c: int|
                    0 <= a < 16 && 0 <= b < hh && 0 <= c < 16 && !Self::spec_written(
                        a,
                        b,
                        c,
                        0,
                        yi as int,
                        0,
                    ) ==> self.blocks@[#[trigger] spec_block_index(a, b, c)] == old(
                        self,
                    ).blocks@[spec_block_index(a, b, c)],
            decreases hh - yi,
        {
            let mut z: usize = 0;
            while z < 16
                invariant
                    0 <= yi < hh,
                    0 <= z <= 16,
                    self.blocks@.len() == old(self).blocks@.len(),
                    self.biomes@ == old(self).biomes@,
                    self.chunk_pos == old(self).chunk_pos,
                    self.base_router == old(self).base_router,
                    self.random_config == old(self).random_config,
                    self.settings == old(self).settings,
                    spec_caches_wf(self.caches, router.nodes@, config.base_random_deriver),
                    forall|a: int, b: int, c: int|
                        0 <= a < 16 && 0 <= b < hh && 0 <= c < 16 && Self::spec_written(
                            a,
                            b,
                            c,
                            0,
                            yi as int,
                            z as int,
                        ) ==> self.blocks@[#[trigger] spec_block_index(a, b, c)] == old(self).spec_block_at(
                            a,
                            b,
                            c,
                        ),
                    forall|a: int, b: int, c: int|
                        0 <= a < 16 && 0 <= b < hh && 0 <= c < 16 && !Self::spec_written(
                            a,
                            b,
                            c,
                            0,
                            yi as int,
                            z as int,
                        ) ==> self.blocks@[#[trigger] spec_block_index(a, b, c)] == old(
                            self,
                        ).blocks@[spec_block_index(a, b, c)],
                decreases 16 - z,
            {
                self.populate_noise_row(&itp, start_x, start_z, min_y, yi, z, hh);
                proof {
                    assert forall|a: int, b: int, c: int|
                        0 <= a < 16 && 0 <= b < hh && 0 <= c < 16 && Self::spec_written(
                            a,
                            b,
                            c,
                            0,
                            yi as int,
                            z as int + 1,
                        ) implies self.blocks@[spec_block_index(a, b, c)] == old(
                        self,
                    ).spec_block_at(a, b, c) by {
                        lemma_block_index_bounds(a, b, c, hh as int);
                        if b == yi as int && c == z as int {
                            assert(self.blocks@[spec_block_index(a, yi as int, z as int)]
                                == spec_block_state(
                                *old(self).base_router,
                                *old(self).random_config,
                                *old(self).settings,
                                old(self).chunk_pos,
                                a,
                                yi as int,
                                z as int,
                            ));
                        }
                    }
                    assert forall|a: int, b: int, c: int|
                        0 <= a < 16 && 0 <= b < hh && 0 <= c < 16 && !Self::spec_written(
                            a,
                            b,
                            c,
                            0,
                            yi as int,
                            z as int + 1,
                        ) implies self.blocks@[spec_block_index(a, b, c)] == old(
                        self,
                    ).blocks@[spec_block_index(a, b, c)] by {
                        lemma_block_index_bounds(a, b, c, hh as int);
                    }
                }
                z = z + 1;
            }
            proof {
                assert forall|a: int, b: int, c: int|
                    0 <= a < 16 && 0 <= b < hh && 0 <= c < 16 implies (Self::spec_written(
                    a,
                    b,
                    c,
                    0,
                    yi as int + 1,
                    0,
                ) == Self::spec_written(a, b, c, 0, yi as int, 16)) by {}
            }
            yi = yi + 1;
        }
    }

    /// Computes the biome assigned to one biome cell, consulting and filling
    /// the per-chunk memo stores.
    fn compute_biome(
        &mut self,
        registry: &Vec<crate::biome::BiomeEntry>,
        dimension: Dimension,
        bx: usize,
        by: usize,
        bz: usize,
    ) -> (r: u8)
        requires
            old(self).base_router.wf(),
            old(self).settings.wf(),
            spec_caches_wf(old(self).caches, old(self).base_router.nodes@, old(self).base_d()),
            -0x10_0000 <= old(self).chunk_pos.x <= 0x10_0000,
            -0x10_0000 <= old(self).chunk_pos.z <= 0x10_0000,
            registry@ == spec_registry_seq(dimension),
            crate::biome::spec_registry_bounded(registry@),
            registry@.len() >= 1,
            bx < 4,
            bz < 4,
            by * 4 < old(self).height(),
        ensures
            final(self).chunk_pos == old(self).chunk_pos,
            final(self).base_router == old(self).base_router,
            final(self).random_config == old(self).random_config,
            final(self).settings == old(self).settings,
            final(self).biomes@ == old(self).biomes@,
            final(self).blocks@ == old(self).blocks@,
            spec_caches_wf(
                final(self).caches,
                old(self).base_router.nodes@,
                old(self).base_d(),
            ),
            r == spec_biome_at(
                *old(self).base_router,
                *old(self).random_config,
                *old(self).settings,
                old(self).chunk_pos,
                dimension,
                bx as int,
                by as int,
                bz as int,
            ),
    {
        proof {
            reveal(spec_biome_at);
        }
        let router = self.base_router;
        let config = self.random_config;
        let start_x: i32 = self.chunk_pos.x * 16;
        let start_z: i32 = self.chunk_pos.z * 16;
        let min_y: i32 = self.settings.shape.min_y as i32;
        let wx: i32 = start_x + (bx as i32) * 4 + 2;
        let wy: i32 = min_y + (by as i32) * 4 + 2;
        let wz: i32 = start_z + (bz as i32) * 4 + 2;
        let temperature = eval_density(
            &router.nodes,
            &config.base_random_deriver,
            router.outputs.temperature,
            wx,
            wy,
            wz,
            &mut self.caches,
        );
        let vegetation = eval_density(
            &router.nodes,
            &config.base_random_deriver,
            router.outputs.vegetation,
            wx,
            wy,
            wz,
            &mut self.caches,
        );
        let continents = eval_density(
            &router.nodes,
            &config.base_random_deriver,
            router.outputs.continents,
            wx,
            wy,
            wz,
            &mut self.caches,
        );
        let erosion = eval_density(
            &router.nodes,
            &config.base_random_deriver,
            router.outputs.erosion,
            wx,
            wy,
            wz,
            &mut self.caches,
        );
        let depth = eval_density(
            &router.nodes,
            &config.base_random_deriver,
            router.outputs.depth,
            wx,
            wy,
            wz,
            &mut self.caches,
        );
        let ridges = eval_density(
            &router.nodes,
            &config.base_random_deriver,
            router.outputs.ridges,
            wx,
            wy,
            wz,
            &mut self.caches,
        );
        let sample = ClimatePoint { temperature, vegetation, continents, erosion, depth, ridges };
        let idx = nearest_biome(registry, &sample);
        proof {
            let entries = spec_registry_seq(dimension);
            let chosen = choose|r: int| spec_nearest_index(entries, sample, r);
            assert(spec_nearest_index(entries, sample, idx as int));
            lemma_nearest_unique(entries, sample, idx as int, chosen);
        }
        registry[idx].biome_id
    }

    /// The biome stage: assigns to every 4-block biome cell the registered
    /// biome nearest to the sampled climate vector. Every cell comes out as
    /// `spec_biome_at` says; the block array is untouched.
    #[verifier::loop_isolation(false)]
    #[verifier::rlimit(60)]
    pub fn populate_biomes(&mut self, dimension: Dimension)
        requires
            old(self).wf(),
        ensures
            final(self).wf(),
            final(self).chunk_pos == old(self).chunk_pos,
            final(self).base_router == old(self).base_router,
            final(self).random_config == old(self).random_config,
            final(self).settings == old(self).settings,
            final(self).blocks@ == old(self).blocks@,
            final(self).biomes@.len() == old(self).biomes@.len(),
            forall|a: int, b: int, c: int|
                0 <= a < 4 && 0 <= b < old(self).height() / 4 && 0 <= c < 4
                    ==> final(self).biomes@[#[trigger] spec_biome_index(a, b, c)] == spec_biome_at(
                    *old(self).base_router,
                    *old(self).random_config,
                    *old(self).settings,
                    old(self).chunk_pos,
                    dimension,
                    a,
                    b,
                    c,
                ),
    {
        let registry = default_biome_registry(&dimension);
        proof {
            assert(registry@ =~= spec_registry_seq(dimension));
        }
        let height: usize = self.settings.shape.height as usize;
        let by_cells: usize = height / 4;
        proof {
            assert(4 * by_cells <= height && height as int / 4 == by_cells as int) by {
                vstd::arithmetic::div_mod::lemma_fundamental_div_mod(height as int, 4);
            }
        }
        let mut by: usize = 0;
        while by < by_cells
            invariant
                0 <= by <= by_cells,
                by_cells as int == old(self).height() / 4,
                4 * by_cells <= height,
                height == old(self).height(),
                self.biomes@.len() == old(self).biomes@.len(),
                self.blocks@ == old(self).blocks@,
                self.chunk_pos == old(self).chunk_pos,
                self.base_router == old(self).base_router,
                self.random_config == old(self).random_config,
                self.settings == old(self).settings,
                spec_caches_wf(self.caches, old(self).base_router.nodes@, old(self).base_d()),
                forall|a: int, b: int, c: int|
                    0 <= a < 4 && 0 <= b < by_cells && 0 <= c < 4 && Self::spec_written(
                        a,
                        b,
                        c,
                        0,
                        by as int,
                        0,
                    ) ==> self.biomes@[#[trigger] spec_biome_index(a, b, c)] == spec_biome_at(
                        *old(self).base_router,
                        *old(self).random_config,
                        *old(self).settings,
                        old(self).chunk_pos,
                        dimension,
                        a,
                        b,
                        c,
                    ),
                forall|a: int, b: int, c: int|
                    0 <= a < 4 && 0 <= b < by_cells && 0 <= c < 4 && !Self::spec_written(
                        a,
                        b,
                        c,
                        0,
                        by as int,
                        0,
                    ) ==> self.biomes@[#[trigger] spec_biome_index(a, b, c)] == old(
                        self,
                    ).biomes@[spec_biome_index(a, b, c)],
            decreases by_cells - by,
        {
            let mut bz: usize = 0;
            while bz < 4
                invariant
                    0 <= by < by_cells,
                    0 <= bz <= 4,
                    by_cells as int == old(self).height() / 4,
                    4 * by_cells <= height,
                    height == old(self).height(),
                    self.biomes@.len() == old(self).biomes@.len(),
                    self.blocks@ == old(self).blocks@,
                    self.chunk_pos == old(self).chunk_pos,
                    self.base_router == old(self).base_router,
                    self.random_config == old(self).random_config,
                    self.settings == old(self).settings,
                    spec_caches_wf(self.caches, old(self).base_router.nodes@, old(self).base_d()),
                    forall|a: int, b: int, c: int|
                        0 <= a < 4 && 0 <= b < by_cells && 0 <= c < 4 && Self::spec_written(
                            a,
                            b,
                            c,
                            0,
                            by as int,
                            bz as int,
                        ) ==> self.biomes@[#[trigger] spec_biome_index(a, b, c)] == spec_biome_at(
                            *old(self).base_router,
                            *old(self).random_config,
                            *old(self).settings,
                            old(self).chunk_pos,
                            dimension,
                            a,
                            b,
                            c,
                        ),
                    forall|a: int, b: int, c: int|
                        0 <= a < 4 && 0 <= b < by_cells && 0 <= c < 4 && !Self::spec_written(
                            a,
                            b,
                            c,
                            0,
                            by as int,
                            bz as int,
                        ) ==> self.biomes@[#[trigger] spec_biome_index(a, b, c)] == old(
                            self,
                        ).biomes@[spec_biome_index(a, b, c)],
                decreases 4 - bz,
            {
                let mut bx: usize = 0;
                while bx < 4
                    invariant
                        0 <= by < by_cells,
                        0 <= bz < 4,
                        0 <= bx <= 4,
                        by_cells as int == old(self).height() / 4,
                        4 * by_cells <= height,
                        height == old(self).height(),
                        self.biomes@.len() == old(self).biomes@.len(),
                        self.blocks@ == old(self).blocks@,
                        self.chunk_pos == old(self).chunk_pos,
                        self.base_router == old(self).base_router,
                        self.random_config == old(self).random_config,
                        self.settings == old(self).settings,
                        spec_caches_wf(
                            self.caches,
                            old(self).base_router.nodes@,
                            old(self).base_d(),
                        ),
                        forall|a: int, b: int, c: int|
                            0 <= a < 4 && 0 <= b < by_cells && 0 <= c < 4 && Self::spec_written(
                                a,
                                b,
                                c,
                                bx as int,
                                by as int,
                                bz as int,
                            ) ==> self.biomes@[#[trigger] spec_biome_index(a, b, c)]
                                == spec_biome_at(
                                *old(self).base_router,
                                *old(self).random_config,
                                *old(self).settings,
                                old(self).chunk_pos,
                                dimension,
                                a,
                                b,
                                c,
                            ),
                        forall|a: int, b: int, c: int|
                            0 <= a < 4 && 0 <= b < by_cells && 0 <= c < 4 && !Self::spec_written(
                                a,
                                b,
                                c,
                                bx as int,
                                by as int,
                                bz as int,
                            ) ==> self.biomes@[#[trigger] spec_biome_index(a, b, c)] == old(
                                self,
                            ).biomes@[spec_biome_index(a, b, c)],
                    decreases 4 - bx,
                {
                    proof {
                        assert((by as int) * 4 < height as int) by (nonlinear_arith)
                            requires
                                0 <= by < by_cells,
                                4 * (by_cells as int) <= height as int,
                        ;
                    }
                    let id = self.compute_biome(&registry, dimension, bx, by, bz);
                    let bidx: usize = (by * 4 + bz) * 4 + bx;
                    proof {
                        assert((by * 4 + bz) * 4 + bx == spec_biome_index(
                            bx as int,
                            by as int,
                            bz as int,
                        ) && (by * 4 + bz) * 4 + bx < 16 * by_cells) by (nonlinear_arith)
                            requires
                                bx < 4,
                                bz < 4,
                                by < by_cells,
                                by_cells <= 0x4000,
                        ;
                        assert(self.biomes@.len() == 16 * (old(self).height() / 4));
                    }
                    self.biomes.set(bidx, id);
                    proof {
                        assert forall|a: int, b: int, c: int|
                            0 <= a < 4 && 0 <= b < by_cells && 0 <= c < 4 && Self::spec_written(
                                a,
                                b,
                                c,
                                bx as int + 1,
                                by as int,
                                bz as int,
                            ) implies self.biomes@[#[trigger] spec_biome_index(a, b, c)]
                            == spec_biome_at(
                            *old(self).base_router,
                            *old(self).random_config,
                            *old(self).settings,
                            old(self).chunk_pos,
                            dimension,
                            a,
                            b,
                            c,
                        ) by {
                            lemma_biome_index_bounds(a, b, c, by_cells as int);
                            if spec_biome_index(a, b, c) == spec_biome_index(
                                bx as int,
                                by as int,
                                bz as int,
                            ) {
                                lemma_biome_index_injective(
                                    a,
                                    b,
                                    c,
                                    bx as int,
                                    by as int,
                                    bz as int,
                                );
                            }
                        }
                        assert forall|a: int, b: int, c: int|
                            0 <= a < 4 && 0 <= b < by_cells && 0 <= c < 4 && !Self::spec_written(
                                a,
                                b,
                                c,
                                bx as int + 1,
                                by as int,
                                bz as int,
                            ) implies self.biomes@[#[trigger] spec_biome_index(a, b, c)] == old(
                            self,
                        ).biomes@[spec_biome_index(a, b, c)] by {
                            lemma_biome_index_bounds(a, b, c, by_cells as int);
                            if spec_biome_index(a, b, c) == spec_biome_index(
                                bx as int,
                                by as int,
                                bz as int,
                            ) {
                                lemma_biome_index_injective(
                                    a,
                                    b,
                                    c,
                                    bx as int,
                                    by as int,
                                    bz as int,
                                );
                            }
                        }
                    }
                    bx = bx + 1;
                }
                bz = bz + 1;
            }
            proof {
                assert forall|a: int, b: int, c: int|
                    0 <= a < 4 && 0 <= b < by_cells && 0 <= c < 4 implies (Self::spec_written(
                    a,
                    b,
                    c,
                    0,
                    by as int + 1,
                    0,
                ) == Self::spec_written(a, b, c, 0, by as int, 4)) by {}
            }
            by = by + 1;
        }
    }

    /// Rewrites one column top-down, maintaining the stone-depth and water
    /// counters over the pre-surface blocks, and applying the rule tree at
    /// every position the default block occupies.
    #[verifier::loop_isolation(false)]
    #[verifier::rlimit(80)]
    fn surface_column_walk(&mut self, x: usize, z: usize, hh: usize, col: Ghost<Seq<BlockStateId>>)
        requires
            old(self).settings.wf(),
            -0x10_0000 <= old(self).chunk_pos.x <= 0x10_0000,
            -0x10_0000 <= old(self).chunk_pos.z <= 0x10_0000,
            old(self).blocks@.len() == 16 * 16 * old(self).height(),
            old(self).biomes@.len() == 16 * (old(self).height() / 4),
            hh == old(self).settings.shape.height,
            x < 16,
            z < 16,
            col@ == spec_column(old(self).blocks@, x as int, z as int, hh as int),
        ensures
            final(self).chunk_pos == old(self).chunk_pos,
            final(self).base_router == old(self).base_router,
            final(self).random_config == old(self).random_config,
            final(self).settings == old(self).settings,
            final(self).biomes@ == old(self).biomes@,
            final(self).caches == old(self).caches,
            final(self).blocks@.len() == old(self).blocks@.len(),
            forall|b: int|
                0 <= b < hh ==> final(self).blocks@[#[trigger] spec_block_index(
                    x as int,
                    b,
                    z as int,
                )] == spec_surface_col_block(
                    *old(self).random_config,
                    *old(self).settings,
                    old(self).biomes@,
                    col@,
                    old(self).chunk_pos,
                    x as int,
                    z as int,
                    b,
                ),
            forall|a: int, b: int, c: int|
                0 <= a < 16 && 0 <= b < hh && 0 <= c < 16 && !(a == x as int && c == z as int)
                    ==> final(self).blocks@[#[trigger] spec_block_index(a, b, c)] == old(
                    self,
                ).blocks@[spec_block_index(a, b, c)],
    {
        let config = self.random_config;
        let settings = self.settings;
        let db = settings.default_block.state_id;
        let fluid = settings.default_fluid.state_id;
        let min_y: i32 = settings.shape.min_y as i32;
        let wx: i32 = self.chunk_pos.x * 16 + x as i32;
        let wz: i32 = self.chunk_pos.z * 16 + z as i32;
        let draw = crate::noise::noise_u64(
            &config.base_random_deriver,
            SURFACE_ESTIMATE_SALT,
            wx,
            0,
            wz,
        );
        let prelim: i32 = settings.sea_level + ((draw % 16) as i32) - 8;
        proof {
            assert(prelim as int == spec_prelim_surface(
                config.base_random_deriver,
                settings.sea_level,
                wx,
                wz,
            ));
            assert(hh as int % 4 == 0) by {
                let sv = settings.shape.size_vertical as int;
                let k = hh as int / (4 * sv);
                vstd::arithmetic::div_mod::lemma_fundamental_div_mod(hh as int, 4 * sv);
                assert((4 * sv) * k == 4 * (sv * k)) by (nonlinear_arith);
                vstd::arithmetic::div_mod::lemma_mod_multiples_basic(sv * k, 4);
            }
            assert(4 * (hh as int / 4) == hh as int) by {
                vstd::arithmetic::div_mod::lemma_fundamental_div_mod(hh as int, 4);
            }
        }
        let mut sr: u32 = 0;
        let mut fr: u32 = 0;
        let mut yi: usize = hh;
        while yi > 0
            invariant
                0 <= yi <= hh,
                self.chunk_pos == old(self).chunk_pos,
                self.base_router == old(self).base_router,
                self.random_config == old(self).random_config,
                self.settings == old(self).settings,
                self.biomes@ == old(self).biomes@,
                self.caches == old(self).caches,
                self.blocks@.len() == old(self).blocks@.len(),
                sr as int == spec_run_above(col@, db, yi as int - 1),
                fr as int == spec_run_above(col@, fluid, yi as int - 1),
                sr as int <= hh - yi,
                fr as int <= hh - yi,
                forall|b: int|
                    yi <= b < hh ==> self.blocks@[#[trigger] spec_block_index(
                        x as int,
                        b,
                        z as int,
                    )] == spec_surface_col_block(
                        *old(self).random_config,
                        *old(self).settings,
                        old(self).biomes@,
                        col@,
                        old(self).chunk_pos,
                        x as int,
                        z as int,
                        b,
                    ),
                forall|b: int|
                    0 <= b < yi ==> self.blocks@[#[trigger] spec_block_index(x as int, b, z as int)]
                        == old(self).blocks@[spec_block_index(x as int, b, z as int)],
                forall|a: int, b: int, c: int|
                    0 <= a < 16 && 0 <= b < hh && 0 <= c < 16 && !(a == x as int && c == z as int)
                        ==> self.blocks@[#[trigger] spec_block_index(a, b, c)] == old(
                        self,
                    ).blocks@[spec_block_index(a, b, c)],
            decreases yi,
        {
            yi = yi - 1;
            let idx = block_flat_index(x, yi, z, hh);
            proof {
                lemma_block_index_bounds(x as int, yi as int, z as int, hh as int);
            }
            let b = self.blocks[idx];
            proof {
                assert(col@[yi as int] == old(self).blocks@[spec_block_index(
                    x as int,
                    yi as int,
                    z as int,
                )]);
                assert(b == col@[yi as int]);
            }
            if b == db {
                proof {
                    assert(yi as int / 4 < hh as int / 4) by {
                        vstd::arithmetic::div_mod::lemma_multiply_divide_lt(
                            yi as int,
                            4,
                            hh as int / 4,
                        );
                    }
                    lemma_biome_index_bounds(
                        x as int / 4,
                        yi as int / 4,
                        z as int / 4,
                        hh as int / 4,
                    );
                }
                let bidx: usize = ((yi / 4) * 4 + z / 4) * 4 + x / 4;
                let biome = self.biomes[bidx];
                let wh: i32 = ((min_y as i64) + (yi as i64) + (fr as i64)) as i32;
                let ctx = SurfaceContext {
                    deriver: config.base_random_deriver,
                    x: wx,
                    z: wz,
                    y: min_y + yi as i32,
                    biome,
                    stone_depth: sr,
                    water_height: wh,
                    preliminary_surface: prelim,
                };
                proof {
                    assert(ctx == spec_surface_ctx(
                        *old(self).random_config,
                        *old(self).settings,
                        old(self).biomes@,
                        col@,
                        old(self).chunk_pos,
                        x as int,
                        z as int,
                        yi as int,
                    ));
                }
                let res = try_apply(&settings.surface_rule, &ctx);
                if let Some(m) = res {
                    self.blocks.set(idx, m);
                }
                proof {
                    reveal(spec_surface_col_block);
                    assert(self.blocks@[spec_block_index(x as int, yi as int, z as int)]
                        == spec_surface_col_block(
                        *old(self).random_config,
                        *old(self).settings,
                        old(self).biomes@,
                        col@,
                        old(self).chunk_pos,
                        x as int,
                        z as int,
                        yi as int,
                    ));
                    assert forall|b2: int|
                        yi <= b2 < hh implies self.blocks@[#[trigger] spec_block_index(
                        x as int,
                        b2,
                        z as int,
                    )] == spec_surface_col_block(
                        *old(self).random_config,
                        *old(self).settings,
                        old(self).biomes@,
                        col@,
                        old(self).chunk_pos,
                        x as int,
                        z as int,
                        b2,
                    ) by {
                        lemma_block_index_bounds(x as int, b2, z as int, hh as int);
                        if b2 != yi as int && spec_block_index(x as int, b2, z as int)
                            == spec_block_index(x as int, yi as int, z as int) {
                            lemma_block_index_injective(
                                x as int,
                                b2,
                                z as int,
                                x as int,
                                yi as int,
                                z as int,
                            );
                        }
                    }
                    assert forall|b2: int|
                        0 <= b2 < yi implies self.blocks@[#[trigger] spec_block_index(
                        x as int,
                        b2,
                        z as int,
                    )] == old(self).blocks@[spec_block_index(x as int, b2, z as int)] by {
                        lemma_block_index_bounds(x as int, b2, z as int, hh as int);
                        if spec_block_index(x as int, b2, z as int) == spec_block_index(
                            x as int,
                            yi as int,
                            z as int,
                        ) {
                            lemma_block_index_injective(
                                x as int,
                                b2,
                                z as int,
                                x as int,
                                yi as int,
                                z as int,
                            );
                        }
                    }
                    assert forall|a: int, b2: int, c: int|
                        0 <= a < 16 && 0 <= b2 < hh && 0 <= c < 16 && !(a == x as int && c
                            == z as int) implies self.blocks@[#[trigger] spec_block_index(
                        a,
                        b2,
                        c,
                    )] == old(self).blocks@[spec_block_index(a, b2, c)] by {
                        lemma_block_index_bounds(a, b2, c, hh as int);
                        if spec_block_index(a, b2, c) == spec_block_index(
                            x as int,
                            yi as int,
                            z as int,
                        ) {
                            lemma_block_index_injective(a, b2, c, x as int, yi as int, z as int);
                        }
                    }
                }
            } else {
                proof {
                    reveal(spec_surface_col_block);
                    lemma_block_index_bounds(x as int, yi as int, z as int, hh as int);
                }
            }
            if b == db {
                sr = sr + 1;
            } else {
                sr = 0;
            }
            if b == fluid {
                fr = fr + 1;
            } else {
                fr = 0;
            }
            proof {
                assert(sr as int == spec_run_above(col@, db, yi as int - 1));
                assert(fr as int == spec_run_above(col@, fluid, yi as int - 1));
            }
        }
    }

    /// The surface stage: walks every column downward from the top and
    /// rewrites the topmost default blocks into the materials the rule tree
    /// yields. Every position comes out as `spec_surface_col_block` says,
    /// over the pre-surface blocks and the assigned biomes.
    #[verifier::loop_isolation(false)]
    #[verifier::rlimit(60)]
    pub fn build_surface(&mut self)
        requires
            old(self).wf(),
        ensures
            final(self).wf(),
            final(self).chunk_pos == old(self).chunk_pos,
            final(self).base_router == old(self).base_router,
            final(self).random_config == old(self).random_config,
            final(self).settings == old(self).settings,
            final(self).biomes@ == old(self).biomes@,
            final(self).blocks@.len() == old(self).blocks@.len(),
            forall|a: int, b: int, c: int|
                0 <= a < 16 && 0 <= b < old(self).height() && 0 <= c < 16
                    ==> final(self).blocks@[#[trigger] spec_block_index(a, b, c)]
                    == spec_surface_col_block(
                    *old(self).random_config,
                    *old(self).settings,
                    old(self).biomes@,
                    spec_column(old(self).blocks@, a, c, old(self).height()),
                    old(self).chunk_pos,
                    a,
                    c,
                    b,
                ),
    {
        let hh: usize = self.settings.shape.height as usize;
        let mut x: usize = 0;
        while x < 16
            invariant
                0 <= x <= 16,
                hh == old(self).settings.shape.height,
                self.chunk_pos == old(self).chunk_pos,
                self.base_router == old(self).base_router,
                self.random_config == old(self).random_config,
                self.settings == old(self).settings,
                self.biomes@ == old(self).biomes@,
                self.caches == old(self).caches,
                self.blocks@.len() == old(self).blocks@.len(),
                forall|a: int, b: int, c: int|
                    0 <= a < 16 && 0 <= b < hh && 0 <= c < 16 && a < x as int
                        ==> self.blocks@[#[trigger] spec_block_index(a, b, c)]
                        == spec_surface_col_block(
                        *old(self).random_config,
                        *old(self).settings,
                        old(self).biomes@,
                        spec_column(old(self).blocks@, a, c, hh as int),
                        old(self).chunk_pos,
                        a,
                        c,
                        b,
                    ),
                forall|a: int, b: int, c: int|
                    0 <= a < 16 && 0 <= b < hh && 0 <= c < 16 && a >= x as int
                        ==> self.blocks@[#[trigger] spec_block_index(a, b, c)] == old(
                        self,
                    ).blocks@[spec_block_index(a, b, c)],
            decreases 16 - x,
        {
            let mut z: usize = 0;
            while z < 16
                invariant
                    0 <= x < 16,
                    0 <= z <= 16,
                    hh == old(self).settings.shape.height,
                    self.chunk_pos == old(self).chunk_pos,
                    self.base_router == old(self).base_router,
                    self.random_config == old(self).random_config,
                    self.settings == old(self).settings,
                    self.biomes@ == old(self).biomes@,
                    self.caches == old(self).caches,
                    self.blocks@.len() == old(self).blocks@.len(),
                    forall|a: int, b: int, c: int|
                        0 <= a < 16 && 0 <= b < hh && 0 <= c < 16 && (a < x as int || (a
                            == x as int && c < z as int)) ==> self.blocks@[
                        #[trigger] spec_block_index(a, b, c)] == spec_surface_col_block(
                            *old(self).random_config,
                            *old(self).settings,
                            old(self).biomes@,
                            spec_column(old(self).blocks@, a, c, hh as int),
                            old(self).chunk_pos,
                            a,
                            c,
                            b,
                        ),
                    forall|a: int, b: int, c: int|
                        0 <= a < 16 && 0 <= b < hh && 0 <= c < 16 && (a > x as int || (a
                            == x as int && c >= z as int)) ==> self.blocks@[
                        #[trigger] spec_block_index(a, b, c)] == old(
                            self,
                        ).blocks@[spec_block_index(a, b, c)],
                decreases 16 - z,
            {
                let ghost col = spec_column(old(self).blocks@, x as int, z as int, hh as int);
                proof {
                    assert forall|b: int| 0 <= b < hh implies spec_column(
                        self.blocks@,
                        x as int,
                        z as int,
                        hh as int,
                    )[b] == col[b] by {
                        lemma_block_index_bounds(x as int, b, z as int, hh as int);
                    }
                    assert(spec_column(self.blocks@, x as int, z as int, hh as int) =~= col);
                }
                self.surface_column_walk(x, z, hh, Ghost(col));
                z = z + 1;
            }
            x = x + 1;
        }
    }

    /// The carving stage: hollows blocks along one random tunnel derived
    /// from the chunk coordinate. The final array is pinned to the pure fold
    /// of the carver steps, and carving is purely subtractive.
    #[verifier::loop_isolation(false)]
    #[verifier::rlimit(60)]
    pub fn carve(&mut self)
        requires
            old(self).wf(),
        ensures
            final(self).wf(),
            final(self).chunk_pos == old(self).chunk_pos,
            final(self).base_router == old(self).base_router,
            final(self).random_config == old(self).random_config,
            final(self).settings == old(self).settings,
            final(self).biomes@ == old(self).biomes@,
            final(self).blocks@ == spec_carve_result(
                *old(self).random_config,
                *old(self).settings,
                old(self).chunk_pos,
                old(self).blocks@,
            ),
            final(self).blocks@.len() == old(self).blocks@.len(),
    {
        proof {
            reveal(spec_carve_result);
        }
        let config = self.random_config;
        let settings = self.settings;
        let hh: usize = settings.shape.height as usize;
        let fluid = settings.default_fluid.state_id;
        let mut src = config.base_random_deriver.split(self.chunk_pos.x, 0, self.chunk_pos.z);
        let d0 = src.next_u64();
        let mut tx: usize = (d0 % 16) as usize;
        let mut ty: usize = ((d0 >> 8) % (hh as u64)) as usize;
        let mut tz: usize = ((d0 >> 16) % 16) as usize;
        let ghost bx0 = tx as int;
        let ghost by0 = ty as int;
        let ghost bz0 = tz as int;
        let mut k: u32 = 0;
        while k < CARVE_STEPS
            invariant
                0 <= k <= CARVE_STEPS,
                hh == old(self).settings.shape.height,
                1 <= hh <= 0x10000,
                fluid == old(self).settings.default_fluid.state_id,
                self.chunk_pos == old(self).chunk_pos,
                self.base_router == old(self).base_router,
                self.random_config == old(self).random_config,
                self.settings == old(self).settings,
                self.biomes@ == old(self).biomes@,
                self.caches == old(self).caches,
                self.blocks@.len() == old(self).blocks@.len(),
                tx < 16,
                ty < hh,
                tz < 16,
                (self.blocks@, src, tx as int, ty as int, tz as int) == spec_carve_n(
                    old(self).blocks@,
                    spec_carve_source(*old(self).random_config, old(self).chunk_pos),
                    bx0,
                    by0,
                    bz0,
                    hh as int,
                    fluid,
                    k as nat,
                ),
            decreases CARVE_STEPS - k,
        {
            let draw = src.next_u64();
            let dx: i64 = ((draw % 3) as i64) - 1;
            let dy: i64 = (((draw >> 8) % 3) as i64) - 1;
            let dz: i64 = (((draw >> 16) % 3) as i64) - 1;
            tx = clamp_to(tx as i64 + dx, 15);
            ty = clamp_to(ty as i64 + dy, hh - 1);
            tz = clamp_to(tz as i64 + dz, 15);
            let idx = block_flat_index(tx, ty, tz, hh);
            proof {
                lemma_block_index_bounds(tx as int, ty as int, tz as int, hh as int);
            }
            let b = self.blocks[idx];
            if !(b == BLOCK_AIR || b == fluid) {
                if ty < CARVE_LAVA_DEPTH as usize {
                    self.blocks.set(idx, BLOCK_LAVA);
                } else {
                    self.blocks.set(idx, BLOCK_AIR);
                }
            }
            k = k + 1;
        }
    }
}

/// Steps the carver runs per chunk.
pub const CARVE_STEPS: u32 = 64;

/// Tunnel positions fewer than this many blocks above the world bottom fill
/// with lava instead of air.
pub const CARVE_LAVA_DEPTH: u32 = 9;

/// A coordinate clamped into [0, hi].
pub open spec fn spec_clamp_to(v: int, hi: int) -> int {
    if v < 0 {
        0
    } else if v > hi {
        hi
    } else {
        v
    }
}

/// A coordinate clamped into [0, hi].
pub fn clamp_to(v: i64, hi: usize) -> (r: usize)
    requires
        -2 <= v,
        v <= 0x20000,
        hi <= 0x10000,
    ensures
        r as int == spec_clamp_to(v as int, hi as int),
{
    if v < 0 {
        0
    } else if v > hi as i64 {
        hi
    } else {
        v as usize
    }
}

/// The stream the carver draws from: the base deriver split at the chunk
/// coordinate.
pub open spec fn spec_carve_source(config: GlobalRandomConfig, pos: Vector2) -> RandomSource {
    crate::random::spec_split_pos(config.base_random_deriver, pos.x, 0, pos.z)
}

/// One carver step: draws a movement from the stream, moves the tunnel head
/// clamped inside the chunk, and hollows the block there (lava near the
/// bottom) unless it already holds air or the dimension's fluid.
pub open spec fn spec_carve_step(
    blocks: Seq<BlockStateId>,
    src: RandomSource,
    x: int,
    yi: int,
    z: int,
    hh: int,
    fluid: BlockStateId,
) -> (Seq<BlockStateId>, RandomSource, int, int, int) {
    let draw = crate::random::spec_source_output(src);
    let src2 = crate::random::spec_source_step(src);
    let nx = spec_clamp_to(x + (draw % 3) - 1, 15);
    let ny = spec_clamp_to(yi + ((draw >> 8) % 3) - 1, hh - 1);
    let nz = spec_clamp_to(z + ((draw >> 16) % 3) - 1, 15);
    let idx = spec_block_index(nx, ny, nz);
    let b = blocks[idx];
    let nb = if b == BLOCK_AIR || b == fluid {
        b
    } else if ny < CARVE_LAVA_DEPTH as int {
        BLOCK_LAVA
    } else {
        BLOCK_AIR
    };
    (blocks.update(idx, nb), src2, nx, ny, nz)
}

/// The carver state after `n` steps.
pub open spec fn spec_carve_n(
    blocks: Seq<BlockStateId>,
    src0: RandomSource,
    x0: int,
    y0: int,
    z0: int,
    hh: int,
    fluid: BlockStateId,
    n: nat,
) -> (Seq<BlockStateId>, RandomSource, int, int, int)
    decreases n,
{
    if n == 0 {
        (blocks, spec_source_step(src0), x0, y0, z0)
    } else {
        let s = spec_carve_n(blocks, src0, x0, y0, z0, hh, fluid, (n - 1) as nat);
        spec_carve_step(s.0, s.1, s.2, s.3, s.4, hh, fluid)
    }
}

/// The block array the carving stage leaves: the fold of all carver steps
/// from the start position drawn from the chunk's carver stream.
#[verifier::opaque]
pub open spec fn spec_carve_result(
    config: GlobalRandomConfig,
    settings: GenerationSettings,
    pos: Vector2,
    blocks: Seq<BlockStateId>,
) -> Seq<BlockStateId> {
    let src0 = spec_carve_source(config, pos);
    let d0 = crate::random::spec_source_output(src0);
    let hh = settings.shape.height as int;
    let x0 = (d0 % 16) as int;
    let y0 = ((d0 >> 8) % (settings.shape.height as u64)) as int;
    let z0 = ((d0 >> 16) % 16) as int;
    spec_carve_n(blocks, src0, x0, y0, z0, hh, settings.default_fluid.state_id, CARVE_STEPS as nat).0
}

/// Law: carving only removes. After any number of carver steps every
/// position holds its previous block, air, or lava; nothing else is ever
/// written.
pub proof fn lemma_carve_subtractive(
    blocks: Seq<BlockStateId>,
    src0: RandomSource,
    x0: int,
    y0: int,
    z0: int,
    hh: int,
    fluid: BlockStateId,
    n: nat,
)
    requires
        1 <= hh,
        blocks.len() == 16 * 16 * hh,
        0 <= x0 < 16,
        0 <= y0 < hh,
        0 <= z0 < 16,
    ensures
        spec_carve_n(blocks, src0, x0, y0, z0, hh, fluid, n).0.len() == blocks.len(),
        0 <= spec_carve_n(blocks, src0, x0, y0, z0, hh, fluid, n).2 < 16,
        0 <= spec_carve_n(blocks, src0, x0, y0, z0, hh, fluid, n).3 < hh,
        0 <= spec_carve_n(blocks, src0, x0, y0, z0, hh, fluid, n).4 < 16,
        forall|i: int|
            0 <= i < blocks.len() ==> (#[trigger] spec_carve_n(
                blocks,
                src0,
                x0,
                y0,
                z0,
                hh,
                fluid,
                n,
            ).0[i] == blocks[i] || spec_carve_n(blocks, src0, x0, y0, z0, hh, fluid, n).0[i]
                == BLOCK_AIR || spec_carve_n(blocks, src0, x0, y0, z0, hh, fluid, n).0[i]
                == BLOCK_LAVA),
    decreases n,
{
    if n == 0 {
    } else {
        lemma_carve_subtractive(blocks, src0, x0, y0, z0, hh, fluid, (n - 1) as nat);
        let s = spec_carve_n(blocks, src0, x0, y0, z0, hh, fluid, (n - 1) as nat);
        let stepped = spec_carve_step(s.0, s.1, s.2, s.3, s.4, hh, fluid);
        let draw = crate::random::spec_source_output(s.1);
        let nx = spec_clamp_to(s.2 + (draw % 3) - 1, 15);
        let ny = spec_clamp_to(s.3 + ((draw >> 8) % 3) - 1, hh - 1);
        let nz = spec_clamp_to(s.4 + ((draw >> 16) % 3) - 1, 15);
        lemma_block_index_bounds(nx, ny, nz, hh);
    }
}

/// Law: determinism. Every stage's specified result is a pure function of
/// the shared configuration, the settings and the chunk coordinate, so two
/// chunks generated over equal inputs agree position for position, and a
/// full pipeline run twice produces byte-identical contents.
pub proof fn lemma_generation_deterministic(
    c1: ProtoChunk,
    c2: ProtoChunk,
    dimension: Dimension,
    x: int,
    yi: int,
    z: int,
    bx: int,
    by: int,
    bz: int,
)
    requires
        *c1.base_router == *c2.base_router,
        *c1.random_config == *c2.random_config,
        *c1.settings == *c2.settings,
        c1.chunk_pos == c2.chunk_pos,
    ensures
        c1.spec_block_at(x, yi, z) == c2.spec_block_at(x, yi, z),
        spec_biome_at(
            *c1.base_router,
            *c1.random_config,
            *c1.settings,
            c1.chunk_pos,
            dimension,
            bx,
            by,
            bz,
        ) == spec_biome_at(
            *c2.base_router,
            *c2.random_config,
            *c2.settings,
            c2.chunk_pos,
            dimension,
            bx,
            by,
            bz,
        ),
{
}

/// Law: order invariance across chunks. The specified contents of a chunk
/// depend only on the shared immutable configuration and the chunk's own
/// coordinate; the coordinate of any chunk generated earlier appears nowhere
/// in them, so generating (0, 0) first and then this chunk yields the same
/// result as generating this chunk alone.
pub proof fn lemma_order_invariance_across_chunks(
    generated_alone: ProtoChunk,
    generated_after: ProtoChunk,
    earlier_chunk: Vector2,
    x: int,
    yi: int,
    z: int,
)
    requires
        *generated_alone.base_router == *generated_after.base_router,
        *generated_alone.random_config == *generated_after.random_config,
        *generated_alone.settings == *generated_after.settings,
        generated_alone.chunk_pos == generated_after.chunk_pos,
    ensures
        generated_alone.spec_block_at(x, yi, z) == generated_after.spec_block_at(x, yi, z),
{
}

} // verus!
