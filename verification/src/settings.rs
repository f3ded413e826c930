//! Per-dimension immutable generation settings: flags, sea level, default
//! materials, the noise shape, and the surface rule tree. The table is built
//! once at server startup and shared read-only by every generation task.

use vstd::prelude::*;

use crate::dimension::Dimension;
use crate::height_limit::HeightLimitView;
use crate::surface::{MaterialCondition, MaterialRule, SurfaceContext};
use crate::surface::{spec_condition_holds, spec_try_apply, spec_try_first};
use crate::{
    BlockStateId, BLOCK_DIRT, BLOCK_GRASS_BLOCK, BLOCK_NETHERRACK, BLOCK_SOUL_SAND, BLOCK_STONE,
    BLOCK_WATER, BLOCK_LAVA, BLOCK_END_STONE,
};

verus! {

/// A block state as the configuration names it: here, directly the resolved
/// state identifier.
#[derive(Clone, Copy, PartialEq, Eq, Structural, Debug)]
pub struct BlockStateCodec {
    pub state_id: BlockStateId,
}

/// The keyed generator kinds a configuration may define.
#[derive(Clone, Copy, PartialEq, Eq, Structural, Debug, Hash)]
pub enum GeneratorSetting {
    Overworld,
    LargeBiomes,
    Amplified,
    Nether,
    End,
    Caves,
    FloatingIslands,
}

/// The noise shape of a dimension: vertical range and cell sizes.
#[derive(Clone, Copy, PartialEq, Eq, Structural, Debug)]
pub struct GenerationShapeConfig {
    pub min_y: i8,
    pub height: u16,
    pub size_horizontal: u8,
    pub size_vertical: u8,
}

impl GenerationShapeConfig {
    /// Range sanity: the top of the shape fits the unsigned height type, and
    /// the cell sizes are among the supported values (horizontal cells must
    /// divide the 16-block chunk evenly).
    pub open spec fn wf(self) -> bool {
        &&& 0 <= self.height as int + self.min_y as int <= u16::MAX
        &&& (self.size_horizontal == 1 || self.size_horizontal == 2 || self.size_horizontal == 4)
        &&& 1 <= self.size_vertical <= 4
    }

    /// The shape's height is a whole number of vertical cells.
    pub open spec fn cell_aligned(self) -> bool {
        self.height as int % (4 * self.size_vertical as int) == 0
    }

    /// Height just above the shape's topmost block.
    pub open spec fn spec_max_y(self) -> int {
        self.min_y as int + self.height as int
    }

    /// Blocks per vertical cell: four per size step.
    pub fn vertical_cell_block_count(&self) -> (r: u8)
        requires
            self.wf(),
        ensures
            r == 4 * self.size_vertical,
    {
        4 * self.size_vertical
    }

    /// Blocks per horizontal cell: four per size step.
    pub fn horizontal_cell_block_count(&self) -> (r: u8)
        requires
            self.wf(),
        ensures
            r == 4 * self.size_horizontal,
    {
        4 * self.size_horizontal
    }

    /// Height just above the shape's topmost block.
    pub fn max_y(&self) -> (r: u16)
        requires
            self.wf(),
        ensures
            r == self.spec_max_y(),
    {
        ((self.height as i32) + (self.min_y as i32)) as u16
    }

    /// The shape narrowed to a runtime height limit, clamped so the result
    /// never exceeds the original bounds.
    pub fn trim_height(&self, limit: &HeightLimitView) -> (r: GenerationShapeConfig)
        requires
            self.wf(),
            // the limit's range must meet the shape's range
            (if self.min_y as int >= limit.bottom as int {
                self.min_y as int
            } else {
                limit.bottom as int
            }) <= (if self.spec_max_y() <= limit.top as int {
                self.spec_max_y()
            } else {
                limit.top as int
            }),
        ensures
            r.size_horizontal == self.size_horizontal,
            r.size_vertical == self.size_vertical,
            r.min_y as int == (if self.min_y as int >= limit.bottom as int {
                self.min_y as int
            } else {
                limit.bottom as int
            }),
            r.spec_max_y() == (if self.spec_max_y() <= limit.top as int {
                self.spec_max_y()
            } else {
                limit.top as int
            }),
            r.wf(),
            r.min_y >= self.min_y,
            r.min_y as int >= limit.bottom as int,
            r.spec_max_y() <= self.spec_max_y(),
            r.spec_max_y() <= limit.top as int,
    {
        let bottom = limit.bottom_y();
        let new_min: i8 = if self.min_y >= bottom {
            self.min_y
        } else {
            bottom
        };
        let this_top: u16 = ((self.height as i32) + (self.min_y as i32)) as u16;
        let limit_top = limit.top_y();
        let new_top: u16 = if this_top <= limit_top {
            this_top
        } else {
            limit_top
        };
        let new_height: u16 = ((new_top as i32) - (new_min as i32)) as u16;
        GenerationShapeConfig {
            min_y: new_min,
            height: new_height,
            size_horizontal: self.size_horizontal,
            size_vertical: self.size_vertical,
        }
    }
}

/// Per-dimension immutable generation configuration.
#[derive(Debug)]
pub struct GenerationSettings {
    pub aquifers_enabled: bool,
    pub ore_veins_enabled: bool,
    pub legacy_random_source: bool,
    pub sea_level: i32,
    pub default_fluid: BlockStateCodec,
    pub shape: GenerationShapeConfig,
    pub surface_rule: MaterialRule,
    pub default_block: BlockStateCodec,
}

impl GenerationSettings {
    /// Sanity of a settings value: the shape is well formed, cell aligned
    /// and not empty, and the sea level lies inside a comfortable arithmetic
    /// range.
    pub open spec fn wf(self) -> bool {
        &&& self.shape.wf()
        &&& self.shape.cell_aligned()
        &&& 1 <= self.shape.height
        &&& -0x10000 <= self.sea_level as int <= 0x10000
    }
}

/// The surface material the built-in rule tree of a generator kind yields for
/// a column state, stated directly.
pub open spec fn spec_default_rule_result(
    setting: GeneratorSetting,
    ctx: SurfaceContext,
) -> Option<BlockStateId> {
    match setting {
        GeneratorSetting::Nether => if ctx.stone_depth == 0 {
            Some(BLOCK_SOUL_SAND)
        } else {
            None
        },
        GeneratorSetting::End | GeneratorSetting::FloatingIslands => None,
        _ => if ctx.stone_depth == 0 && ctx.y >= ctx.water_height {
            Some(BLOCK_GRASS_BLOCK)
        } else if ctx.stone_depth <= 2 {
            Some(BLOCK_DIRT)
        } else {
            None
        },
    }
}

/// Scalar fields of the built-in settings table, pinned per generator kind.
pub open spec fn spec_settings_scalars(setting: GeneratorSetting, s: GenerationSettings) -> bool {
    match setting {
        GeneratorSetting::Nether => {
            &&& !s.aquifers_enabled
            &&& !s.ore_veins_enabled
            &&& s.legacy_random_source
            &&& s.sea_level == 32
            &&& s.default_block.state_id == BLOCK_NETHERRACK
            &&& s.default_fluid.state_id == BLOCK_LAVA
            &&& s.shape.min_y == 0
            &&& s.shape.height == 128
            &&& s.shape.size_horizontal == 1
            &&& s.shape.size_vertical == 2
        },
        GeneratorSetting::End | GeneratorSetting::FloatingIslands => {
            &&& !s.aquifers_enabled
            &&& !s.ore_veins_enabled
            &&& !s.legacy_random_source
            &&& s.sea_level == 0
            &&& s.default_block.state_id == BLOCK_END_STONE
            &&& s.default_fluid.state_id == BLOCK_WATER
            &&& s.shape.min_y == 0
            &&& s.shape.height == 128
            &&& s.shape.size_horizontal == 2
            &&& s.shape.size_vertical == 1
        },
        _ => {
            &&& s.aquifers_enabled
            &&& s.ore_veins_enabled
            &&& !s.legacy_random_source
            &&& s.sea_level == 63
            &&& s.default_block.state_id == BLOCK_STONE
            &&& s.default_fluid.state_id == BLOCK_WATER
            &&& s.shape.min_y == -64
            &&& s.shape.height == 384
            &&& s.shape.size_horizontal == 1
            &&& s.shape.size_vertical == 2
        },
    }
}

/// The built-in settings entry for a generator kind: the explicit
/// configuration object built once at startup and passed by shared reference
/// into every generator.
pub fn settings_for(setting: &GeneratorSetting) -> (r: GenerationSettings)
    ensures
        r.wf(),
        spec_settings_scalars(*setting, r),
        forall|ctx: SurfaceContext|
            spec_try_apply(r.surface_rule, ctx) == spec_default_rule_result(*setting, ctx),
{
    match setting {
        GeneratorSetting::Nether => {
            let mut rules: Vec<MaterialRule> = Vec::new();
            rules.push(
                MaterialRule::Condition(
                    MaterialCondition::StoneDepthAtMost(0),
                    Box::new(MaterialRule::Block(BLOCK_SOUL_SAND)),
                ),
            );
            let surface_rule = MaterialRule::Sequence(rules);
            proof {
                assert forall|ctx: SurfaceContext|
                    spec_try_apply(surface_rule, ctx) == spec_default_rule_result(
                        GeneratorSetting::Nether,
                        ctx,
                    ) by {
                    reveal_with_fuel(crate::surface::spec_try_apply, 3);
                    reveal_with_fuel(crate::surface::spec_try_first, 3);
                    let rs = surface_rule->Sequence_0@;
                    assert(rs.len() == 1);
                    assert(rs.drop_first().len() == 0);
                    assert(rs[0] is Condition);
                    assert(rs[0]->Condition_0 == MaterialCondition::StoneDepthAtMost(0));
                    assert(*rs[0]->Condition_1 == MaterialRule::Block(BLOCK_SOUL_SAND));
                    assert(spec_try_apply(rs[0], ctx) == spec_default_rule_result(
                        GeneratorSetting::Nether,
                        ctx,
                    ));
                    assert(spec_try_apply(surface_rule, ctx) == spec_try_first(rs, ctx));
                }
            }
            GenerationSettings {
                aquifers_enabled: false,
                ore_veins_enabled: false,
                legacy_random_source: true,
                sea_level: 32,
                default_fluid: BlockStateCodec { state_id: BLOCK_LAVA },
                shape: GenerationShapeConfig {
                    min_y: 0,
                    height: 128,
                    size_horizontal: 1,
                    size_vertical: 2,
                },
                surface_rule,
                default_block: BlockStateCodec { state_id: BLOCK_NETHERRACK },
            }
        },
        GeneratorSetting::End | GeneratorSetting::FloatingIslands => {
            let rules: Vec<MaterialRule> = Vec::new();
            let surface_rule = MaterialRule::Sequence(rules);
            proof {
                assert forall|ctx: SurfaceContext|
                    spec_try_apply(surface_rule, ctx) == spec_default_rule_result(
                        *setting,
                        ctx,
                    ) by {
                    reveal_with_fuel(crate::surface::spec_try_apply, 2);
                    reveal_with_fuel(crate::surface::spec_try_first, 2);
                    let rs = surface_rule->Sequence_0@;
                    assert(rs.len() == 0);
                }
            }
            GenerationSettings {
                aquifers_enabled: false,
                ore_veins_enabled: false,
                legacy_random_source: false,
                sea_level: 0,
                default_fluid: BlockStateCodec { state_id: BLOCK_WATER },
                shape: GenerationShapeConfig {
                    min_y: 0,
                    height: 128,
                    size_horizontal: 2,
                    size_vertical: 1,
                },
                surface_rule,
                default_block: BlockStateCodec { state_id: BLOCK_END_STONE },
            }
        },
        _ => {
            let mut rules: Vec<MaterialRule> = Vec::new();
            rules.push(
                MaterialRule::Condition(
                    MaterialCondition::StoneDepthAtMost(0),
                    Box::new(
                        MaterialRule::Condition(
                            MaterialCondition::WaterAbove(0),
                            Box::new(MaterialRule::Block(BLOCK_GRASS_BLOCK)),
                        ),
                    ),
                ),
            );
            rules.push(
                MaterialRule::Condition(
                    MaterialCondition::StoneDepthAtMost(2),
                    Box::new(MaterialRule::Block(BLOCK_DIRT)),
                ),
            );
            let surface_rule = MaterialRule::Sequence(rules);
            proof {
                assert forall|ctx: SurfaceContext|
                    spec_try_apply(surface_rule, ctx) == spec_default_rule_result(
                        *setting,
                        ctx,
                    ) by {
                    reveal_with_fuel(crate::surface::spec_try_apply, 4);
                    reveal_with_fuel(crate::surface::spec_try_first, 4);
                    let rs = surface_rule->Sequence_0@;
                    assert(rs.len() == 2);
                    assert(rs.drop_first().len() == 1);
                    assert(rs.drop_first()[0] == rs[1]);
                    assert(rs.drop_first().drop_first().len() == 0);
                    assert(rs[0] is Condition);
                    assert(rs[0]->Condition_0 == MaterialCondition::StoneDepthAtMost(0));
                    assert((*rs[0]->Condition_1) is Condition);
                    assert((*rs[0]->Condition_1)->Condition_0 == MaterialCondition::WaterAbove(0));
                    assert(*(*rs[0]->Condition_1)->Condition_1 == MaterialRule::Block(
                        BLOCK_GRASS_BLOCK,
                    ));
                    assert(rs[1] is Condition);
                    assert(rs[1]->Condition_0 == MaterialCondition::StoneDepthAtMost(2));
                    assert(*rs[1]->Condition_1 == MaterialRule::Block(BLOCK_DIRT));
                    assert(spec_try_apply(surface_rule, ctx) == spec_try_first(rs, ctx));
                }
            }
            GenerationSettings {
                aquifers_enabled: true,
                ore_veins_enabled: true,
                legacy_random_source: false,
                sea_level: 63,
                default_fluid: BlockStateCodec { state_id: BLOCK_WATER },
                shape: GenerationShapeConfig {
                    min_y: -64,
                    height: 384,
                    size_horizontal: 1,
                    size_vertical: 2,
                },
                surface_rule,
                default_block: BlockStateCodec { state_id: BLOCK_STONE },
            }
        },
    }
}

/// The generator kind a dimension uses.
pub open spec fn spec_setting_of(dimension: Dimension) -> GeneratorSetting {
    match dimension {
        Dimension::Overworld => GeneratorSetting::Overworld,
        Dimension::Nether => GeneratorSetting::Nether,
        Dimension::End => GeneratorSetting::End,
    }
}

/// The built-in settings of a dimension.
pub fn gen_settings_from_dimension(dimension: &Dimension) -> (r: GenerationSettings)
    ensures
        r.wf(),
        spec_settings_scalars(spec_setting_of(*dimension), r),
        forall|ctx: SurfaceContext|
            spec_try_apply(r.surface_rule, ctx) == spec_default_rule_result(
                spec_setting_of(*dimension),
                ctx,
            ),
{
    match dimension {
        Dimension::Overworld => settings_for(&GeneratorSetting::Overworld),
        Dimension::Nether => settings_for(&GeneratorSetting::Nether),
        Dimension::End => settings_for(&GeneratorSetting::End),
    }
}

} // verus!
