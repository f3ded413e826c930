//! The surface-material rule engine: a declarative, depth-ordered rule tree,
//! loaded as data with the generation settings, that rewrites the topmost
//! blocks of each column into biome-appropriate materials.
//!
//! A `Sequence` tries its children in order and stops at the first child that
//! produces a result; a `Condition` recurses into its child only if its
//! predicate holds against the running column state; a terminal `Block` yields
//! the material to write, short-circuiting the rest of the tree.

use vstd::prelude::*;

use crate::noise::{noise_signed, spec_noise_signed};
use crate::random::RandomDeriver;
use crate::BlockStateId;

verus! {

/// Amplitude of the noise consulted by noise-threshold predicates.
pub const SURFACE_NOISE_AMPLITUDE: i64 = 1000000;

/// The running state a column walk maintains while rules are evaluated.
#[derive(Clone, Copy, PartialEq, Eq, Structural, Debug)]
pub struct SurfaceContext {
    /// Deriver the noise predicates draw from.
    pub deriver: RandomDeriver,
    /// Column block coordinates.
    pub x: i32,
    pub z: i32,
    /// Height currently being rewritten.
    pub y: i32,
    /// Biome assigned at this position.
    pub biome: u8,
    /// Blocks of unbroken solid stone above this position, 0 at the surface.
    pub stone_depth: u32,
    /// Height of the first fluid surface above this column position, or the
    /// position itself if the column holds no fluid above it.
    pub water_height: i32,
    /// Preliminary surface height estimate for this column, taken from a
    /// dedicated noise sample before actual generation settles.
    pub preliminary_surface: i32,
}

/// A predicate of a `Condition` rule, evaluated against the running state.
#[derive(PartialEq, Eq, Debug)]
pub enum MaterialCondition {
    /// Holds when the column's biome is one of the listed biomes.
    Biome(Vec<u8>),
    /// Holds when the position lies at `offset` or more blocks above the
    /// first fluid surface of the column (water presence check).
    WaterAbove(i32),
    /// Holds when at most `threshold` blocks of unbroken stone lie above.
    StoneDepthAtMost(u32),
    /// Holds when the position lies strictly above the given height.
    YAbove(i32),
    /// Holds when the position lies above the column's preliminary surface
    /// estimate, shifted by `offset`.
    AboveSurface(i32),
    /// Holds when the salted column noise falls inside [min, max].
    NoiseInRange(u64, i64, i64),
}

/// A node of the surface rule tree.
#[derive(Debug)]
pub enum MaterialRule {
    /// Tries its children in order; yields the first result produced.
    Sequence(Vec<MaterialRule>),
    /// Evaluates its child only when the predicate holds.
    Condition(MaterialCondition, Box<MaterialRule>),
    /// Yields this material unconditionally.
    Block(BlockStateId),
}

/// Whether a predicate holds against the running state.
pub open spec fn spec_condition_holds(c: MaterialCondition, ctx: SurfaceContext) -> bool {
    match c {
        MaterialCondition::Biome(biomes) => biomes@.contains(ctx.biome),
        MaterialCondition::WaterAbove(offset) => ctx.y + offset >= ctx.water_height,
        MaterialCondition::StoneDepthAtMost(threshold) => ctx.stone_depth <= threshold,
        MaterialCondition::YAbove(bound) => ctx.y > bound,
        MaterialCondition::AboveSurface(offset) => ctx.y >= ctx.preliminary_surface + offset,
        MaterialCondition::NoiseInRange(salt, lo, hi) => {
            let v = spec_noise_signed(
                ctx.deriver,
                salt,
                ctx.x,
                0,
                ctx.z,
                SURFACE_NOISE_AMPLITUDE,
            );
            lo <= v && v <= hi
        },
    }
}

/// The material the rule yields against the running state, if any.
pub open spec fn spec_try_apply(rule: MaterialRule, ctx: SurfaceContext) -> Option<BlockStateId>
    decreases rule,
{
    match rule {
        MaterialRule::Block(b) => Some(b),
        MaterialRule::Condition(c, child) => if spec_condition_holds(c, ctx) {
            spec_try_apply(*child, ctx)
        } else {
            None
        },
        MaterialRule::Sequence(children) => spec_try_first(children@, ctx),
    }
}

/// The first result any rule of the list yields, in order.
pub open spec fn spec_try_first(rules: Seq<MaterialRule>, ctx: SurfaceContext) -> Option<
    BlockStateId,
>
    decreases rules,
{
    if rules.len() == 0 {
        None
    } else {
        match spec_try_apply(rules[0], ctx) {
            Some(b) => Some(b),
            None => spec_try_first(rules.drop_first(), ctx),
        }
    }
}

/// Whether a predicate holds against the running state.
pub fn condition_holds(c: &MaterialCondition, ctx: &SurfaceContext) -> (r: bool)
    ensures
        r == spec_condition_holds(*c, *ctx),
{
    match c {
        MaterialCondition::Biome(biomes) => {
            let n = biomes.len();
            let mut i: usize = 0;
            let mut found = false;
            while i < n
                invariant
                    0 <= i <= n,
                    n == biomes@.len(),
                    found == biomes@.subrange(0, i as int).contains(ctx.biome),
                decreases n - i,
            {
                if biomes[i] == ctx.biome {
                    found = true;
                    proof {
                        assert(biomes@.subrange(0, i + 1)[i as int] == ctx.biome);
                    }
                } else {
                    proof {
                        assert forall|k: int|
                            0 <= k < i + 1 && #[trigger] biomes@.subrange(0, i + 1)[k]
                                == ctx.biome implies biomes@.subrange(0, i as int).contains(
                            ctx.biome,
                        ) by {
                            if k < i {
                                assert(biomes@.subrange(0, i as int)[k] == ctx.biome);
                            }
                        }
                    }
                }
                i = i + 1;
            }
            proof {
                assert(biomes@.subrange(0, n as int) =~= biomes@);
            }
            found
        },
        MaterialCondition::WaterAbove(offset) => {
            (ctx.y as i64) + (*offset as i64) >= (ctx.water_height as i64)
        },
        MaterialCondition::StoneDepthAtMost(threshold) => ctx.stone_depth <= *threshold,
        MaterialCondition::YAbove(bound) => ctx.y > *bound,
        MaterialCondition::AboveSurface(offset) => {
            (ctx.y as i64) >= (ctx.preliminary_surface as i64) + (*offset as i64)
        },
        MaterialCondition::NoiseInRange(salt, lo, hi) => {
            let v = noise_signed(&ctx.deriver, *salt, ctx.x, 0, ctx.z, SURFACE_NOISE_AMPLITUDE);
            *lo <= v && v <= *hi
        },
    }
}

/// Evaluates the rule tree depth-first against the running state; yields the
/// material to write, or nothing when no rule applies.
pub fn try_apply(rule: &MaterialRule, ctx: &SurfaceContext) -> (r: Option<BlockStateId>)
    ensures
        r == spec_try_apply(*rule, *ctx),
    decreases *rule,
{
    match rule {
        MaterialRule::Block(b) => Some(*b),
        MaterialRule::Condition(c, child) => {
            if condition_holds(c, ctx) {
                try_apply(child, ctx)
            } else {
                None
            }
        },
        MaterialRule::Sequence(children) => {
            let n = children.len();
            let mut i: usize = 0;
            proof {
                assert(children@.skip(0) =~= children@);
            }
            while i < n
                invariant
                    0 <= i <= n,
                    n == children@.len(),
                    *rule == MaterialRule::Sequence(*children),
                    spec_try_first(children@, *ctx) == spec_try_first(
                        children@.skip(i as int),
                        *ctx,
                    ),
                decreases n - i,
            {
                proof {
                    assert(decreases_to!(*rule => *children));
                    assert(decreases_to!(*children => children@[i as int]));
                }
                let attempt = try_apply(&children[i], ctx);
                if attempt.is_some() {
                    proof {
                        assert(children@.skip(i as int)[0] == children@[i as int]);
                    }
                    return attempt;
                }
                proof {
                    assert(children@.skip(i as int)[0] == children@[i as int]);
                    assert(children@.skip(i as int).drop_first() =~= children@.skip(i + 1));
                }
                i = i + 1;
            }
            proof {
                assert(children@.skip(n as int).len() == 0);
            }
            None
        },
    }
}

/// Law: a sequence short-circuits. If every rule before position `i` yields
/// nothing and the rule at `i` yields a result, the sequence yields exactly
/// that result, whatever stands after `i`.
pub proof fn lemma_sequence_short_circuit(
    rules: Seq<MaterialRule>,
    ctx: SurfaceContext,
    i: int,
)
    requires
        0 <= i < rules.len(),
        forall|j: int| 0 <= j < i ==> spec_try_apply(#[trigger] rules[j], ctx) is None,
        spec_try_apply(rules[i], ctx) is Some,
    ensures
        spec_try_first(rules, ctx) == spec_try_apply(rules[i], ctx),
    decreases i,
{
    if i == 0 {
    } else {
        assert(rules.drop_first()[i - 1] == rules[i]);
        assert forall|j: int| 0 <= j < i - 1 implies spec_try_apply(
            #[trigger] rules.drop_first()[j],
            ctx,
        ) is None by {
            assert(rules.drop_first()[j] == rules[j + 1]);
        }
        lemma_sequence_short_circuit(rules.drop_first(), ctx, i - 1);
    }
}

} // verus!
