//! The density-function graph: a closed set of numeric node kinds over 3D
//! block coordinates, stored in a flat arena and shared as a DAG. A node may
//! only reference nodes at lower arena indices, so sharing is by index and
//! cycles are impossible; a reference outside that range fails construction.
//!
//! Density values are bounded fixed-point integers: every node clamps its
//! result into [-DENSITY_BOUND, DENSITY_BOUND], so evaluation never overflows
//! and a sampled density is always in range. Division in interpolating nodes
//! truncates toward zero, which is exact at segment endpoints.

use vstd::prelude::*;

use crate::noise::{noise_signed, spec_noise_signed, MAX_NOISE_AMPLITUDE};
use crate::random::RandomDeriver;

verus! {

/// Index of a node in the arena.
pub type NodeId = usize;

/// Bound of every density value; also the largest noise amplitude a node may
/// be configured with.
pub const DENSITY_BOUND: i64 = 0x8000_0000;

/// The arithmetic combinators a `BinaryOp` node offers.
#[derive(Clone, Copy, PartialEq, Eq, Structural, Debug)]
pub enum BinaryOperation {
    Add,
    Mul,
    Min,
    Max,
}

/// One node of the density-function graph. Child references are arena
/// indices, always lower than the node's own index.
#[derive(Debug)]
pub enum DensityNode {
    /// A constant density.
    Constant { value: i64 },
    /// Linear in y: `from_value` at or below `from_y`, `to_value` at or above
    /// `to_y`, interpolated between.
    YClampedGradient { from_y: i32, to_y: i32, from_value: i64, to_value: i64 },
    /// Salted lattice noise in [-amplitude, amplitude].
    NoiseSample { salt: u64, amplitude: i64 },
    /// Noise sampled at an x coordinate shifted by the child's value.
    ShiftedNoise { salt: u64, amplitude: i64, shift: NodeId },
    /// Rarity-scaled noise: the child picks one of three rarity multipliers.
    WeirdScaled { salt: u64, amplitude: i64, input: NodeId },
    /// Marker for the chunk sampler: sampled on the coarse cell lattice and
    /// interpolated to block resolution; pointwise it passes through.
    Interpolated { input: NodeId },
    /// Memoized per block position within one chunk's generation pass.
    Cache { input: NodeId },
    /// Memoized per column within one chunk's generation pass; the column
    /// value is the child sampled at height zero.
    FlatCache { input: NodeId },
    /// The child's value clamped into [min, max].
    Clamp { input: NodeId, min: i64, max: i64 },
    /// Combination of two children.
    BinaryOp { op: BinaryOperation, left: NodeId, right: NodeId },
    /// Piecewise-linear function of the child's value over fixed points with
    /// strictly increasing locations.
    Spline { input: NodeId, points: Vec<(i64, i64)> },
    /// The first branch where the child's value lies in [min, max), the
    /// second elsewhere.
    RangeChoice { input: NodeId, min: i64, max: i64, when_in: NodeId, when_out: NodeId },
}

/// Truncating division, the division exec code performs; exact when the
/// numerator is a multiple of the denominator.
pub open spec fn spec_div_trunc(a: int, b: int) -> int {
    if a >= 0 {
        a / b
    } else {
        -((-a) / b)
    }
}

/// A value clamped into the density range.
pub open spec fn spec_clamp_density(v: int) -> i64 {
    if v > DENSITY_BOUND {
        DENSITY_BOUND
    } else if v < -DENSITY_BOUND {
        (-DENSITY_BOUND) as i64
    } else {
        v as i64
    }
}

/// A noise amplitude forced into its admissible range; well-formed nodes
/// already satisfy it.
pub open spec fn spec_amp(amplitude: i64) -> i64 {
    if 1 <= amplitude <= DENSITY_BOUND {
        amplitude
    } else {
        1
    }
}

/// Whether one node is well formed at arena position `idx`.
pub open spec fn spec_node_wf(node: DensityNode, idx: int) -> bool {
    match node {
        DensityNode::Constant { value } => -DENSITY_BOUND <= value <= DENSITY_BOUND,
        DensityNode::YClampedGradient { from_y, to_y, from_value, to_value } => {
            &&& from_y < to_y
            &&& -DENSITY_BOUND <= from_value <= DENSITY_BOUND
            &&& -DENSITY_BOUND <= to_value <= DENSITY_BOUND
        },
        DensityNode::NoiseSample { salt, amplitude } => 1 <= amplitude <= DENSITY_BOUND,
        DensityNode::ShiftedNoise { salt, amplitude, shift } => {
            &&& 1 <= amplitude <= DENSITY_BOUND
            &&& shift < idx
        },
        DensityNode::WeirdScaled { salt, amplitude, input } => {
            &&& 1 <= amplitude <= DENSITY_BOUND
            &&& input < idx
        },
        DensityNode::Interpolated { input } => input < idx,
        DensityNode::Cache { input } => input < idx,
        DensityNode::FlatCache { input } => input < idx,
        DensityNode::Clamp { input, min, max } => {
            &&& input < idx
            &&& -DENSITY_BOUND <= min <= max <= DENSITY_BOUND
        },
        DensityNode::BinaryOp { op, left, right } => left < idx && right < idx,
        DensityNode::Spline { input, points } => {
            &&& input < idx
            &&& points@.len() >= 1
            &&& forall|i: int, j: int|
                0 <= i < j < points@.len() ==> (#[trigger] points@[i]).0 < (
                #[trigger] points@[j]).0
            &&& forall|i: int|
                0 <= i < points@.len() ==> -DENSITY_BOUND <= (#[trigger] points@[i]).0
                    <= DENSITY_BOUND && -DENSITY_BOUND <= points@[i].1 <= DENSITY_BOUND
        },
        DensityNode::RangeChoice { input, min, max, when_in, when_out } => {
            &&& input < idx
            &&& when_in < idx
            &&& when_out < idx
        },
    }
}

/// Whether every node of the arena is well formed at its position.
pub open spec fn spec_nodes_wf(nodes: Seq<DensityNode>) -> bool {
    forall|i: int| 0 <= i < nodes.len() ==> spec_node_wf(#[trigger] nodes[i], i)
}

/// The piecewise-linear spline value for an input value.
pub open spec fn spec_spline(points: Seq<(i64, i64)>, v: i64) -> i64
    decreases points.len(),
{
    if points.len() == 0 {
        0
    } else if points.len() == 1 || v <= points[0].0 {
        spec_clamp_density(points[0].1 as int)
    } else if v < points[1].0 {
        let l0 = points[0].0 as int;
        let l1 = points[1].0 as int;
        let v0 = points[0].1 as int;
        let v1 = points[1].1 as int;
        spec_clamp_density(v0 + spec_div_trunc((v1 - v0) * (v as int - l0), l1 - l0))
    } else {
        spec_spline(points.drop_first(), v)
    }
}

/// The linear gradient value for a height.
pub open spec fn spec_gradient(
    from_y: i32,
    to_y: i32,
    from_value: i64,
    to_value: i64,
    y: i32,
) -> i64 {
    if to_y <= from_y || y <= from_y {
        spec_clamp_density(from_value as int)
    } else if y >= to_y {
        spec_clamp_density(to_value as int)
    } else {
        spec_clamp_density(
            from_value as int + spec_div_trunc(
                (to_value - from_value) * (y - from_y),
                to_y as int - from_y as int,
            ),
        )
    }
}

/// The value of the node at `idx` at block position (x, y, z): pointwise
/// pure in (arena, deriver, index, position).
pub open spec fn spec_eval(
    nodes: Seq<DensityNode>,
    d: RandomDeriver,
    idx: int,
    x: i32,
    y: i32,
    z: i32,
) -> i64
    decreases idx, 1nat,
{
    if idx < 0 || idx >= nodes.len() {
        0
    } else {
        match nodes[idx] {
            DensityNode::Constant { value } => spec_clamp_density(value as int),
            DensityNode::YClampedGradient { from_y, to_y, from_value, to_value } => spec_gradient(
                from_y,
                to_y,
                from_value,
                to_value,
                y,
            ),
            DensityNode::NoiseSample { salt, amplitude } => spec_noise_signed(
                d,
                salt,
                x,
                y,
                z,
                spec_amp(amplitude),
            ),
            DensityNode::ShiftedNoise { salt, amplitude, shift } => {
                let s = spec_eval_child(nodes, d, shift as int, idx, x, y, z);
                spec_noise_signed(d, salt, x.wrapping_add(s as i32), y, z, spec_amp(amplitude))
            },
            DensityNode::WeirdScaled { salt, amplitude, input } => {
                let v = spec_eval_child(nodes, d, input as int, idx, x, y, z);
                let rarity = 1 + (v as int) % 3;
                spec_clamp_density(
                    spec_noise_signed(d, salt, x, y, z, spec_amp(amplitude)) as int * rarity,
                )
            },
            DensityNode::Interpolated { input } => spec_eval_child(
                nodes,
                d,
                input as int,
                idx,
                x,
                y,
                z,
            ),
            DensityNode::Cache { input } => spec_eval_child(nodes, d, input as int, idx, x, y, z),
            DensityNode::FlatCache { input } => spec_eval_child(
                nodes,
                d,
                input as int,
                idx,
                x,
                0,
                z,
            ),
            DensityNode::Clamp { input, min, max } => {
                let v = spec_eval_child(nodes, d, input as int, idx, x, y, z);
                if v < min {
                    spec_clamp_density(min as int)
                } else if v > max {
                    spec_clamp_density(max as int)
                } else {
                    spec_clamp_density(v as int)
                }
            },
            DensityNode::BinaryOp { op, left, right } => {
                let a = spec_eval_child(nodes, d, left as int, idx, x, y, z);
                let b = spec_eval_child(nodes, d, right as int, idx, x, y, z);
                match op {
                    BinaryOperation::Add => spec_clamp_density(a as int + b as int),
                    BinaryOperation::Mul => spec_clamp_density(a as int * b as int),
                    BinaryOperation::Min => if a <= b {
                        a
                    } else {
                        b
                    },
                    BinaryOperation::Max => if a >= b {
                        a
                    } else {
                        b
                    },
                }
            },
            DensityNode::Spline { input, points } => {
                let v = spec_eval_child(nodes, d, input as int, idx, x, y, z);
                spec_spline(points@, v)
            },
            DensityNode::RangeChoice { input, min, max, when_in, when_out } => {
                let v = spec_eval_child(nodes, d, input as int, idx, x, y, z);
                if min <= v && v < max {
                    spec_eval_child(nodes, d, when_in as int, idx, x, y, z)
                } else {
                    spec_eval_child(nodes, d, when_out as int, idx, x, y, z)
                }
            },
        }
    }
}

/// A child evaluation, guarded so the definition is total: a reference at or
/// above the parent (which validation refuses) evaluates to zero.
pub open spec fn spec_eval_child(
    nodes: Seq<DensityNode>,
    d: RandomDeriver,
    child: int,
    parent: int,
    x: i32,
    y: i32,
    z: i32,
) -> i64
    decreases parent, 0nat,
{
    if 0 <= child < parent {
        spec_eval(nodes, d, child, x, y, z)
    } else {
        0
    }
}

/// A wide value clamped into the density range.
pub fn clamp_density_wide(v: i128) -> (r: i64)
    ensures
        r == spec_clamp_density(v as int),
{
    if v > DENSITY_BOUND as i128 {
        DENSITY_BOUND
    } else if v < -(DENSITY_BOUND as i128) {
        -DENSITY_BOUND
    } else {
        v as i64
    }
}

/// Truncating interpolation between `v0` and `v1` at fraction `num / den`,
/// clamped into the density range. Exact at both endpoints.
pub fn lerp_trunc(v0: i64, v1: i64, num: i64, den: i64) -> (r: i64)
    requires
        -DENSITY_BOUND <= v0 <= DENSITY_BOUND,
        -DENSITY_BOUND <= v1 <= DENSITY_BOUND,
        0 <= num <= den,
        0 < den <= 0x1_0000_0000,
    ensures
        r == spec_clamp_density(
            v0 as int + spec_div_trunc((v1 - v0) * (num as int), den as int),
        ),
{
    let delta: i64 = v1 - v0;
    let dabs: u64 = if delta >= 0 {
        delta as u64
    } else {
        (-delta) as u64
    };
    proof {
        assert(dabs as int * num as int <= 0x1_0000_0000 * 0x1_0000_0000) by (nonlinear_arith)
            requires
                0 <= dabs as int <= 0x1_0000_0000,
                0 <= num as int <= 0x1_0000_0000,
        ;
    }
    let prod: u128 = (dabs as u128) * (num as u128);
    let q: u128 = prod / (den as u128);
    proof {
        assert(q as int <= dabs as int) by (nonlinear_arith)
            requires
                q as int == (dabs as int * num as int) / (den as int),
                0 <= num as int <= den as int,
                0 < den as int,
                0 <= dabs as int,
        ;
    }
    let qi: i64 = q as i64;
    let r0: i64 = if delta >= 0 {
        v0 + qi
    } else {
        v0 - qi
    };
    proof {
        if delta >= 0 {
            assert(spec_div_trunc((v1 - v0) * (num as int), den as int) == qi as int);
        } else {
            assert((v1 - v0) * (num as int) == -((dabs as int) * (num as int)))
                by (nonlinear_arith)
                requires
                    dabs as int == -((v1 - v0) as int),
            ;
            assert(spec_div_trunc((v1 - v0) * (num as int), den as int) == -(qi as int));
        }
    }
    clamp_density_wide(r0 as i128)
}

/// Every spline value lies in the density range.
pub proof fn lemma_spline_bounded(points: Seq<(i64, i64)>, v: i64)
    ensures
        -DENSITY_BOUND <= spec_spline(points, v) <= DENSITY_BOUND,
    decreases points.len(),
{
    if points.len() == 0 {
    } else if points.len() == 1 || v <= points[0].0 {
    } else if v < points[1].0 {
    } else {
        lemma_spline_bounded(points.drop_first(), v);
    }
}

/// Per-chunk memo stores for `Cache` (per-block key) and `FlatCache`
/// (per-column key) nodes. A store belongs to one chunk's generation pass:
/// every `ProtoChunk` creates fresh stores, so nothing is ever reused across
/// chunks.
pub struct NoiseCaches {
    /// Per node: the last block position evaluated and its value.
    pub point: Vec<Option<(i32, i32, i32, i64)>>,
    /// Per node: the last column evaluated and its value at height zero.
    pub flat: Vec<Option<(i32, i32, i64)>>,
}

/// Every stored entry equals the pure evaluation at its key, so memoization
/// is invisible: a cached evaluation returns exactly the pure value.
pub open spec fn spec_caches_wf(c: NoiseCaches, nodes: Seq<DensityNode>, d: RandomDeriver) -> bool {
    &&& c.point@.len() == nodes.len()
    &&& c.flat@.len() == nodes.len()
    &&& forall|i: int|
        0 <= i < nodes.len() ==> match #[trigger] c.point@[i] {
            Some(e) => e.3 == spec_eval(nodes, d, i, e.0, e.1, e.2),
            None => true,
        }
    &&& forall|i: int|
        0 <= i < nodes.len() ==> match #[trigger] c.flat@[i] {
            Some(e) => e.2 == spec_eval(nodes, d, i, e.0, 0, e.1),
            None => true,
        }
}

impl NoiseCaches {
    /// Fresh, empty stores for an arena of `n` nodes; empty stores are valid
    /// for any arena of that size and any deriver.
    pub fn new(n: usize) -> (r: NoiseCaches)
        ensures
            r.point@.len() == n,
            r.flat@.len() == n,
            forall|i: int| 0 <= i < n ==> (#[trigger] r.point@[i]) is None,
            forall|i: int| 0 <= i < n ==> (#[trigger] r.flat@[i]) is None,
    {
        let mut point: Vec<Option<(i32, i32, i32, i64)>> = Vec::new();
        let mut flat: Vec<Option<(i32, i32, i64)>> = Vec::new();
        let mut i: usize = 0;
        while i < n
            invariant
                0 <= i <= n,
                point@.len() == i,
                flat@.len() == i,
                forall|k: int| 0 <= k < i ==> (#[trigger] point@[k]) is None,
                forall|k: int| 0 <= k < i ==> (#[trigger] flat@[k]) is None,
            decreases n - i,
        {
            point.push(None);
            flat.push(None);
            i = i + 1;
        }
        NoiseCaches { point, flat }
    }
}

/// Euclidean remainder of a value modulo three.
pub fn rem_euclid_3(v: i64) -> (r: i64)
    ensures
        r == (v as int) % 3,
{
    if v >= 0 {
        ((v as u64) % 3) as i64
    } else {
        let m = (((-(v as i128)) as u64) % 3) as i64;
        if m == 0 {
            0
        } else {
            3 - m
        }
    }
}

/// Evaluates the node at `idx` at block position (x, y, z), consulting and
/// filling the memo stores. The result is exactly the pure evaluation: the
/// stores only save work, they never change a value.
pub fn eval_density(
    nodes: &Vec<DensityNode>,
    d: &RandomDeriver,
    idx: usize,
    x: i32,
    y: i32,
    z: i32,
    caches: &mut NoiseCaches,
) -> (r: i64)
    requires
        spec_nodes_wf(nodes@),
        idx < nodes@.len(),
        spec_caches_wf(*old(caches), nodes@, *d),
    ensures
        r == spec_eval(nodes@, *d, idx as int, x, y, z),
        -DENSITY_BOUND <= r <= DENSITY_BOUND,
        spec_caches_wf(*final(caches), nodes@, *d),
    decreases idx,
{
    proof {
        assert(spec_node_wf(nodes@[idx as int], idx as int));
        lemma_eval_bounded(nodes@, *d, idx as int, x, y, z);
    }
    let node = &nodes[idx];
    match node {
        DensityNode::Constant { value } => clamp_density_wide(*value as i128),
        DensityNode::YClampedGradient { from_y, to_y, from_value, to_value } => {
            if y <= *from_y {
                clamp_density_wide(*from_value as i128)
            } else if y >= *to_y {
                clamp_density_wide(*to_value as i128)
            } else {
                let num: i64 = (y as i64) - (*from_y as i64);
                let den: i64 = (*to_y as i64) - (*from_y as i64);
                lerp_trunc(*from_value, *to_value, num, den)
            }
        },
        DensityNode::NoiseSample { salt, amplitude } => {
            noise_signed(d, *salt, x, y, z, *amplitude)
        },
        DensityNode::ShiftedNoise { salt, amplitude, shift } => {
            let s = eval_density(nodes, d, *shift, x, y, z, caches);
            let xs = x.wrapping_add(#[verifier::truncate] (s as i32));
            noise_signed(d, *salt, xs, y, z, *amplitude)
        },
        DensityNode::WeirdScaled { salt, amplitude, input } => {
            let v = eval_density(nodes, d, *input, x, y, z, caches);
            let rarity: i64 = 1 + rem_euclid_3(v);
            let n = noise_signed(d, *salt, x, y, z, *amplitude);
            proof {
                assert((n as i128) * (rarity as i128) == n as int * rarity as int
                    && -0x10_0000_0000 <= (n as i128) * (rarity as i128) <= 0x10_0000_0000)
                    by (nonlinear_arith)
                    requires
                        -0x1_0000_0000 <= n as int <= 0x1_0000_0000,
                        0 <= rarity as int <= 3,
                ;
            }
            clamp_density_wide((n as i128) * (rarity as i128))
        },
        DensityNode::Interpolated { input } => eval_density(nodes, d, *input, x, y, z, caches),
        DensityNode::Cache { input } => {
            let entry = caches.point[idx];
            if let Some(e) = entry {
                if e.0 == x && e.1 == y && e.2 == z {
                    return e.3;
                }
            }
            let v = eval_density(nodes, d, *input, x, y, z, caches);
            caches.point.set(idx, Some((x, y, z, v)));
            proof {
                assert forall|i: int| 0 <= i < nodes@.len() implies match #[trigger] caches
                    .point@[i] {
                    Some(e) => e.3 == spec_eval(nodes@, *d, i, e.0, e.1, e.2),
                    None => true,
                } by {}
            }
            v
        },
        DensityNode::FlatCache { input } => {
            let entry = caches.flat[idx];
            if let Some(e) = entry {
                if e.0 == x && e.1 == z {
                    return e.2;
                }
            }
            let v = eval_density(nodes, d, *input, x, 0, z, caches);
            caches.flat.set(idx, Some((x, z, v)));
            proof {
                assert forall|i: int| 0 <= i < nodes@.len() implies match #[trigger] caches
                    .flat@[i] {
                    Some(e) => e.2 == spec_eval(nodes@, *d, i, e.0, 0, e.1),
                    None => true,
                } by {}
            }
            v
        },
        DensityNode::Clamp { input, min, max } => {
            let v = eval_density(nodes, d, *input, x, y, z, caches);
            if v < *min {
                clamp_density_wide(*min as i128)
            } else if v > *max {
                clamp_density_wide(*max as i128)
            } else {
                clamp_density_wide(v as i128)
            }
        },
        DensityNode::BinaryOp { op, left, right } => {
            let a = eval_density(nodes, d, *left, x, y, z, caches);
            let b = eval_density(nodes, d, *right, x, y, z, caches);
            match op {
                BinaryOperation::Add => clamp_density_wide((a as i128) + (b as i128)),
                BinaryOperation::Mul => {
                    proof {
                        assert((a as i128) * (b as i128) == a as int * b as int
                            && -0x1_0000_0000_0000_0000 <= (a as i128) * (b as i128)
                                <= 0x1_0000_0000_0000_0000) by (nonlinear_arith)
                            requires
                                -0x1_0000_0000 <= a as int <= 0x1_0000_0000,
                                -0x1_0000_0000 <= b as int <= 0x1_0000_0000,
                        ;
                    }
                    clamp_density_wide((a as i128) * (b as i128))
                },
                BinaryOperation::Min => if a <= b {
                    a
                } else {
                    b
                },
                BinaryOperation::Max => if a >= b {
                    a
                } else {
                    b
                },
            }
        },
        DensityNode::Spline { input, points } => {
            let v = eval_density(nodes, d, *input, x, y, z, caches);
            spline_value(points, v)
        },
        DensityNode::RangeChoice { input, min, max, when_in, when_out } => {
            let v = eval_density(nodes, d, *input, x, y, z, caches);
            if *min <= v && v < *max {
                eval_density(nodes, d, *when_in, x, y, z, caches)
            } else {
                eval_density(nodes, d, *when_out, x, y, z, caches)
            }
        },
    }
}

/// The piecewise-linear spline value for an input value: the first point's
/// value below the first location, the last point's above the last location,
/// linear between neighbouring points.
pub fn spline_value(points: &Vec<(i64, i64)>, v: i64) -> (r: i64)
    requires
        points@.len() >= 1,
        forall|i: int, j: int|
            0 <= i < j < points@.len() ==> (#[trigger] points@[i]).0 < (#[trigger] points@[j]).0,
        forall|i: int|
            0 <= i < points@.len() ==> -DENSITY_BOUND <= (#[trigger] points@[i]).0
                <= DENSITY_BOUND && -DENSITY_BOUND <= points@[i].1 <= DENSITY_BOUND,
        -DENSITY_BOUND <= v <= DENSITY_BOUND,
    ensures
        r == spec_spline(points@, v),
{
    let n = points.len();
    if n == 1 || v <= points[0].0 {
        return clamp_density_wide(points[0].1 as i128);
    }
    let mut i: usize = 0;
    proof {
        assert(points@.skip(0) =~= points@);
    }
    while i + 1 < n && points[i + 1].0 <= v
        invariant
            0 <= i < n,
            n == points@.len(),
            n >= 2,
            forall|a: int, b: int|
                0 <= a < b < points@.len() ==> (#[trigger] points@[a]).0 < (
                #[trigger] points@[b]).0,
            forall|a: int|
                0 <= a < points@.len() ==> -DENSITY_BOUND <= (#[trigger] points@[a]).0
                    <= DENSITY_BOUND && -DENSITY_BOUND <= points@[a].1 <= DENSITY_BOUND,
            -DENSITY_BOUND <= v <= DENSITY_BOUND,
            spec_spline(points@, v) == spec_spline(points@.skip(i as int), v),
            v >= points@[i as int].0 || i == 0,
            v > points@[0].0,
        decreases n - i,
    {
        proof {
            let s = points@.skip(i as int);
            assert(s.len() == n - i);
            assert(s[0] == points@[i as int]);
            assert(s[1] == points@[i as int + 1]);
            assert(points@[i as int].0 < points@[i as int + 1].0);
            assert(v > s[0].0);
            assert(s.drop_first() =~= points@.skip(i as int + 1));
            assert(spec_spline(s, v) == spec_spline(s.drop_first(), v));
        }
        i = i + 1;
    }
    proof {
        let s = points@.skip(i as int);
        assert(s[0] == points@[i as int]);
        if i + 1 < n {
            assert(s[1] == points@[i as int + 1]);
        }
    }
    if i + 1 == n {
        clamp_density_wide(points[i].1 as i128)
    } else if v <= points[i].0 {
        clamp_density_wide(points[i].1 as i128)
    } else {
        let l0 = points[i].0;
        let l1 = points[i + 1].0;
        let v0 = points[i].1;
        let v1 = points[i + 1].1;
        lerp_trunc(v0, v1, v - l0, l1 - l0)
    }
}

/// Evaluates the node at `idx` with fresh memo stores: the pure value.
pub fn eval_once(nodes: &Vec<DensityNode>, d: &RandomDeriver, idx: usize, x: i32, y: i32, z: i32)
    -> (r: i64)
    requires
        spec_nodes_wf(nodes@),
        idx < nodes@.len(),
    ensures
        r == spec_eval(nodes@, *d, idx as int, x, y, z),
        -DENSITY_BOUND <= r <= DENSITY_BOUND,
{
    let mut caches = NoiseCaches::new(nodes.len());
    eval_density(nodes, d, idx, x, y, z, &mut caches)
}

/// Every density value lies in the density range.
pub proof fn lemma_eval_bounded(
    nodes: Seq<DensityNode>,
    d: RandomDeriver,
    idx: int,
    x: i32,
    y: i32,
    z: i32,
)
    ensures
        -DENSITY_BOUND <= spec_eval(nodes, d, idx, x, y, z) <= DENSITY_BOUND,
    decreases idx,
{
    if idx < 0 || idx >= nodes.len() {
    } else {
        match nodes[idx] {
            DensityNode::ShiftedNoise { salt, amplitude, shift } => {},
            DensityNode::Interpolated { input } => {
                if 0 <= input < idx {
                    lemma_eval_bounded(nodes, d, input as int, x, y, z);
                }
            },
            DensityNode::Cache { input } => {
                if 0 <= input < idx {
                    lemma_eval_bounded(nodes, d, input as int, x, y, z);
                }
            },
            DensityNode::FlatCache { input } => {
                if 0 <= input < idx {
                    lemma_eval_bounded(nodes, d, input as int, x, 0, z);
                }
            },
            DensityNode::BinaryOp { op, left, right } => {
                if 0 <= left < idx {
                    lemma_eval_bounded(nodes, d, left as int, x, y, z);
                }
                if 0 <= right < idx {
                    lemma_eval_bounded(nodes, d, right as int, x, y, z);
                }
            },
            DensityNode::RangeChoice { input, min, max, when_in, when_out } => {
                if 0 <= when_in < idx {
                    lemma_eval_bounded(nodes, d, when_in as int, x, y, z);
                }
                if 0 <= when_out < idx {
                    lemma_eval_bounded(nodes, d, when_out as int, x, y, z);
                }
            },
            DensityNode::Clamp { input, min, max } => {
                if 0 <= input < idx {
                    lemma_eval_bounded(nodes, d, input as int, x, y, z);
                }
            },
            DensityNode::Spline { input, points } => {
                lemma_spline_bounded(points@, spec_eval_child(nodes, d, input as int, idx, x, y, z));
            },
            _ => {},
        }
    }
}

} // verus!
