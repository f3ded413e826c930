//! The noise router: the density-function arena together with the named
//! outputs the pipeline samples (climate parameters, terrain density, aquifer
//! fields, ore veins). Built once per dimension at generator construction;
//! any dangling reference fails construction then, never per chunk.

use vstd::prelude::*;

use crate::density::{
    spec_node_wf, spec_nodes_wf, spec_eval, BinaryOperation, DensityNode, DENSITY_BOUND,
};

verus! {

/// A malformed or self-inconsistent router definition, fatal at generator
/// construction.
#[derive(Clone, Copy, PartialEq, Eq, Structural, Debug)]
pub enum ConfigurationError {
    /// A node or output references an arena position that is not defined
    /// below it.
    UndefinedReference,
    /// A node's own parameters are out of range (amplitude, clamp bounds,
    /// spline points).
    MalformedNode,
}

/// Arena indices of the named outputs the pipeline samples.
#[derive(Clone, Copy, PartialEq, Eq, Structural, Debug)]
pub struct NoiseRouterOutputs {
    pub temperature: usize,
    pub vegetation: usize,
    pub continents: usize,
    pub erosion: usize,
    pub depth: usize,
    pub ridges: usize,
    pub final_density: usize,
    pub barrier: usize,
    pub fluid_level: usize,
    pub vein_toggle: usize,
}

/// Whether every output points inside the arena.
pub open spec fn spec_outputs_in_range(o: NoiseRouterOutputs, n: int) -> bool {
    &&& o.temperature < n
    &&& o.vegetation < n
    &&& o.continents < n
    &&& o.erosion < n
    &&& o.depth < n
    &&& o.ridges < n
    &&& o.final_density < n
    &&& o.barrier < n
    &&& o.fluid_level < n
    &&& o.vein_toggle < n
}

/// The density-function arena with its named outputs.
pub struct ProtoNoiseRouters {
    pub nodes: Vec<DensityNode>,
    pub outputs: NoiseRouterOutputs,
}

impl ProtoNoiseRouters {
    /// A built router is internally consistent: every node references only
    /// lower arena positions and every output points inside the arena.
    pub open spec fn wf(self) -> bool {
        &&& spec_nodes_wf(self.nodes@)
        &&& spec_outputs_in_range(self.outputs, self.nodes@.len() as int)
    }
}

/// Whether one node is well formed at its arena position.
pub fn node_wf(node: &DensityNode, idx: usize) -> (r: bool)
    ensures
        r == spec_node_wf(*node, idx as int),
{
    match node {
        DensityNode::Constant { value } => -DENSITY_BOUND <= *value && *value <= DENSITY_BOUND,
        DensityNode::YClampedGradient { from_y, to_y, from_value, to_value } => {
            *from_y < *to_y && -DENSITY_BOUND <= *from_value && *from_value <= DENSITY_BOUND
                && -DENSITY_BOUND <= *to_value && *to_value <= DENSITY_BOUND
        },
        DensityNode::NoiseSample { salt, amplitude } => {
            1 <= *amplitude && *amplitude <= DENSITY_BOUND
        },
        DensityNode::ShiftedNoise { salt, amplitude, shift } => {
            1 <= *amplitude && *amplitude <= DENSITY_BOUND && *shift < idx
        },
        DensityNode::WeirdScaled { salt, amplitude, input } => {
            1 <= *amplitude && *amplitude <= DENSITY_BOUND && *input < idx
        },
        DensityNode::Interpolated { input } => *input < idx,
        DensityNode::Cache { input } => *input < idx,
        DensityNode::FlatCache { input } => *input < idx,
        DensityNode::Clamp { input, min, max } => {
            *input < idx && -DENSITY_BOUND <= *min && *min <= *max && *max <= DENSITY_BOUND
        },
        DensityNode::BinaryOp { op, left, right } => *left < idx && *right < idx,
        DensityNode::Spline { input, points } => {
            if *input >= idx || points.len() < 1 {
                false
            } else {
                let n = points.len();
                let mut k: usize = 0;
                let mut ok = true;
                while k < n
                    invariant
                        0 <= k <= n,
                        n == points@.len(),
                        n >= 1,
                        ok == ({
                            &&& forall|a: int, b: int|
                                0 <= a < b < k ==> (#[trigger] points@[a]).0 < (
                                #[trigger] points@[b]).0
                            &&& forall|a: int|
                                0 <= a < k ==> -DENSITY_BOUND <= (#[trigger] points@[a]).0
                                    <= DENSITY_BOUND && -DENSITY_BOUND <= points@[a].1
                                    <= DENSITY_BOUND
                        }),
                    decreases n - k,
                {
                    let p = points[k];
                    let bounds_ok = -DENSITY_BOUND <= p.0 && p.0 <= DENSITY_BOUND && -DENSITY_BOUND
                        <= p.1 && p.1 <= DENSITY_BOUND;
                    let order_ok = if k == 0 {
                        true
                    } else {
                        points[k - 1].0 < p.0
                    };
                    let step_ok = bounds_ok && order_ok;
                    proof {
                        if ok && step_ok {
                            assert forall|a: int, b: int| 0 <= a < b < k + 1 implies (
                            #[trigger] points@[a]).0 < (#[trigger] points@[b]).0 by {
                                if b == k {
                                    lemma_sorted_prefix_extends(points@, a, b);
                                }
                            }
                        }
                    }
                    ok = ok && step_ok;
                    k = k + 1;
                }
                ok
            }
        },
        DensityNode::RangeChoice { input, min, max, when_in, when_out } => {
            *input < idx && *when_in < idx && *when_out < idx
        },
    }
}

/// In a run whose adjacent locations increase, any earlier location is below
/// a later one.
proof fn lemma_sorted_prefix_extends(points: Seq<(i64, i64)>, a: int, b: int)
    requires
        0 <= a < b < points.len(),
        forall|i: int, j: int|
            0 <= i < j < b ==> (#[trigger] points[i]).0 < (#[trigger] points[j]).0,
        b == 0 || points[b - 1].0 < points[b].0,
    ensures
        points[a].0 < points[b].0,
{
    if a < b - 1 {
        assert(points[a].0 < points[b - 1].0);
    }
}

/// Whether every node of the arena is well formed at its position.
pub fn validate_nodes(nodes: &Vec<DensityNode>) -> (r: bool)
    ensures
        r == spec_nodes_wf(nodes@),
{
    let n = nodes.len();
    let mut i: usize = 0;
    let mut ok = true;
    while i < n
        invariant
            0 <= i <= n,
            n == nodes@.len(),
            ok == (forall|k: int| 0 <= k < i ==> spec_node_wf(#[trigger] nodes@[k], k)),
        decreases n - i,
    {
        let this_ok = node_wf(&nodes[i], i);
        ok = ok && this_ok;
        i = i + 1;
    }
    ok
}

impl ProtoNoiseRouters {
    /// Builds a router from a declarative arena and output table, validating
    /// every reference and every node parameter. Construction is the only
    /// place a malformed definition surfaces; a built router cannot fail.
    pub fn build(nodes: Vec<DensityNode>, outputs: NoiseRouterOutputs) -> (r: Result<
        ProtoNoiseRouters,
        ConfigurationError,
    >)
        ensures
            r is Ok <==> (spec_nodes_wf(nodes@) && spec_outputs_in_range(
                outputs,
                nodes@.len() as int,
            )),
            r is Ok ==> (r->Ok_0.nodes@ == nodes@ && r->Ok_0.outputs == outputs && r->Ok_0.wf()),
            !spec_nodes_wf(nodes@) ==> r == Result::<
                ProtoNoiseRouters,
                ConfigurationError,
            >::Err(ConfigurationError::MalformedNode),
            spec_nodes_wf(nodes@) && !spec_outputs_in_range(outputs, nodes@.len() as int) ==> r
                == Result::<ProtoNoiseRouters, ConfigurationError>::Err(
                ConfigurationError::UndefinedReference,
            ),
    {
        if !validate_nodes(&nodes) {
            return Err(ConfigurationError::MalformedNode);
        }
        let n = nodes.len();
        if !(outputs.temperature < n && outputs.vegetation < n && outputs.continents < n
            && outputs.erosion < n && outputs.depth < n && outputs.ridges < n
            && outputs.final_density < n && outputs.barrier < n && outputs.fluid_level < n
            && outputs.vein_toggle < n) {
            return Err(ConfigurationError::UndefinedReference);
        }
        Ok(ProtoNoiseRouters { nodes, outputs })
    }
}

} // verus!
