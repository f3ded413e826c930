//! The command tree: a flat arena of literal, argument, predicate and
//! executor nodes. Children always stand at higher arena positions than
//! their parent, so walks terminate and sharing is impossible by
//! construction.

use vstd::prelude::*;
use vstd::string::StringExecFns;

use crate::experience_command::{ExpType, Mode};
use crate::text::TextComponent;

verus! {

/// Why a command invocation failed.
#[derive(Debug)]
pub enum CommandError {
    /// An argument was consumed in a shape its consumer does not produce.
    InvalidConsumption(Option<String>),
    /// The invocation does not meet a requirement node.
    InvalidRequirement,
    /// The command itself reported failure.
    CommandFailed(Box<TextComponent>),
}

/// An argument consumer, as data: which parser the node uses.
#[derive(PartialEq, Eq, Debug)]
pub enum CommandConsumer {
    Players,
    Entities,
    BoundedNum { name: String, min: i32, max: i32 },
    SummonableEntities,
}

/// A predicate a `Require` node gates its subtree with.
#[derive(Clone, Copy, PartialEq, Eq, Structural, Debug)]
pub enum RequireCondition {
    IsPlayer,
}

/// Which executor an executable leaf dispatches to.
#[derive(Clone, Copy, PartialEq, Eq, Structural, Debug)]
pub enum ExecutorTag {
    Experience { mode: Mode, exp_type: Option<ExpType> },
    Kill,
    KillSelf,
}

/// The kind of one tree node.
#[derive(Debug)]
pub enum NodeType {
    ExecuteLeaf { executor: ExecutorTag },
    Literal { string: String },
    Argument { name: String, consumer: CommandConsumer },
    Require { condition: RequireCondition },
}

/// One node of the arena, with the arena positions of its children.
#[derive(Debug)]
pub struct Node {
    pub node_type: NodeType,
    pub children: Vec<usize>,
}

/// A command's tree: the arena, the root-level children, the command's names
/// and its description.
#[derive(Debug)]
pub struct CommandTree {
    pub nodes: Vec<Node>,
    pub children: Vec<usize>,
    pub names: Vec<String>,
    pub description: String,
}

/// Every child reference points above its parent and inside the arena.
pub open spec fn spec_tree_wf(nodes: Seq<Node>) -> bool {
    forall|i: int, k: int|
        0 <= i < nodes.len() && 0 <= k < nodes[i].children@.len() ==> (i < (
        #[trigger] nodes[i].children@[k]) && (nodes[i].children@[k] as int) < nodes.len())
}

impl CommandTree {
    /// The arena is well formed and the root children point into it.
    pub open spec fn wf(self) -> bool {
        &&& spec_tree_wf(self.nodes@)
        &&& forall|k: int|
            0 <= k < self.children@.len() ==> ((#[trigger] self.children@[k]) as int)
                < self.nodes@.len()
    }

    /// An empty tree for a command with the given names and description.
    pub fn new(names: Vec<String>, description: &str) -> (r: CommandTree)
        ensures
            r.wf(),
            r.names == names,
            r.description@ == description@,
            r.nodes@.len() == 0,
            r.children@.len() == 0,
    {
        CommandTree {
            nodes: Vec::new(),
            children: Vec::new(),
            names,
            description: String::from_str(description),
        }
    }

    /// Appends a node; under a parent when one is given, at the root
    /// otherwise. The new node's position is returned, always above its
    /// parent's.
    pub fn add_node(&mut self, node_type: NodeType, parent: Option<usize>) -> (r: usize)
        requires
            old(self).wf(),
            parent is Some ==> (parent->0 as int) < old(self).nodes@.len(),
        ensures
            final(self).wf(),
            r == old(self).nodes@.len(),
            final(self).nodes@.len() == old(self).nodes@.len() + 1,
            final(self).nodes@[r as int].node_type == node_type,
            final(self).nodes@[r as int].children@.len() == 0,
            final(self).names == old(self).names,
            final(self).description == old(self).description,
            parent is None ==> final(self).children@ == old(self).children@.push(r),
            parent is Some ==> final(self).children@ == old(self).children@,
    {
        let idx = self.nodes.len();
        self.nodes.push(Node { node_type, children: Vec::new() });
        match parent {
            Some(p) => {
                let mut kids = Vec::new();
                proof {
                    assert(self.nodes@[p as int].children@ == old(self).nodes@[p as int].children@);
                }
                let existing = self.nodes[p].children.len();
                let mut k: usize = 0;
                while k < existing
                    invariant
                        0 <= k <= existing,
                        p < self.nodes@.len(),
                        existing == self.nodes@[p as int].children@.len(),
                        kids@.len() == k,
                        forall|j: int| 0 <= j < k ==> kids@[j] == self.nodes@[p as int].children@[j],
                    decreases existing - k,
                {
                    let c = self.nodes[p].children[k];
                    kids.push(c);
                    k = k + 1;
                }
                kids.push(idx);
                proof {
                    assert(kids@.subrange(0, existing as int) =~= self.nodes@[p as int].children@);
                }
                let old_node_type = match &self.nodes[p].node_type {
                    NodeType::ExecuteLeaf { executor } => NodeType::ExecuteLeaf {
                        executor: *executor,
                    },
                    NodeType::Literal { string } => NodeType::Literal { string: string.clone() },
                    NodeType::Argument { name, consumer } => NodeType::Argument {
                        name: name.clone(),
                        consumer: clone_consumer(consumer),
                    },
                    NodeType::Require { condition } => NodeType::Require { condition: *condition },
                };
                self.nodes.set(p, Node { node_type: old_node_type, children: kids });
                proof {
                    assert forall|i: int, k2: int|
                        0 <= i < self.nodes@.len() && 0 <= k2
                            < self.nodes@[i].children@.len() implies (i < (
                    #[trigger] self.nodes@[i].children@[k2]) && ((
                    self.nodes@[i].children@[k2] as int) < self.nodes@.len())) by {
                        if i == p as int {
                            if k2 < existing {
                                assert(self.nodes@[i].children@[k2] == old(
                                    self,
                                ).nodes@[i].children@[k2]);
                            }
                        } else if i < old(self).nodes@.len() {
                            assert(self.nodes@[i].children@ == old(self).nodes@[i].children@);
                        }
                    }
                }
            },
            None => {
                self.children.push(idx);
            },
        }
        idx
    }
}

/// A copy of a consumer value.
pub fn clone_consumer(c: &CommandConsumer) -> (r: CommandConsumer)
    ensures
        r == *c,
{
    match c {
        CommandConsumer::Players => CommandConsumer::Players,
        CommandConsumer::Entities => CommandConsumer::Entities,
        CommandConsumer::BoundedNum { name, min, max } => CommandConsumer::BoundedNum {
            name: name.clone(),
            min: *min,
            max: *max,
        },
        CommandConsumer::SummonableEntities => CommandConsumer::SummonableEntities,
    }
}

} // verus!
