//! Turning a command tree into the flat node list the client expects: the
//! tree is walked against the invoking sender (requirement nodes gate their
//! subtrees), rebuilt as nested builders, then flattened into a buffer where
//! every node's children stand at lower positions than the node itself.

use vstd::prelude::*;

use crate::command_tree::{Node, NodeType, RequireCondition, spec_tree_wf};

verus! {

/// The client-side parser an argument node declares.
#[derive(Clone, Copy, PartialEq, Eq, Structural, Debug)]
pub enum ArgumentType {
    ResourceLocation,
    Entity,
    Integer,
}

/// The suggestion provider an argument node may override with.
#[derive(Clone, Copy, PartialEq, Eq, Structural, Debug)]
pub enum SuggestionProviders {
    AskServer,
    SummonableEntities,
}

/// The command sender a tree is rendered for.
#[derive(Clone, Copy, PartialEq, Eq, Structural, Debug)]
pub struct CommandSender {
    pub is_player: bool,
}

/// The kind of one flattened node.
#[derive(PartialEq, Eq, Debug)]
pub enum ProtoNodeType {
    Root,
    Literal { name: String, is_executable: bool },
    Argument {
        name: String,
        is_executable: bool,
        parser: ArgumentType,
        override_suggestion_type: Option<SuggestionProviders>,
    },
}

/// One flattened node: its children's buffer positions and its kind.
#[derive(Debug)]
pub struct ProtoNode {
    pub children: Vec<u32>,
    pub node_type: ProtoNodeType,
}

/// A node still in tree shape, before flattening.
#[derive(Debug)]
pub struct ProtoNodeBuilder {
    pub child_nodes: Vec<ProtoNodeBuilder>,
    pub node_type: ProtoNodeType,
}

/// A copy of a flattened node kind.
pub fn clone_proto_type(t: &ProtoNodeType) -> (r: ProtoNodeType)
    ensures
        r == *t,
{
    match t {
        ProtoNodeType::Root => ProtoNodeType::Root,
        ProtoNodeType::Literal { name, is_executable } => ProtoNodeType::Literal {
            name: name.clone(),
            is_executable: *is_executable,
        },
        ProtoNodeType::Argument { name, is_executable, parser, override_suggestion_type } => {
            ProtoNodeType::Argument {
                name: name.clone(),
                is_executable: *is_executable,
                parser: *parser,
                override_suggestion_type: *override_suggestion_type,
            }
        },
    }
}

/// How many flattened nodes a builder produces: itself plus its whole
/// subtree.
pub open spec fn spec_builder_size(b: ProtoNodeBuilder) -> int
    decreases b,
{
    1 + spec_builders_size(b.child_nodes@)
}

/// How many flattened nodes a list of builders produces.
pub open spec fn spec_builders_size(bs: Seq<ProtoNodeBuilder>) -> int
    decreases bs,
{
    if bs.len() == 0 {
        0
    } else {
        spec_builder_size(bs[0]) + spec_builders_size(bs.drop_first())
    }
}

/// A builder list produces at least as many nodes as it has entries.
pub proof fn lemma_builders_size_nonneg(bs: Seq<ProtoNodeBuilder>)
    ensures
        spec_builders_size(bs) >= bs.len(),
    decreases bs,
{
    if bs.len() > 0 {
        lemma_builders_size_nonneg(bs.drop_first());
        lemma_builder_size_pos(bs[0]);
    }
}

/// A builder produces at least one node.
pub proof fn lemma_builder_size_pos(b: ProtoNodeBuilder)
    ensures
        spec_builder_size(b) >= 1,
    decreases b,
{
    lemma_builders_size_nonneg(b.child_nodes@);
}

impl ProtoNodeBuilder {
    /// Flattens this builder into the buffer: children first, then the node
    /// itself, whose position is returned. Nodes already in the buffer stay
    /// untouched, every child reference points below the new node, and the
    /// node keeps its kind and its child count.
    pub fn build(&self, buffer: &mut Vec<ProtoNode>) -> (r: usize)
        requires
            old(buffer)@.len() + spec_builder_size(*self) <= 0xFFFF_0000,
        ensures
            final(buffer)@.len() == old(buffer)@.len() + spec_builder_size(*self),
            r == final(buffer)@.len() - 1,
            final(buffer)@[r as int].node_type == self.node_type,
            final(buffer)@[r as int].children@.len() == self.child_nodes@.len(),
            forall|k: int|
                0 <= k < self.child_nodes@.len()
                    ==> (((#[trigger] final(buffer)@[r as int].children@[k]) as int) < r as int),
        decreases *self,
    {
        proof {
            lemma_builders_size_nonneg(self.child_nodes@);
        }
        let n = self.child_nodes.len();
        let mut children: Vec<u32> = Vec::new();
        let mut i: usize = 0;
        proof {
            assert(self.child_nodes@.skip(0) =~= self.child_nodes@);
        }
        while i < n
            invariant
                0 <= i <= n,
                n == self.child_nodes@.len(),
                children@.len() == i,
                buffer@.len() + spec_builders_size(self.child_nodes@.skip(i as int)) + 1
                    <= 0xFFFF_0000,
                buffer@.len() == old(buffer)@.len() + spec_builders_size(
                    self.child_nodes@.subrange(0, i as int),
                ),
                forall|k: int|
                    0 <= k < i ==> ((#[trigger] children@[k]) as int) < buffer@.len(),
            decreases n - i,
        {
            proof {
                assert(decreases_to!(*self => self.child_nodes));
                assert(decreases_to!(self.child_nodes => self.child_nodes@[i as int]));
                let s = self.child_nodes@.skip(i as int);
                assert(s[0] == self.child_nodes@[i as int]);
                assert(s.drop_first() =~= self.child_nodes@.skip(i as int + 1));
                lemma_builders_size_nonneg(self.child_nodes@.skip(i as int + 1));
                lemma_builder_size_pos(self.child_nodes@[i as int]);
            }
            let ci = self.child_nodes[i].build(buffer);
            proof {
                lemma_subrange_size(self.child_nodes@, i as int);
            }
            children.push(ci as u32);
            i = i + 1;
        }
        proof {
            assert(self.child_nodes@.subrange(0, n as int) =~= self.child_nodes@);
            assert(self.child_nodes@.skip(n as int).len() == 0);
        }
        let idx = buffer.len();
        buffer.push(ProtoNode { children, node_type: clone_proto_type(&self.node_type) });
        idx
    }
}

/// The size a builder prefix accounts for grows by exactly the next
/// builder's size.
proof fn lemma_subrange_size(bs: Seq<ProtoNodeBuilder>, i: int)
    requires
        0 <= i < bs.len(),
    ensures
        spec_builders_size(bs.subrange(0, i + 1)) == spec_builders_size(bs.subrange(0, i))
            + spec_builder_size(bs[i]),
    decreases i,
{
    if i == 0 {
        assert(bs.subrange(0, 1).drop_first() =~= bs.subrange(0, 0));
        assert(bs.subrange(0, 1)[0] == bs[0]);
    } else {
        lemma_subrange_size(bs.drop_first(), i - 1);
        assert(bs.subrange(0, i + 1).drop_first() =~= bs.drop_first().subrange(0, i));
        assert(bs.subrange(0, i).drop_first() =~= bs.drop_first().subrange(0, i - 1));
        assert(bs.subrange(0, i + 1)[0] == bs[0]);
        assert(bs.subrange(0, i)[0] == bs[0]);
        assert(bs.drop_first()[i - 1] == bs[i]);
    }
}

/// Whether a requirement predicate admits the sender.
pub open spec fn spec_require_holds(c: RequireCondition, sender: CommandSender) -> bool {
    match c {
        RequireCondition::IsPlayer => sender.is_player,
    }
}

/// Whether walking the given children yields an executable node for the
/// sender: a direct executable leaf, or an admitted requirement node whose
/// own subtree yields one.
pub open spec fn spec_subtree_executable(
    nodes: Seq<Node>,
    children: Seq<usize>,
    sender: CommandSender,
    parent: int,
) -> bool
    decreases nodes.len() - parent, children.len(),
{
    if children.len() == 0 || parent >= nodes.len() || parent < -1 {
        false
    } else {
        let c = children[0] as int;
        let head = if parent < c < nodes.len() {
            match nodes[c].node_type {
                NodeType::ExecuteLeaf { .. } => true,
                NodeType::Require { condition } => spec_require_holds(condition, sender)
                    && spec_subtree_executable(nodes, nodes[c].children@, sender, c),
                _ => false,
            }
        } else {
            false
        };
        head || spec_subtree_executable(nodes, children.drop_first(), sender, parent)
    }
}

/// How many builders a walk of the given children yields for the sender:
/// one per literal or argument child, plus the spliced-in builders of every
/// admitted requirement child's subtree.
pub open spec fn spec_included_count(
    nodes: Seq<Node>,
    children: Seq<usize>,
    sender: CommandSender,
    parent: int,
) -> int
    decreases nodes.len() - parent, children.len(),
{
    if children.len() == 0 || parent >= nodes.len() || parent < -1 {
        0
    } else {
        let c = children[0] as int;
        let head: int = if parent < c < nodes.len() {
            match nodes[c].node_type {
                NodeType::ExecuteLeaf { .. } => 0,
                NodeType::Require { condition } => if spec_require_holds(condition, sender) {
                    spec_included_count(nodes, nodes[c].children@, sender, c)
                } else {
                    0
                },
                _ => 1,
            }
        } else {
            0
        };
        head + spec_included_count(nodes, children.drop_first(), sender, parent)
    }
}

/// Rebuilds the children at the given arena positions as proto-node
/// builders for the sender: literals and arguments become child builders
/// with their own subtrees, executable leaves mark the parent executable,
/// and requirement nodes splice their subtree in when the sender is
/// admitted. The returned flag is exactly whether the subtree makes the
/// parent executable.
pub fn nodes_to_proto_node_builders(
    cmd_src: &CommandSender,
    nodes: &Vec<Node>,
    children: &Vec<usize>,
) -> (r: (bool, Vec<ProtoNodeBuilder>))
    requires
        spec_tree_wf(nodes@),
        forall|k: int|
            0 <= k < children@.len() ==> ((#[trigger] children@[k]) as int) < nodes@.len(),
    ensures
        r.0 == spec_subtree_executable(nodes@, children@, *cmd_src, -1),
        r.1@.len() == spec_included_count(nodes@, children@, *cmd_src, -1),
{
    proto_builders_from(cmd_src, nodes, children, Ghost(-1))
}

/// The recursive walk behind `nodes_to_proto_node_builders`, carrying the
/// parent's arena position as the termination measure.
fn proto_builders_from(
    cmd_src: &CommandSender,
    nodes: &Vec<Node>,
    children: &Vec<usize>,
    parent: Ghost<int>,
) -> (r: (bool, Vec<ProtoNodeBuilder>))
    requires
        spec_tree_wf(nodes@),
        -1 <= parent@ < nodes@.len(),
        forall|k: int|
            0 <= k < children@.len() ==> parent@ < ((#[trigger] children@[k]) as int)
                < nodes@.len(),
    ensures
        r.0 == spec_subtree_executable(nodes@, children@, *cmd_src, parent@),
        r.1@.len() == spec_included_count(nodes@, children@, *cmd_src, parent@),
    decreases nodes@.len() - parent@, children@.len(),
{
    let mut child_nodes: Vec<ProtoNodeBuilder> = Vec::new();
    let mut is_executable = false;
    let n = children.len();
    let mut i: usize = 0;
    proof {
        assert(children@.skip(0) =~= children@);
    }
    while i < n
        invariant
            0 <= i <= n,
            n == children@.len(),
            spec_tree_wf(nodes@),
            -1 <= parent@ < nodes@.len(),
            forall|k: int|
                0 <= k < children@.len() ==> parent@ < ((#[trigger] children@[k]) as int)
                    < nodes@.len(),
            spec_subtree_executable(nodes@, children@, *cmd_src, parent@) == (is_executable
                || spec_subtree_executable(nodes@, children@.skip(i as int), *cmd_src, parent@)),
            spec_included_count(nodes@, children@, *cmd_src, parent@) == child_nodes@.len()
                + spec_included_count(nodes@, children@.skip(i as int), *cmd_src, parent@),
        decreases n - i,
    {
        let c: usize = children[i];
        proof {
            let s = children@.skip(i as int);
            assert(s[0] == children@[i as int]);
            assert(s.drop_first() =~= children@.skip(i as int + 1));
        }
        let node = &nodes[c];
        match &node.node_type {
            NodeType::Argument { name, consumer } => {
                let (node_is_executable, node_children) = proto_builders_from(
                    cmd_src,
                    nodes,
                    &node.children,
                    Ghost(c as int),
                );
                let (parser, override_suggestion_type) = match consumer {
                    crate::command_tree::CommandConsumer::Players => (
                        ArgumentType::Entity,
                        None,
                    ),
                    crate::command_tree::CommandConsumer::Entities => (
                        ArgumentType::Entity,
                        None,
                    ),
                    crate::command_tree::CommandConsumer::BoundedNum { .. } => (
                        ArgumentType::Integer,
                        None,
                    ),
                    crate::command_tree::CommandConsumer::SummonableEntities => (
                        ArgumentType::ResourceLocation,
                        Some(SuggestionProviders::SummonableEntities),
                    ),
                };
                child_nodes.push(
                    ProtoNodeBuilder {
                        child_nodes: node_children,
                        node_type: ProtoNodeType::Argument {
                            name: name.clone(),
                            is_executable: node_is_executable,
                            parser,
                            override_suggestion_type,
                        },
                    },
                );
            },
            NodeType::Literal { string } => {
                let (node_is_executable, node_children) = proto_builders_from(
                    cmd_src,
                    nodes,
                    &node.children,
                    Ghost(c as int),
                );
                child_nodes.push(
                    ProtoNodeBuilder {
                        child_nodes: node_children,
                        node_type: ProtoNodeType::Literal {
                            name: string.clone(),
                            is_executable: node_is_executable,
                        },
                    },
                );
            },
            NodeType::ExecuteLeaf { .. } => {
                is_executable = true;
            },
            NodeType::Require { condition } => {
                let holds = match condition {
                    RequireCondition::IsPlayer => cmd_src.is_player,
                };
                if holds {
                    let (node_is_executable, mut node_children) = proto_builders_from(
                        cmd_src,
                        nodes,
                        &node.children,
                        Ghost(c as int),
                    );
                    if node_is_executable {
                        is_executable = true;
                    }
                    let mut j: usize = 0;
                    let taken = node_children.len();
                    let ghost base = child_nodes@.len();
                    while j < taken
                        invariant
                            0 <= j <= taken,
                            node_children@.len() == taken - j,
                            child_nodes@.len() == base + j,
                        decreases taken - j,
                    {
                        let b = node_children.remove(0);
                        child_nodes.push(b);
                        j = j + 1;
                    }
                }
            },
        }
        i = i + 1;
    }
    proof {
        assert(children@.skip(n as int).len() == 0);
    }
    (is_executable, child_nodes)
}

} // verus!
