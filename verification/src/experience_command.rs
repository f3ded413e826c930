//! The experience command: its argument shape, its executor's decisions and
//! the messages it reports.

use vstd::prelude::*;

use crate::command_tree::{CommandConsumer, CommandTree, ExecutorTag, NodeType};
use crate::experience::spec_points_in_level;
use crate::experience::points_in_level;
use crate::text::{spec_i_dec, spec_u_dec, i64_to_string, u64_to_string, TextComponent};
use vstd::string::StringExecFns;

verus! {

/// Whether the command adds to, sets, or queries experience.
#[derive(Clone, Copy, PartialEq, Eq, Structural, Debug)]
pub enum Mode {
    Add,
    Assign,
    Query,
}

/// Whether the command works in points or in levels.
#[derive(Clone, Copy, PartialEq, Eq, Structural, Debug)]
pub enum ExpType {
    Points,
    Levels,
}

/// The experience command's executor: its mode and unit.
#[derive(Clone, Copy, PartialEq, Eq, Structural, Debug)]
pub struct Executor {
    pub mode: Mode,
    pub exp_type: Option<ExpType>,
}

/// The translation key a successful modification reports.
pub open spec fn spec_success_key(mode: Mode, exp_type: ExpType, multiple: bool) -> Seq<char> {
    match (mode, exp_type) {
        (Mode::Add, ExpType::Points) => if multiple {
            ("commands.experience.add.points.success.multiple")@
        } else {
            ("commands.experience.add.points.success.single")@
        },
        (Mode::Add, ExpType::Levels) => if multiple {
            ("commands.experience.add.levels.success.multiple")@
        } else {
            ("commands.experience.add.levels.success.single")@
        },
        (Mode::Assign, ExpType::Points) => if multiple {
            ("commands.experience.set.points.success.multiple")@
        } else {
            ("commands.experience.set.points.success.single")@
        },
        (Mode::Assign, ExpType::Levels) => if multiple {
            ("commands.experience.set.levels.success.multiple")@
        } else {
            ("commands.experience.set.levels.success.single")@
        },
        (Mode::Query, _) => Seq::empty(),
    }
}

impl Executor {
    /// The success message for a completed modification: the key picked by
    /// mode, unit and target count; the amount as the first argument; the
    /// target count or the single target's name as the second. The query
    /// mode reports no success message, so it is excluded.
    pub fn get_success_message(
        mode: Mode,
        exp_type: ExpType,
        amount: i32,
        targets_len: usize,
        target_name: Option<TextComponent>,
    ) -> (r: TextComponent)
        requires
            !(mode is Query),
            targets_len <= 1 ==> target_name is Some,
        ensures
            r is Translate,
            r->Translate_key@ == spec_success_key(mode, exp_type, targets_len > 1),
            r->Translate_with@.len() == 2,
            r->Translate_with@[0] is Text,
            r->Translate_with@[0]->Text_0@ == spec_i_dec(amount as int),
            targets_len > 1 ==> r->Translate_with@[1] is Text
                && r->Translate_with@[1]->Text_0@ == spec_u_dec(targets_len as int),
            targets_len <= 1 ==> r->Translate_with@[1] == target_name->0,
    {
        let amount_text = TextComponent::Text(i64_to_string(amount as i64));
        let second: TextComponent = if targets_len > 1 {
            TextComponent::Text(u64_to_string(targets_len as u64))
        } else {
            match target_name {
                Some(n) => n,
                None => TextComponent::Text(String::new()),
            }
        };
        let mut with: Vec<TextComponent> = Vec::new();
        with.push(amount_text);
        with.push(second);
        let key: &str = match (mode, exp_type) {
            (Mode::Add, ExpType::Points) => if targets_len > 1 {
                "commands.experience.add.points.success.multiple"
            } else {
                "commands.experience.add.points.success.single"
            },
            (Mode::Add, ExpType::Levels) => if targets_len > 1 {
                "commands.experience.add.levels.success.multiple"
            } else {
                "commands.experience.add.levels.success.single"
            },
            (Mode::Assign, ExpType::Points) => if targets_len > 1 {
                "commands.experience.set.points.success.multiple"
            } else {
                "commands.experience.set.points.success.single"
            },
            (Mode::Assign, ExpType::Levels) => if targets_len > 1 {
                "commands.experience.set.levels.success.multiple"
            } else {
                "commands.experience.set.levels.success.single"
            },
            (Mode::Query, _) => "",
        };
        TextComponent::translate(key, with)
    }

    /// Whether a `set points` request is admissible: the new point count may
    /// not exceed the points the target's current level holds.
    pub fn set_points_allowed(amount: i32, current_level: i32) -> (r: bool)
        requires
            -238609276 <= current_level <= 238609294,
        ensures
            r == (amount as int <= spec_points_in_level(current_level as int)),
    {
        let max_points = points_in_level(current_level);
        amount <= max_points
    }

    /// The translation key a query answer uses for the unit.
    pub fn query_key(exp_type: ExpType) -> (r: &'static str)
        ensures
            exp_type is Levels ==> r@ == ("commands.experience.query.levels")@,
            exp_type is Points ==> r@ == ("commands.experience.query.points")@,
    {
        match exp_type {
            ExpType::Levels => "commands.experience.query.levels",
            ExpType::Points => "commands.experience.query.points",
        }
    }
}

/// The bounded numeric consumer the amount argument uses.
pub fn xp_amount() -> (r: CommandConsumer)
    ensures
        r is BoundedNum,
        r->BoundedNum_name@ == ("amount")@,
        r->BoundedNum_min == 0,
        r->BoundedNum_max == i32::MAX,
{
    CommandConsumer::BoundedNum { name: String::from_str("amount"), min: 0, max: i32::MAX }
}

/// The experience command's tree: `add`, `set` and `query` literals, each
/// over a targets argument, with points/levels leaves.
pub fn init_command_tree() -> (r: CommandTree)
    ensures
        r.wf(),
        r.names@.len() == 2,
        r.names@[0]@ == ("experience")@,
        r.names@[1]@ == ("xp")@,
        r.description@ == ("Add, set or query player experience.")@,
        r.children@.len() == 3,
{
    let mut names: Vec<String> = Vec::new();
    names.push(String::from_str("experience"));
    names.push(String::from_str("xp"));
    let mut tree = CommandTree::new(names, "Add, set or query player experience.");
    let add_lit = tree.add_node(NodeType::Literal { string: String::from_str("add") }, None);
    let add_targets = tree.add_node(
        NodeType::Argument { name: String::from_str("targets"), consumer: CommandConsumer::Players },
        Some(add_lit),
    );
    let add_amount = tree.add_node(
        NodeType::Argument { name: String::from_str("amount"), consumer: xp_amount() },
        Some(add_targets),
    );
    let add_levels = tree.add_node(
        NodeType::Literal { string: String::from_str("levels") },
        Some(add_amount),
    );
    let _ = tree.add_node(
        NodeType::ExecuteLeaf {
            executor: ExecutorTag::Experience { mode: Mode::Add, exp_type: Some(ExpType::Levels) },
        },
        Some(add_levels),
    );
    let add_points = tree.add_node(
        NodeType::Literal { string: String::from_str("points") },
        Some(add_amount),
    );
    let _ = tree.add_node(
        NodeType::ExecuteLeaf {
            executor: ExecutorTag::Experience { mode: Mode::Add, exp_type: Some(ExpType::Points) },
        },
        Some(add_points),
    );
    let _ = tree.add_node(
        NodeType::ExecuteLeaf {
            executor: ExecutorTag::Experience { mode: Mode::Add, exp_type: Some(ExpType::Points) },
        },
        Some(add_amount),
    );
    let set_lit = tree.add_node(NodeType::Literal { string: String::from_str("set") }, None);
    let set_targets = tree.add_node(
        NodeType::Argument { name: String::from_str("targets"), consumer: CommandConsumer::Players },
        Some(set_lit),
    );
    let set_amount = tree.add_node(
        NodeType::Argument { name: String::from_str("amount"), consumer: xp_amount() },
        Some(set_targets),
    );
    let set_levels = tree.add_node(
        NodeType::Literal { string: String::from_str("levels") },
        Some(set_amount),
    );
    let _ = tree.add_node(
        NodeType::ExecuteLeaf {
            executor: ExecutorTag::Experience { mode: Mode::Assign, exp_type: Some(ExpType::Levels) },
        },
        Some(set_levels),
    );
    let set_points = tree.add_node(
        NodeType::Literal { string: String::from_str("points") },
        Some(set_amount),
    );
    let _ = tree.add_node(
        NodeType::ExecuteLeaf {
            executor: ExecutorTag::Experience { mode: Mode::Assign, exp_type: Some(ExpType::Points) },
        },
        Some(set_points),
    );
    let _ = tree.add_node(
        NodeType::ExecuteLeaf {
            executor: ExecutorTag::Experience { mode: Mode::Assign, exp_type: Some(ExpType::Points) },
        },
        Some(set_amount),
    );
    let query_lit = tree.add_node(NodeType::Literal { string: String::from_str("query") }, None);
    let query_targets = tree.add_node(
        NodeType::Argument { name: String::from_str("targets"), consumer: CommandConsumer::Players },
        Some(query_lit),
    );
    let query_levels = tree.add_node(
        NodeType::Literal { string: String::from_str("levels") },
        Some(query_targets),
    );
    let _ = tree.add_node(
        NodeType::ExecuteLeaf {
            executor: ExecutorTag::Experience {
                mode: Mode::Query,
                exp_type: Some(ExpType::Levels),
            },
        },
        Some(query_levels),
    );
    let query_points = tree.add_node(
        NodeType::Literal { string: String::from_str("points") },
        Some(query_targets),
    );
    let _ = tree.add_node(
        NodeType::ExecuteLeaf {
            executor: ExecutorTag::Experience {
                mode: Mode::Query,
                exp_type: Some(ExpType::Points),
            },
        },
        Some(query_points),
    );
    tree
}

} // verus!
