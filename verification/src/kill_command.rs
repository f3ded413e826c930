//! The kill command: its tree and the messages it reports.

use vstd::prelude::*;
use vstd::string::StringExecFns;

use crate::command_tree::{CommandConsumer, CommandTree, ExecutorTag, NodeType, RequireCondition};
use crate::text::{spec_u_dec, u64_to_string, TextComponent};

verus! {

/// The success message after killing targets: the single target's name, or
/// the target count.
pub fn kill_success_message(target_count: usize, first_name: Option<TextComponent>) -> (r:
    TextComponent)
    requires
        target_count == 1 ==> first_name is Some,
    ensures
        r is Translate,
        target_count == 1 ==> r->Translate_key@ == ("commands.kill.success.single")@
            && r->Translate_with@.len() == 1 && r->Translate_with@[0] == first_name->0,
        target_count != 1 ==> r->Translate_key@ == ("commands.kill.success.multiple")@
            && r->Translate_with@.len() == 1 && r->Translate_with@[0] is Text
            && r->Translate_with@[0]->Text_0@ == spec_u_dec(target_count as int),
{
    let mut with: Vec<TextComponent> = Vec::new();
    if target_count == 1 {
        match first_name {
            Some(n) => {
                with.push(n);
            },
            None => {
                with.push(TextComponent::Text(String::new()));
            },
        }
        TextComponent::translate("commands.kill.success.single", with)
    } else {
        with.push(TextComponent::Text(u64_to_string(target_count as u64)));
        TextComponent::translate("commands.kill.success.multiple", with)
    }
}

/// The kill command's tree: a targets argument with an executor, and a
/// self-kill path gated on the sender being a player.
pub fn init_command_tree() -> (r: CommandTree)
    ensures
        r.wf(),
        r.names@.len() == 1,
        r.names@[0]@ == ("kill")@,
        r.description@ == ("Kills all target entities.")@,
        r.children@.len() == 2,
{
    let mut names: Vec<String> = Vec::new();
    names.push(String::from_str("kill"));
    let mut tree = CommandTree::new(names, "Kills all target entities.");
    let target = tree.add_node(
        NodeType::Argument {
            name: String::from_str("target"),
            consumer: CommandConsumer::Entities,
        },
        None,
    );
    let _ = tree.add_node(
        NodeType::ExecuteLeaf { executor: ExecutorTag::Kill },
        Some(target),
    );
    let req = tree.add_node(
        NodeType::Require { condition: RequireCondition::IsPlayer },
        None,
    );
    let _ = tree.add_node(
        NodeType::ExecuteLeaf { executor: ExecutorTag::KillSelf },
        Some(req),
    );
    tree
}

} // verus!
