//! The summonable-entities argument: consumed as a resource location and
//! resolved against the entity registry, with an optional `minecraft:`
//! namespace prefix stripped.

use vstd::prelude::*;
use vstd::string::StringSliceAdditionalSpecFns;
use vstd::string::StringExecFns;

use crate::client_suggestions::{ArgumentType, SuggestionProviders};
use crate::command_tree::CommandError;
use crate::text::TextComponent;

verus! {

/// An argument as a consumer leaves it for the executor.
#[derive(Debug)]
pub enum Arg {
    /// A raw resource-location token.
    Block(String),
    /// Selected entity names.
    Entities(Vec<String>),
    /// A parsed number, or a bound violation.
    Num(Result<i32, ()>),
}

/// Consumes one raw token as a summonable entity; suggestion answers are the
/// registry's business and stay empty here.
pub struct SummonableEntitiesArgumentConsumer;

impl SummonableEntitiesArgumentConsumer {
    /// The client parses this argument as a resource location.
    pub fn get_client_side_parser(&self) -> (r: ArgumentType)
        ensures
            r == ArgumentType::ResourceLocation,
    {
        ArgumentType::ResourceLocation
    }

    /// The client shows the summonable-entity suggestions for it.
    pub fn get_client_side_suggestion_type_override(&self) -> (r: Option<SuggestionProviders>)
        ensures
            r == Some(SuggestionProviders::SummonableEntities),
    {
        Some(SuggestionProviders::SummonableEntities)
    }

    /// The name this consumer registers under.
    pub fn default_name(&self) -> (r: &'static str)
        ensures
            r@ == ("summonable_entities")@,
    {
        "summonable_entities"
    }

    /// Pops the next raw token as the entity argument.
    pub fn consume(&self, args: &mut Vec<String>) -> (r: Option<Arg>)
        ensures
            old(args)@.len() == 0 ==> (r is None && final(args)@ == old(args)@),
            old(args)@.len() > 0 ==> (r is Some && r->0 is Block && r->0->Block_0 == old(
                args,
            )@.last() && final(args)@ == old(args)@.drop_last()),
    {
        match args.pop() {
            Some(s) => Some(Arg::Block(s)),
            None => None,
        }
    }
}

/// Whether two byte sequences are equal.
pub fn bytes_eq(a: &[u8], b: &[u8]) -> (r: bool)
    ensures
        r == (a@ =~= b@),
{
    if a.len() != b.len() {
        return false;
    }
    let n = a.len();
    let mut i: usize = 0;
    while i < n
        invariant
            0 <= i <= n,
            n == a@.len() == b@.len(),
            forall|j: int| 0 <= j < i ==> a@[j] == b@[j],
        decreases n - i,
    {
        if a[i] != b[i] {
            return false;
        }
        i = i + 1;
    }
    proof {
        assert(a@ =~= b@);
    }
    true
}

/// Resolves an entity name against the registry of UTF-8 entity names: the
/// token itself, or the token with a leading `minecraft:` removed, must
/// equal a registered name; the earliest match wins.
pub fn entity_index_from_name(registry: &Vec<Vec<u8>>, name: &str) -> (r: Option<usize>)
    ensures
        r is Some ==> (r->0 as int) < registry@.len() && registry@[r->0 as int]@
            =~= spec_strip_namespace_of(name.spec_bytes()),
        r is None ==> forall|i: int|
            0 <= i < registry@.len() ==> !((#[trigger] registry@[i])@ =~= spec_strip_namespace_of(
                name.spec_bytes(),
            )),
{
    let nb: &[u8] = name.as_bytes();
    let prefix: &[u8] = ("minecraft:").as_bytes();
    let stripped: &[u8] = if nb.len() >= 10 && bytes_eq(
        vstd::slice::slice_subrange(nb, 0, 10),
        prefix,
    ) {
        vstd::slice::slice_subrange(nb, 10, nb.len())
    } else {
        nb
    };
    proof {
        assert(stripped@ =~= spec_strip_namespace_of(name.spec_bytes()));
    }
    let n = registry.len();
    let mut i: usize = 0;
    while i < n
        invariant
            0 <= i <= n,
            n == registry@.len(),
            stripped@ =~= spec_strip_namespace_of(name.spec_bytes()),
            forall|j: int|
                0 <= j < i ==> !((#[trigger] registry@[j])@ =~= stripped@),
        decreases n - i,
    {
        if bytes_eq(registry[i].as_slice(), stripped) {
            return Some(i);
        }
        i = i + 1;
    }
    None
}

/// The name with a leading `minecraft:` namespace removed, as bytes.
pub open spec fn spec_strip_namespace_of(name: Seq<u8>) -> Seq<u8> {
    if name.len() >= 10 && name.subrange(0, 10) =~= ("minecraft:").spec_bytes() {
        name.skip(10)
    } else {
        name
    }
}

/// Finds the consumed entity argument under `name` and resolves it: the
/// registry index of the entity on success; an invalid-consumption error
/// when the argument is missing or has the wrong shape; a command failure
/// when the entity is unknown.
pub fn find_arg(
    args: &Vec<(String, Arg)>,
    name: &str,
    registry: &Vec<Vec<u8>>,
) -> (r: Result<usize, CommandError>)
    ensures
        r is Ok ==> (r->Ok_0 as int) < registry@.len(),
        r is Ok ==> exists|j: int|
            0 <= j < args@.len() && (#[trigger] args@[j]).0@ == name@ && args@[j].1 is Block,
        (forall|j: int| 0 <= j < args@.len() ==> (#[trigger] args@[j]).0@ != name@) ==> (r is Err
            && r->Err_0 is InvalidConsumption),
{
    let key = String::from_str(name);
    let n = args.len();
    let mut i: usize = 0;
    while i < n
        invariant
            0 <= i <= n,
            n == args@.len(),
            key@ == name@,
            forall|j: int| 0 <= j < i ==> (#[trigger] args@[j]).0@ != name@,
        decreases n - i,
    {
        if args[i].0.eq(&key) {
            return match &args[i].1 {
                Arg::Block(token) => match entity_index_from_name(
                    registry,
                    token.as_str(),
                ) {
                    Some(idx) => Ok(idx),
                    None => Err(
                        CommandError::CommandFailed(
                            Box::new(TextComponent::text("Can't find Entity")),
                        ),
                    ),
                },
                _ => Err(
                    CommandError::InvalidConsumption(Some(String::from_str(name))),
                ),
            };
        }
        i = i + 1;
    }
    Err(CommandError::InvalidConsumption(Some(String::from_str(name))))
}

} // verus!
