//! Commands on their way to the sessions that they are meant for.
use std::collections::HashMap;

use vstd::prelude::*;

use crate::command::host::CommandError;
use crate::text;
use crate::text::{same_text, strip_leading};
use crate::types::McpPromptRef;

verus! {

broadcast use vstd::std_specs::hash::group_hash_axioms;

/// What a command asks of its session.
#[derive(Debug, PartialEq, Eq)]
pub enum CommandRoute {
    Prompt(String),
    Mcp(McpPromptRef),
    Model(String),
    Builtin { name: String, arguments: String },
}

/// What becomes of a command.
#[derive(Debug, Clone, Copy, PartialEq, Eq, Structural)]
pub enum CommandClassification {
    AgentTurnAccepted,
    Completed,
    Failed,
}

/// A command in its session's mailbox. `lifecycle` names the call that it came from.
#[derive(Debug, PartialEq, Eq)]
pub struct RoutedCommand {
    pub target: u64,
    pub route: CommandRoute,
    pub lifecycle: u64,
}

/// The route of a built-in command: a model's name is handed on by itself.
pub fn builtin_route(name: &str, arguments: &str) -> (result: CommandRoute)
    ensures
        if name@ == "/model"@ {
            result is Model && result->Model_0@ == arguments@
        } else {
            result is Builtin && result->name@ == name@ && result->arguments@ == arguments@
        },
{
    if same_text(name, "/model") {
        CommandRoute::Model(arguments.to_owned())
    } else {
        CommandRoute::Builtin { name: name.to_owned(), arguments: arguments.to_owned() }
    }
}

/// The mailboxes of the sessions, by the targets that name them.
#[derive(Debug)]
pub struct CommandDispatcher {
    mailboxes: HashMap<u64, Vec<RoutedCommand>>,
}

impl View for CommandDispatcher {
    type V = Map<u64, Seq<RoutedCommand>>;

    closed spec fn view(&self) -> Map<u64, Seq<RoutedCommand>> {
        self.mailboxes@.map_values(|waiting: Vec<RoutedCommand>| waiting@)
    }
}

impl CommandDispatcher {
    /// Without sessions.
    pub fn new() -> (result: Self)
        ensures
            result@ == Map::<u64, Seq<RoutedCommand>>::empty(),
    {
        let result = CommandDispatcher { mailboxes: HashMap::new() };
        assert(result@ =~= Map::empty());
        result
    }

    /// Opens an empty mailbox for a target.
    pub fn create_mailbox(&mut self, target: u64)
        ensures
            final(self)@ == old(self)@.insert(target, Seq::empty()),
    {
        self.mailboxes.insert(target, Vec::new());
        assert(self@ =~= old(self)@.insert(target, Seq::empty()));
    }

    /// Closes the mailbox of a target, with what waits in it.
    pub fn close_mailbox(&mut self, target: u64)
        ensures
            final(self)@ == old(self)@.remove(target),
    {
        self.mailboxes.remove(&target);
        assert(self@ =~= old(self)@.remove(target));
    }

    /// Puts a command into the mailbox of its target, behind those that wait there. A target
    /// without a mailbox is stale.
    pub fn route_command(&mut self, target: u64, lifecycle: u64, route: CommandRoute)
        -> (result: Result<(), CommandError>)
        ensures
            if old(self)@.contains_key(target) {
                &&& result is Ok
                &&& final(self)@ == old(self)@.insert(
                    target,
                    old(self)@[target].push(RoutedCommand { target, route, lifecycle }),
                )
            } else {
                &&& result == Err::<(), _>(CommandError::StaleTarget)
                &&& final(self)@ == old(self)@
            },
    {
        match self.mailboxes.remove(&target) {
            Some(mut waiting) => {
                waiting.push(RoutedCommand { target, route, lifecycle });
                self.mailboxes.insert(target, waiting);
                assert(self@ =~= old(self)@.insert(
                    target,
                    old(self)@[target].push(RoutedCommand { target, route, lifecycle }),
                ));
                Ok(())
            },
            None => {
                assert(self@ =~= old(self)@);
                Err(CommandError::StaleTarget)
            },
        }
    }

    /// Puts a command that makes a turn into the mailbox of its target. What becomes of it is
    /// known at once, before the turn has run.
    pub fn route_agent_turn(&mut self, target: u64, lifecycle: u64, route: CommandRoute)
        -> (result: Result<CommandClassification, CommandError>)
        ensures
            if old(self)@.contains_key(target) {
                &&& result == Ok::<_, CommandError>(CommandClassification::AgentTurnAccepted)
                &&& final(self)@ == old(self)@.insert(
                    target,
                    old(self)@[target].push(RoutedCommand { target, route, lifecycle }),
                )
            } else {
                &&& result == Err::<CommandClassification, _>(CommandError::StaleTarget)
                &&& final(self)@ == old(self)@
            },
    {
        match self.route_command(target, lifecycle, route) {
            Ok(()) => Ok(CommandClassification::AgentTurnAccepted),
            Err(error) => Err(error),
        }
    }

    /// Takes the command that has waited longest in the mailbox of a target.
    pub fn receive(&mut self, target: u64) -> (result: Option<RoutedCommand>)
        ensures
            if old(self)@.contains_key(target) && old(self)@[target].len() > 0 {
                &&& result == Some(old(self)@[target][0])
                &&& final(self)@ == old(self)@.insert(target, old(self)@[target].skip(1))
            } else {
                &&& result is None
                &&& final(self)@ == old(self)@
            },
    {
        match self.mailboxes.remove(&target) {
            Some(mut waiting) => {
                if waiting.len() == 0 {
                    self.mailboxes.insert(target, waiting);
                    assert(self@ =~= old(self)@);
                    None
                } else {
                    let first = waiting.remove(0);
                    assert(waiting@ =~= old(self)@[target].skip(1));
                    self.mailboxes.insert(target, waiting);
                    assert(self@ =~= old(self)@.insert(target, old(self)@[target].skip(1)));
                    Some(first)
                }
            },
            None => {
                assert(self@ =~= old(self)@);
                None
            },
        }
    }
}

/// What becomes of the call that a command came from.
#[derive(Debug, Clone, Copy, PartialEq, Eq, Structural)]
pub struct Transition {
    pub lifecycle: u64,
    pub classification: CommandClassification,
}

/// Says what became of a command.
pub fn complete(command: &RoutedCommand, classification: CommandClassification)
    -> (result: Transition)
    ensures
        result == (Transition { lifecycle: command.lifecycle, classification }),
{
    Transition { lifecycle: command.lifecycle, classification }
}

/// A command as it is presented.
#[derive(Debug, PartialEq, Eq)]
pub struct PresentedCommand {
    pub name: String,
    pub description: String,
    pub argument_hint: Option<String>,
}

/// A command as the client is told of it: without the slashes before its name.
pub open spec fn advertises(told: PresentedCommand, command: PresentedCommand) -> bool {
    &&& told.name@ == text::without_leading(command.name@, '/')
    &&& told.description == command.description
    &&& told.argument_hint == command.argument_hint
}

/// The commands as the client is told of them, in order.
pub fn available_commands(commands: &Vec<PresentedCommand>) -> (result: Vec<PresentedCommand>)
    ensures
        result@.len() == commands@.len(),
        forall|i: int|
            0 <= i < result@.len() ==> advertises(#[trigger] result@[i], commands@[i]),
{
    let mut told: Vec<PresentedCommand> = Vec::new();
    let mut i: usize = 0;
    while i < commands.len()
        invariant
            i <= commands@.len(),
            told@.len() == i,
            forall|j: int| 0 <= j < i ==> advertises(#[trigger] told@[j], commands@[j]),
        decreases commands@.len() - i,
    {
        let command = &commands[i];
        told.push(
            PresentedCommand {
                name: strip_leading(command.name.as_str(), '/'),
                description: command.description.clone(),
                argument_hint: match &command.argument_hint {
                    Some(hint) => Some(hint.clone()),
                    None => None,
                },
            },
        );
        i += 1;
    }
    told
}

/// What is put into one mailbox is taken from it and from no other, first in, first out: a command
/// routed to an empty mailbox comes out next, and every other mailbox holds what it held.
pub proof fn law_commands_reach_only_their_target(
    before: Map<u64, Seq<RoutedCommand>>,
    command: RoutedCommand,
    other: u64,
)
    requires
        before.contains_key(command.target),
        other != command.target,
    ensures
        ({
            let waiting = before[command.target].push(command);
            let after = before.insert(command.target, waiting);
            &&& after.contains_key(other) == before.contains_key(other)
            &&& before.contains_key(other) ==> after[other] == before[other]
            &&& after[command.target].last() == command
            &&& before[command.target].len() == 0 ==> after[command.target][0] == command
        }),
{
}

} // verus!
