//! Which commands are registered, and that they are registered once.
use vstd::prelude::*;

use crate::command::custom;
use crate::command::custom::CustomCommand;
use crate::command::host;
use crate::command::host::CommandError;

verus! {

/// How a command is shown.
#[derive(Debug, PartialEq, Eq)]
pub struct CommandSpec {
    pub name: String,
    pub takes_arguments: bool,
    pub summary: String,
    pub argument_hint: Option<String>,
}

/// How a user's command is shown.
pub open spec fn shows(spec: CommandSpec, command: CustomCommand) -> bool {
    &&& spec.name@ == custom::shown_name(command.scope, command.name@)
    &&& spec.takes_arguments == command.accepts_args
    &&& spec.summary == command.description
    &&& spec.argument_hint == command.argument_hint
}

/// How a user's command is shown.
pub fn command_spec(command: &CustomCommand) -> (result: CommandSpec)
    ensures
        shows(result, *command),
{
    CommandSpec {
        name: command.display_name(),
        takes_arguments: command.has_args(),
        summary: command.description.clone(),
        argument_hint: match &command.argument_hint {
            Some(hint) => Some(hint.clone()),
            None => None,
        },
    }
}

/// How the user's commands are shown, in order.
pub fn register_commands(commands: &Vec<CustomCommand>) -> (result: Vec<CommandSpec>)
    ensures
        shows_all(result@, commands@),
{
    let mut specs: Vec<CommandSpec> = Vec::new();
    let mut i: usize = 0;
    while i < commands.len()
        invariant
            i <= commands@.len(),
            specs@.len() == i,
            forall|j: int| 0 <= j < i ==> shows(#[trigger] specs@[j], commands@[j]),
        decreases commands@.len() - i,
    {
        specs.push(command_spec(&commands[i]));
        i += 1;
    }
    specs
}

/// What completes a command's argument.
#[derive(Debug, Clone, Copy, PartialEq, Eq, Structural)]
pub enum CompletionKey {
    Model,
    Theme,
}

/// The completions that there are, each named by a number.
#[derive(Debug, Clone, Copy, PartialEq, Eq, Structural)]
pub struct StandardCompletions {
    pub model: Option<u64>,
    pub theme: Option<u64>,
}

impl StandardCompletions {
    /// The completion that a built-in command gets.
    pub fn of(&self, key: Option<CompletionKey>) -> (result: Option<u64>)
        ensures
            result == match key {
                Some(CompletionKey::Model) => self.model,
                Some(CompletionKey::Theme) => self.theme,
                None => None,
            },
    {
        match key {
            Some(CompletionKey::Model) => self.model,
            Some(CompletionKey::Theme) => self.theme,
            None => None,
        }
    }
}

/// Which of the standard commands a registry holds, and whether they are claimed.
#[derive(Debug, Clone, Copy, PartialEq, Eq, Structural)]
pub struct StandardRegistry {
    pub claimed: bool,
    pub builtin: bool,
    pub application: bool,
}

impl StandardRegistry {
    /// Nothing is registered without being claimed.
    pub open spec fn wf(self) -> bool {
        self.claimed == self.builtin && self.claimed == self.application
    }
}

/// A registry that holds none of the standard commands.
pub open spec fn unclaimed() -> StandardRegistry {
    StandardRegistry { claimed: false, builtin: false, application: false }
}

impl StandardRegistry {
    /// A registry without commands.
    pub fn new() -> (result: Self)
        ensures
            result == unclaimed(),
            result.wf(),
    {
        StandardRegistry { claimed: false, builtin: false, application: false }
    }

    /// Claims the standard commands; they can be claimed once.
    fn claim_standard_commands(&mut self) -> (result: bool)
        ensures
            result == !old(self).claimed,
            *final(self) == (StandardRegistry { claimed: true, ..*old(self) }),
    {
        let free = !self.claimed;
        self.claimed = true;
        free
    }
}

/// The standard commands of a registry: how the user's among them are shown.
#[derive(Debug, PartialEq, Eq)]
pub struct StandardCommands {
    pub application: Vec<CommandSpec>,
}

/// Commands are shown, each as it is.
pub open spec fn shows_all(specs: Seq<CommandSpec>, commands: Seq<CustomCommand>) -> bool {
    &&& specs.len() == commands.len()
    &&& forall|i: int| 0 <= i < specs.len() ==> shows(#[trigger] specs[i], commands[i])
}

impl StandardCommands {
    /// Registers the standard commands, given what comes of publishing the built-in ones and the
    /// user's. Where one cannot be published, nothing of it stays.
    pub fn register(
        registry: &mut StandardRegistry,
        commands: &Vec<CustomCommand>,
        builtin: Result<(), String>,
        application: Result<(), String>,
    ) -> (result: Result<Self, CommandError>)
        requires
            old(registry).wf(),
        ensures
            final(registry).wf(),
            if old(registry).claimed {
                &&& host::fails_with(result, "standard commands are already registered"@)
                &&& *final(registry) == *old(registry)
            } else {
                match (builtin, application) {
                    (Err(error), _) | (Ok(()), Err(error)) => {
                        &&& result == Err::<Self, _>(CommandError::Producer(error))
                        &&& *final(registry) == *old(registry)
                    },
                    (Ok(()), Ok(())) => {
                        &&& result is Ok
                        &&& shows_all(result->Ok_0.application@, commands@)
                        &&& final(registry).claimed
                    },
                }
            },
    {
        if !registry.claim_standard_commands() {
            return Err(
                CommandError::Producer("standard commands are already registered".to_owned()),
            );
        }
        match builtin {
            Err(error) => {
                registry.claimed = false;
                return Err(CommandError::Producer(error));
            },
            Ok(()) => {
                registry.builtin = true;
            },
        }
        match application {
            Err(error) => {
                registry.builtin = false;
                registry.claimed = false;
                Err(CommandError::Producer(error))
            },
            Ok(()) => {
                registry.application = true;
                Ok(StandardCommands { application: register_commands(commands) })
            },
        }
    }

    /// Publishes other commands of the user in place of those that were; where they cannot be
    /// published, those stay.
    pub fn register_custom_commands(
        &mut self,
        commands: &Vec<CustomCommand>,
        published: Result<(), String>,
    ) -> (result: Result<(), String>)
        ensures
            match published {
                Ok(()) => result is Ok && shows_all(final(self).application@, commands@),
                Err(_) => result == published && *final(self) == *old(self),
            },
    {
        match published {
            Ok(()) => {
                self.application = register_commands(commands);
                Ok(())
            },
            Err(error) => Err(error),
        }
    }

    /// How the user's commands are shown.
    pub fn application_producer(&self) -> (result: &Vec<CommandSpec>)
        ensures
            *result == self.application,
    {
        &self.application
    }

    /// Takes the standard commands back; they can be registered again.
    pub fn release(self, registry: &mut StandardRegistry)
        ensures
            *final(registry) == unclaimed(),
            final(registry).wf(),
    {
        registry.builtin = false;
        registry.application = false;
        registry.claimed = false;
    }
}

} // verus!
