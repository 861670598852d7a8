//! What commands ask of a session, and how the session answers.
use vstd::prelude::*;

use crate::command::wording;
use crate::command::wording::unsupported_operation;
use crate::text::{copy_texts, joined};
use crate::types::{AgentTurn, CommandAttachment, CommandContent, ThinkingConfig};

verus! {

/// What a target can do.
#[derive(Debug, Clone, Copy, PartialEq, Eq, Structural)]
pub enum TargetCapability {
    AgentTurns,
    ModelSelection,
    SessionControl,
    WorkingDirectory,
    PermissionToggles,
    ConfigToggles,
    InteractiveUi,
}

/// What a target that is no screen can do.
pub fn portable_capabilities() -> (result: Vec<TargetCapability>)
    ensures
        result@ == seq![
            TargetCapability::AgentTurns,
            TargetCapability::ModelSelection,
            TargetCapability::SessionControl,
            TargetCapability::WorkingDirectory,
            TargetCapability::PermissionToggles,
            TargetCapability::ConfigToggles,
        ],
{
    vec![
        TargetCapability::AgentTurns,
        TargetCapability::ModelSelection,
        TargetCapability::SessionControl,
        TargetCapability::WorkingDirectory,
        TargetCapability::PermissionToggles,
        TargetCapability::ConfigToggles,
    ]
}

/// Whether a target can do something.
pub fn supports(capabilities: &Vec<TargetCapability>, wanted: TargetCapability) -> (result: bool)
    ensures
        result == capabilities@.contains(wanted),
{
    let mut i: usize = 0;
    while i < capabilities.len()
        invariant
            i <= capabilities@.len(),
            forall|j: int| 0 <= j < i ==> capabilities@[j] != wanted,
        decreases capabilities@.len() - i,
    {
        if capabilities[i] == wanted {
            return true;
        }
        i += 1;
    }
    false
}

/// Something of the session that a command has to know first.
#[derive(Debug, Clone, Copy, PartialEq, Eq, Structural)]
pub enum HostContextRequest {
    ModelSpecs,
    ThemeNames,
    WorkingDirectory,
    ThinkingConfig,
}

/// What the built-in commands do.
#[derive(Debug, PartialEq, Eq)]
pub enum BuiltinOperation {
    OpenTasks,
    Compact,
    ResetSession,
    ToggleHelp,
    ToggleUsage,
    FocusQueue,
    OpenModelPicker,
    SetModel { spec: String },
    OpenThemePicker,
    SetTheme { name: String },
    OpenMcpPicker,
    OpenLoginPicker,
    ChangeDirectory { path: String },
    QuickQuestion { question: String, attachments: Vec<CommandAttachment> },
    ToggleYolo,
    SetThinking { config: ThinkingConfig },
    ToggleFast,
    ToggleWorkflow,
    Exit,
    Reload,
}

/// What a command asks.
#[derive(Debug, PartialEq, Eq)]
pub enum HostRequest {
    Context(HostContextRequest),
    Builtin(BuiltinOperation),
}

/// What a command had to know.
#[derive(Debug, PartialEq, Eq)]
pub enum HostContextResponse {
    Values(Vec<String>),
    WorkingDirectory(String),
    ThinkingConfig(ThinkingConfig),
    Unavailable,
}

/// What a command is answered.
#[derive(Debug, PartialEq, Eq)]
pub enum HostResponse {
    Context(HostContextResponse),
    Completed,
    AgentTurn(AgentTurn),
}

/// Why a command failed.
#[derive(Debug, PartialEq, Eq)]
pub enum CommandError {
    /// What it was meant for is gone.
    StaleTarget,
    /// It failed with a message.
    Producer(String),
}

/// An error is the given message.
pub open spec fn fails_with<T>(result: Result<T, CommandError>, message: Seq<char>) -> bool {
    match result {
        Err(CommandError::Producer(text)) => text@ == message,
        _ => false,
    }
}

/// What only the session's owner can do.
#[derive(Debug, PartialEq, Eq)]
pub enum InteractiveControl {
    Compact,
    Reset,
    ChangeDirectory(String),
}

/// The part of a session that commands read and change.
#[derive(Debug)]
pub struct SessionCommandState {
    pub current_model: String,
    pub model_specs: Vec<String>,
    pub cwd: String,
    pub is_fast: bool,
    pub is_workflow: bool,
}

impl SessionCommandState {
    pub fn new(
        current_model: String,
        model_specs: Vec<String>,
        cwd: String,
        fast: bool,
        workflow: bool,
    ) -> (result: Self)
        ensures
            result == (SessionCommandState {
                current_model,
                model_specs,
                cwd,
                is_fast: fast,
                is_workflow: workflow,
            }),
    {
        SessionCommandState {
            current_model,
            model_specs,
            cwd,
            is_fast: fast,
            is_workflow: workflow,
        }
    }

    /// Sets which models can be chosen.
    pub fn set_model_specs(&mut self, specs: Vec<String>)
        ensures
            *final(self) == (SessionCommandState { model_specs: specs, ..*old(self) }),
    {
        self.model_specs = specs;
    }

    /// Whether turns are to run fast.
    pub fn fast(&self) -> (result: bool)
        ensures
            result == self.is_fast,
    {
        self.is_fast
    }

    /// Whether turns are to run as workflows.
    pub fn workflow(&self) -> (result: bool)
        ensures
            result == self.is_workflow,
    {
        self.is_workflow
    }
}

/// How the session goes about a request.
#[derive(Debug, PartialEq, Eq)]
pub enum HostStep {
    /// The answer is known.
    Respond(Result<HostResponse, CommandError>),
    /// The session's owner has to act first.
    Control(InteractiveControl),
    /// The model has to be allowed, read and handed to the session first.
    SetModel(String),
}

/// A session as commands see it, and whether it asks for permissions at all.
#[derive(Debug)]
pub struct SessionCommandHost {
    pub state: SessionCommandState,
    pub yolo: bool,
}

/// The session after a request whose answer is known.
pub open spec fn switched(before: SessionCommandHost, request: HostRequest) -> SessionCommandHost {
    match request {
        HostRequest::Builtin(BuiltinOperation::ToggleYolo) => SessionCommandHost {
            yolo: !before.yolo,
            ..before
        },
        HostRequest::Builtin(BuiltinOperation::ToggleFast) => SessionCommandHost {
            state: SessionCommandState { is_fast: !before.state.is_fast, ..before.state },
            ..before
        },
        HostRequest::Builtin(BuiltinOperation::ToggleWorkflow) => SessionCommandHost {
            state: SessionCommandState { is_workflow: !before.state.is_workflow, ..before.state },
            ..before
        },
        _ => before,
    }
}

/// How a session goes about a request.
pub open spec fn goes_about(before: SessionCommandHost, request: HostRequest, step: HostStep) -> bool {
    match request {
        HostRequest::Context(HostContextRequest::ModelSpecs) => match step {
            HostStep::Respond(Ok(HostResponse::Context(HostContextResponse::Values(specs)))) =>
                specs@ == before.state.model_specs@,
            _ => false,
        },
        HostRequest::Context(HostContextRequest::WorkingDirectory) => step == HostStep::Respond(
            Ok(HostResponse::Context(HostContextResponse::WorkingDirectory(before.state.cwd))),
        ),
        HostRequest::Context(HostContextRequest::ThemeNames) => step == HostStep::Respond(
            Ok(HostResponse::Context(HostContextResponse::Unavailable)),
        ),
        HostRequest::Context(HostContextRequest::ThinkingConfig) => step == HostStep::Respond(
            Ok(HostResponse::Context(HostContextResponse::Unavailable)),
        ),
        HostRequest::Builtin(operation) => match operation {
            BuiltinOperation::Compact => step == HostStep::Control(InteractiveControl::Compact),
            BuiltinOperation::ResetSession => step == HostStep::Control(InteractiveControl::Reset),
            BuiltinOperation::ToggleYolo => step == HostStep::Respond(Ok(HostResponse::Completed)),
            BuiltinOperation::ToggleFast => step == HostStep::Respond(Ok(HostResponse::Completed)),
            BuiltinOperation::ToggleWorkflow => step == HostStep::Respond(
                Ok(HostResponse::Completed),
            ),
            BuiltinOperation::ChangeDirectory { path } => step == HostStep::Control(
                InteractiveControl::ChangeDirectory(path),
            ),
            BuiltinOperation::SetModel { spec } => step == HostStep::SetModel(spec),
            BuiltinOperation::QuickQuestion { question, attachments } => step
                == HostStep::Respond(
                Ok(
                    HostResponse::AgentTurn(
                        AgentTurn {
                            content: CommandContent { text: question, attachments },
                            prompt: None,
                        },
                    ),
                ),
            ),
            _ => match step {
                HostStep::Respond(answer) => fails_with(
                    answer,
                    "unsupported builtin operation: "@ + wording::unsupported_name(operation),
                ),
                _ => false,
            },
        },
    }
}

/// What comes of a session's owner being asked: nothing where the owner is gone.
pub open spec fn control_answer(reply: Option<Result<(), String>>) -> Result<
    HostResponse,
    CommandError,
> {
    match reply {
        None => Err(CommandError::StaleTarget),
        Some(Err(error)) => Err(CommandError::Producer(error)),
        Some(Ok(())) => Ok(HostResponse::Completed),
    }
}

impl SessionCommandHost {
    pub fn new(state: SessionCommandState, yolo: bool) -> (result: Self)
        ensures
            result == (SessionCommandHost { state, yolo }),
    {
        SessionCommandHost { state, yolo }
    }

    /// Goes about a request.
    pub fn request(&mut self, request: HostRequest) -> (result: HostStep)
        ensures
            goes_about(*old(self), request, result),
            *final(self) == switched(*old(self), request),
    {
        let operation = match request {
            HostRequest::Context(HostContextRequest::ModelSpecs) => {
                let specs = copy_texts(&self.state.model_specs);
                return HostStep::Respond(
                    Ok(HostResponse::Context(HostContextResponse::Values(specs))),
                );
            },
            HostRequest::Context(HostContextRequest::WorkingDirectory) => {
                let cwd = self.state.cwd.clone();
                return HostStep::Respond(
                    Ok(HostResponse::Context(HostContextResponse::WorkingDirectory(cwd))),
                );
            },
            HostRequest::Context(HostContextRequest::ThemeNames)
            | HostRequest::Context(HostContextRequest::ThinkingConfig) => {
                return HostStep::Respond(
                    Ok(HostResponse::Context(HostContextResponse::Unavailable)),
                );
            },
            HostRequest::Builtin(operation) => operation,
        };
        match operation {
            BuiltinOperation::Compact => HostStep::Control(InteractiveControl::Compact),
            BuiltinOperation::ResetSession => HostStep::Control(InteractiveControl::Reset),
            BuiltinOperation::ToggleYolo => {
                self.yolo = !self.yolo;
                HostStep::Respond(Ok(HostResponse::Completed))
            },
            BuiltinOperation::ToggleFast => {
                self.state.is_fast = !self.state.is_fast;
                HostStep::Respond(Ok(HostResponse::Completed))
            },
            BuiltinOperation::ToggleWorkflow => {
                self.state.is_workflow = !self.state.is_workflow;
                HostStep::Respond(Ok(HostResponse::Completed))
            },
            BuiltinOperation::ChangeDirectory { path } => HostStep::Control(
                InteractiveControl::ChangeDirectory(path),
            ),
            BuiltinOperation::SetModel { spec } => HostStep::SetModel(spec),
            BuiltinOperation::QuickQuestion { question, attachments } => HostStep::Respond(
                Ok(
                    HostResponse::AgentTurn(
                        AgentTurn {
                            content: CommandContent { text: question, attachments },
                            prompt: None,
                        },
                    ),
                ),
            ),
            operation => HostStep::Respond(
                Err(
                    CommandError::Producer(
                        joined(
                            "unsupported builtin operation: ",
                            unsupported_operation(&operation).as_str(),
                        ),
                    ),
                ),
            ),
        }
    }

    /// What came of the session's owner being asked. The working directory changes only where the
    /// owner has changed it.
    pub fn controlled(&mut self, control: InteractiveControl, reply: Option<Result<(), String>>)
        -> (result: Result<HostResponse, CommandError>)
        ensures
            result == control_answer(reply),
            *final(self) == match control {
                InteractiveControl::ChangeDirectory(path) if result is Ok => SessionCommandHost {
                    state: SessionCommandState { cwd: path, ..old(self).state },
                    ..*old(self)
                },
                _ => *old(self),
            },
    {
        match reply {
            None => Err(CommandError::StaleTarget),
            Some(Err(error)) => Err(CommandError::Producer(error)),
            Some(Ok(())) => {
                match control {
                    InteractiveControl::ChangeDirectory(path) => {
                        self.state.cwd = path;
                    },
                    _ => {},
                }
                Ok(HostResponse::Completed)
            },
        }
    }

    /// Whether a model may be handed to the session: the policy has to allow it and its name has to
    /// be one that can be read.
    pub fn check_model(&self, allowed: bool, readable: Result<(), String>) -> (result: Result<
        (),
        CommandError,
    >)
        ensures
            if !allowed {
                fails_with(result, "model is not allowed by policy"@)
            } else {
                match readable {
                    Err(error) => result == Err::<(), _>(CommandError::Producer(error)),
                    Ok(()) => result is Ok,
                }
            },
    {
        if !allowed {
            return Err(CommandError::Producer("model is not allowed by policy".to_owned()));
        }
        match readable {
            Err(error) => Err(CommandError::Producer(error)),
            Ok(()) => Ok(()),
        }
    }

    /// What came of a model being handed to the session.
    pub fn model_sent(&mut self, spec: String, sent: bool) -> (result: Result<
        HostResponse,
        CommandError,
    >)
        ensures
            if sent {
                &&& result == Ok::<_, CommandError>(HostResponse::Completed)
                &&& *final(self) == (SessionCommandHost {
                    state: SessionCommandState { current_model: spec, ..old(self).state },
                    ..*old(self)
                })
            } else {
                &&& fails_with(result, "session ended before model change"@)
                &&& *final(self) == *old(self)
            },
    {
        if !sent {
            return Err(CommandError::Producer("session ended before model change".to_owned()));
        }
        self.state.current_model = spec;
        Ok(HostResponse::Completed)
    }
}

/// A switch that is turned twice stands as before.
pub proof fn law_switches_undo_themselves(host: SessionCommandHost, request: HostRequest)
    ensures
        switched(switched(host, request), request) == host,
{
}

} // verus!
