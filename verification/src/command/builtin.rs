//! The built-in commands: what each does with its arguments.
use vstd::prelude::*;

use crate::command::custom;
use crate::command::host;
use crate::command::host::{
    BuiltinOperation, CommandError, HostContextRequest, HostContextResponse, HostResponse,
};
use crate::command::wording;
use crate::command::wording::answer_text;
use crate::text;
use crate::text::{
    after_prefix, find_text, joined, lower_text, parse_integer, same_text, strip_leading, trim_text,
};
use crate::types::{AgentTurn, CommandAttachment, ThinkingConfig};

verus! {

/// The built-in commands.
#[derive(Debug, Clone, Copy, PartialEq, Eq, Structural)]
pub enum BuiltinId {
    Tasks,
    Compact,
    New,
    Help,
    Usage,
    Queue,
    Model,
    Theme,
    Mcp,
    Login,
    Cd,
    Btw,
    Yolo,
    Thinking,
    Fast,
    Workflow,
    Exit,
    Reload,
}

/// A directory that a command names.
#[derive(Debug, PartialEq, Eq)]
pub enum DirectoryPlace {
    Home,
    BelowHome(String),
    Below { cwd: String, path: String },
    At(String),
}

/// How a built-in command goes on.
#[derive(Debug, PartialEq, Eq)]
pub enum BuiltinStep {
    /// It is performed.
    Perform(BuiltinOperation),
    /// Something of the session has to be known first.
    Ask(HostContextRequest),
    /// A model's name has to be read first.
    ReadModel(String),
    /// The working directory is changed to a place.
    ChangeDirectory(DirectoryPlace),
}

/// The commands that need nothing but to be called.
pub open spec fn plain_operation(id: BuiltinId) -> Option<BuiltinOperation> {
    match id {
        BuiltinId::Tasks => Some(BuiltinOperation::OpenTasks),
        BuiltinId::Compact => Some(BuiltinOperation::Compact),
        BuiltinId::New => Some(BuiltinOperation::ResetSession),
        BuiltinId::Help => Some(BuiltinOperation::ToggleHelp),
        BuiltinId::Usage => Some(BuiltinOperation::ToggleUsage),
        BuiltinId::Queue => Some(BuiltinOperation::FocusQueue),
        BuiltinId::Mcp => Some(BuiltinOperation::OpenMcpPicker),
        BuiltinId::Login => Some(BuiltinOperation::OpenLoginPicker),
        BuiltinId::Yolo => Some(BuiltinOperation::ToggleYolo),
        BuiltinId::Fast => Some(BuiltinOperation::ToggleFast),
        BuiltinId::Workflow => Some(BuiltinOperation::ToggleWorkflow),
        BuiltinId::Exit => Some(BuiltinOperation::Exit),
        BuiltinId::Reload => Some(BuiltinOperation::Reload),
        BuiltinId::Model | BuiltinId::Theme | BuiltinId::Cd | BuiltinId::Btw
        | BuiltinId::Thinking => None,
    }
}

/// How a built-in command goes on with its arguments. Only a question may come with more than
/// text; a model without a name is picked on a screen, where there is one.
pub open spec fn interpreted(
    id: BuiltinId,
    arguments: Seq<char>,
    attachments: Seq<CommandAttachment>,
    interactive: bool,
    result: Result<BuiltinStep, CommandError>,
) -> bool {
    let words = text::trimmed(arguments);
    if id != BuiltinId::Btw && attachments.len() > 0 {
        host::fails_with(result, "local commands cannot include non-text content"@)
    } else {
        match id {
            BuiltinId::Model => if words.len() == 0 {
                if interactive {
                    result == Ok::<_, CommandError>(
                        BuiltinStep::Perform(BuiltinOperation::OpenModelPicker),
                    )
                } else {
                    host::fails_with(result, "Usage: /model <model>"@)
                }
            } else if custom::mentions(words, "/"@) {
                result is Ok && result->Ok_0 is ReadModel && result->Ok_0->ReadModel_0@ == words
            } else {
                result == Ok::<_, CommandError>(BuiltinStep::Ask(HostContextRequest::ModelSpecs))
            },
            BuiltinId::Theme => if words.len() == 0 {
                result == Ok::<_, CommandError>(
                    BuiltinStep::Perform(BuiltinOperation::OpenThemePicker),
                )
            } else {
                result == Ok::<_, CommandError>(BuiltinStep::Ask(HostContextRequest::ThemeNames))
            },
            BuiltinId::Cd => result == Ok::<_, CommandError>(
                BuiltinStep::Ask(HostContextRequest::WorkingDirectory),
            ),
            BuiltinId::Thinking => result == Ok::<_, CommandError>(
                BuiltinStep::Ask(HostContextRequest::ThinkingConfig),
            ),
            BuiltinId::Btw => match result {
                Ok(
                    BuiltinStep::Perform(
                        BuiltinOperation::QuickQuestion { question, attachments: handed },
                    ),
                ) => question@ == words && handed@ == attachments,
                _ => false,
            },
            _ => result == Ok::<_, CommandError>(BuiltinStep::Perform(plain_operation(id)->0)),
        }
    }
}

/// Begins a built-in command.
pub fn interpret(
    id: BuiltinId,
    arguments: &str,
    attachments: Vec<CommandAttachment>,
    interactive: bool,
) -> (result: Result<BuiltinStep, CommandError>)
    ensures
        interpreted(id, arguments@, attachments@, interactive, result),
{
    if id != BuiltinId::Btw && attachments.len() > 0 {
        return Err(
            CommandError::Producer("local commands cannot include non-text content".to_owned()),
        );
    }
    let arguments = trim_text(arguments);
    let operation = match id {
        BuiltinId::Tasks => BuiltinOperation::OpenTasks,
        BuiltinId::Compact => BuiltinOperation::Compact,
        BuiltinId::New => BuiltinOperation::ResetSession,
        BuiltinId::Help => BuiltinOperation::ToggleHelp,
        BuiltinId::Usage => BuiltinOperation::ToggleUsage,
        BuiltinId::Queue => BuiltinOperation::FocusQueue,
        BuiltinId::Model => {
            if arguments.as_str().is_empty() {
                if !interactive {
                    return Err(CommandError::Producer("Usage: /model <model>".to_owned()));
                }
                BuiltinOperation::OpenModelPicker
            } else if find_text(arguments.as_str(), "/").is_some() {
                return Ok(BuiltinStep::ReadModel(arguments));
            } else {
                return Ok(BuiltinStep::Ask(HostContextRequest::ModelSpecs));
            }
        },
        BuiltinId::Theme => {
            if arguments.as_str().is_empty() {
                BuiltinOperation::OpenThemePicker
            } else {
                return Ok(BuiltinStep::Ask(HostContextRequest::ThemeNames));
            }
        },
        BuiltinId::Mcp => BuiltinOperation::OpenMcpPicker,
        BuiltinId::Login => BuiltinOperation::OpenLoginPicker,
        BuiltinId::Cd => {
            return Ok(BuiltinStep::Ask(HostContextRequest::WorkingDirectory));
        },
        BuiltinId::Btw => BuiltinOperation::QuickQuestion { question: arguments, attachments },
        BuiltinId::Yolo => BuiltinOperation::ToggleYolo,
        BuiltinId::Thinking => {
            return Ok(BuiltinStep::Ask(HostContextRequest::ThinkingConfig));
        },
        BuiltinId::Fast => BuiltinOperation::ToggleFast,
        BuiltinId::Workflow => BuiltinOperation::ToggleWorkflow,
        BuiltinId::Exit => BuiltinOperation::Exit,
        BuiltinId::Reload => BuiltinOperation::Reload,
    };
    Ok(BuiltinStep::Perform(operation))
}

/// What a session said of itself, where it said that.
pub fn host_context(response: Result<HostResponse, CommandError>) -> (result: Result<
    HostContextResponse,
    CommandError,
>)
    ensures
        match response {
            Ok(HostResponse::Context(context)) => result == Ok::<_, CommandError>(context),
            Ok(other) => host::fails_with(
                result,
                "invalid host context response: "@ + wording::answer_word(other),
            ),
            Err(error) => result == Err::<HostContextResponse, _>(error),
        },
{
    match response {
        Ok(HostResponse::Context(context)) => Ok(context),
        Ok(other) => Err(
            CommandError::Producer(
                joined("invalid host context response: ", answer_text(&other).as_str()),
            ),
        ),
        Err(error) => Err(error),
    }
}

/// Which of some names a text stands for.
#[derive(Debug, Clone, Copy, PartialEq, Eq, Structural)]
pub enum Resolution {
    Unique(usize),
    NoMatch,
    Ambiguous,
}

/// A resolution picks one of so many names, if it picks any.
pub open spec fn picks_one_of(resolution: Resolution, count: nat) -> bool {
    resolution is Unique ==> resolution->Unique_0 < count
}

/// The provider and the model that a model's name names: what stands before and behind its first
/// slash. A name without one names a model alone.
pub open spec fn name_parts(spec: Seq<char>) -> (Seq<char>, Seq<char>) {
    match text::first_occurrence(spec, "/"@) {
        Some(at) => (spec.take(at), spec.skip(at + 1)),
        None => (Seq::empty(), spec),
    }
}

/// The provider and the model that a model's name names. A text is matched against these and the
/// whole name.
pub fn candidate_fields(spec: &str) -> (result: (String, String))
    ensures
        result.0@ == name_parts(spec@).0,
        result.1@ == name_parts(spec@).1,
{
    match find_text(spec, "/") {
        Some(at) => {
            proof {
                reveal_strlit("/");
                crate::command::frontmatter::lemma_first_from(spec@, "/"@, 0);
            }
            let length: usize = spec.unicode_len();
            assert(spec@.subrange(0, at as int) =~= spec@.take(at as int));
            assert(spec@.subrange(at + 1, length as int) =~= spec@.skip(at + 1));
            (
                spec.substring_char(0, at).to_owned(),
                spec.substring_char(at + 1, length).to_owned(),
            )
        },
        None => (String::new(), spec.to_owned()),
    }
}

/// The model that a text without a slash stands for.
pub fn resolve_model(argument: &str, specs: &Vec<String>, resolution: Resolution) -> (result: Result<
    String,
    CommandError,
>)
    requires
        picks_one_of(resolution, specs@.len()),
    ensures
        match resolution {
            Resolution::Unique(index) => result == Ok::<_, CommandError>(specs@[index as int]),
            Resolution::NoMatch => host::fails_with(result, "no model matches: "@ + argument@),
            Resolution::Ambiguous => host::fails_with(result, "ambiguous model: "@ + argument@),
        },
{
    match resolution {
        Resolution::Unique(index) => Ok(specs[index].clone()),
        Resolution::NoMatch => Err(CommandError::Producer(joined("no model matches: ", argument))),
        Resolution::Ambiguous => Err(CommandError::Producer(joined("ambiguous model: ", argument))),
    }
}

/// The model that a text with a slash names, once it has been read.
pub fn read_model(spec: String, readable: Result<(), String>) -> (result: Result<
    BuiltinOperation,
    CommandError,
>)
    ensures
        result == match readable {
            Ok(()) => Ok::<_, CommandError>(BuiltinOperation::SetModel { spec }),
            Err(error) => Err(CommandError::Producer(error)),
        },
{
    match readable {
        Ok(()) => Ok(BuiltinOperation::SetModel { spec }),
        Err(error) => Err(CommandError::Producer(error)),
    }
}

/// The number of tokens that a text stands for: it is positive and fits into 32 bits.
pub open spec fn budget_of(word: Seq<char>) -> Option<u32> {
    match text::integer_value(word) {
        Some(number) if 0 < number <= u32::MAX => Some(number as u32),
        _ => None,
    }
}

/// How much thinking a word asks for, given how much there is now. Case does not matter.
pub open spec fn thinking_of(input: Seq<char>, current: ThinkingConfig) -> Option<ThinkingConfig> {
    let word = text::lowered(text::trimmed(input));
    if word == ""@ || word == "toggle"@ {
        Some(
            if current == ThinkingConfig::Off {
                ThinkingConfig::Adaptive
            } else {
                ThinkingConfig::Off
            },
        )
    } else if word == "off"@ || word == "false"@ {
        Some(ThinkingConfig::Off)
    } else if word == "on"@ || word == "true"@ || word == "adaptive"@ {
        Some(ThinkingConfig::Adaptive)
    } else if word == "minimal"@ {
        Some(ThinkingConfig::Minimal)
    } else if word == "low"@ {
        Some(ThinkingConfig::Low)
    } else if word == "medium"@ {
        Some(ThinkingConfig::Medium)
    } else if word == "high"@ {
        Some(ThinkingConfig::High)
    } else if word == "xhigh"@ {
        Some(ThinkingConfig::XHigh)
    } else if word == "max"@ {
        Some(ThinkingConfig::Max)
    } else {
        match budget_of(word) {
            Some(budget) => Some(ThinkingConfig::Budget(budget)),
            None => None,
        }
    }
}

/// How much thinking a word asks for.
pub fn parse_thinking(input: &str, current: ThinkingConfig) -> (result: Result<
    ThinkingConfig,
    CommandError,
>)
    ensures
        match thinking_of(input@, current) {
            Some(config) => result == Ok::<_, CommandError>(config),
            None => host::fails_with(result, "invalid thinking mode"@),
        },
{
    let trimmed = trim_text(input);
    let word = lower_text(trimmed.as_str());
    let word = word.as_str();
    if same_text(word, "") || same_text(word, "toggle") {
        Ok(
            if current == ThinkingConfig::Off {
                ThinkingConfig::Adaptive
            } else {
                ThinkingConfig::Off
            },
        )
    } else if same_text(word, "off") || same_text(word, "false") {
        Ok(ThinkingConfig::Off)
    } else if same_text(word, "on") || same_text(word, "true") || same_text(word, "adaptive") {
        Ok(ThinkingConfig::Adaptive)
    } else if same_text(word, "minimal") {
        Ok(ThinkingConfig::Minimal)
    } else if same_text(word, "low") {
        Ok(ThinkingConfig::Low)
    } else if same_text(word, "medium") {
        Ok(ThinkingConfig::Medium)
    } else if same_text(word, "high") {
        Ok(ThinkingConfig::High)
    } else if same_text(word, "xhigh") {
        Ok(ThinkingConfig::XHigh)
    } else if same_text(word, "max") {
        Ok(ThinkingConfig::Max)
    } else {
        match parse_integer(word) {
            Some(number) => {
                if 0 < number && number <= u32::MAX as i64 {
                    Ok(ThinkingConfig::Budget(number as u32))
                } else {
                    Err(CommandError::Producer("invalid thinking mode".to_owned()))
                }
            },
            None => Err(CommandError::Producer("invalid thinking mode".to_owned())),
        }
    }
}

/// The directory that a command names: the user's home for none or a tilde, a place below the home
/// behind a tilde, and otherwise the place itself, seen from the working directory where it is
/// relative.
pub open spec fn names_place(
    words: Seq<char>,
    cwd: String,
    relative: bool,
    place: DirectoryPlace,
) -> bool {
    if words.len() == 0 || words == "~"@ {
        place is Home
    } else if "~"@.is_prefix_of(words) {
        place is BelowHome && place->BelowHome_0@ == text::without_leading(
            words.skip("~"@.len() as int),
            '/',
        )
    } else if relative {
        place is Below && place->cwd == cwd && place->path@ == words
    } else {
        place is At && place->At_0@ == words
    }
}

/// The directory that a command names; `relative` says whether the words are a relative path.
pub fn directory_place(words: String, cwd: String, relative: bool) -> (result: DirectoryPlace)
    ensures
        names_place(words@, cwd, relative, result),
{
    if words.as_str().is_empty() {
        return DirectoryPlace::Home;
    }
    proof {
        reveal_strlit("~");
    }
    match after_prefix(words.as_str(), "~") {
        Some(rest) => {
            assert("~"@.is_prefix_of(words@)) by {
                assert(words@.subrange(0, 1) =~= "~"@);
            }
            assert(words@.skip(1) =~= rest@);
            if rest.as_str().is_empty() {
                assert(words@ =~= "~"@);
                DirectoryPlace::Home
            } else {
                DirectoryPlace::BelowHome(strip_leading(rest.as_str(), '/'))
            }
        },
        None => {
            assert(words@ != "~"@) by {
                if words@ == "~"@ {
                    assert(words@.subrange(0, 1) =~= "~"@);
                }
            }
            if relative {
                DirectoryPlace::Below { cwd, path: words }
            } else {
                DirectoryPlace::At(words)
            }
        },
    }
}

/// How a command goes on once the session has said what the command had to know.
pub open spec fn informed_step(
    request: HostContextRequest,
    arguments: Seq<char>,
    context: HostContextResponse,
    resolution: Resolution,
    relative: bool,
    result: Result<BuiltinStep, CommandError>,
) -> bool {
    let words = text::trimmed(arguments);
    match request {
        HostContextRequest::ModelSpecs => match context {
            HostContextResponse::Values(specs) => match resolution {
                Resolution::Unique(index) => result == Ok::<_, CommandError>(
                    BuiltinStep::Perform(BuiltinOperation::SetModel { spec: specs@[index as int] }),
                ),
                Resolution::NoMatch => host::fails_with(result, "no model matches: "@ + words),
                Resolution::Ambiguous => host::fails_with(result, "ambiguous model: "@ + words),
            },
            _ => host::fails_with(result, "model resolution is unavailable"@),
        },
        HostContextRequest::ThemeNames => match context {
            HostContextResponse::Values(names) => match resolution {
                Resolution::Unique(index) => result == Ok::<_, CommandError>(
                    BuiltinStep::Perform(BuiltinOperation::SetTheme { name: names@[index as int] }),
                ),
                _ => host::fails_with(result, "theme is unknown or ambiguous: "@ + words),
            },
            _ => host::fails_with(result, "theme resolution is unavailable"@),
        },
        HostContextRequest::WorkingDirectory => match context {
            HostContextResponse::WorkingDirectory(cwd) => match result {
                Ok(BuiltinStep::ChangeDirectory(place)) => names_place(words, cwd, relative, place),
                _ => false,
            },
            _ => host::fails_with(result, "working-directory resolution is unavailable"@),
        },
        HostContextRequest::ThinkingConfig => match context {
            HostContextResponse::ThinkingConfig(current) => match thinking_of(words, current) {
                Some(config) => result == Ok::<_, CommandError>(
                    BuiltinStep::Perform(BuiltinOperation::SetThinking { config }),
                ),
                None => host::fails_with(result, "invalid thinking mode"@),
            },
            _ => host::fails_with(result, "thinking configuration is unavailable"@),
        },
    }
}

/// Goes on with a command once the session has said what the command had to know. `resolution` is
/// which of the session's names the arguments stand for, where it named some, and `relative` is
/// whether they are a relative path.
pub fn informed(
    request: HostContextRequest,
    arguments: &str,
    context: HostContextResponse,
    resolution: Resolution,
    relative: bool,
) -> (result: Result<BuiltinStep, CommandError>)
    requires
        context is Values ==> picks_one_of(resolution, context->Values_0@.len()),
    ensures
        informed_step(request, arguments@, context, resolution, relative, result),
{
    let words = trim_text(arguments);
    match request {
        HostContextRequest::ModelSpecs => match context {
            HostContextResponse::Values(specs) => match resolve_model(
                words.as_str(),
                &specs,
                resolution,
            ) {
                Ok(spec) => Ok(BuiltinStep::Perform(BuiltinOperation::SetModel { spec })),
                Err(error) => Err(error),
            },
            _ => Err(CommandError::Producer("model resolution is unavailable".to_owned())),
        },
        HostContextRequest::ThemeNames => match context {
            HostContextResponse::Values(names) => match resolution {
                Resolution::Unique(index) => Ok(
                    BuiltinStep::Perform(BuiltinOperation::SetTheme { name: names[index].clone() }),
                ),
                _ => Err(
                    CommandError::Producer(
                        joined("theme is unknown or ambiguous: ", words.as_str()),
                    ),
                ),
            },
            _ => Err(CommandError::Producer("theme resolution is unavailable".to_owned())),
        },
        HostContextRequest::WorkingDirectory => match context {
            HostContextResponse::WorkingDirectory(cwd) => Ok(
                BuiltinStep::ChangeDirectory(directory_place(words, cwd, relative)),
            ),
            _ => Err(
                CommandError::Producer("working-directory resolution is unavailable".to_owned()),
            ),
        },
        HostContextRequest::ThinkingConfig => match context {
            HostContextResponse::ThinkingConfig(current) => match parse_thinking(
                words.as_str(),
                current,
            ) {
                Ok(config) => Ok(BuiltinStep::Perform(BuiltinOperation::SetThinking { config })),
                Err(error) => Err(error),
            },
            _ => Err(CommandError::Producer("thinking configuration is unavailable".to_owned())),
        },
    }
}

/// What came of a command.
#[derive(Debug, PartialEq, Eq)]
pub enum CommandOutcome {
    Completed,
    AgentTurn(AgentTurn),
}

/// What came of a built-in command, given the session's answer to its operation.
pub fn builtin_outcome(response: Result<HostResponse, CommandError>) -> (result: Result<
    CommandOutcome,
    CommandError,
>)
    ensures
        match response {
            Ok(HostResponse::Completed) => result == Ok::<_, CommandError>(
                CommandOutcome::Completed,
            ),
            Ok(HostResponse::AgentTurn(turn)) => result == Ok::<_, CommandError>(
                CommandOutcome::AgentTurn(turn),
            ),
            Ok(HostResponse::Context(_)) => host::fails_with(
                result,
                "invalid builtin host response"@,
            ),
            Err(error) => result == Err::<CommandOutcome, _>(error),
        },
{
    match response {
        Ok(HostResponse::Completed) => Ok(CommandOutcome::Completed),
        Ok(HostResponse::AgentTurn(turn)) => Ok(CommandOutcome::AgentTurn(turn)),
        Ok(HostResponse::Context(_)) => Err(
            CommandError::Producer("invalid builtin host response".to_owned()),
        ),
        Err(error) => Err(error),
    }
}

} // verus!
