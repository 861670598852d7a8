//! Commands: what each does, what is found in command files, and how sessions answer.
use vstd::prelude::*;

use crate::acp::commands::{
    available_commands, builtin_route, complete, CommandClassification, CommandDispatcher,
    CommandRoute, PresentedCommand, RoutedCommand, Transition,
};
use crate::command::builtin;
use crate::command::builtin::{
    builtin_outcome, candidate_fields, directory_place, host_context, informed, interpret,
    parse_thinking, read_model, resolve_model, BuiltinId, BuiltinStep, CommandOutcome,
    DirectoryPlace, Resolution,
};
use crate::command::custom;
use crate::command::custom::{
    command_dirs, discover_commands, find_project_ancestor_dirs, is_command_file, parse_command,
    AncestorDir, CommandDir, CommandScope, CustomCommand,
};
use crate::command::frontmatter;
use crate::command::frontmatter::{
    parse_frontmatter, split_content, Frontmatter, ParsedContent, SplitContent,
};
use crate::command::host::{
    portable_capabilities, supports, BuiltinOperation, CommandError, HostContextRequest,
    HostContextResponse, HostRequest, HostResponse, HostStep, InteractiveControl,
    SessionCommandHost, SessionCommandState, TargetCapability,
};
use crate::command::registration::{
    command_spec, register_commands, CommandSpec, CompletionKey, StandardCommands,
    StandardCompletions, StandardRegistry,
};
use crate::command::wording;
use crate::command::wording::{answer_text, unsupported_operation};
use crate::promises::texts;
use crate::promises::turns;
use crate::text;
use crate::text::trim_text;
use crate::types::{AgentTurn, CommandAttachment, McpPromptRef, ThinkingConfig};

verus! {

/// A command failed with a message.
pub open spec fn says_error<T>(result: Result<T, CommandError>, message: Seq<char>) -> bool {
    result matches Err(CommandError::Producer(text)) && text@ == message
}

/// A built-in command is performed.
pub open spec fn performs(result: Result<BuiltinStep, CommandError>, operation: BuiltinOperation)
    -> bool {
    result matches Ok(BuiltinStep::Perform(own)) && own == operation
}

/// A text holds a slash.
pub open spec fn has_slash(words: Seq<char>) -> bool {
    exists|i: int| 0 <= i < words.len() && #[trigger] words[i] == '/'
}

/// A text holds a slash where one is found.
proof fn lemma_slash(words: Seq<char>)
    ensures
        custom::mentions(words, "/"@) == has_slash(words),
{
    reveal_strlit("/");
    texts::lemma_first_from(words, "/"@, 0);
    if has_slash(words) {
        let k = choose|k: int| 0 <= k < words.len() && #[trigger] words[k] == '/';
        assert(texts::stands_at(words, "/"@, k)) by {
            assert(words[k + 0] == "/"@[0]);
        }
    }
    if custom::mentions(words, "/"@) {
        let at = text::first_occurrence(words, "/"@)->0;
        assert(words[at + 0] == "/"@[0]);
        assert(words[at] == '/');
    }
}

/// Every built-in command does its own: what it opens, toggles or changes, and what it has to know
/// first. Only a question takes more than text.
pub proof fn law_builtin_commands_do_their_own(
    id: BuiltinId,
    arguments: &str,
    attachments: Vec<CommandAttachment>,
    interactive: bool,
    result: Result<BuiltinStep, CommandError>,
    words: String,
)
    requires
        call_ensures(interpret, (id, arguments, attachments, interactive), result),
        call_ensures(trim_text, (arguments,), words),
    ensures
        id != BuiltinId::Btw && attachments@.len() > 0 ==> says_error(
            result,
            "local commands cannot include non-text content"@,
        ),
        id == BuiltinId::Btw ==> (result matches Ok(
            BuiltinStep::Perform(BuiltinOperation::QuickQuestion { question, attachments: kept }),
        ) && question@ == words@ && kept@ == attachments@),
        attachments@.len() == 0 ==> match id {
            BuiltinId::Tasks => performs(result, BuiltinOperation::OpenTasks),
            BuiltinId::Compact => performs(result, BuiltinOperation::Compact),
            BuiltinId::New => performs(result, BuiltinOperation::ResetSession),
            BuiltinId::Help => performs(result, BuiltinOperation::ToggleHelp),
            BuiltinId::Usage => performs(result, BuiltinOperation::ToggleUsage),
            BuiltinId::Queue => performs(result, BuiltinOperation::FocusQueue),
            BuiltinId::Mcp => performs(result, BuiltinOperation::OpenMcpPicker),
            BuiltinId::Login => performs(result, BuiltinOperation::OpenLoginPicker),
            BuiltinId::Yolo => performs(result, BuiltinOperation::ToggleYolo),
            BuiltinId::Fast => performs(result, BuiltinOperation::ToggleFast),
            BuiltinId::Workflow => performs(result, BuiltinOperation::ToggleWorkflow),
            BuiltinId::Exit => performs(result, BuiltinOperation::Exit),
            BuiltinId::Reload => performs(result, BuiltinOperation::Reload),
            BuiltinId::Cd => result matches Ok(BuiltinStep::Ask(request)) && request
                == HostContextRequest::WorkingDirectory,
            BuiltinId::Thinking => result matches Ok(BuiltinStep::Ask(request)) && request
                == HostContextRequest::ThinkingConfig,
            BuiltinId::Theme => {
                &&& words@.len() == 0 ==> performs(result, BuiltinOperation::OpenThemePicker)
                &&& words@.len() > 0 ==> (result matches Ok(BuiltinStep::Ask(request)) && request
                    == HostContextRequest::ThemeNames)
            },
            BuiltinId::Model => {
                &&& words@.len() == 0 && interactive ==> performs(
                    result,
                    BuiltinOperation::OpenModelPicker,
                )
                &&& words@.len() == 0 && !interactive ==> says_error(
                    result,
                    "Usage: /model <model>"@,
                )
                &&& words@.len() > 0 && has_slash(words@) ==> (
                result matches Ok(BuiltinStep::ReadModel(spec)) && spec@ == words@)
                &&& words@.len() > 0 && !has_slash(words@) ==> (
                result matches Ok(BuiltinStep::Ask(request)) && request
                    == HostContextRequest::ModelSpecs)
            },
            BuiltinId::Btw => true,
        },
{
    lemma_slash(words@);
}

/// What the session says of itself is taken, its errors are handed on, and any other answer is
/// named as invalid.
pub proof fn law_contexts_are_taken(
    response: Result<HostResponse, CommandError>,
    context: Result<HostContextResponse, CommandError>,
    outcome: Result<CommandOutcome, CommandError>,
    answer: HostResponse,
    written: String,
)
    requires
        call_ensures(host_context, (response,), context),
        call_ensures(builtin_outcome, (response,), outcome),
        call_ensures(answer_text, (&answer,), written),
    ensures
        response matches Err(error) ==> context == Err::<HostContextResponse, _>(error) && outcome
            == Err::<CommandOutcome, _>(error),
        response matches Ok(HostResponse::Context(said)) ==> {
            &&& context == Ok::<_, CommandError>(said)
            &&& says_error(outcome, "invalid builtin host response"@)
        },
        response matches Ok(HostResponse::Completed) ==> {
            &&& outcome == Ok::<_, CommandError>(CommandOutcome::Completed)
            &&& says_error(context, "invalid host context response: "@ + "Completed"@)
        },
        response matches Ok(HostResponse::AgentTurn(turn)) ==> {
            &&& outcome == Ok::<_, CommandError>(CommandOutcome::AgentTurn(turn))
            &&& answer == response->Ok_0 ==> says_error(
                context,
                "invalid host context response: "@ + written@,
            )
        },
        answer is Completed ==> written@ == "Completed"@,
{
}

/// Words one after another, with a comma and a space behind each but the last.
pub open spec fn listed(words: Seq<Seq<char>>) -> Seq<char>
    decreases words.len(),
{
    if words.len() == 0 {
        Seq::empty()
    } else if words.len() == 1 {
        words[0]
    } else {
        words[0] + seq![',', ' '] + listed(words.skip(1))
    }
}

/// The last word of several stands behind a comma and a space.
proof fn lemma_listed_last(words: Seq<Seq<char>>)
    requires
        words.len() > 1,
    ensures
        listed(words) == listed(words.drop_last()) + seq![',', ' '] + words.last(),
    decreases words.len(),
{
    reveal_with_fuel(listed, 2);
    let rest = words.skip(1);
    if words.len() > 2 {
        lemma_listed_last(rest);
        assert(rest.drop_last() =~= words.drop_last().skip(1));
        assert(rest.last() == words.last());
        assert(words.drop_last()[0] == words[0]);
        assert(listed(words) =~= listed(words.drop_last()) + seq![',', ' '] + words.last());
    } else {
        assert(words.drop_last()[0] == words[0]);
    }
}

/// How words are written one after another.
proof fn lemma_listed(words: Seq<Seq<char>>)
    ensures
        wording::in_a_row(words) == listed(words),
    decreases words.len(),
{
    reveal_strlit(", ");
    if words.len() > 1 {
        lemma_listed(words.drop_last());
        lemma_listed_last(words);
        assert(", "@ =~= seq![',', ' ']);
    }
}

/// Attachments, each named with its kind and its data.
pub open spec fn named_attachments(attachments: Seq<CommandAttachment>) -> Seq<Seq<char>> {
    attachments.map_values(
        |attachment: CommandAttachment|
            "CommandAttachment { media_type: "@ + text::quoted(attachment.media_type@)
                + ", data: "@ + text::quoted(attachment.data@) + " }"@,
    )
}

/// The arguments of a prompt, each named with its name and its value.
pub open spec fn named_arguments(prompt: Option<McpPromptRef>) -> Seq<Seq<char>> {
    match prompt {
        Some(prompt) => prompt.arguments@.map_values(
            |argument: (String, String)|
                "("@ + text::quoted(argument.0@) + ", "@ + text::quoted(argument.1@) + ")"@,
        ),
        None => Seq::empty(),
    }
}

/// A turn that is named in a message is named with all it has: its text, its attachments and its
/// prompt, in this order.
pub proof fn law_answers_are_named_in_full(turn: AgentTurn, written: String)
    requires
        call_ensures(answer_text, (&HostResponse::AgentTurn(turn),), written),
    ensures
        written@ == "AgentTurn("@ + ("AgentTurn { content: CommandContent { text: "@ + text::quoted(
            turn.content.text@,
        ) + ", attachments: ["@ + listed(named_attachments(turn.content.attachments@))
            + "] }, prompt: "@ + (match turn.prompt {
            Some(prompt) => "Some(McpPromptRef { qualified_name: "@ + text::quoted(
                prompt.qualified_name@,
            ) + ", arguments: ["@ + listed(named_arguments(turn.prompt)) + "] })"@,
            None => "None"@,
        }) + " }"@) + ")"@,
{
    let attachments = turn.content.attachments@.map_values(
        |attachment: CommandAttachment| wording::attachment_word(attachment),
    );
    assert(attachments =~= named_attachments(turn.content.attachments@));
    lemma_listed(attachments);
    match turn.prompt {
        Some(prompt) => {
            let arguments = prompt.arguments@.map_values(
                |argument: (String, String)| wording::argument_word(argument),
            );
            assert(arguments =~= named_arguments(turn.prompt));
            lemma_listed(arguments);
        },
        None => {},
    }
}

/// A model's name is its provider and its model, parted at the first slash.
pub proof fn law_model_names_have_two_parts(spec: &str, parts: (String, String))
    requires
        call_ensures(candidate_fields, (spec,), parts),
    ensures
        has_slash(spec@) ==> spec@ == parts.0@ + "/"@ + parts.1@ && !has_slash(parts.0@),
        !has_slash(spec@) ==> parts.0@.len() == 0 && parts.1@ == spec@,
{
    reveal_strlit("/");
    lemma_slash(spec@);
    texts::lemma_first_from(spec@, "/"@, 0);
    if has_slash(spec@) {
        let at = text::first_occurrence(spec@, "/"@)->0;
        assert(spec@[at + 0] == "/"@[0]);
        assert(spec@ =~= spec@.take(at) + "/"@ + spec@.skip(at + 1));
        if has_slash(spec@.take(at)) {
            let k = choose|k: int|
                0 <= k < spec@.take(at).len() && #[trigger] spec@.take(at)[k] == '/';
            assert(texts::stands_at(spec@, "/"@, k)) by {
                assert(spec@[k + 0] == spec@.take(at)[k]);
            }
        }
    }
}

/// A model is taken where the text stands for one, and named in the error where it stands for none
/// or for several.
pub proof fn law_models_are_resolved(
    argument: &str,
    specs: Vec<String>,
    resolution: Resolution,
    model: Result<String, CommandError>,
    spec: String,
    readable: Result<(), String>,
    read: Result<BuiltinOperation, CommandError>,
)
    requires
        resolution is Unique ==> resolution->Unique_0 < specs@.len(),
        call_ensures(resolve_model, (argument, &specs, resolution), model),
        call_ensures(read_model, (spec, readable), read),
    ensures
        resolution matches Resolution::Unique(index) ==> (model matches Ok(own) && own@
            == specs@[index as int]@),
        resolution is NoMatch ==> says_error(model, "no model matches: "@ + argument@),
        resolution is Ambiguous ==> says_error(model, "ambiguous model: "@ + argument@),
        readable is Ok ==> (read matches Ok(BuiltinOperation::SetModel { spec: own }) && own@
            == spec@),
        readable matches Err(reason) ==> says_error(read, reason@),
{
}

/// How much thinking a word asks for: each word its own effort, none or "toggle" the other of off
/// and adaptive, and a number that many tokens.
pub open spec fn asks_for(
    word: Seq<char>,
    current: ThinkingConfig,
    result: Result<ThinkingConfig, CommandError>,
) -> bool {
    let toggles = word.len() == 0 || word == "toggle"@;
    &&& toggles && current == ThinkingConfig::Off ==> result == Ok::<_, CommandError>(
        ThinkingConfig::Adaptive,
    )
    &&& toggles && current != ThinkingConfig::Off ==> result == Ok::<_, CommandError>(
        ThinkingConfig::Off,
    )
    &&& word == "off"@ || word == "false"@ ==> result == Ok::<_, CommandError>(ThinkingConfig::Off)
    &&& word == "on"@ || word == "true"@ || word == "adaptive"@ ==> result == Ok::<
        _,
        CommandError,
    >(ThinkingConfig::Adaptive)
    &&& word == "minimal"@ ==> result == Ok::<_, CommandError>(ThinkingConfig::Minimal)
    &&& word == "low"@ ==> result == Ok::<_, CommandError>(ThinkingConfig::Low)
    &&& word == "medium"@ ==> result == Ok::<_, CommandError>(ThinkingConfig::Medium)
    &&& word == "high"@ ==> result == Ok::<_, CommandError>(ThinkingConfig::High)
    &&& word == "xhigh"@ ==> result == Ok::<_, CommandError>(ThinkingConfig::XHigh)
    &&& word == "max"@ ==> result == Ok::<_, CommandError>(ThinkingConfig::Max)
    &&& result matches Ok(ThinkingConfig::Budget(tokens)) ==> tokens > 0 && text::integer_value(
        word,
    ) == Some(tokens as int)
    &&& result is Err ==> says_error(result, "invalid thinking mode"@)
}

/// The words for efforts differ.
proof fn lemma_efforts_differ()
    ensures
        ""@.len() == 0,
        "toggle"@.len() == 6 && "toggle"@[0] == 't',
        "off"@.len() == 3 && "off"@[0] == 'o' && "off"@[1] == 'f',
        "false"@.len() == 5 && "false"@[0] == 'f',
        "on"@.len() == 2,
        "true"@.len() == 4 && "true"@[0] == 't',
        "adaptive"@.len() == 8,
        "minimal"@.len() == 7,
        "low"@.len() == 3 && "low"@[0] == 'l',
        "medium"@.len() == 6 && "medium"@[0] == 'm',
        "high"@.len() == 4 && "high"@[0] == 'h',
        "xhigh"@.len() == 5 && "xhigh"@[0] == 'x',
        "max"@.len() == 3 && "max"@[0] == 'm',
{
    reveal_strlit("");
    reveal_strlit("toggle");
    reveal_strlit("off");
    reveal_strlit("false");
    reveal_strlit("on");
    reveal_strlit("true");
    reveal_strlit("adaptive");
    reveal_strlit("minimal");
    reveal_strlit("low");
    reveal_strlit("medium");
    reveal_strlit("high");
    reveal_strlit("xhigh");
    reveal_strlit("max");
}

/// How much thinking is asked for.
proof fn lemma_asks_for(
    input: Seq<char>,
    current: ThinkingConfig,
    result: Result<ThinkingConfig, CommandError>,
)
    requires
        match builtin::thinking_of(input, current) {
            Some(config) => result == Ok::<_, CommandError>(config),
            None => says_error(result, "invalid thinking mode"@),
        },
    ensures
        asks_for(text::lowered(text::trimmed(input)), current, result),
{
    lemma_efforts_differ();
    let word = text::lowered(text::trimmed(input));
    if word.len() == 0 {
        assert(word =~= ""@);
    }
}

/// A word asks for its own effort, whatever its case and the white space around it.
pub proof fn law_efforts_are_asked_for_by_word(
    input: &str,
    current: ThinkingConfig,
    result: Result<ThinkingConfig, CommandError>,
)
    requires
        call_ensures(parse_thinking, (input, current), result),
    ensures
        asks_for(text::lowered(text::trimmed(input@)), current, result),
{
    lemma_asks_for(input@, current, result);
}

/// The directory that words name: home for none and for a tilde, below home behind a tilde, and
/// otherwise where they say, below the working directory where they are relative.
pub open spec fn is_place_named(
    words: Seq<char>,
    cwd: Seq<char>,
    relative: bool,
    place: DirectoryPlace,
) -> bool {
    let tilde = words.len() > 0 && words[0] == '~';
    &&& place is Home <==> words.len() == 0 || (tilde && words.len() == 1)
    &&& tilde && words.len() > 1 ==> (place matches DirectoryPlace::BelowHome(path) && {
        let rest = words.skip(1);
        &&& path@.len() <= rest.len()
        &&& path@ == rest.skip(rest.len() - path@.len())
        &&& path@.len() > 0 ==> path@[0] != '/'
        &&& forall|i: int| 0 <= i < rest.len() - path@.len() ==> #[trigger] rest[i] == '/'
    })
    &&& words.len() > 0 && !tilde && relative ==> (place matches DirectoryPlace::Below {
        cwd: from,
        path,
    } && from@ == cwd && path@ == words)
    &&& words.len() > 0 && !tilde && !relative ==> (place matches DirectoryPlace::At(path) && path@
        == words)
}

/// The directory that words name.
proof fn lemma_place(words: Seq<char>, cwd: String, relative: bool, place: DirectoryPlace)
    requires
        builtin::names_place(words, cwd, relative, place),
    ensures
        is_place_named(words, cwd@, relative, place),
{
    reveal_strlit("~");
    let tilde = words.len() > 0 && words[0] == '~';
    assert("~"@.is_prefix_of(words) == tilde) by {
        if tilde {
            assert(words.subrange(0, 1) =~= "~"@);
        }
        if "~"@.is_prefix_of(words) {
            assert(words.subrange(0, 1)[0] == "~"@[0]);
        }
    }
    if tilde && words.len() == 1 {
        assert(words =~= "~"@);
    }
    if tilde && words.len() > 1 {
        assert(words != "~"@);
        texts::lemma_without_leading(words.skip(1), '/');
    }
}

/// A directory is found where the words say.
pub proof fn law_directories_are_named(
    words: String,
    cwd: String,
    relative: bool,
    place: DirectoryPlace,
)
    requires
        call_ensures(directory_place, (words, cwd, relative), place),
    ensures
        is_place_named(words@, cwd@, relative, place),
{
    lemma_place(words@, cwd, relative, place);
}

/// Once the session has said what a command had to know, the command does its own with it; where
/// the session said something else, the command says what is unavailable.
pub proof fn law_informed_commands_do_their_own(
    request: HostContextRequest,
    arguments: &str,
    context: HostContextResponse,
    resolution: Resolution,
    relative: bool,
    result: Result<BuiltinStep, CommandError>,
    words: String,
)
    requires
        context is Values && resolution is Unique ==> resolution->Unique_0
            < context->Values_0@.len(),
        call_ensures(informed, (request, arguments, context, resolution, relative), result),
        call_ensures(trim_text, (arguments,), words),
    ensures
        match request {
            HostContextRequest::ModelSpecs => {
                &&& !(context is Values) ==> says_error(result, "model resolution is unavailable"@)
                &&& context is Values && resolution is NoMatch ==> says_error(
                    result,
                    "no model matches: "@ + words@,
                )
                &&& context is Values && resolution is Ambiguous ==> says_error(
                    result,
                    "ambiguous model: "@ + words@,
                )
                &&& context is Values && resolution is Unique ==> (result matches Ok(
                    BuiltinStep::Perform(BuiltinOperation::SetModel { spec }),
                ) && spec@ == context->Values_0@[resolution->Unique_0 as int]@)
            },
            HostContextRequest::ThemeNames => {
                &&& !(context is Values) ==> says_error(result, "theme resolution is unavailable"@)
                &&& context is Values && !(resolution is Unique) ==> says_error(
                    result,
                    "theme is unknown or ambiguous: "@ + words@,
                )
                &&& context is Values && resolution is Unique ==> (result matches Ok(
                    BuiltinStep::Perform(BuiltinOperation::SetTheme { name }),
                ) && name@ == context->Values_0@[resolution->Unique_0 as int]@)
            },
            HostContextRequest::WorkingDirectory => {
                &&& !(context is WorkingDirectory) ==> says_error(
                    result,
                    "working-directory resolution is unavailable"@,
                )
                &&& context matches HostContextResponse::WorkingDirectory(cwd) ==> (
                result matches Ok(BuiltinStep::ChangeDirectory(place)) && is_place_named(
                    words@,
                    cwd@,
                    relative,
                    place,
                ))
            },
            HostContextRequest::ThinkingConfig => {
                &&& !(context is ThinkingConfig) ==> says_error(
                    result,
                    "thinking configuration is unavailable"@,
                )
                &&& context matches HostContextResponse::ThinkingConfig(current) ==> match result {
                    Ok(BuiltinStep::Perform(BuiltinOperation::SetThinking { config })) => asks_for(
                        text::lowered(text::trimmed(words@)),
                        current,
                        Ok(config),
                    ),
                    Err(error) => asks_for(
                        text::lowered(text::trimmed(words@)),
                        current,
                        Err(error),
                    ),
                    _ => false,
                }
            },
        },
{
    match request {
        HostContextRequest::WorkingDirectory => match context {
            HostContextResponse::WorkingDirectory(cwd) => {
                lemma_place(words@, cwd, relative, result->Ok_0->ChangeDirectory_0);
            },
            _ => {},
        },
        HostContextRequest::ThinkingConfig => match context {
            HostContextResponse::ThinkingConfig(current) => match result {
                Ok(BuiltinStep::Perform(BuiltinOperation::SetThinking { config })) => {
                    lemma_asks_for(words@, current, Ok(config));
                },
                Err(error) => {
                    lemma_asks_for(words@, current, Err(error));
                },
                _ => {},
            },
            _ => {},
        },
        _ => {},
    }
}

/// A session answers what it is asked: it tells its models and its directory, turns its own
/// switches, leaves to its owner what only the owner can do, and says what it does not support.
/// Nothing but the switch that is turned changes.
pub proof fn law_sessions_answer_what_they_are_asked(
    session: &mut SessionCommandHost,
    request: HostRequest,
    step: HostStep,
)
    requires
        call_ensures(SessionCommandHost::request, (session, request), step),
    ensures
        final(session).yolo == (old(session).yolo != (request == HostRequest::Builtin(
            BuiltinOperation::ToggleYolo,
        ))),
        final(session).state.is_fast == (old(session).state.is_fast != (request
            == HostRequest::Builtin(BuiltinOperation::ToggleFast))),
        final(session).state.is_workflow == (old(session).state.is_workflow != (request
            == HostRequest::Builtin(BuiltinOperation::ToggleWorkflow))),
        final(session).state.current_model == old(session).state.current_model,
        final(session).state.model_specs == old(session).state.model_specs,
        final(session).state.cwd == old(session).state.cwd,
        match request {
            HostRequest::Context(HostContextRequest::ModelSpecs) => step matches HostStep::Respond(
                Ok(HostResponse::Context(HostContextResponse::Values(specs))),
            ) && specs@ == old(session).state.model_specs@,
            HostRequest::Context(HostContextRequest::WorkingDirectory) => {
                step matches HostStep::Respond(
                    Ok(HostResponse::Context(HostContextResponse::WorkingDirectory(cwd))),
                ) && cwd@ == old(session).state.cwd@
            },
            HostRequest::Context(_) => step matches HostStep::Respond(
                Ok(HostResponse::Context(HostContextResponse::Unavailable)),
            ),
            HostRequest::Builtin(BuiltinOperation::Compact) => step == HostStep::Control(
                InteractiveControl::Compact,
            ),
            HostRequest::Builtin(BuiltinOperation::ResetSession) => step == HostStep::Control(
                InteractiveControl::Reset,
            ),
            HostRequest::Builtin(BuiltinOperation::ChangeDirectory { path }) => step
                == HostStep::Control(InteractiveControl::ChangeDirectory(path)),
            HostRequest::Builtin(BuiltinOperation::SetModel { spec }) => step
                == HostStep::SetModel(spec),
            HostRequest::Builtin(BuiltinOperation::QuickQuestion { question, attachments }) => {
                step matches HostStep::Respond(Ok(HostResponse::AgentTurn(turn))) && {
                    &&& turn.content.text@ == question@
                    &&& turn.content.attachments@ == attachments@
                    &&& turn.prompt is None
                }
            },
            HostRequest::Builtin(BuiltinOperation::ToggleYolo)
            | HostRequest::Builtin(BuiltinOperation::ToggleFast)
            | HostRequest::Builtin(BuiltinOperation::ToggleWorkflow) => step == HostStep::Respond(
                Ok(HostResponse::Completed),
            ),
            HostRequest::Builtin(_) => step matches HostStep::Respond(
                Err(CommandError::Producer(text)),
            ) && text@.len() > 0 && "unsupported builtin operation: "@.is_prefix_of(text@),
        },
{
    reveal_strlit("unsupported builtin operation: ");
    match step {
        HostStep::Respond(Err(CommandError::Producer(text))) => {
            let lead = "unsupported builtin operation: "@;
            assert(text@.subrange(0, lead.len() as int) =~= lead);
        },
        _ => {},
    }
}

/// What the owner did is told: gone, failed with the reason, or done; the directory changes exactly
/// where the owner has changed it.
pub proof fn law_owners_change_the_directory(
    session: &mut SessionCommandHost,
    control: InteractiveControl,
    reply: Option<Result<(), String>>,
    answer: Result<HostResponse, CommandError>,
)
    requires
        call_ensures(SessionCommandHost::controlled, (session, control, reply), answer),
    ensures
        reply is None ==> answer matches Err(CommandError::StaleTarget),
        reply matches Some(Err(reason)) ==> says_error(answer, reason@),
        reply matches Some(Ok(())) ==> answer matches Ok(HostResponse::Completed),
        final(session).yolo == old(session).yolo,
        final(session).state.is_fast == old(session).state.is_fast,
        final(session).state.is_workflow == old(session).state.is_workflow,
        final(session).state.current_model == old(session).state.current_model,
        final(session).state.model_specs == old(session).state.model_specs,
        control is ChangeDirectory && answer is Ok ==> final(session).state.cwd
            == control->ChangeDirectory_0,
        !(control is ChangeDirectory && answer is Ok) ==> final(session).state.cwd == old(
            session).state.cwd,
{
}

/// A model is handed to the session only where policy allows it and it can be read; then it is the
/// session's model.
pub proof fn law_models_are_handed_over(
    session: &mut SessionCommandHost,
    spec: String,
    sent: bool,
    answer: Result<HostResponse, CommandError>,
    allowed: bool,
    readable: Result<(), String>,
    checked: Result<(), CommandError>,
)
    requires
        call_ensures(SessionCommandHost::model_sent, (session, spec, sent), answer),
        call_ensures(
            SessionCommandHost::check_model,
            (&*old(session), allowed, readable),
            checked,
        ),
    ensures
        checked is Ok <==> allowed && readable is Ok,
        !allowed ==> says_error(checked, "model is not allowed by policy"@),
        allowed && readable is Err ==> says_error(checked, readable->Err_0@),
        sent ==> answer matches Ok(HostResponse::Completed),
        sent ==> final(session).state.current_model@ == spec@,
        !sent ==> says_error(answer, "session ended before model change"@),
        !sent ==> *final(session) == *old(session),
        final(session).yolo == old(session).yolo,
        final(session).state.is_fast == old(session).state.is_fast,
        final(session).state.is_workflow == old(session).state.is_workflow,
        final(session).state.model_specs == old(session).state.model_specs,
        final(session).state.cwd == old(session).state.cwd,
{
}

/// A session's state is what it is made of, and what is asked of it is what it holds.
pub proof fn law_command_states_hold_what_they_are_made_of(
    model: String,
    specs: Vec<String>,
    cwd: String,
    fast: bool,
    workflow: bool,
    state: SessionCommandState,
    is_fast: bool,
    is_workflow: bool,
    yolo: bool,
    session: SessionCommandHost,
    changing: &mut SessionCommandState,
    others: Vec<String>,
)
    requires
        call_ensures(SessionCommandState::new, (model, specs, cwd, fast, workflow), state),
        call_ensures(SessionCommandState::fast, (&state,), is_fast),
        call_ensures(SessionCommandState::workflow, (&state,), is_workflow),
        call_ensures(SessionCommandHost::new, (state, yolo), session),
        call_ensures(SessionCommandState::set_model_specs, (changing, others), ()),
    ensures
        state.current_model == model,
        state.model_specs == specs,
        state.cwd == cwd,
        is_fast == fast,
        is_workflow == workflow,
        session.state == state,
        session.yolo == yolo,
        final(changing).model_specs == others,
        final(changing).current_model == old(changing).current_model,
        final(changing).cwd == old(changing).cwd,
        final(changing).is_fast == old(changing).is_fast,
        final(changing).is_workflow == old(changing).is_workflow,
{
}

/// A target without a screen can do everything but show one.
pub proof fn law_portable_targets_show_nothing(
    capabilities: Vec<TargetCapability>,
    wanted: TargetCapability,
    can: bool,
)
    requires
        call_ensures(portable_capabilities, (), capabilities),
        call_ensures(supports, (&capabilities, wanted), can),
    ensures
        can <==> wanted != TargetCapability::InteractiveUi,
{
    let all = capabilities@;
    assert(all[0] == TargetCapability::AgentTurns);
    assert(all[1] == TargetCapability::ModelSelection);
    assert(all[2] == TargetCapability::SessionControl);
    assert(all[3] == TargetCapability::WorkingDirectory);
    assert(all[4] == TargetCapability::PermissionToggles);
    assert(all[5] == TargetCapability::ConfigToggles);
    assert(all.len() == 6);
}

/// What stands behind the white space and the hyphens that open a heading, if they do.
pub open spec fn is_opened(content: Seq<char>, rest: Seq<char>) -> bool {
    exists|from: int|
        {
            &&& 0 <= from
            &&& from + 3 <= content.len()
            &&& content[from] == '-' && content[from + 1] == '-' && content[from + 2] == '-'
            &&& #[trigger] content.skip(from + 3) == rest
            &&& forall|i: int| 0 <= i < from ==> text::white_space(#[trigger] content[i])
        }
}

/// A heading that was found stands between the hyphens that open it and the first line of hyphens
/// behind them; the body is what follows, trimmed. Without a heading everything is body.
pub proof fn law_headings_are_cut_out(content: &str, split: SplitContent)
    requires
        frontmatter::heading_can_be_cut(content@),
        call_ensures(split_content, (content,), split),
    ensures
        split.heading matches Some(heading) ==> exists|rest: Seq<char>, end: int|
            {
                &&& is_opened(content@, rest)
                &&& #[trigger] texts::stands_at(rest, "\n---"@, end)
                &&& forall|k: int| 0 <= k < end ==> !#[trigger] texts::stands_at(rest, "\n---"@, k)
                &&& heading@ == rest.subrange(1, end + 1)
                &&& split.body@ == text::trimmed(rest.skip(end + 4))
            },
        split.heading is None ==> split.body@.len() <= content@.len() && split.body@
            == content@.skip(content@.len() - split.body@.len()) && (split.body@.len() > 0
            ==> !text::white_space(split.body@[0])),
{
    turns::lemma_trimmed_start(content@);
    let trimmed = text::trimmed_start(content@);
    if split.heading is Some {
        let rest = frontmatter::opened(content@)->0;
        let end = frontmatter::closed_at(content@)->0;
        reveal_strlit("---");
        let from = content@.len() - trimmed.len();
        assert(trimmed.subrange(0, 3) == "---"@);
        assert(trimmed.subrange(0, 3)[0] == trimmed[0]);
        assert(trimmed.subrange(0, 3)[1] == trimmed[1]);
        assert(trimmed.subrange(0, 3)[2] == trimmed[2]);
        assert(content@.skip(from + 3) =~= rest);
        assert(is_opened(content@, rest));
        texts::lemma_first_from(rest, "\n---"@, 0);
        assert(texts::stands_at(rest, "\n---"@, end));
    }
}

/// What was read of a heading holds exactly where there is one; the body is the file's.
pub proof fn law_headings_say_what_was_read(
    content: &str,
    read: Option<Frontmatter>,
    parsed: ParsedContent,
    split: SplitContent,
)
    requires
        frontmatter::heading_can_be_cut(content@),
        call_ensures(parse_frontmatter, (content, read), parsed),
        call_ensures(split_content, (content,), split),
    ensures
        parsed.body@ == split.body@,
        split.heading is Some && read is Some ==> parsed.frontmatter == read->0,
        split.heading is None || read is None ==> parsed.frontmatter.name is None
            && parsed.frontmatter.description is None && parsed.frontmatter.argument_hint is None,
{
}

/// A text stands somewhere in another.
pub open spec fn holds(whole: Seq<char>, part: Seq<char>) -> bool {
    exists|k: int| #[trigger] texts::stands_at(whole, part, k)
}

/// A file holds a command exactly where it has a name and a body; the command is what the heading
/// and the body say, named after the file where the heading names none, and takes arguments where a
/// hint says so or the body holds a place for them.
pub proof fn law_files_hold_their_command(
    content: &str,
    file_stem: Option<&str>,
    scope: CommandScope,
    read: Option<Frontmatter>,
    found: Option<CustomCommand>,
    parsed: ParsedContent,
)
    requires
        frontmatter::heading_can_be_cut(content@),
        call_ensures(parse_command, (content, file_stem, scope, read), found),
        call_ensures(parse_frontmatter, (content, read), parsed),
    ensures
        found is Some <==> file_stem is Some && parsed.body@.len() > 0,
        found matches Some(command) ==> {
            let heading = parsed.frontmatter;
            &&& heading.name matches Some(name) ==> command.name@ == name@
            &&& heading.name is None ==> command.name@ == file_stem->0@
            &&& heading.description matches Some(description) ==> command.description@
                == description@
            &&& heading.description is None ==> command.description@.len() == 0
            &&& command.content@ == parsed.body@
            &&& command.scope == scope
            &&& command.argument_hint == heading.argument_hint
            &&& command.accepts_args <==> heading.argument_hint is Some || holds(
                parsed.body@,
                "$ARGUMENTS"@,
            )
        },
{
    texts::lemma_first_from(parsed.body@, "$ARGUMENTS"@, 0);
    if text::first_occurrence(parsed.body@, "$ARGUMENTS"@) is Some {
        let at = text::first_occurrence(parsed.body@, "$ARGUMENTS"@)->0;
        assert(texts::stands_at(parsed.body@, "$ARGUMENTS"@, at));
    } else if holds(parsed.body@, "$ARGUMENTS"@) {
        let k = choose|k: int| #[trigger] texts::stands_at(parsed.body@, "$ARGUMENTS"@, k);
        assert(0 <= k);
    }
}

/// A command is called by its name behind where it comes from, and asks for a turn that says its
/// content with the arguments in their place, and nothing else but its attachments.
pub proof fn law_custom_commands_say_their_content(
    command: CustomCommand,
    shown: String,
    takes: bool,
    args: &str,
    said: String,
    attachments: Vec<CommandAttachment>,
    turn: AgentTurn,
    content: &str,
    needle: &str,
    replaced: String,
)
    requires
        call_ensures(CustomCommand::display_name, (&command,), shown),
        call_ensures(CustomCommand::has_args, (&command,), takes),
        call_ensures(CustomCommand::render, (&command, args), said),
        call_ensures(CustomCommand::execute, (&command, args, attachments), turn),
        content@ == command.content@,
        needle@ == "$ARGUMENTS"@,
        call_ensures(crate::text::replace_text, (content, needle, args), replaced),
    ensures
        command.scope == CommandScope::Project ==> shown@ == "/project:"@ + command.name@,
        command.scope == CommandScope::User ==> shown@ == "/user:"@ + command.name@,
        takes == command.accepts_args,
        said@ == replaced@,
        turn.content.text@ == replaced@,
        turn.content.attachments@ == attachments@,
        turn.prompt is None,
{
}

/// Only files with the extension for it hold commands.
pub proof fn law_command_files_have_their_extension(extension: Option<&str>, holds_one: bool)
    requires
        call_ensures(is_command_file, (extension,), holds_one),
    ensures
        holds_one <==> extension is Some && extension->0@ == "md"@,
{
}

/// The project goes up to the first directory in which a repository begins, or all the way.
pub proof fn law_projects_end_at_their_repository(
    dirs: Vec<AncestorDir>,
    found: Vec<String>,
    i: int,
)
    requires
        call_ensures(find_project_ancestor_dirs, (&dirs,), found),
    ensures
        found@.len() <= dirs@.len(),
        0 <= i < found@.len() ==> found@[i]@ == dirs@[i].path@,
        0 <= i < found@.len() - 1 ==> !dirs@[i].has_git,
        found@.len() < dirs@.len() ==> found@.len() > 0 && dirs@[found@.len() - 1].has_git,
{
    lemma_depth(dirs@);
}

/// How far a project goes up.
proof fn lemma_depth(dirs: Seq<AncestorDir>)
    ensures
        ({
            let depth = custom::project_depth(dirs);
            &&& depth <= dirs.len()
            &&& dirs.len() > 0 ==> depth > 0
            &&& forall|i: int| 0 <= i < depth - 1 ==> !(#[trigger] dirs[i]).has_git
            &&& depth < dirs.len() ==> dirs[depth - 1].has_git
        }),
    decreases dirs.len(),
{
    if dirs.len() > 0 && !dirs[0].has_git {
        let rest = dirs.skip(1);
        lemma_depth(rest);
        let depth = custom::project_depth(dirs);
        assert forall|i: int| 0 <= i < depth - 1 implies !(#[trigger] dirs[i]).has_git by {
            if i > 0 {
                assert(!rest[i - 1].has_git);
            }
        }
        if depth < dirs.len() {
            assert(rest[custom::project_depth(rest) - 1] == dirs[depth - 1]);
        }
    }
}

/// A directory is looked through.
pub open spec fn is_looked_through(
    dir: CommandDir,
    base: Seq<char>,
    below: Seq<char>,
    scope: CommandScope,
) -> bool {
    dir.base@ == base && dir.below@ == below && dir.scope == scope
}

/// The user's directories are looked through first, then the user's home, and then those of the
/// project from the working directory up, the own before the shared one.
pub proof fn law_directories_are_looked_through_in_order(
    user_dirs: Vec<String>,
    home: Option<&str>,
    project: Vec<String>,
    shared: &str,
    dirs: Vec<CommandDir>,
    i: int,
)
    requires
        call_ensures(command_dirs, (&user_dirs, home, &project, shared), dirs),
    ensures
        ({
            let homes: int = if home is Some {
                1
            } else {
                0
            };
            let start = user_dirs@.len() + homes;
            &&& dirs@.len() == start + 2 * project@.len()
            &&& 0 <= i < user_dirs@.len() ==> is_looked_through(
                dirs@[i],
                user_dirs@[i]@,
                Seq::empty(),
                CommandScope::User,
            )
            &&& home is Some ==> is_looked_through(
                dirs@[user_dirs@.len() as int],
                home->0@,
                shared@,
                CommandScope::User,
            )
            &&& 0 <= i < project@.len() ==> is_looked_through(
                dirs@[start + 2 * i],
                project@[i]@,
                ".makima/commands"@,
                CommandScope::Project,
            ) && is_looked_through(
                dirs@[start + 2 * i + 1],
                project@[i]@,
                shared@,
                CommandScope::Project,
            )
        }),
{
    if 0 <= i < user_dirs@.len() {
        assert(custom::looks_through(
            dirs@[i],
            user_dirs@[i]@,
            Seq::empty(),
            CommandScope::User,
        ));
    }
    if 0 <= i < project@.len() {
        let start = custom::project_start(
            user_dirs@,
            match home {
                Some(home) => Some(home@),
                None => None,
            },
        );
        assert(custom::looks_through(
            dirs@[start + 2 * i],
            project@[i]@,
            ".makima/commands"@,
            CommandScope::Project,
        ));
    }
}

/// Of the commands of one name the last is found, every name is, and the names come in order, each
/// once.
pub proof fn law_the_last_of_each_name_is_found(
    found: Vec<CustomCommand>,
    kept: Vec<CustomCommand>,
    at: int,
)
    requires
        call_ensures(discover_commands, (found,), kept),
    ensures
        0 <= at < found@.len() && (forall|j: int|
            at < j < found@.len() ==> (#[trigger] found@[j]).name@ != found@[at].name@)
            ==> kept@.contains(found@[at]),
        0 <= at < kept@.len() ==> found@.contains(kept@[at]),
        forall|i: int, j: int|
            0 <= i < j < kept@.len() ==> texts::comes_before(
                (#[trigger] kept@[i]).name@,
                (#[trigger] kept@[j]).name@,
            ),
{
    assert forall|i: int, j: int| 0 <= i < j < kept@.len() implies texts::comes_before(
        (#[trigger] kept@[i]).name@,
        (#[trigger] kept@[j]).name@,
    ) by {
        texts::lemma_precedes(kept@[i].name@, kept@[j].name@);
    }
    if 0 <= at < kept@.len() {
        assert(custom::is_last(found@, kept@[at]));
        let k = choose|k: int| #[trigger]
            custom::last_of_name(found@, k) && found@[k] == kept@[at];
        assert(found@[k] == kept@[at]);
    }
    if 0 <= at < found@.len() && (forall|j: int|
        at < j < found@.len() ==> (#[trigger] found@[j]).name@ != found@[at].name@) {
        assert(custom::is_named(kept@, found@[at].name@));
        let i = choose|i: int|
            0 <= i < kept@.len() && (#[trigger] kept@[i]).name@ == found@[at].name@;
        assert(custom::is_last(found@, kept@[i]));
        let k = choose|k: int| #[trigger] custom::last_of_name(found@, k) && found@[k] == kept@[i];
        if k < at {
            assert(found@[at].name@ != found@[k].name@);
        }
        if at < k {
            assert(found@[k].name@ != found@[at].name@);
        }
        assert(kept@[i] == found@[at]);
    }
}

/// A command is shown as it is called and described.
pub open spec fn is_shown(spec: CommandSpec, command: CustomCommand) -> bool {
    &&& command.scope == CommandScope::Project ==> spec.name@ == "/project:"@ + command.name@
    &&& command.scope == CommandScope::User ==> spec.name@ == "/user:"@ + command.name@
    &&& spec.takes_arguments == command.accepts_args
    &&& spec.summary@ == command.description@
    &&& spec.argument_hint == command.argument_hint
}

/// Every command is shown, in order, as it is called and described.
pub proof fn law_commands_are_shown(
    command: CustomCommand,
    spec: CommandSpec,
    commands: Vec<CustomCommand>,
    specs: Vec<CommandSpec>,
    i: int,
)
    requires
        call_ensures(command_spec, (&command,), spec),
        call_ensures(register_commands, (&commands,), specs),
    ensures
        is_shown(spec, command),
        specs@.len() == commands@.len(),
        0 <= i < specs@.len() ==> is_shown(specs@[i], commands@[i]),
{
    if 0 <= i < specs@.len() {
        assert(crate::command::registration::shows(specs@[i], commands@[i]));
    }
}

/// A command's argument is completed by what its key names.
pub proof fn law_completions_are_found_by_key(
    completions: StandardCompletions,
    key: Option<CompletionKey>,
    found: Option<u64>,
)
    requires
        call_ensures(StandardCompletions::of, (&completions, key), found),
    ensures
        key == Some(CompletionKey::Model) ==> found == completions.model,
        key == Some(CompletionKey::Theme) ==> found == completions.theme,
        key is None ==> found is None,
{
}

/// The standard commands are registered once, all or none of them: only where both kinds could be
/// published.
pub proof fn law_standard_commands_are_registered_once(
    registry: &mut StandardRegistry,
    commands: Vec<CustomCommand>,
    builtin: Result<(), String>,
    application: Result<(), String>,
    result: Result<StandardCommands, CommandError>,
    fresh: StandardRegistry,
    i: int,
)
    requires
        old(registry).claimed == old(registry).builtin,
        old(registry).claimed == old(registry).application,
        call_ensures(
            StandardCommands::register,
            (registry, &commands, builtin, application),
            result,
        ),
        call_ensures(StandardRegistry::new, (), fresh),
    ensures
        !fresh.claimed && !fresh.builtin && !fresh.application,
        result is Ok <==> !old(registry).claimed && builtin is Ok && application is Ok,
        old(registry).claimed ==> says_error(result, "standard commands are already registered"@),
        !old(registry).claimed && builtin is Err ==> says_error(result, builtin->Err_0@),
        !old(registry).claimed && builtin is Ok && application is Err ==> says_error(
            result,
            application->Err_0@,
        ),
        result is Err ==> *final(registry) == *old(registry),
        result is Ok ==> final(registry).claimed && final(registry).builtin
            && final(registry).application,
        result matches Ok(standard) ==> standard.application@.len() == commands@.len(),
        result matches Ok(standard) ==> (0 <= i < commands@.len() ==> is_shown(
            standard.application@[i],
            commands@[i],
        )),
{
    if result is Ok && 0 <= i < commands@.len() {
        assert(crate::command::registration::shows(result->Ok_0.application@[i], commands@[i]));
    }
}

/// Other commands take the place of those that were exactly where they could be published, and
/// taking the standard commands back leaves none.
pub proof fn law_commands_are_replaced_or_stay(
    standard: &mut StandardCommands,
    commands: Vec<CustomCommand>,
    published: Result<(), String>,
    result: Result<(), String>,
    shown: &Vec<CommandSpec>,
    released: StandardCommands,
    registry: &mut StandardRegistry,
    i: int,
)
    requires
        call_ensures(
            StandardCommands::register_custom_commands,
            (standard, &commands, published),
            result,
        ),
        call_ensures(StandardCommands::application_producer, (&*old(standard),), shown),
        call_ensures(StandardCommands::release, (released, registry), ()),
    ensures
        result is Ok <==> published is Ok,
        result matches Err(reason) ==> reason@ == published->Err_0@,
        result is Err ==> *final(standard) == *old(standard),
        result is Ok ==> final(standard).application@.len() == commands@.len(),
        result is Ok && 0 <= i < commands@.len() ==> is_shown(
            final(standard).application@[i],
            commands@[i],
        ),
        shown@ == old(standard).application@,
        !final(registry).claimed && !final(registry).builtin && !final(registry).application,
{
    if result is Ok && 0 <= i < commands@.len() {
        assert(crate::command::registration::shows(
            final(standard).application@[i],
            commands@[i],
        ));
    }
}

/// Every operation that a session cannot do is named by itself.
pub proof fn law_unsupported_operations_are_named(operation: BuiltinOperation, named: String)
    requires
        call_ensures(unsupported_operation, (&operation,), named),
    ensures
        operation is OpenTasks ==> named@ == "OpenTasks"@,
        operation is ToggleHelp ==> named@ == "ToggleHelp"@,
        operation is ToggleUsage ==> named@ == "ToggleUsage"@,
        operation is FocusQueue ==> named@ == "FocusQueue"@,
        operation is OpenModelPicker ==> named@ == "OpenModelPicker"@,
        operation is OpenThemePicker ==> named@ == "OpenThemePicker"@,
        operation is OpenMcpPicker ==> named@ == "OpenMcpPicker"@,
        operation is OpenLoginPicker ==> named@ == "OpenLoginPicker"@,
        operation is Exit ==> named@ == "Exit"@,
        operation is Reload ==> named@ == "Reload"@,
        operation matches BuiltinOperation::SetTheme { name } ==> named@ == "SetTheme { name: "@
            + text::quoted(name@) + " }"@,
        operation matches BuiltinOperation::SetThinking { config } ==> {
            &&& config is Off ==> named@ == "SetThinking { config: "@ + "Off"@ + " }"@
            &&& config is Adaptive ==> named@ == "SetThinking { config: "@ + "Adaptive"@ + " }"@
            &&& config is Minimal ==> named@ == "SetThinking { config: "@ + "Minimal"@ + " }"@
            &&& config is Low ==> named@ == "SetThinking { config: "@ + "Low"@ + " }"@
            &&& config is Medium ==> named@ == "SetThinking { config: "@ + "Medium"@ + " }"@
            &&& config is High ==> named@ == "SetThinking { config: "@ + "High"@ + " }"@
            &&& config is XHigh ==> named@ == "SetThinking { config: "@ + "XHigh"@ + " }"@
            &&& config is Max ==> named@ == "SetThinking { config: "@ + "Max"@ + " }"@
            &&& config matches ThinkingConfig::Budget(tokens) ==> named@
                == "SetThinking { config: "@ + ("Budget("@ + text::decimal(tokens as nat) + ")"@)
                + " }"@
        },
{
}

/// A built-in command is routed under its name with its arguments, and a model by itself.
pub proof fn law_builtin_commands_are_routed(name: &str, arguments: &str, route: CommandRoute)
    requires
        call_ensures(builtin_route, (name, arguments), route),
    ensures
        name@ == "/model"@ ==> (route matches CommandRoute::Model(model) && model@ == arguments@),
        name@ != "/model"@ ==> (route matches CommandRoute::Builtin {
            name: own,
            arguments: given,
        } && own@ == name@ && given@ == arguments@),
{
}

/// A command reaches the mailbox of its target, behind what waits there, and no other; a target
/// without one is stale.
pub proof fn law_commands_reach_their_mailbox(
    dispatcher: &mut CommandDispatcher,
    target: u64,
    lifecycle: u64,
    route: CommandRoute,
    result: Result<(), CommandError>,
    other: u64,
)
    requires
        call_ensures(
            CommandDispatcher::route_command,
            (dispatcher, target, lifecycle, route),
            result,
        ),
    ensures
        result is Ok <==> old(dispatcher)@.contains_key(target),
        result is Err ==> result == Err::<(), _>(CommandError::StaleTarget) && final(dispatcher)@
            == old(dispatcher)@,
        result is Ok ==> {
            let before = old(dispatcher)@[target];
            let after = final(dispatcher)@[target];
            &&& final(dispatcher)@.contains_key(target)
            &&& after.len() == before.len() + 1
            &&& after.drop_last() == before
            &&& after.last().target == target
            &&& after.last().route == route
            &&& after.last().lifecycle == lifecycle
        },
        other != target ==> final(dispatcher)@.contains_key(other) == old(
            dispatcher)@.contains_key(other) && final(dispatcher)@[other] == old(
            dispatcher)@[other],
{
    if result is Ok {
        assert(final(dispatcher)@[target].drop_last() =~= old(dispatcher)@[target]);
    }
}

/// A command that makes a turn is accepted at once where it reaches its mailbox.
pub proof fn law_turns_are_accepted_at_once(
    dispatcher: &mut CommandDispatcher,
    target: u64,
    lifecycle: u64,
    route: CommandRoute,
    result: Result<CommandClassification, CommandError>,
)
    requires
        call_ensures(
            CommandDispatcher::route_agent_turn,
            (dispatcher, target, lifecycle, route),
            result,
        ),
    ensures
        old(dispatcher)@.contains_key(target) ==> {
            &&& result == Ok::<_, CommandError>(CommandClassification::AgentTurnAccepted)
            &&& final(dispatcher)@.contains_key(target)
            &&& final(dispatcher)@[target].len() == old(dispatcher)@[target].len() + 1
            &&& final(dispatcher)@[target].last() == (RoutedCommand { target, route, lifecycle })
        },
        !old(dispatcher)@.contains_key(target) ==> result == Err::<CommandClassification, _>(
            CommandError::StaleTarget,
        ) && final(dispatcher)@ == old(dispatcher)@,
{
}

/// What has waited longest is received first, and only from its own mailbox.
pub proof fn law_first_in_is_first_out(
    dispatcher: &mut CommandDispatcher,
    target: u64,
    received: Option<RoutedCommand>,
    other: u64,
)
    requires
        call_ensures(CommandDispatcher::receive, (dispatcher, target), received),
    ensures
        received is Some <==> old(dispatcher)@.contains_key(target) && old(
            dispatcher)@[target].len() > 0,
        received matches Some(command) ==> {
            &&& command == old(dispatcher)@[target][0]
            &&& final(dispatcher)@[target].len() == old(dispatcher)@[target].len() - 1
            &&& final(dispatcher)@[target] == old(dispatcher)@[target].skip(1)
        },
        received is None ==> final(dispatcher)@ == old(dispatcher)@,
        other != target ==> final(dispatcher)@.contains_key(other) == old(
            dispatcher)@.contains_key(other) && final(dispatcher)@[other] == old(
            dispatcher)@[other],
{
}

/// A mailbox that is opened is empty, one that is closed is gone, and no other changes.
pub proof fn law_mailboxes_open_empty(
    opening: &mut CommandDispatcher,
    closing: &mut CommandDispatcher,
    target: u64,
    other: u64,
    fresh: CommandDispatcher,
)
    requires
        call_ensures(CommandDispatcher::create_mailbox, (opening, target), ()),
        call_ensures(CommandDispatcher::close_mailbox, (closing, target), ()),
        call_ensures(CommandDispatcher::new, (), fresh),
    ensures
        final(opening)@.contains_key(target) && final(opening)@[target].len() == 0,
        other != target ==> final(opening)@.contains_key(other) == old(opening)@.contains_key(
            other,
        ) && final(opening)@[other] == old(opening)@[other],
        !final(closing)@.contains_key(target),
        other != target && old(closing)@.contains_key(other) ==> final(closing)@.contains_key(
            other,
        ) && final(closing)@[other] == old(closing)@[other],
        !fresh@.contains_key(target),
{
}

/// What became of a command is told to the call that it came from, and clients are told of commands
/// without the slashes before their names.
pub proof fn law_commands_are_told_of(
    command: RoutedCommand,
    classification: CommandClassification,
    transition: Transition,
    commands: Vec<PresentedCommand>,
    told: Vec<PresentedCommand>,
    i: int,
)
    requires
        call_ensures(complete, (&command, classification), transition),
        call_ensures(available_commands, (&commands,), told),
    ensures
        transition.lifecycle == command.lifecycle,
        transition.classification == classification,
        told@.len() == commands@.len(),
        0 <= i < told@.len() ==> {
            let name = commands@[i].name@;
            let shown = told@[i].name@;
            &&& told@[i].description@ == commands@[i].description@
            &&& told@[i].argument_hint == commands@[i].argument_hint
            &&& shown.len() <= name.len()
            &&& shown == name.skip(name.len() - shown.len())
            &&& shown.len() > 0 ==> shown[0] != '/'
            &&& forall|k: int| 0 <= k < name.len() - shown.len() ==> #[trigger] name[k] == '/'
        },
{
    if 0 <= i < told@.len() {
        assert(crate::acp::commands::advertises(told@[i], commands@[i]));
        texts::lemma_without_leading(commands@[i].name@, '/');
    }
}

} // verus!
