//! How operations and answers are written in messages: as the values themselves are written.
use vstd::prelude::*;

use crate::command::host::{BuiltinOperation, HostResponse};
use crate::text;
use crate::text::{decimal_text, joined, quoted_text};
use crate::types::{AgentTurn, CommandAttachment, McpPromptRef, ThinkingConfig};

verus! {

/// How an effort is named in a message.
pub open spec fn effort_name(config: ThinkingConfig) -> Seq<char> {
    match config {
        ThinkingConfig::Off => "Off"@,
        ThinkingConfig::Adaptive => "Adaptive"@,
        ThinkingConfig::Minimal => "Minimal"@,
        ThinkingConfig::Low => "Low"@,
        ThinkingConfig::Medium => "Medium"@,
        ThinkingConfig::High => "High"@,
        ThinkingConfig::XHigh => "XHigh"@,
        ThinkingConfig::Max => "Max"@,
        ThinkingConfig::Budget(tokens) => "Budget("@ + text::decimal(tokens as nat) + ")"@,
    }
}

/// How an effort is named in a message.
fn effort_text(config: ThinkingConfig) -> (result: String)
    ensures
        result@ == effort_name(config),
{
    match config {
        ThinkingConfig::Off => "Off".to_owned(),
        ThinkingConfig::Adaptive => "Adaptive".to_owned(),
        ThinkingConfig::Minimal => "Minimal".to_owned(),
        ThinkingConfig::Low => "Low".to_owned(),
        ThinkingConfig::Medium => "Medium".to_owned(),
        ThinkingConfig::High => "High".to_owned(),
        ThinkingConfig::XHigh => "XHigh".to_owned(),
        ThinkingConfig::Max => "Max".to_owned(),
        ThinkingConfig::Budget(tokens) => joined(
            joined("Budget(", decimal_text(tokens as u64).as_str()).as_str(),
            ")",
        ),
    }
}

/// How an operation that a session cannot do is named in a message.
pub open spec fn unsupported_name(operation: BuiltinOperation) -> Seq<char> {
    match operation {
        BuiltinOperation::OpenTasks => "OpenTasks"@,
        BuiltinOperation::ToggleHelp => "ToggleHelp"@,
        BuiltinOperation::ToggleUsage => "ToggleUsage"@,
        BuiltinOperation::FocusQueue => "FocusQueue"@,
        BuiltinOperation::OpenModelPicker => "OpenModelPicker"@,
        BuiltinOperation::OpenThemePicker => "OpenThemePicker"@,
        BuiltinOperation::SetTheme { name } => "SetTheme { name: "@ + text::quoted(name@) + " }"@,
        BuiltinOperation::OpenMcpPicker => "OpenMcpPicker"@,
        BuiltinOperation::OpenLoginPicker => "OpenLoginPicker"@,
        BuiltinOperation::SetThinking { config } => "SetThinking { config: "@ + effort_name(config)
            + " }"@,
        BuiltinOperation::Exit => "Exit"@,
        BuiltinOperation::Reload => "Reload"@,
        _ => Seq::empty(),
    }
}

/// How an operation that a session cannot do is named in a message.
pub fn unsupported_operation(operation: &BuiltinOperation) -> (result: String)
    ensures
        result@ == unsupported_name(*operation),
{
    match operation {
        BuiltinOperation::OpenTasks => "OpenTasks".to_owned(),
        BuiltinOperation::ToggleHelp => "ToggleHelp".to_owned(),
        BuiltinOperation::ToggleUsage => "ToggleUsage".to_owned(),
        BuiltinOperation::FocusQueue => "FocusQueue".to_owned(),
        BuiltinOperation::OpenModelPicker => "OpenModelPicker".to_owned(),
        BuiltinOperation::OpenThemePicker => "OpenThemePicker".to_owned(),
        BuiltinOperation::SetTheme { name } => joined(
            joined("SetTheme { name: ", quoted_text(name.as_str()).as_str()).as_str(),
            " }",
        ),
        BuiltinOperation::OpenMcpPicker => "OpenMcpPicker".to_owned(),
        BuiltinOperation::OpenLoginPicker => "OpenLoginPicker".to_owned(),
        BuiltinOperation::SetThinking { config } => joined(
            joined("SetThinking { config: ", effort_text(*config).as_str()).as_str(),
            " }",
        ),
        BuiltinOperation::Exit => "Exit".to_owned(),
        BuiltinOperation::Reload => "Reload".to_owned(),
        _ => String::new(),
    }
}

/// How an attachment is written.
pub open spec fn attachment_word(attachment: CommandAttachment) -> Seq<char> {
    "CommandAttachment { media_type: "@ + text::quoted(attachment.media_type@) + ", data: "@
        + text::quoted(attachment.data@) + " }"@
}

/// How an argument of a prompt is written.
pub open spec fn argument_word(argument: (String, String)) -> Seq<char> {
    "("@ + text::quoted(argument.0@) + ", "@ + text::quoted(argument.1@) + ")"@
}

/// Words one after another, with commas between them.
pub open spec fn in_a_row(words: Seq<Seq<char>>) -> Seq<char>
    decreases words.len(),
{
    if words.len() == 0 {
        Seq::empty()
    } else if words.len() == 1 {
        words[0]
    } else {
        in_a_row(words.drop_last()) + ", "@ + words.last()
    }
}

/// How the prompt of a turn is written.
pub open spec fn prompt_word(prompt: Option<McpPromptRef>) -> Seq<char> {
    match prompt {
        None => "None"@,
        Some(prompt) => "Some(McpPromptRef { qualified_name: "@ + text::quoted(
            prompt.qualified_name@,
        ) + ", arguments: ["@ + in_a_row(
            prompt.arguments@.map_values(|argument: (String, String)| argument_word(argument)),
        ) + "] })"@,
    }
}

/// How a turn is written.
pub open spec fn turn_word(turn: AgentTurn) -> Seq<char> {
    "AgentTurn { content: CommandContent { text: "@ + text::quoted(turn.content.text@)
        + ", attachments: ["@ + in_a_row(
        turn.content.attachments@.map_values(
            |attachment: CommandAttachment| attachment_word(attachment),
        ),
    ) + "] }, prompt: "@ + prompt_word(turn.prompt) + " }"@
}

/// How an answer that says nothing of the session is written.
pub open spec fn answer_word(answer: HostResponse) -> Seq<char> {
    match answer {
        HostResponse::Completed => "Completed"@,
        HostResponse::AgentTurn(turn) => "AgentTurn("@ + turn_word(turn) + ")"@,
        HostResponse::Context(_) => Seq::empty(),
    }
}

/// Words one after another, with commas between them.
fn row_text(words: &Vec<String>) -> (result: String)
    ensures
        result@ == in_a_row(words@.map_values(|word: String| word@)),
{
    let ghost all = words@.map_values(|word: String| word@);
    let mut row = String::new();
    let mut i: usize = 0;
    assert(all.take(0) =~= Seq::empty());
    while i < words.len()
        invariant
            i <= words@.len(),
            all == words@.map_values(|word: String| word@),
            row@ == in_a_row(all.take(i as int)),
        decreases words@.len() - i,
    {
        let ghost longer = all.take(i + 1);
        assert(longer.drop_last() =~= all.take(i as int));
        assert(longer.last() == words@[i as int]@);
        if i > 0 {
            row.append(", ");
        } else {
            assert(row@ + words@[0]@ =~= words@[0]@);
        }
        row.append(words[i].as_str());
        i += 1;
    }
    assert(all.take(i as int) =~= all);
    row
}

/// How an attachment is written.
fn attachment_text(attachment: &CommandAttachment) -> (result: String)
    ensures
        result@ == attachment_word(*attachment),
{
    let mut word = "CommandAttachment { media_type: ".to_owned();
    word.append(quoted_text(attachment.media_type.as_str()).as_str());
    word.append(", data: ");
    word.append(quoted_text(attachment.data.as_str()).as_str());
    word.append(" }");
    word
}

/// How an argument of a prompt is written.
fn argument_text(argument: &(String, String)) -> (result: String)
    ensures
        result@ == argument_word(*argument),
{
    let mut word = "(".to_owned();
    word.append(quoted_text(argument.0.as_str()).as_str());
    word.append(", ");
    word.append(quoted_text(argument.1.as_str()).as_str());
    word.append(")");
    word
}

/// How the prompt of a turn is written.
fn prompt_text(prompt: &Option<McpPromptRef>) -> (result: String)
    ensures
        result@ == prompt_word(*prompt),
{
    let prompt = match prompt {
        None => {
            return "None".to_owned();
        },
        Some(prompt) => prompt,
    };
    let ghost arguments = prompt.arguments@.map_values(
        |argument: (String, String)| argument_word(argument),
    );
    let mut words: Vec<String> = Vec::new();
    let mut i: usize = 0;
    while i < prompt.arguments.len()
        invariant
            i <= prompt.arguments@.len(),
            words@.len() == i,
            forall|j: int|
                0 <= j < i ==> (#[trigger] words@[j])@ == argument_word(prompt.arguments@[j]),
        decreases prompt.arguments@.len() - i,
    {
        words.push(argument_text(&prompt.arguments[i]));
        i += 1;
    }
    assert(words@.map_values(|word: String| word@) =~= arguments);
    let mut written = "Some(McpPromptRef { qualified_name: ".to_owned();
    written.append(quoted_text(prompt.qualified_name.as_str()).as_str());
    written.append(", arguments: [");
    written.append(row_text(&words).as_str());
    written.append("] })");
    written
}

/// How a turn is written.
fn turn_text(turn: &AgentTurn) -> (result: String)
    ensures
        result@ == turn_word(*turn),
{
    let ghost attachments = turn.content.attachments@.map_values(
        |attachment: CommandAttachment| attachment_word(attachment),
    );
    let mut words: Vec<String> = Vec::new();
    let mut i: usize = 0;
    while i < turn.content.attachments.len()
        invariant
            i <= turn.content.attachments@.len(),
            words@.len() == i,
            forall|j: int|
                0 <= j < i ==> (#[trigger] words@[j])@ == attachment_word(
                    turn.content.attachments@[j],
                ),
        decreases turn.content.attachments@.len() - i,
    {
        words.push(attachment_text(&turn.content.attachments[i]));
        i += 1;
    }
    assert(words@.map_values(|word: String| word@) =~= attachments);
    let mut written = "AgentTurn { content: CommandContent { text: ".to_owned();
    written.append(quoted_text(turn.content.text.as_str()).as_str());
    written.append(", attachments: [");
    written.append(row_text(&words).as_str());
    written.append("] }, prompt: ");
    written.append(prompt_text(&turn.prompt).as_str());
    written.append(" }");
    written
}

/// How an answer that says nothing of the session is written.
pub fn answer_text(answer: &HostResponse) -> (result: String)
    ensures
        result@ == answer_word(*answer),
{
    match answer {
        HostResponse::Completed => "Completed".to_owned(),
        HostResponse::AgentTurn(turn) => {
            let mut written = "AgentTurn(".to_owned();
            written.append(turn_text(turn).as_str());
            written.append(")");
            written
        },
        HostResponse::Context(_) => String::new(),
    }
}

} // verus!
