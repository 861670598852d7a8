//! What an agent reports while it runs.
use vstd::prelude::*;

verus! {

/// How a tool's output is shown: as prose, or rendered from fields of its own.
#[derive(Debug, Clone, Copy, PartialEq, Eq, Structural)]
pub enum OutputKind {
    Plain,
    Markdown,
    Rendered,
}

/// A tool's output: how it is shown, and what the model reads of it.
#[derive(Debug, PartialEq, Eq)]
pub struct ToolOutput {
    pub kind: OutputKind,
    pub text: String,
}

impl Clone for ToolOutput {
    fn clone(&self) -> (result: Self)
        ensures
            result == *self,
    {
        ToolOutput { kind: self.kind, text: self.text.clone() }
    }
}

/// Which tool an output is shown for.
#[derive(Debug, PartialEq, Eq)]
pub enum ToolLabel {
    Named(String),
    /// A tool that does not exist.
    Unknown,
    /// No tool was looked for.
    Unnamed,
}

impl Clone for ToolLabel {
    fn clone(&self) -> (result: Self)
        ensures
            result == *self,
    {
        match self {
            ToolLabel::Named(name) => ToolLabel::Named(name.clone()),
            ToolLabel::Unknown => ToolLabel::Unknown,
            ToolLabel::Unnamed => ToolLabel::Unnamed,
        }
    }
}

/// How a tool call starts: how it is shown, its input as it was parsed and as it was sent, and
/// what there is of its output from the beginning. The header is one that has been rendered.
#[derive(Debug, PartialEq, Eq)]
pub struct ToolStart {
    pub id: String,
    pub tool: String,
    pub summary: String,
    pub render_header: Option<String>,
    pub annotation: Option<String>,
    pub input: Option<String>,
    pub raw_input: Option<String>,
    pub output: Option<ToolOutput>,
}

/// How a tool call ended.
#[derive(Debug, PartialEq, Eq)]
pub struct ToolDone {
    pub id: String,
    pub tool: ToolLabel,
    pub output: ToolOutput,
    pub is_error: bool,
    pub annotation: Option<String>,
    pub written_path: Option<String>,
}

/// A copy of an optional text.
pub fn copy_option(text: &Option<String>) -> (result: Option<String>)
    ensures
        result == *text,
{
    match text {
        Some(text) => Some(text.clone()),
        None => None,
    }
}

impl Clone for ToolDone {
    fn clone(&self) -> (result: Self)
        ensures
            result == *self,
    {
        ToolDone {
            id: self.id.clone(),
            tool: self.tool.clone(),
            output: self.output.clone(),
            is_error: self.is_error,
            annotation: copy_option(&self.annotation),
            written_path: copy_option(&self.written_path),
        }
    }
}

/// A call ended with nothing but prose.
pub open spec fn ends_with(
    done: ToolDone,
    id: Seq<char>,
    tool: ToolLabel,
    kind: OutputKind,
    text: Seq<char>,
    is_error: bool,
) -> bool {
    &&& done.id@ == id
    &&& done.tool == tool
    &&& done.output.kind == kind
    &&& done.output.text@ == text
    &&& done.is_error == is_error
    &&& done.annotation is None
    &&& done.written_path is None
}

/// A call failed with a message.
pub open spec fn fails_with(done: ToolDone, id: Seq<char>, tool: ToolLabel, message: Seq<char>)
    -> bool {
    ends_with(done, id, tool, OutputKind::Plain, message, true)
}

impl ToolDone {
    /// A call that ended with nothing but prose.
    pub fn prose(id: String, tool: ToolLabel, kind: OutputKind, text: String, is_error: bool)
        -> (result: ToolDone)
        ensures
            ends_with(result, id@, tool, kind, text@, is_error),
    {
        ToolDone {
            id,
            tool,
            output: ToolOutput { kind, text },
            is_error,
            annotation: None,
            written_path: None,
        }
    }

    /// A call that failed before a tool was looked for.
    pub fn error(id: String, message: String) -> (result: ToolDone)
        ensures
            fails_with(result, id@, ToolLabel::Unnamed, message@),
    {
        ToolDone::prose(id, ToolLabel::Unnamed, OutputKind::Plain, message, true)
    }
}

/// What an agent reports while it runs.
#[derive(Debug, PartialEq, Eq)]
pub enum RunEvent {
    TextDelta { text: String },
    ThinkingDelta { text: String },
    ThinkingBlockEnd,
    ToolPending { id: String, name: String },
    PromptProgress { processed: u32, total: u32, cache: u32 },
    Retry { attempt: u32, message: String, delay_ms: u64 },
    AuthRequired,
    Nudge,
    AutoCompacting,
    CompactionDone,
    QueueItemConsumed { text: String, image_count: usize },
    ToolStart(ToolStart),
    ToolExecutionStart { id: String },
}

} // verus!
