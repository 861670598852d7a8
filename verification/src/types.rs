//! The values the session machinery moves: identities, usage, outcomes, messages and inputs.
use vstd::prelude::*;

verus! {

/// The stable identity of an agent.
#[derive(Debug, Clone, Copy, PartialEq, Eq, Structural)]
pub struct AgentId {
    pub value: u128,
}

/// The identity of one turn.
#[derive(Debug, Clone, Copy, PartialEq, Eq, Structural)]
pub struct TurnId {
    pub value: u128,
}

/// The smaller of a sum and the largest `u32`.
pub open spec fn capped(sum: int) -> u32 {
    if sum > u32::MAX {
        u32::MAX
    } else {
        sum as u32
    }
}

/// Tokens spent, by kind.
#[derive(Debug, Clone, Copy, PartialEq, Eq, Structural)]
pub struct TokenUsage {
    pub input: u32,
    pub output: u32,
    pub cache_creation: u32,
    pub cache_read: u32,
}

/// The field-wise sum of two usages, each field capped at the largest `u32`.
pub open spec fn usage_sum(a: TokenUsage, b: TokenUsage) -> TokenUsage {
    TokenUsage {
        input: capped(a.input + b.input),
        output: capped(a.output + b.output),
        cache_creation: capped(a.cache_creation + b.cache_creation),
        cache_read: capped(a.cache_read + b.cache_read),
    }
}

/// No tokens spent.
pub open spec fn no_usage() -> TokenUsage {
    TokenUsage { input: 0, output: 0, cache_creation: 0, cache_read: 0 }
}

impl TokenUsage {
    pub fn zero() -> (result: Self)
        ensures
            result == no_usage(),
    {
        TokenUsage { input: 0, output: 0, cache_creation: 0, cache_read: 0 }
    }

    /// The sum of two usages.
    pub fn plus(self, other: TokenUsage) -> (result: TokenUsage)
        ensures
            result == usage_sum(self, other),
    {
        TokenUsage {
            input: self.input.saturating_add(other.input),
            output: self.output.saturating_add(other.output),
            cache_creation: self.cache_creation.saturating_add(other.cache_creation),
            cache_read: self.cache_read.saturating_add(other.cache_read),
        }
    }

    /// Everything the model read: fresh input and both kinds of cached input.
    pub open spec fn spec_total_input(self) -> u32 {
        capped(self.input + self.cache_creation + self.cache_read)
    }

    /// Everything the model read: fresh input and both kinds of cached input.
    pub fn total_input(self) -> (result: u32)
        ensures
            result == self.spec_total_input(),
    {
        self.input.saturating_add(self.cache_creation).saturating_add(self.cache_read)
    }
}

impl Default for TokenUsage {
    fn default() -> (result: Self)
        ensures
            result == no_usage(),
    {
        TokenUsage::zero()
    }
}

/// Why a turn was cancelled.
#[derive(Debug, Clone, Copy, PartialEq, Eq, Structural)]
pub enum TurnCancellationReason {
    User,
    Closed,
    Shutdown,
}

/// Why a turn completed.
#[derive(Debug, Clone, Copy, PartialEq, Eq, Structural)]
pub enum DoneReason {
    EndTurn,
    MaxTokens,
    MaxTurns,
}

/// What kind of failure ended a turn.
#[derive(Debug, Clone, Copy, PartialEq, Eq, Structural)]
pub enum TurnFailureKind {
    Auth,
    Provider,
    Internal,
}

/// How a turn failed: a diagnostic for the log, a message for the user, and whether a retry can
/// help.
#[derive(Debug, PartialEq, Eq)]
pub struct TurnFailure {
    pub kind: TurnFailureKind,
    pub diagnostic: String,
    pub user_message: String,
    pub retryable: bool,
}

impl Clone for TurnFailure {
    fn clone(&self) -> (result: Self)
        ensures
            result == *self,
    {
        TurnFailure {
            kind: self.kind,
            diagnostic: self.diagnostic.clone(),
            user_message: self.user_message.clone(),
            retryable: self.retryable,
        }
    }
}

/// The terminal outcome of one turn.
#[allow(inconsistent_fields)]
#[derive(Debug, PartialEq, Eq)]
pub enum TurnOutcome {
    Completed {
        agent_id: AgentId,
        turn_id: TurnId,
        usage: TokenUsage,
        num_turns: u32,
        reason: DoneReason,
    },
    Failed {
        agent_id: AgentId,
        turn_id: TurnId,
        usage: TokenUsage,
        num_turns: u32,
        failure: TurnFailure,
    },
    Cancelled {
        agent_id: AgentId,
        turn_id: TurnId,
        usage: TokenUsage,
        num_turns: u32,
        reason: TurnCancellationReason,
    },
}

impl Clone for TurnOutcome {
    fn clone(&self) -> (result: Self)
        ensures
            result == *self,
    {
        match self {
            TurnOutcome::Completed { agent_id, turn_id, usage, num_turns, reason } =>
            TurnOutcome::Completed {
                agent_id: *agent_id,
                turn_id: *turn_id,
                usage: *usage,
                num_turns: *num_turns,
                reason: *reason,
            },
            TurnOutcome::Failed { agent_id, turn_id, usage, num_turns, failure } =>
            TurnOutcome::Failed {
                agent_id: *agent_id,
                turn_id: *turn_id,
                usage: *usage,
                num_turns: *num_turns,
                failure: failure.clone(),
            },
            TurnOutcome::Cancelled { agent_id, turn_id, usage, num_turns, reason } =>
            TurnOutcome::Cancelled {
                agent_id: *agent_id,
                turn_id: *turn_id,
                usage: *usage,
                num_turns: *num_turns,
                reason: *reason,
            },
        }
    }
}

impl TurnOutcome {
    /// The tokens that the turn spent.
    pub open spec fn spec_usage(self) -> TokenUsage {
        match self {
            TurnOutcome::Completed { usage, .. } => usage,
            TurnOutcome::Failed { usage, .. } => usage,
            TurnOutcome::Cancelled { usage, .. } => usage,
        }
    }

    /// The tokens that the turn spent.
    pub fn usage(&self) -> (result: TokenUsage)
        ensures
            result == self.spec_usage(),
    {
        match self {
            TurnOutcome::Completed { usage, .. } => *usage,
            TurnOutcome::Failed { usage, .. } => *usage,
            TurnOutcome::Cancelled { usage, .. } => *usage,
        }
    }

    /// The turn that the outcome is of.
    pub open spec fn spec_turn_id(self) -> TurnId {
        match self {
            TurnOutcome::Completed { turn_id, .. } => turn_id,
            TurnOutcome::Failed { turn_id, .. } => turn_id,
            TurnOutcome::Cancelled { turn_id, .. } => turn_id,
        }
    }

    /// The turn that the outcome is of.
    pub fn turn_id(&self) -> (result: TurnId)
        ensures
            result == self.spec_turn_id(),
    {
        match self {
            TurnOutcome::Completed { turn_id, .. } => *turn_id,
            TurnOutcome::Failed { turn_id, .. } => *turn_id,
            TurnOutcome::Cancelled { turn_id, .. } => *turn_id,
        }
    }

    /// How often the turn asked the model.
    pub open spec fn spec_num_turns(self) -> u32 {
        match self {
            TurnOutcome::Completed { num_turns, .. } => num_turns,
            TurnOutcome::Failed { num_turns, .. } => num_turns,
            TurnOutcome::Cancelled { num_turns, .. } => num_turns,
        }
    }

    /// How often the turn asked the model.
    pub fn num_turns(&self) -> (result: u32)
        ensures
            result == self.spec_num_turns(),
    {
        match self {
            TurnOutcome::Completed { num_turns, .. } => *num_turns,
            TurnOutcome::Failed { num_turns, .. } => *num_turns,
            TurnOutcome::Cancelled { num_turns, .. } => *num_turns,
        }
    }
}

/// How an image is encoded.
#[derive(Debug, Clone, Copy, PartialEq, Eq, Structural)]
pub enum ImageMediaType {
    Png,
    Jpeg,
    Gif,
    Webp,
}

/// An image: its encoding and its data in base 64.
#[derive(Debug, PartialEq, Eq)]
pub struct ImageSource {
    pub media_type: ImageMediaType,
    pub data: String,
}

impl Clone for ImageSource {
    fn clone(&self) -> (result: Self)
        ensures
            result == *self,
    {
        ImageSource { media_type: self.media_type, data: self.data.clone() }
    }
}

/// Who wrote a message.
#[derive(Debug, Clone, Copy, PartialEq, Eq, Structural)]
pub enum Role {
    User,
    Assistant,
}

/// One piece of a message. The input of a tool call is its JSON text.
#[derive(Debug, PartialEq, Eq)]
pub enum MessageBlock {
    Text { text: String },
    Image { source: ImageSource },
    Thinking { thinking: String },
    ToolUse { id: String, name: String, input: String },
    ToolResult { tool_use_id: String, content: String, is_error: bool },
}

/// One message of a conversation, and the text to show for it where that differs.
#[derive(Debug, PartialEq, Eq)]
pub struct Message {
    pub role: Role,
    pub content: Vec<MessageBlock>,
    pub display_text: Option<String>,
}

/// The blocks of a user message: its images, then its text.
pub open spec fn user_blocks(text: Seq<char>, images: Seq<ImageSource>, blocks: Seq<MessageBlock>)
    -> bool {
    &&& blocks.len() == images.len() + 1
    &&& forall|i: int|
        0 <= i < images.len() ==> #[trigger] blocks[i] == (MessageBlock::Image {
            source: images[i],
        })
    &&& blocks[images.len() as int] matches MessageBlock::Text { text: t } && t@ == text
}

/// A message is what the user wrote, with images and without text of its own to show.
pub open spec fn is_user_message(message: Message, text: Seq<char>, images: Seq<ImageSource>)
    -> bool {
    &&& message.role == Role::User
    &&& user_blocks(text, images, message.content@)
    &&& message.display_text is None
}

/// The text of the first text block, from `from` on.
pub open spec fn text_from(content: Seq<MessageBlock>, from: int) -> Option<Seq<char>>
    decreases content.len() - from,
{
    if from < 0 || from >= content.len() {
        None
    } else {
        match content[from] {
            MessageBlock::Text { text } => Some(text@),
            _ => text_from(content, from + 1),
        }
    }
}

/// Some block from `from` on calls a tool.
pub open spec fn calls_tool(content: Seq<MessageBlock>) -> bool {
    exists|i: int| 0 <= i < content.len() && #[trigger] content[i] is ToolUse
}

impl Message {
    /// What the user wrote, with images.
    pub fn user_with_images(text: String, images: Vec<ImageSource>) -> (result: Message)
        ensures
            is_user_message(result, text@, images@),
    {
        let mut content: Vec<MessageBlock> = Vec::new();
        let mut i: usize = 0;
        while i < images.len()
            invariant
                i <= images@.len(),
                content@.len() == i,
                forall|j: int|
                    0 <= j < i ==> #[trigger] content@[j] == (MessageBlock::Image {
                        source: images@[j],
                    }),
            decreases images@.len() - i,
        {
            content.push(MessageBlock::Image { source: images[i].clone() });
            i += 1;
        }
        content.push(MessageBlock::Text { text });
        Message { role: Role::User, content, display_text: None }
    }

    /// The text of the first text block.
    pub fn first_text_content(&self) -> (result: Option<&str>)
        ensures
            match text_from(self.content@, 0) {
                Some(text) => result is Some && result->0@ == text,
                None => result is None,
            },
    {
        let mut i: usize = 0;
        while i < self.content.len()
            invariant
                i <= self.content@.len(),
                text_from(self.content@, 0) == text_from(self.content@, i as int),
            decreases self.content@.len() - i,
        {
            match &self.content[i] {
                MessageBlock::Text { text } => {
                    return Some(text.as_str());
                },
                _ => {},
            }
            i += 1;
        }
        None
    }

    /// The text of a user message.
    pub fn user_text(&self) -> (result: Option<&str>)
        ensures
            self.role == Role::User ==> match text_from(self.content@, 0) {
                Some(text) => result is Some && result->0@ == text,
                None => result is None,
            },
            self.role != Role::User ==> result is None,
    {
        match self.role {
            Role::User => self.first_text_content(),
            Role::Assistant => None,
        }
    }

    /// Whether the message calls a tool.
    pub fn has_tool_calls(&self) -> (result: bool)
        ensures
            result == calls_tool(self.content@),
    {
        let mut i: usize = 0;
        while i < self.content.len()
            invariant
                i <= self.content@.len(),
                forall|j: int| 0 <= j < i ==> !(#[trigger] self.content@[j] is ToolUse),
            decreases self.content@.len() - i,
        {
            match &self.content[i] {
                MessageBlock::ToolUse { .. } => {
                    assert(self.content@[i as int] is ToolUse);
                    return true;
                },
                _ => {},
            }
            i += 1;
        }
        false
    }
}

/// How freely the agent may act.
#[derive(Debug, PartialEq, Eq)]
pub enum AgentMode {
    Build,
    Plan(String),
    Custom(String),
}

impl Clone for AgentMode {
    fn clone(&self) -> (result: Self)
        ensures
            result == *self,
    {
        match self {
            AgentMode::Build => AgentMode::Build,
            AgentMode::Plan(path) => AgentMode::Plan(path.clone()),
            AgentMode::Custom(name) => AgentMode::Custom(name.clone()),
        }
    }
}

/// How much the model may think before it answers.
#[derive(Debug, Clone, Copy, PartialEq, Eq, Structural)]
pub enum ThinkingConfig {
    Off,
    Adaptive,
    Minimal,
    Low,
    Medium,
    High,
    XHigh,
    Max,
    Budget(u32),
}

/// A prompt of an outside server and the arguments it is given.
#[derive(Debug, PartialEq, Eq)]
pub struct McpPromptRef {
    pub qualified_name: String,
    pub arguments: Vec<(String, String)>,
}

/// Something that comes with a command's text.
#[derive(Debug, PartialEq, Eq)]
pub struct CommandAttachment {
    pub media_type: String,
    pub data: String,
}

/// What a prompt says: its text and what comes with it.
#[derive(Debug, PartialEq, Eq)]
pub struct CommandContent {
    pub text: String,
    pub attachments: Vec<CommandAttachment>,
}

/// A turn that a command asks the agent for.
#[derive(Debug, PartialEq, Eq)]
pub struct AgentTurn {
    pub content: CommandContent,
    pub prompt: Option<McpPromptRef>,
}

/// The options that a session's inputs run under.
#[derive(Debug, Clone, Copy, PartialEq, Eq, Structural)]
pub struct SessionDefaults {
    pub thinking: ThinkingConfig,
    pub fast: bool,
    pub workflow: bool,
}

impl Default for SessionDefaults {
    fn default() -> (result: Self)
        ensures
            result.thinking == ThinkingConfig::Off,
            !result.fast,
            !result.workflow,
    {
        SessionDefaults { thinking: ThinkingConfig::Off, fast: false, workflow: false }
    }
}

/// What the agent is asked to do: a message with images, the messages that go before it, the
/// options it runs under, and the outside prompt it was made from if it was. Consecutive inputs
/// with the same batch key may be answered by one turn; an input without one is answered alone.
#[derive(Debug, PartialEq, Eq)]
pub struct AgentInput {
    pub message: String,
    pub mode: AgentMode,
    pub images: Vec<ImageSource>,
    pub preamble: Vec<Message>,
    pub thinking: ThinkingConfig,
    pub fast: bool,
    pub workflow: bool,
    pub prompt: Option<McpPromptRef>,
    pub batch_key: Option<u64>,
}

impl AgentInput {
    /// A plain input with a session's options.
    pub fn from_defaults(
        message: String,
        mode: AgentMode,
        images: Vec<ImageSource>,
        defaults: SessionDefaults,
    ) -> (result: Self)
        ensures
            result.message == message,
            result.mode == mode,
            result.images == images,
            result.preamble@ == Seq::<Message>::empty(),
            result.thinking == defaults.thinking,
            result.fast == defaults.fast,
            result.workflow == defaults.workflow,
            result.prompt is None,
            result.batch_key == Some(0u64),
    {
        AgentInput {
            message,
            mode,
            images,
            preamble: Vec::new(),
            thinking: defaults.thinking,
            fast: defaults.fast,
            workflow: defaults.workflow,
            prompt: None,
            batch_key: Some(0),
        }
    }
}

} // verus!
