//! One accepted turn from its input to its outcome: how often the model is asked, and what is done
//! between two requests. The requests themselves, tools and compactions are left to the host, which
//! performs each step and says what came of it.
use vstd::prelude::*;

use crate::agent::modes;
use crate::agent::modes::{current_mode, ModeDef};
use crate::agent::streaming::{ProviderFailure, StreamError};
use crate::json;
use crate::json::{array_of, as_elements, as_text, copy_of, member};
use crate::text;
use crate::text::{joined, same_text, trim_text};
use crate::text_map::reversed;
use crate::types;
use crate::types::{
    AgentId, AgentInput, AgentMode, DoneReason, Message, MessageBlock, Role, ThinkingConfig,
    TokenUsage, TurnCancellationReason, TurnFailure, TurnId, TurnOutcome,
};

verus! {

/// How often in a row a failed authentication is asked for again.
pub const MAX_REAUTH_ATTEMPTS: u32 = 2;

/// How often in a row a model that stalls is nudged.
pub const MAX_NUDGES: u32 = 20;

/// In so many of the last messages the tool results are looked for that a stalled model had.
pub const RECENT_TOOL_WINDOW: usize = 5;

/// So many bytes are taken for one token.
pub const CHARS_PER_TOKEN: usize = 4;

/// Why a model's reply stopped.
#[derive(Debug, Clone, Copy, PartialEq, Eq, Structural)]
pub enum StopReason {
    EndTurn,
    ToolUse,
    MaxTokens,
}

/// Why a turn is done when the last reply stopped for a reason.
pub open spec fn done_reason(stop: Option<StopReason>) -> DoneReason {
    if stop == Some(StopReason::MaxTokens) {
        DoneReason::MaxTokens
    } else {
        DoneReason::EndTurn
    }
}

/// A model's whole reply.
#[derive(Debug, PartialEq, Eq)]
pub struct StreamResponse {
    pub message: Message,
    pub usage: TokenUsage,
    pub stop_reason: Option<StopReason>,
}

/// One entry of the conversation.
#[derive(Debug, PartialEq, Eq)]
pub enum Entry {
    Message(Message),
    /// Takes the place of a reply without text.
    EmptyMarker,
    /// What the agent tells the model by itself.
    Synthetic(String),
    /// What the user said while the agent worked, and what is shown for it.
    Interrupt { text: String, display: String },
}

/// The limits that a turn keeps.
#[derive(Debug, Clone, Copy, PartialEq, Eq, Structural)]
pub struct RunConfig {
    pub max_turns: Option<u32>,
    pub max_continuation_turns: u32,
    pub auto_compact: bool,
}

/// What follows a reply when nothing comes between.
#[derive(Debug, Clone, Copy, PartialEq, Eq, Structural)]
pub enum Afterwards {
    Continue,
    Done(DoneReason),
}

/// Why a turn did not complete.
#[derive(Debug, PartialEq, Eq)]
pub enum RunError {
    Cancelled,
    Provider(ProviderFailure),
    /// What had to be reported could not be delivered.
    Undelivered,
}

/// What the host does next.
#[derive(Debug, PartialEq, Eq)]
pub enum RunStep {
    /// Goes on with the next request, if there may be one.
    Again,
    /// Asks the model.
    Stream,
    /// Reports that authentication is required.
    ReportAuth,
    /// Waits until the user has authenticated.
    AwaitAuth,
    /// Runs the tools that a reply calls.
    RunTools(Message),
    /// Reports that the model is nudged.
    ReportNudge,
    /// Finds out whether the conversation has become too long.
    CheckCompaction,
    /// Reports that the conversation is being compacted.
    ReportCompacting,
    /// Compacts the conversation.
    Compact,
    /// Reports that the conversation has been compacted.
    ReportCompacted,
    /// Looks for something in the queue.
    PollQueue,
    /// The turn is over.
    Finished(Result<DoneReason, RunError>),
}

/// The state of an agent's run.
#[derive(Debug)]
pub struct Agent {
    pub agent_id: AgentId,
    pub config: RunConfig,
    pub mode: AgentMode,
    pub thinking: ThinkingConfig,
    pub fast: bool,
    pub workflow: bool,
    pub total_usage: TokenUsage,
    pub context_size: u32,
    pub num_turns: u32,
    pub reauth_attempts: u32,
    pub rollback_len: usize,
    pub history: Vec<Entry>,
    pub after: Afterwards,
}

/// The state of an agent's run, as a mathematical value.
#[verifier::ext_equal]
pub struct AgentModel {
    pub agent_id: AgentId,
    pub config: RunConfig,
    pub mode: AgentMode,
    pub thinking: ThinkingConfig,
    pub fast: bool,
    pub workflow: bool,
    pub total_usage: TokenUsage,
    pub context_size: u32,
    pub num_turns: u32,
    pub reauth_attempts: u32,
    pub rollback_len: usize,
    pub history: Seq<Entry>,
    pub after: Afterwards,
}

impl View for Agent {
    type V = AgentModel;

    open spec fn view(&self) -> AgentModel {
        AgentModel {
            agent_id: self.agent_id,
            config: self.config,
            mode: self.mode,
            thinking: self.thinking,
            fast: self.fast,
            workflow: self.workflow,
            total_usage: self.total_usage,
            context_size: self.context_size,
            num_turns: self.num_turns,
            reauth_attempts: self.reauth_attempts,
            rollback_len: self.rollback_len,
            history: self.history@,
            after: self.after,
        }
    }
}

/// Messages as entries.
pub open spec fn as_entries(messages: Seq<Message>) -> Seq<Entry> {
    messages.map_values(|message: Message| Entry::Message(message))
}

/// An input says something: text that is more than white space, or an image.
pub open spec fn says_something(input: AgentInput) -> bool {
    text::trimmed(input.message@).len() > 0 || input.images@.len() > 0
}

/// The conversation goes on with an input: the messages before it, the mailbox, and what the user
/// says, where they say something.
pub open spec fn with_input(
    before: Seq<Entry>,
    input: AgentInput,
    mailbox: Seq<Message>,
    after: Seq<Entry>,
) -> bool {
    let context = before + as_entries(input.preamble@) + as_entries(mailbox);
    if says_something(input) {
        &&& after.len() == context.len() + 1
        &&& after.drop_last() == context
        &&& after.last() is Message
        &&& types::is_user_message(after.last()->Message_0, input.message@, input.images@)
    } else {
        after == context
    }
}

/// The note behind a reply that was cut off.
pub open spec fn cancelled_note() -> Seq<char> {
    "[Response cut off by user cancel]"@
}

/// An entry is the part of a reply that was there when it was cut off.
pub open spec fn keeps_partial(entry: Entry, streamed: Seq<char>) -> bool {
    &&& entry matches Entry::Message(message)
    &&& message.role == Role::Assistant
    &&& message.display_text is None
    &&& message.content@.len() == 1
    &&& message.content@[0] matches MessageBlock::Text { text: kept } && kept@ == text::trimmed_end(
        streamed,
    ) + "\n\n"@ + cancelled_note()
}

/// What is said to a model that stalls.
pub open spec fn nudge_prompt() -> Seq<char> {
    "You just executed tool calls but returned an empty response. Please process the tool results above and continue with the task."@
}

/// What the model reads of what the user said while it worked.
pub open spec fn interrupt_text(message: Seq<char>) -> Seq<char> {
    "<user-interrupt>\nThe user sent a new message while you were working. Address it and continue.\n\n"@
        + message + "\n</user-interrupt>"@
}

/// A text without its trailing white space.
fn trim_end(text: &str) -> (result: String)
    ensures
        result@ == text::trimmed_end(text@),
{
    let chars = text::chars_of(text);
    let mut end: usize = chars.len();
    assert(chars@.take(end as int) =~= chars@);
    while end > 0 && text::is_white_space(chars[end - 1])
        invariant
            end <= chars@.len(),
            text::trimmed_end(chars@.take(end as int)) == text::trimmed_end(chars@),
        decreases end,
    {
        assert(chars@.take(end as int).drop_last() =~= chars@.take(end - 1));
        end -= 1;
    }
    assert(chars@.subrange(0, end as int) =~= chars@.take(end as int));
    text.substring_char(0, end).to_owned()
}

/// How many bytes of a piece of a message count.
pub open spec fn counted_bytes(block: MessageBlock) -> nat {
    match block {
        MessageBlock::Text { text } => vstd::utf8::encode_utf8(text@).len(),
        MessageBlock::ToolResult { content, .. } => vstd::utf8::encode_utf8(content@).len(),
        MessageBlock::ToolUse { input, .. } => vstd::utf8::encode_utf8(input@).len(),
        MessageBlock::Thinking { thinking } => vstd::utf8::encode_utf8(thinking@).len(),
        MessageBlock::Image { .. } => 0,
    }
}

/// How many bytes of a message's pieces count.
pub open spec fn block_bytes(blocks: Seq<MessageBlock>) -> nat
    decreases blocks.len(),
{
    if blocks.len() == 0 {
        0
    } else {
        block_bytes(blocks.drop_last()) + counted_bytes(blocks.last())
    }
}

/// How many bytes of messages count.
pub open spec fn message_bytes(messages: Seq<Message>) -> nat
    decreases messages.len(),
{
    if messages.len() == 0 {
        0
    } else {
        message_bytes(messages.drop_last()) + block_bytes(messages.last().content@)
    }
}

/// How many tokens messages are taken for: at least one where there is a message, and a quarter of
/// their bytes.
pub open spec fn estimated_tokens(messages: Seq<Message>) -> u32 {
    if messages.len() == 0 {
        0
    } else if message_bytes(messages) < 4 {
        1
    } else {
        (message_bytes(messages) / 4) as u32
    }
}

/// How many bytes of a piece of a message count.
fn count_bytes(block: &MessageBlock) -> (result: usize)
    ensures
        result == counted_bytes(*block),
{
    match block {
        MessageBlock::Text { text } => text.as_str().as_bytes().len(),
        MessageBlock::ToolResult { content, .. } => content.as_str().as_bytes().len(),
        MessageBlock::ToolUse { input, .. } => input.as_str().as_bytes().len(),
        MessageBlock::Thinking { thinking } => thinking.as_str().as_bytes().len(),
        MessageBlock::Image { .. } => 0,
    }
}

/// Fewer pieces hold no more bytes.
proof fn lemma_block_bytes_grow(blocks: Seq<MessageBlock>, i: int)
    requires
        0 <= i <= blocks.len(),
    ensures
        block_bytes(blocks.take(i)) <= block_bytes(blocks),
    decreases blocks.len(),
{
    if i < blocks.len() {
        assert(blocks.drop_last().take(i) =~= blocks.take(i));
        lemma_block_bytes_grow(blocks.drop_last(), i);
    } else {
        assert(blocks.take(i) =~= blocks);
    }
}

/// Fewer messages hold no more bytes.
proof fn lemma_message_bytes_grow(messages: Seq<Message>, i: int)
    requires
        0 <= i <= messages.len(),
    ensures
        message_bytes(messages.take(i)) <= message_bytes(messages),
    decreases messages.len(),
{
    if i < messages.len() {
        assert(messages.drop_last().take(i) =~= messages.take(i));
        lemma_message_bytes_grow(messages.drop_last(), i);
    } else {
        assert(messages.take(i) =~= messages);
    }
}

/// How many tokens messages are taken for. Only what they say counts, so this is no measure of
/// what a whole request holds.
pub fn estimate_message_tokens(messages: &Vec<Message>) -> (result: u32)
    requires
        message_bytes(messages@) <= usize::MAX,
    ensures
        result == estimated_tokens(messages@),
{
    if messages.len() == 0 {
        return 0;
    }
    let mut total: usize = 0;
    let mut i: usize = 0;
    assert(messages@.take(0) =~= Seq::empty());
    while i < messages.len()
        invariant
            i <= messages@.len(),
            total == message_bytes(messages@.take(i as int)),
            message_bytes(messages@) <= usize::MAX,
        decreases messages@.len() - i,
    {
        let message = &messages[i];
        let ghost longer = messages@.take(i + 1);
        assert(longer.drop_last() =~= messages@.take(i as int));
        assert(longer.last() == *message);
        proof {
            lemma_message_bytes_grow(messages@, i + 1);
        }
        let mut j: usize = 0;
        assert(message.content@.take(0) =~= Seq::empty());
        while j < message.content.len()
            invariant
                j <= message.content@.len(),
                i < messages@.len(),
                longer.len() > 0,
                longer.last() == *message,
                message_bytes(longer) == message_bytes(longer.drop_last()) + block_bytes(
                    message.content@,
                ),
                total == message_bytes(longer.drop_last()) + block_bytes(
                    message.content@.take(j as int),
                ),
                message_bytes(longer) <= usize::MAX,
            decreases message.content@.len() - j,
        {
            let ghost blocks = message.content@.take(j + 1);
            assert(blocks.drop_last() =~= message.content@.take(j as int));
            assert(blocks.last() == message.content@[j as int]);
            proof {
                lemma_block_bytes_grow(message.content@, j + 1);
            }
            total = total + count_bytes(&message.content[j]);
            j += 1;
        }
        assert(message.content@.take(j as int) =~= message.content@);
        i += 1;
    }
    assert(messages@.take(i as int) =~= messages@);
    if total < CHARS_PER_TOKEN {
        1
    } else {
        (total / CHARS_PER_TOKEN) as u32
    }
}

impl Agent {
    /// An agent before its first turn.
    pub fn new(agent_id: AgentId, config: RunConfig, history: Vec<Entry>) -> (result: Self)
        ensures
            result@ == (AgentModel {
                agent_id,
                config,
                mode: AgentMode::Build,
                thinking: ThinkingConfig::Off,
                fast: false,
                workflow: false,
                total_usage: types::no_usage(),
                context_size: 0,
                num_turns: 0,
                reauth_attempts: 0,
                rollback_len: 0,
                history: history@,
                after: Afterwards::Continue,
            }),
    {
        Agent {
            agent_id,
            config,
            mode: AgentMode::Build,
            thinking: ThinkingConfig::Off,
            fast: false,
            workflow: false,
            total_usage: TokenUsage::zero(),
            context_size: 0,
            num_turns: 0,
            reauth_attempts: 0,
            rollback_len: 0,
            history,
            after: Afterwards::Continue,
        }
    }

    /// Puts messages behind the conversation.
    fn push_messages(&mut self, messages: Vec<Message>)
        ensures
            final(self)@ == (AgentModel {
                history: old(self)@.history + as_entries(messages@),
                ..old(self)@
            }),
    {
        let ghost all = messages@;
        let mut rest = reversed(messages);
        let ghost mut done: int = 0;
        assert(as_entries(all.take(0)) =~= Seq::empty());
        assert(self@ =~= AgentModel {
            history: old(self)@.history + as_entries(all.take(0)),
            ..old(self)@
        });
        while rest.len() > 0
            invariant
                0 <= done <= all.len(),
                rest@.len() == all.len() - done,
                forall|j: int| 0 <= j < rest@.len() ==> rest@[j] == all[all.len() - 1 - j],
                self@ == (AgentModel {
                    history: old(self)@.history + as_entries(all.take(done)),
                    ..old(self)@
                }),
            decreases rest@.len(),
        {
            match rest.pop() {
                Some(message) => {
                    let ghost before = self@;
                    assert(message == all[done]);
                    self.history.push(Entry::Message(message));
                    proof {
                        done = done + 1;
                    }
                    assert(self@ =~= AgentModel {
                        history: old(self)@.history + as_entries(all.take(done)),
                        ..old(self)@
                    });
                },
                None => {},
            }
        }
        assert(all.take(done) =~= all);
    }

    /// Puts what comes before an input behind the conversation: its own messages, then the mailbox.
    pub fn push_input_context(&mut self, preamble: Vec<Message>, mailbox: Vec<Message>)
        ensures
            final(self)@ == (AgentModel {
                history: old(self)@.history + as_entries(preamble@) + as_entries(mailbox@),
                ..old(self)@
            }),
    {
        self.push_messages(preamble);
        self.push_messages(mailbox);
    }

    /// Begins a turn with an input. What an earlier turn spent does not count for this one.
    pub fn begin(&mut self, input: AgentInput, mailbox: Vec<Message>) -> (result: RunStep)
        ensures
            result == RunStep::Again,
            with_input(old(self)@.history, input, mailbox@, final(self)@.history),
            final(self)@ == (AgentModel {
                mode: input.mode,
                thinking: input.thinking,
                fast: input.fast,
                workflow: input.workflow,
                total_usage: types::no_usage(),
                num_turns: 0,
                reauth_attempts: 0,
                rollback_len: final(self)@.rollback_len,
                history: final(self)@.history,
                ..old(self)@
            }),
            final(self)@.rollback_len == old(self)@.history.len(),
    {
        self.total_usage = TokenUsage::zero();
        self.num_turns = 0;
        self.reauth_attempts = 0;
        self.rollback_len = self.history.len();
        let ghost before = self@.history;
        let AgentInput { message, mode, images, preamble, thinking, fast, workflow, .. } = input;
        let speaks = !trim_text(message.as_str()).as_str().is_empty() || images.len() > 0;
        self.push_input_context(preamble, mailbox);
        let ghost context = self@.history;
        if speaks {
            self.history.push(Entry::Message(Message::user_with_images(message, images)));
            assert(self@.history.drop_last() =~= context);
        }
        self.mode = mode;
        self.thinking = thinking;
        self.fast = fast;
        self.workflow = workflow;
        RunStep::Again
    }

    /// Whether the model is asked again: not where the turn has used up its requests, and not where
    /// it has been cancelled.
    pub fn next_request(&self, cancelled: bool) -> (result: RunStep)
        ensures
            result == next_step(self@, cancelled),
    {
        match self.config.max_turns {
            Some(max) => {
                if self.num_turns >= max {
                    return RunStep::Finished(Ok(DoneReason::MaxTurns));
                }
            },
            None => {},
        }
        if cancelled {
            RunStep::Finished(Err(RunError::Cancelled))
        } else {
            RunStep::Stream
        }
    }

    /// What is done when a reply does not come. Where it was cancelled, the text that was there is
    /// kept, marked as cut off; where authentication failed, the user is asked for it, a few times.
    pub fn stream_failed(&mut self, error: StreamError, can_ask: bool) -> (result: RunStep)
        ensures
            stream_failure(old(self)@, error, can_ask, result, final(self)@),
    {
        match error {
            StreamError::Cancelled { streamed } => {
                let kept = trim_end(streamed.as_str());
                if !kept.as_str().is_empty() {
                    let mut text = joined(kept.as_str(), "\n\n");
                    text.append("[Response cut off by user cancel]");
                    let mut content: Vec<MessageBlock> = Vec::new();
                    content.push(MessageBlock::Text { text });
                    let ghost before = self@.history;
                    self.history.push(
                        Entry::Message(
                            Message { role: Role::Assistant, content, display_text: None },
                        ),
                    );
                    assert(self@.history.drop_last() =~= before);
                }
                RunStep::Finished(Err(RunError::Cancelled))
            },
            StreamError::Other(failure) => {
                if failure.is_auth && self.reauth_attempts < MAX_REAUTH_ATTEMPTS && can_ask {
                    self.reauth_attempts = self.reauth_attempts + 1;
                    RunStep::ReportAuth
                } else {
                    RunStep::Finished(Err(RunError::Provider(failure)))
                }
            },
        }
    }

    /// What is done once it has been reported that authentication is required.
    pub fn auth_reported(&self, delivered: bool) -> (result: RunStep)
        ensures
            result == (if delivered {
                RunStep::AwaitAuth
            } else {
                RunStep::Finished(Err(RunError::Undelivered))
            }),
    {
        if delivered {
            RunStep::AwaitAuth
        } else {
            RunStep::Finished(Err(RunError::Undelivered))
        }
    }

    /// What is done once the user has authenticated, or will not: nothing is heard of them any
    /// more, or the turn was cancelled. `refreshed` is what came of taking over what they did.
    pub fn auth_awaited(&self, answered: bool, refreshed: Result<(), ProviderFailure>)
        -> (result: RunStep)
        ensures
            result == (if !answered {
                RunStep::Finished(Err(RunError::Cancelled))
            } else {
                match refreshed {
                    Ok(()) => RunStep::Again,
                    Err(failure) => RunStep::Finished(Err(RunError::Provider(failure))),
                }
            }),
    {
        if !answered {
            return RunStep::Finished(Err(RunError::Cancelled));
        }
        match refreshed {
            Ok(()) => RunStep::Again,
            Err(failure) => RunStep::Finished(Err(RunError::Provider(failure))),
        }
    }

    /// Takes a reply. `delivered` is whether it could be reported; `nudges` is how often in a row
    /// the model has been nudged, and `had_tools` is whether it had tool results of late.
    pub fn responded(
        &mut self,
        response: StreamResponse,
        delivered: bool,
        nudges: u32,
        had_tools: bool,
    ) -> (result: RunStep)
        requires
            old(self).num_turns < u32::MAX,
        ensures
            replied(old(self)@, response, delivered, nudges, had_tools, result, final(self)@),
    {
        self.reauth_attempts = 0;
        self.num_turns = self.num_turns + 1;
        let has_tools = response.message.has_tool_calls();
        if !delivered {
            return RunStep::Finished(Err(RunError::Undelivered));
        }
        self.total_usage = self.total_usage.plus(response.usage);
        self.context_size = response.usage.total_input();
        let ghost counted = self@;
        if has_tools {
            self.after = Afterwards::Continue;
            return RunStep::RunTools(response.message);
        }
        let reason = match response.stop_reason {
            Some(StopReason::MaxTokens) => DoneReason::MaxTokens,
            _ => DoneReason::EndTurn,
        };
        self.after = Afterwards::Done(reason);
        if response.message.first_text_content().is_some() {
            self.history.push(Entry::Message(response.message));
            assert(self@.history =~= counted.history.push(Entry::Message(response.message)));
        } else {
            self.history.push(Entry::EmptyMarker);
            assert(self@.history =~= counted.history.push(Entry::EmptyMarker));
            if nudges < MAX_NUDGES && had_tools {
                return RunStep::ReportNudge;
            }
        }
        if reason == DoneReason::MaxTokens && self.num_turns <= self.config.max_continuation_turns {
            RunStep::Again
        } else {
            RunStep::CheckCompaction
        }
    }

    /// Nudges the model, once that has been reported.
    pub fn nudged(&mut self, delivered: bool) -> (result: RunStep)
        ensures
            if delivered {
                &&& result == RunStep::Again
                &&& final(self)@.history.len() == old(self)@.history.len() + 1
                &&& final(self)@.history.drop_last() == old(self)@.history
                &&& final(self)@.history.last() is Synthetic
                &&& final(self)@.history.last()->Synthetic_0@ == nudge_prompt()
                &&& final(self)@ == (AgentModel { history: final(self)@.history, ..old(self)@ })
            } else {
                &&& result == RunStep::Finished(Err(RunError::Undelivered))
                &&& final(self)@ == old(self)@
            },
    {
        if !delivered {
            return RunStep::Finished(Err(RunError::Undelivered));
        }
        let prompt = "You just executed tool calls but returned an empty response. Please process the tool results above and continue with the task.".to_owned();
        self.history.push(Entry::Synthetic(prompt));
        assert(self@.history.drop_last() =~= old(self)@.history);
        RunStep::Again
    }

    /// Takes the messages that running tools has added to the conversation: the reply that called
    /// them and their results.
    pub fn tools_done(&mut self, messages: Vec<Message>) -> (result: RunStep)
        requires
            message_bytes(messages@) <= usize::MAX,
            old(self).context_size + estimated_tokens(messages@) <= u32::MAX,
        ensures
            result == RunStep::CheckCompaction,
            final(self)@ == (AgentModel {
                context_size: (old(self)@.context_size + estimated_tokens(messages@)) as u32,
                history: old(self)@.history + as_entries(messages@),
                ..old(self)@
            }),
    {
        let estimate: u32 = estimate_message_tokens(&messages);
        self.context_size = self.context_size + estimate;
        self.push_messages(messages);
        RunStep::CheckCompaction
    }

    /// Ends the run where the results of tools could not be handed on: the reply that called them
    /// stays in the conversation, their results do not.
    pub fn tools_undelivered(&mut self, message: Message) -> (result: RunStep)
        ensures
            result == RunStep::Finished(Err(RunError::Undelivered)),
            final(self)@ == (AgentModel {
                history: old(self)@.history.push(Entry::Message(message)),
                ..old(self)@
            }),
    {
        self.history.push(Entry::Message(message));
        assert(self@ =~= AgentModel {
            history: old(self)@.history.push(Entry::Message(message)),
            ..old(self)@
        });
        RunStep::Finished(Err(RunError::Undelivered))
    }

    /// What is done once it is known whether the conversation has become too long.
    pub fn try_auto_compact(&self, overflow: bool) -> (result: RunStep)
        ensures
            result == (if self@.config.auto_compact && overflow {
                RunStep::ReportCompacting
            } else {
                RunStep::PollQueue
            }),
    {
        if self.config.auto_compact && overflow {
            RunStep::ReportCompacting
        } else {
            RunStep::PollQueue
        }
    }

    /// What is done once it has been reported that the conversation is being compacted.
    pub fn compacting_reported(&self, delivered: bool) -> (result: RunStep)
        ensures
            result == (if delivered {
                RunStep::Compact
            } else {
                RunStep::Finished(Err(RunError::Undelivered))
            }),
    {
        if delivered {
            RunStep::Compact
        } else {
            RunStep::Finished(Err(RunError::Undelivered))
        }
    }

    /// Takes the conversation as a compaction has left it, and what the compaction has spent. What
    /// is compacted is not taken back any more.
    pub fn compacted(&mut self, history: Vec<Entry>, usage: TokenUsage) -> (result: RunStep)
        ensures
            result == RunStep::ReportCompacted,
            final(self)@ == (AgentModel {
                history: history@,
                total_usage: types::usage_sum(old(self)@.total_usage, usage),
                rollback_len: final(self)@.rollback_len,
                ..old(self)@
            }),
            final(self)@.rollback_len == history@.len(),
    {
        self.history = history;
        self.total_usage = self.total_usage.plus(usage);
        self.rollback_len = self.history.len();
        RunStep::ReportCompacted
    }

    /// Goes on after a compaction, once that has been reported.
    pub fn compaction_reported(&mut self, delivered: bool, continue_message: String)
        -> (result: RunStep)
        ensures
            if delivered {
                &&& result == RunStep::Again
                &&& final(self)@ == (AgentModel {
                    history: old(self)@.history.push(Entry::Synthetic(continue_message)),
                    ..old(self)@
                })
            } else {
                &&& result == RunStep::Finished(Err(RunError::Undelivered))
                &&& final(self)@ == old(self)@
            },
    {
        if !delivered {
            return RunStep::Finished(Err(RunError::Undelivered));
        }
        self.history.push(Entry::Synthetic(continue_message));
        RunStep::Again
    }

    /// What is done once nothing has been found in the queue.
    pub fn queue_empty(&self) -> (result: RunStep)
        ensures
            result == match self@.after {
                Afterwards::Continue => RunStep::Again,
                Afterwards::Done(reason) => RunStep::Finished(Ok(reason)),
            },
    {
        match self.after {
            Afterwards::Continue => RunStep::Again,
            Afterwards::Done(reason) => RunStep::Finished(Ok(reason)),
        }
    }

    /// Takes an input out of the queue, once that has been reported. The conversation goes on with
    /// it; what it says is marked as said while the agent worked.
    pub fn interrupted(&mut self, input: AgentInput, mailbox: Vec<Message>, delivered: bool)
        -> (result: RunStep)
        ensures
            if delivered {
                let context = old(self)@.history + as_entries(input.preamble@) + as_entries(
                    mailbox@,
                );
                &&& result == RunStep::Again
                &&& final(self)@.history.len() == context.len() + 1
                &&& final(self)@.history.drop_last() == context
                &&& final(self)@.history.last() is Interrupt
                &&& final(self)@.history.last()->text@ == interrupt_text(input.message@)
                &&& final(self)@.history.last()->display == input.message
                &&& final(self)@ == (AgentModel {
                    mode: input.mode,
                    history: final(self)@.history,
                    ..old(self)@
                })
            } else {
                &&& result == RunStep::Finished(Err(RunError::Undelivered))
                &&& final(self)@ == old(self)@
            },
    {
        if !delivered {
            return RunStep::Finished(Err(RunError::Undelivered));
        }
        let AgentInput { message, mode, preamble, .. } = input;
        self.push_input_context(preamble, mailbox);
        self.mode = mode;
        let mut text = joined(
            "<user-interrupt>\nThe user sent a new message while you were working. Address it and continue.\n\n",
            message.as_str(),
        );
        text.append("\n</user-interrupt>");
        let ghost context = self@.history;
        self.history.push(Entry::Interrupt { text, display: message });
        assert(self@.history.drop_last() =~= context);
        RunStep::Again
    }

    /// The outcome of the turn, with what it has spent.
    pub fn outcome(&self, turn_id: TurnId, end: RunEnd) -> (result: TurnOutcome)
        ensures
            result == turn_outcome(self@, turn_id, end),
    {
        match end {
            RunEnd::Completed(reason) => TurnOutcome::Completed {
                agent_id: self.agent_id,
                turn_id,
                usage: self.total_usage,
                num_turns: self.num_turns,
                reason,
            },
            RunEnd::Cancelled => TurnOutcome::Cancelled {
                agent_id: self.agent_id,
                turn_id,
                usage: self.total_usage,
                num_turns: self.num_turns,
                reason: TurnCancellationReason::User,
            },
            RunEnd::Failed(failure) => TurnOutcome::Failed {
                agent_id: self.agent_id,
                turn_id,
                usage: self.total_usage,
                num_turns: self.num_turns,
                failure,
            },
        }
    }
}

/// How a turn ended, with the failure described where it failed.
#[derive(Debug, PartialEq, Eq)]
pub enum RunEnd {
    Completed(DoneReason),
    Cancelled,
    Failed(TurnFailure),
}

/// The outcome of a turn.
pub open spec fn turn_outcome(agent: AgentModel, turn_id: TurnId, end: RunEnd) -> TurnOutcome {
    match end {
        RunEnd::Completed(reason) => TurnOutcome::Completed {
            agent_id: agent.agent_id,
            turn_id,
            usage: agent.total_usage,
            num_turns: agent.num_turns,
            reason,
        },
        RunEnd::Cancelled => TurnOutcome::Cancelled {
            agent_id: agent.agent_id,
            turn_id,
            usage: agent.total_usage,
            num_turns: agent.num_turns,
            reason: TurnCancellationReason::User,
        },
        RunEnd::Failed(failure) => TurnOutcome::Failed {
            agent_id: agent.agent_id,
            turn_id,
            usage: agent.total_usage,
            num_turns: agent.num_turns,
            failure,
        },
    }
}

/// Whether the model is asked again.
pub open spec fn next_step(agent: AgentModel, cancelled: bool) -> RunStep {
    if agent.config.max_turns is Some && agent.num_turns >= agent.config.max_turns->0 {
        RunStep::Finished(Ok(DoneReason::MaxTurns))
    } else if cancelled {
        RunStep::Finished(Err(RunError::Cancelled))
    } else {
        RunStep::Stream
    }
}

/// What is done when a reply does not come.
pub open spec fn stream_failure(
    before: AgentModel,
    error: StreamError,
    can_ask: bool,
    step: RunStep,
    after: AgentModel,
) -> bool {
    match error {
        StreamError::Cancelled { streamed } => {
            &&& step == RunStep::Finished(Err(RunError::Cancelled))
            &&& if text::trimmed_end(streamed@).len() > 0 {
                &&& after == (AgentModel { history: after.history, ..before })
                &&& after.history.len() == before.history.len() + 1
                &&& after.history.drop_last() == before.history
                &&& keeps_partial(after.history.last(), streamed@)
            } else {
                after == before
            }
        },
        StreamError::Other(failure) => if failure.is_auth && before.reauth_attempts
            < MAX_REAUTH_ATTEMPTS && can_ask {
            &&& step == RunStep::ReportAuth
            &&& after == (AgentModel {
                reauth_attempts: (before.reauth_attempts + 1) as u32,
                ..before
            })
        } else {
            &&& step == RunStep::Finished(Err(RunError::Provider(failure)))
            &&& after == before
        },
    }
}

/// The state after a reply has been counted.
pub open spec fn counted(before: AgentModel, response: StreamResponse) -> AgentModel {
    AgentModel {
        reauth_attempts: 0,
        num_turns: (before.num_turns + 1) as u32,
        total_usage: types::usage_sum(before.total_usage, response.usage),
        context_size: response.usage.spec_total_input(),
        ..before
    }
}

/// The entry that a reply without tool calls leaves: itself, or a marker where it has no text.
pub open spec fn reply_entry(response: StreamResponse) -> Entry {
    if types::text_from(response.message.content@, 0) is Some {
        Entry::Message(response.message)
    } else {
        Entry::EmptyMarker
    }
}

/// What is done with a reply.
pub open spec fn replied(
    before: AgentModel,
    response: StreamResponse,
    delivered: bool,
    nudges: u32,
    had_tools: bool,
    step: RunStep,
    after: AgentModel,
) -> bool {
    let stop = done_reason(response.stop_reason);
    if !delivered {
        &&& step == RunStep::Finished(Err(RunError::Undelivered))
        &&& after == (AgentModel {
            reauth_attempts: 0,
            num_turns: (before.num_turns + 1) as u32,
            ..before
        })
    } else if types::calls_tool(response.message.content@) {
        &&& step == RunStep::RunTools(response.message)
        &&& after == (AgentModel { after: Afterwards::Continue, ..counted(before, response) })
    } else {
        &&& after == (AgentModel {
            after: Afterwards::Done(stop),
            history: before.history.push(reply_entry(response)),
            ..counted(before, response)
        })
        &&& step == (if reply_entry(response) is EmptyMarker && nudges < MAX_NUDGES && had_tools {
            RunStep::ReportNudge
        } else if stop == DoneReason::MaxTokens && after.num_turns
            <= before.config.max_continuation_turns {
            RunStep::Again
        } else {
            RunStep::CheckCompaction
        })
    }
}

/// The definitions of tools whose names are among those allowed, in order.
pub open spec fn allowed_definitions(definitions: Seq<Seq<char>>, allowed: Seq<String>) -> Seq<
    Seq<char>,
>
    decreases definitions.len(),
{
    if definitions.len() == 0 {
        Seq::empty()
    } else {
        let before = allowed_definitions(definitions.drop_last(), allowed);
        if is_allowed(definitions.last(), allowed) {
            before.push(definitions.last())
        } else {
            before
        }
    }
}

/// A tool's definition has a name, and the name is among those allowed.
pub open spec fn is_allowed(definition: Seq<char>, allowed: Seq<String>) -> bool {
    match json::json_member(definition, "name"@) {
        Some(name) => match json::json_string(name) {
            Some(name) => is_among(allowed, name),
            None => false,
        },
        None => false,
    }
}

/// A text is among others.
pub open spec fn is_among(texts: Seq<String>, text: Seq<char>) -> bool {
    exists|i: int| 0 <= i < texts.len() && (#[trigger] texts[i])@ == text
}

/// Whether a text is among others.
pub fn among(texts: &Vec<String>, text: &str) -> (result: bool)
    ensures
        result == is_among(texts@, text@),
{
    let mut i: usize = 0;
    while i < texts.len()
        invariant
            i <= texts@.len(),
            forall|j: int| 0 <= j < i ==> (#[trigger] texts@[j])@ != text@,
        decreases texts@.len() - i,
    {
        if same_text(texts[i].as_str(), text) {
            assert(texts@[i as int]@ == text@);
            return true;
        }
        i += 1;
    }
    false
}

/// Keeps the definitions of the tools whose names are allowed. What is no list of definitions is
/// kept as it is.
pub fn filter_tools(all: &serde_json::Value, allowed: &Vec<String>) -> (result: serde_json::Value)
    ensures
        match json::json_elements(json::json_text(*all)) {
            Some(definitions) => json::json_elements(json::json_text(result)) == Some(
                allowed_definitions(definitions, allowed@),
            ),
            None => json::json_text(result) == json::json_text(*all),
        },
{
    let definitions = match as_elements(all) {
        Some(definitions) => definitions,
        None => {
            return copy_of(all);
        },
    };
    let mut kept: Vec<serde_json::Value> = Vec::new();
    let mut i: usize = 0;
    let ghost texts = json::json_texts(definitions@);
    assert(texts.take(0) =~= Seq::empty());
    assert(json::json_texts(kept@) =~= Seq::empty());
    while i < definitions.len()
        invariant
            i <= definitions@.len(),
            texts == json::json_texts(definitions@),
            json::json_texts(kept@) == allowed_definitions(texts.take(i as int), allowed@),
        decreases definitions@.len() - i,
    {
        let definition = &definitions[i];
        let wanted = match member(definition, "name") {
            Some(name) => match as_text(name) {
                Some(name) => among(allowed, name),
                None => false,
            },
            None => false,
        };
        let ghost longer = texts.take(i + 1);
        assert(longer.drop_last() =~= texts.take(i as int));
        assert(longer.last() == json::json_text(*definition));
        if wanted {
            let ghost before = kept@;
            let copy = copy_of(definition);
            kept.push(copy);
            assert(json::json_texts(kept@) =~= json::json_texts(before).push(
                json::json_text(copy),
            ));
        }
        i += 1;
    }
    assert(texts.take(i as int) =~= texts);
    array_of(kept)
}

/// The definitions that the model is offered: those of the mode, where the mode names some, and
/// otherwise all.
pub open spec fn offered_definitions(
    tools: Seq<char>,
    modes: Seq<ModeDef>,
    mode: AgentMode,
    offered: Seq<char>,
) -> bool {
    match modes::mode_from(modes, modes::working_key(mode), 0) {
        Some(ModeDef { tools: Some(allowed), .. }) => match json::json_elements(tools) {
            Some(definitions) => json::json_elements(offered) == Some(
                allowed_definitions(definitions, allowed@),
            ),
            None => offered == tools,
        },
        _ => offered == tools,
    }
}

/// The tools that the model is offered in a mode.
pub fn request_tools(tools: &serde_json::Value, modes: &Vec<ModeDef>, mode: &AgentMode)
    -> (result: serde_json::Value)
    ensures
        offered_definitions(json::json_text(*tools), modes@, *mode, json::json_text(result)),
{
    match current_mode(modes, mode) {
        Some(def) => match &def.tools {
            Some(allowed) => filter_tools(tools, allowed),
            None => copy_of(tools),
        },
        None => copy_of(tools),
    }
}

/// The model that compacts: the one that is set up for it, where there is one that the policy
/// allows, that can be read and whose provider can be had. Without one the turn's own model does.
pub fn resolve_compaction_model(
    spec: Option<String>,
    allowed: bool,
    readable: bool,
    available: bool,
) -> (result: Option<String>)
    ensures
        result == (if spec is Some && allowed && readable && available {
            spec
        } else {
            None
        }),
{
    if allowed && readable && available {
        spec
    } else {
        None
    }
}

/// The directory that tools work in: the session's, or the process's, or the current one.
pub fn tool_cwd(session: Option<&str>, process: Option<&str>) -> (result: String)
    ensures
        result@ == match session {
            Some(cwd) => cwd@,
            None => match process {
                Some(cwd) => cwd@,
                None => "."@,
            },
        },
{
    match session {
        Some(cwd) => cwd.to_owned(),
        None => match process {
            Some(cwd) => cwd.to_owned(),
            None => ".".to_owned(),
        },
    }
}

} // verus!
