//! Messages, usage and outcomes.
use vstd::prelude::*;

use crate::types::{
    AgentInput, AgentMode, ImageSource, Message, MessageBlock, Role, SessionDefaults, TokenUsage,
    TurnOutcome,
};

verus! {

/// The message is the user's, and holds the images, in order, and then the text.
pub open spec fn says(message: Message, text: Seq<char>, images: Seq<ImageSource>) -> bool {
    &&& message.role == Role::User
    &&& message.display_text is None
    &&& message.content@.len() == images.len() + 1
    &&& forall|i: int|
        0 <= i < images.len() ==> (#[trigger] message.content@[i] matches MessageBlock::Image {
            source,
        } && source == images[i])
    &&& message.content@.last() matches MessageBlock::Text { text: own } && own@ == text
}

/// What the user wrote reaches the model whole: the text, and every image in its place.
pub proof fn law_user_messages_hold_everything(
    text: String,
    images: Vec<ImageSource>,
    message: Message,
)
    requires
        call_ensures(Message::user_with_images, (text, images), message),
    ensures
        says(message, text@, images@),
{
}

/// The first text of a message is one of its texts, and nothing before it is a text. Only where
/// there is no text at all is none given.
pub proof fn law_first_text_is_the_first(message: Message, found: Option<&str>)
    requires
        call_ensures(Message::first_text_content, (&message,), found),
    ensures
        match found {
            Some(text) => exists|i: int|
                {
                    &&& 0 <= i < message.content@.len()
                    &&& #[trigger] message.content@[i] matches MessageBlock::Text { text: own }
                    &&& own@ == text@
                    &&& forall|j: int| 0 <= j < i ==> !(#[trigger] message.content@[j] is Text)
                },
            None => forall|i: int|
                0 <= i < message.content@.len() ==> !(#[trigger] message.content@[i] is Text),
        },
{
    lemma_text_from(message.content@, 0);
}

/// The first text from a position on.
pub proof fn lemma_text_from(content: Seq<MessageBlock>, from: int)
    requires
        0 <= from,
    ensures
        match crate::types::text_from(content, from) {
            Some(text) => exists|i: int|
                {
                    &&& from <= i < content.len()
                    &&& #[trigger] content[i] matches MessageBlock::Text { text: own }
                    &&& own@ == text
                    &&& forall|j: int| from <= j < i ==> !(#[trigger] content[j] is Text)
                },
            None => forall|i: int| from <= i < content.len() ==> !(#[trigger] content[i] is Text),
        },
    decreases content.len() - from,
{
    if from < content.len() && !(content[from] is Text) {
        lemma_text_from(content, from + 1);
    } else if from < content.len() {
        assert(content[from] is Text);
    }
}

/// Only a user's message has a user's text, and it is the message's first.
pub proof fn law_user_text_is_the_users(message: Message, found: Option<&str>, first: Option<&str>)
    requires
        call_ensures(Message::user_text, (&message,), found),
        call_ensures(Message::first_text_content, (&message,), first),
    ensures
        message.role == Role::Assistant ==> found is None,
        message.role == Role::User ==> {
            &&& found is Some <==> first is Some
            &&& found is Some ==> found->0@ == first->0@
        },
{
}

/// A message calls a tool exactly where one of its pieces does.
pub proof fn law_tool_calls_are_seen(message: Message, found: bool, i: int)
    requires
        call_ensures(Message::has_tool_calls, (&message,), found),
    ensures
        0 <= i < message.content@.len() && message.content@[i] is ToolUse ==> found,
        found ==> exists|j: int| 0 <= j < message.content@.len() && #[trigger] message.content@[j] is ToolUse,
{
}

/// Sums of usage count every kind of token by itself, whichever summand comes first, and never run
/// over: where a count would, it stays at the largest.
pub proof fn law_usage_adds_up(a: TokenUsage, b: TokenUsage, sum: TokenUsage)
    requires
        call_ensures(TokenUsage::plus, (a, b), sum),
    ensures
        a.input + b.input <= u32::MAX ==> sum.input == a.input + b.input,
        a.input + b.input > u32::MAX ==> sum.input == u32::MAX,
        a.output + b.output <= u32::MAX ==> sum.output == a.output + b.output,
        a.output + b.output > u32::MAX ==> sum.output == u32::MAX,
        a.cache_creation + b.cache_creation <= u32::MAX ==> sum.cache_creation == a.cache_creation
            + b.cache_creation,
        a.cache_creation + b.cache_creation > u32::MAX ==> sum.cache_creation == u32::MAX,
        a.cache_read + b.cache_read <= u32::MAX ==> sum.cache_read == a.cache_read + b.cache_read,
        a.cache_read + b.cache_read > u32::MAX ==> sum.cache_read == u32::MAX,
{
}

/// What the model read is its fresh input and what it read from and into the cache; what it wrote
/// does not count.
pub proof fn law_total_input_is_what_was_read(usage: TokenUsage, total: u32)
    requires
        call_ensures(TokenUsage::total_input, (usage,), total),
    ensures
        usage.input + usage.cache_creation + usage.cache_read <= u32::MAX ==> total == usage.input
            + usage.cache_creation + usage.cache_read,
        usage.input + usage.cache_creation + usage.cache_read > u32::MAX ==> total == u32::MAX,
{
}

/// Nothing spent is nothing of any kind.
pub proof fn law_zero_usage_is_nothing(usage: TokenUsage)
    requires
        call_ensures(TokenUsage::zero, (), usage),
    ensures
        usage.input == 0,
        usage.output == 0,
        usage.cache_creation == 0,
        usage.cache_read == 0,
{
}

/// An outcome tells of its turn, of how often the model was asked and of what was spent, however
/// the turn ended.
pub proof fn law_outcomes_tell_of_their_turn(outcome: TurnOutcome, usage: TokenUsage, turns: u32)
    requires
        call_ensures(TurnOutcome::usage, (&outcome,), usage),
        call_ensures(TurnOutcome::num_turns, (&outcome,), turns),
    ensures
        match outcome {
            TurnOutcome::Completed { usage: own, num_turns, .. } => usage == own && turns
                == num_turns,
            TurnOutcome::Failed { usage: own, num_turns, .. } => usage == own && turns
                == num_turns,
            TurnOutcome::Cancelled { usage: own, num_turns, .. } => usage == own && turns
                == num_turns,
        },
{
}

/// An outcome names the turn that it is of.
pub proof fn law_outcomes_name_their_turn(outcome: TurnOutcome, turn: crate::types::TurnId)
    requires
        call_ensures(TurnOutcome::turn_id, (&outcome,), turn),
    ensures
        match outcome {
            TurnOutcome::Completed { turn_id, .. } => turn == turn_id,
            TurnOutcome::Failed { turn_id, .. } => turn == turn_id,
            TurnOutcome::Cancelled { turn_id, .. } => turn == turn_id,
        },
{
}

/// An input that is made from a session's options says what it was given and runs under exactly
/// those options.
pub proof fn law_inputs_run_under_the_defaults(
    message: String,
    mode: AgentMode,
    images: Vec<ImageSource>,
    defaults: SessionDefaults,
    input: AgentInput,
)
    requires
        call_ensures(AgentInput::from_defaults, (message, mode, images, defaults), input),
    ensures
        input.message@ == message@,
        input.mode == mode,
        input.images@ == images@,
        input.preamble@.len() == 0,
        input.thinking == defaults.thinking,
        input.fast == defaults.fast,
        input.workflow == defaults.workflow,
        input.prompt is None,
        input.batch_key is Some,
{
}

} // verus!
