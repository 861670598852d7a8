//! The model's reply as it streams in, and what is done where the stream fails.
use vstd::prelude::*;

use crate::agent::events::RunEvent;
use crate::text_map::reversed;
use crate::types::{Message, MessageBlock};

verus! {

/// A tool's name without the prefix that some models put before it.
pub open spec fn canonical_name(name: Seq<char>) -> Seq<char> {
    if "functions."@.is_prefix_of(name) {
        name.skip("functions."@.len() as int)
    } else {
        name
    }
}

/// A tool's name without the prefix that some models put before it.
pub fn canonical_tool_name(name: &str) -> (result: String)
    ensures
        result@ == canonical_name(name@),
{
    match crate::text::after_prefix(name, "functions.") {
        Some(rest) => {
            assert("functions."@.is_prefix_of(name@)) by {
                assert(name@.subrange(0, "functions."@.len() as int) =~= "functions."@);
            }
            assert(name@.skip("functions."@.len() as int) =~= rest@);
            rest
        },
        None => name.to_owned(),
    }
}

/// A piece of a message with the name of the tool that it calls made canonical.
pub open spec fn canonical_block(block: MessageBlock, named: MessageBlock) -> bool {
    match block {
        MessageBlock::ToolUse { id, name, input } => match named {
            MessageBlock::ToolUse { id: same_id, name: canonical, input: same_input } => {
                &&& same_id == id
                &&& same_input == input
                &&& canonical@ == canonical_name(name@)
            },
            _ => false,
        },
        _ => named == block,
    }
}

/// Makes the names of the tools that a message calls canonical.
pub fn canonicalize_tool_names(message: &mut Message)
    ensures
        final(message).role == old(message).role,
        final(message).display_text == old(message).display_text,
        final(message).content@.len() == old(message).content@.len(),
        forall|i: int|
            0 <= i < old(message).content@.len() ==> canonical_block(
                #[trigger] old(message).content@[i],
                final(message).content@[i],
            ),
{
    let ghost before = message.content@;
    let mut i: usize = 0;
    while i < message.content.len()
        invariant
            i <= message.content@.len(),
            message.role == old(message).role,
            message.display_text == old(message).display_text,
            before == old(message).content@,
            message.content@.len() == before.len(),
            forall|j: int|
                0 <= j < i ==> canonical_block(#[trigger] before[j], message.content@[j]),
            forall|j: int| i <= j < before.len() ==> message.content@[j] == #[trigger] before[j],
        decreases message.content@.len() - i,
    {
        let renamed: Option<MessageBlock> = match &message.content[i] {
            MessageBlock::ToolUse { id, name, input } => Some(
                MessageBlock::ToolUse {
                    id: id.clone(),
                    name: canonical_tool_name(name.as_str()),
                    input: input.clone(),
                },
            ),
            _ => None,
        };
        match renamed {
            Some(block) => {
                message.content.set(i, block);
            },
            None => {},
        }
        i += 1;
    }
}

/// What the model's provider reports.
#[derive(Debug, PartialEq, Eq)]
pub enum ProviderEvent {
    TextDelta { text: String },
    ThinkingDelta { text: String },
    ThinkingBlockEnd,
    ToolUseStart { id: String, name: String },
    PromptProgress { processed: u32, total: u32, cache: u32 },
}

/// What the agent reports for an event of the provider.
pub open spec fn forwards(event: ProviderEvent, forwarded: RunEvent) -> bool {
    match event {
        ProviderEvent::TextDelta { text } => forwarded == (RunEvent::TextDelta { text }),
        ProviderEvent::ThinkingDelta { text } => forwarded == (RunEvent::ThinkingDelta { text }),
        ProviderEvent::ThinkingBlockEnd => forwarded == RunEvent::ThinkingBlockEnd,
        ProviderEvent::ToolUseStart { id, name } => match forwarded {
            RunEvent::ToolPending { id: pending, name: shown } => pending == id && shown@
                == canonical_name(name@),
            _ => false,
        },
        ProviderEvent::PromptProgress { processed, total, cache } => forwarded == (
        RunEvent::PromptProgress { processed, total, cache }),
    }
}

/// The text that an event of the provider adds to the reply.
pub open spec fn text_of(event: ProviderEvent) -> Seq<char> {
    match event {
        ProviderEvent::TextDelta { text } => text@,
        _ => Seq::empty(),
    }
}

/// The text of the reply after events of the provider.
pub open spec fn streamed_text(events: Seq<ProviderEvent>) -> Seq<char>
    decreases events.len(),
{
    if events.len() == 0 {
        Seq::empty()
    } else {
        streamed_text(events.drop_last()) + text_of(events.last())
    }
}

/// The events of one reply on their way to the host: the text of the reply so far, and whether the
/// host has stopped taking events.
#[derive(Debug)]
pub struct Forwarding {
    pub streamed: String,
    pub stopped: bool,
}

impl Forwarding {
    /// Before the first event.
    pub fn new() -> (result: Self)
        ensures
            result.streamed@ == Seq::<char>::empty(),
            !result.stopped,
    {
        Forwarding { streamed: String::new(), stopped: false }
    }

    /// Takes an event of the provider: what the agent reports for it. Once the host has stopped
    /// taking events, none is looked at any more.
    pub fn forward(&mut self, event: ProviderEvent) -> (result: Option<RunEvent>)
        ensures
            final(self).stopped == old(self).stopped,
            if old(self).stopped {
                result is None && final(self).streamed@ == old(self).streamed@
            } else {
                &&& result matches Some(forwarded) && forwards(event, forwarded)
                &&& final(self).streamed@ == old(self).streamed@ + text_of(event)
            },
    {
        if self.stopped {
            return None;
        }
        assert(old(self).streamed@ + Seq::<char>::empty() =~= old(self).streamed@);
        Some(
            match event {
                ProviderEvent::TextDelta { text } => {
                    self.streamed.append(text.as_str());
                    RunEvent::TextDelta { text }
                },
                ProviderEvent::ThinkingDelta { text } => RunEvent::ThinkingDelta { text },
                ProviderEvent::ThinkingBlockEnd => RunEvent::ThinkingBlockEnd,
                ProviderEvent::ToolUseStart { id, name } => RunEvent::ToolPending {
                    id,
                    name: canonical_tool_name(name.as_str()),
                },
                ProviderEvent::PromptProgress { processed, total, cache } => {
                    RunEvent::PromptProgress { processed, total, cache }
                },
            },
        )
    }

    /// Takes whether the host took what was reported last: the first refusal stops the forwarding.
    pub fn reported(&mut self, delivered: bool)
        ensures
            final(self).streamed@ == old(self).streamed@,
            final(self).stopped == (old(self).stopped || !delivered),
    {
        if !delivered {
            self.stopped = true;
        }
    }
}

/// How many of the provider's events are reported to a host that takes so many and refuses the
/// next: those it takes, and the one that it refuses.
pub open spec fn reported_count(events: int, accepted: int) -> int {
    if accepted < events {
        accepted + 1
    } else {
        events
    }
}

/// Takes the events of the provider in order, for a host that takes `accepted` of them and refuses
/// the next: what the agent reports up to the refusal, and the text of the reply up to there.
pub fn forward_provider_events(events: Vec<ProviderEvent>, accepted: usize) -> (result: (
    Vec<RunEvent>,
    String,
))
    ensures
        result.0@.len() == reported_count(events@.len() as int, accepted as int),
        forall|i: int|
            0 <= i < result.0@.len() ==> forwards(events@[i], #[trigger] result.0@[i]),
        result.1@ == streamed_text(events@.take(result.0@.len() as int)),
{
    let ghost all = events@;
    let mut rest = reversed(events);
    let mut forwarded: Vec<RunEvent> = Vec::new();
    let mut forwarding = Forwarding::new();
    assert(all.take(0) =~= Seq::empty());
    while rest.len() > 0 && !forwarding.stopped
        invariant
            forwarded@.len() <= all.len(),
            forwarding.stopped ==> forwarded@.len() == accepted + 1,
            !forwarding.stopped ==> forwarded@.len() <= accepted,
            rest@.len() == all.len() - forwarded@.len(),
            forall|j: int| 0 <= j < rest@.len() ==> rest@[j] == all[all.len() - 1 - j],
            forall|i: int|
                0 <= i < forwarded@.len() ==> forwards(all[i], #[trigger] forwarded@[i]),
            forwarding.streamed@ == streamed_text(all.take(forwarded@.len() as int)),
        decreases rest@.len(),
    {
        match rest.pop() {
            Some(event) => {
                let ghost done = forwarded@.len() as int;
                assert(event == all[done]);
                assert(all.take(done + 1).drop_last() =~= all.take(done));
                assert(all.take(done + 1).last() == event);
                match forwarding.forward(event) {
                    Some(report) => {
                        let delivered = forwarded.len() < accepted;
                        forwarded.push(report);
                        forwarding.reported(delivered);
                    },
                    None => {},
                }
            },
            None => {},
        }
    }
    (forwarded, forwarding.streamed)
}

/// Why the provider failed, as far as it matters for what is done next.
#[derive(Debug, PartialEq, Eq)]
pub struct ProviderFailure {
    pub message: String,
    pub is_auth: bool,
}

/// Why a reply did not come. One that is cancelled while it streams leaves the text that the user
/// has seen; one that is cancelled between two attempts leaves none, because the failed attempt's
/// text has been taken back.
#[derive(Debug, PartialEq, Eq)]
pub enum StreamError {
    Cancelled { streamed: String },
    Other(ProviderFailure),
}

/// How often a request was tried, and how many other keys there are to try it with.
#[derive(Debug, Clone, Copy, PartialEq, Eq, Structural)]
pub struct StreamAttempts {
    pub attempt: u32,
    pub rotations_left: u32,
}

/// What is done after an attempt has failed.
#[derive(Debug, Clone, Copy, PartialEq, Eq, Structural)]
pub enum RetryDecision {
    GiveUp,
    Retry { attempt: u32, delay_ms: u64 },
}

/// The attempts after another key has been asked for: each key is tried once.
pub open spec fn after_booking(before: StreamAttempts, wanted: bool) -> StreamAttempts {
    if wanted && before.rotations_left > 0 {
        StreamAttempts { rotations_left: (before.rotations_left - 1) as u32, ..before }
    } else {
        before
    }
}

impl StreamAttempts {
    /// Before the first attempt, with so many keys.
    pub fn new(keys: u32) -> (result: Self)
        ensures
            result.attempt == 0,
            result.rotations_left == (if keys > 0 {
                keys - 1
            } else {
                0
            }),
    {
        StreamAttempts { attempt: 0, rotations_left: if keys > 0 { keys - 1 } else { 0 } }
    }

    /// Whether another key is to be tried: the failure has to ask for one, and each key is tried
    /// once.
    pub fn book_rotation(&mut self, wanted: bool) -> (result: bool)
        ensures
            result == (wanted && old(self).rotations_left > 0),
            *final(self) == after_booking(*old(self), wanted),
    {
        if wanted && self.rotations_left > 0 {
            self.rotations_left = self.rotations_left - 1;
            true
        } else {
            false
        }
    }

    /// What is done after an attempt has failed. Another key is tried at once; otherwise a failure
    /// that can pass is tried again after a delay, as long as there is one.
    pub fn failed(&mut self, rotated: bool, retryable: bool, delay_ms: Option<u64>)
        -> (result: RetryDecision)
        requires
            old(self).attempt < u32::MAX,
        ensures
            *final(self) == (StreamAttempts {
                attempt: (old(self).attempt + 1) as u32,
                ..*old(self)
            }),
            result == (if rotated {
                RetryDecision::Retry { attempt: final(self).attempt, delay_ms: 0 }
            } else if retryable && delay_ms is Some {
                RetryDecision::Retry { attempt: final(self).attempt, delay_ms: delay_ms->0 }
            } else {
                RetryDecision::GiveUp
            }),
    {
        self.attempt = self.attempt + 1;
        if rotated {
            RetryDecision::Retry { attempt: self.attempt, delay_ms: 0 }
        } else if !retryable {
            RetryDecision::GiveUp
        } else {
            match delay_ms {
                Some(delay_ms) => RetryDecision::Retry { attempt: self.attempt, delay_ms },
                None => RetryDecision::GiveUp,
            }
        }
    }
}

/// A reply that was cancelled, while it streamed or between two attempts.
pub fn cancelled_stream(streamed: String, waiting: bool) -> (result: StreamError)
    ensures
        match result {
            StreamError::Cancelled { streamed: kept } => if waiting {
                kept@.len() == 0
            } else {
                kept == streamed
            },
            _ => false,
        },
{
    if waiting {
        StreamError::Cancelled { streamed: String::new() }
    } else {
        StreamError::Cancelled { streamed }
    }
}

/// The attempts after another key has been asked for so many times.
pub open spec fn after_bookings(before: StreamAttempts, times: nat) -> StreamAttempts
    decreases times,
{
    if times == 0 {
        before
    } else {
        after_booking(after_bookings(before, (times - 1) as nat), true)
    }
}

/// How many of so many requests for another key are granted.
pub open spec fn granted(before: StreamAttempts, times: nat) -> nat
    decreases times,
{
    if times == 0 {
        0
    } else {
        let earlier = (times - 1) as nat;
        granted(before, earlier) + if after_bookings(before, earlier).rotations_left > 0 {
            1nat
        } else {
            0
        }
    }
}

/// A pool of keys is walked once: however often another key is asked for, each key but the first
/// is granted once, and then no more.
pub proof fn law_each_key_is_tried_once(keys: u32, times: nat)
    requires
        keys > 0,
    ensures
        granted(StreamAttempts { attempt: 0, rotations_left: (keys - 1) as u32 }, times) == (if times
            < keys {
            times as int
        } else {
            keys - 1
        }),
    decreases times,
{
    lemma_rotations_left(StreamAttempts { attempt: 0, rotations_left: (keys - 1) as u32 }, times);
    if times > 0 {
        let earlier = (times - 1) as nat;
        lemma_rotations_left(
            StreamAttempts { attempt: 0, rotations_left: (keys - 1) as u32 },
            earlier,
        );
        law_each_key_is_tried_once(keys, earlier);
    }
}

/// How many keys are left after another one has been asked for so many times.
proof fn lemma_rotations_left(before: StreamAttempts, times: nat)
    ensures
        after_bookings(before, times).rotations_left == (if times < before.rotations_left {
            before.rotations_left - times
        } else {
            0
        }),
    decreases times,
{
    if times > 0 {
        lemma_rotations_left(before, (times - 1) as nat);
    }
}

} // verus!
