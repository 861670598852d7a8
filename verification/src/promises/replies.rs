//! Replies as they stream in, and side questions.
use vstd::prelude::*;

use crate::agent::events::RunEvent;
use crate::agent::isolated_turn;
use crate::agent::isolated_turn::{
    isolated_event, isolated_messages, isolated_terminal, run_isolated_turn, IsolatedEnd,
    IsolatedTurnEvent,
};
use crate::agent::streaming;
use crate::agent::streaming::{
    cancelled_stream, canonical_tool_name, canonicalize_tool_names, forward_provider_events,
    Forwarding, ProviderEvent, RetryDecision, StreamAttempts, StreamError,
};
use crate::promises::messages;
use crate::types::{ImageSource, Message};

verus! {

/// A tool's plain name: what stands behind the prefix, or the name itself where it has none.
pub open spec fn is_plain_name(name: Seq<char>, plain: Seq<char>) -> bool {
    ||| name == "functions."@ + plain
    ||| name == plain && !"functions."@.is_prefix_of(name)
}

/// The canonical name is the plain one.
pub proof fn lemma_plain_name(name: Seq<char>)
    ensures
        is_plain_name(name, streaming::canonical_name(name)),
{
    let prefix = "functions."@;
    if prefix.is_prefix_of(name) {
        assert(name =~= prefix + name.skip(prefix.len() as int)) by {
            assert(name.subrange(0, prefix.len() as int) == prefix);
            assert forall|i: int| 0 <= i < prefix.len() implies name[i] == prefix[i] by {
                assert(name.subrange(0, prefix.len() as int)[i] == prefix[i]);
            }
        }
    }
}

/// A plain name is the only one.
pub proof fn lemma_one_plain_name(name: Seq<char>, plain: Seq<char>)
    requires
        is_plain_name(name, plain),
    ensures
        plain == streaming::canonical_name(name),
{
    let prefix = "functions."@;
    if name == prefix + plain {
        assert(name.subrange(0, prefix.len() as int) =~= prefix);
        assert(prefix.is_prefix_of(name));
        assert(name.skip(prefix.len() as int) =~= plain);
    }
}

/// The prefix that some models put before a tool's name is left out, and nothing else.
pub proof fn law_prefixes_are_left_out(name: &str, plain: String)
    requires
        call_ensures(canonical_tool_name, (name,), plain),
    ensures
        is_plain_name(name@, plain@),
{
    lemma_plain_name(name@);
}

/// Of a message only the names of the tools that it calls change, to their plain ones.
pub proof fn law_only_tool_names_change(message: &mut Message, i: int)
    requires
        call_ensures(canonicalize_tool_names, (message,), ()),
    ensures
        final(message).role == old(message).role,
        final(message).display_text == old(message).display_text,
        final(message).content@.len() == old(message).content@.len(),
        0 <= i < old(message).content@.len() && !(old(message).content@[i] is ToolUse)
            ==> final(message).content@[i] == old(message).content@[i],
        0 <= i < old(message).content@.len() && old(message).content@[i] is ToolUse ==> {
            &&& final(message).content@[i] is ToolUse
            &&& final(message).content@[i]->ToolUse_id@ == old(message).content@[i]->ToolUse_id@
            &&& final(message).content@[i]->ToolUse_input@
                == old(message).content@[i]->ToolUse_input@
            &&& is_plain_name(
                old(message).content@[i]->ToolUse_name@,
                final(message).content@[i]->ToolUse_name@,
            )
        },
{
    if 0 <= i < old(message).content@.len() {
        assert(streaming::canonical_block(old(message).content@[i], final(message).content@[i]));
        if old(message).content@[i] is ToolUse {
            lemma_plain_name(old(message).content@[i]->ToolUse_name@);
        }
    }
}

/// What the agent reports of an event of the provider is that event: text as text, thinking as
/// thinking, and a tool under its plain name.
pub open spec fn is_report_of(event: ProviderEvent, report: RunEvent) -> bool {
    match event {
        ProviderEvent::TextDelta { text } => report == (RunEvent::TextDelta { text }),
        ProviderEvent::ThinkingDelta { text } => report == (RunEvent::ThinkingDelta { text }),
        ProviderEvent::ThinkingBlockEnd => report is ThinkingBlockEnd,
        ProviderEvent::ToolUseStart { id, name } => report matches RunEvent::ToolPending {
            id: own,
            name: shown,
        } && own@ == id@ && is_plain_name(name@, shown@),
        ProviderEvent::PromptProgress { processed, total, cache } => {
            report matches RunEvent::PromptProgress { processed: p, total: t, cache: c } && p
                == processed && t == total && c == cache
        },
    }
}

/// A report is that of its event.
proof fn lemma_report(event: ProviderEvent, report: RunEvent)
    requires
        streaming::forwards(event, report),
    ensures
        is_report_of(event, report),
{
    match event {
        ProviderEvent::ToolUseStart { name, .. } => {
            lemma_plain_name(name@);
        },
        _ => {},
    }
}

/// Every event of the provider is reported as what it is, and only text adds to the text of the
/// reply, until the host refuses: then nothing is looked at any more.
pub proof fn law_events_are_forwarded(
    forwarding: &mut Forwarding,
    event: ProviderEvent,
    report: Option<RunEvent>,
    fresh: Forwarding,
)
    requires
        call_ensures(Forwarding::forward, (forwarding, event), report),
        call_ensures(Forwarding::new, (), fresh),
    ensures
        fresh.streamed@.len() == 0,
        !fresh.stopped,
        final(forwarding).stopped == old(forwarding).stopped,
        report is None <==> old(forwarding).stopped,
        report matches Some(told) ==> is_report_of(event, told),
        !old(forwarding).stopped && event is TextDelta ==> final(forwarding).streamed@
            == old(forwarding).streamed@ + event->TextDelta_text@,
        old(forwarding).stopped || !(event is TextDelta) ==> final(forwarding).streamed@
            == old(forwarding).streamed@,
{
    if report is Some {
        lemma_report(event, report->0);
    }
}

/// The first refusal stops the forwarding for good, and leaves the text as it is.
pub proof fn law_a_refusal_stops_the_forwarding(forwarding: &mut Forwarding, delivered: bool)
    requires
        call_ensures(Forwarding::reported, (forwarding, delivered), ()),
    ensures
        final(forwarding).streamed@ == old(forwarding).streamed@,
        final(forwarding).stopped <==> old(forwarding).stopped || !delivered,
{
}

/// The text of the first events of a reply.
pub open spec fn text_until(events: Seq<ProviderEvent>, count: int) -> Seq<char>
    decreases count,
{
    if count <= 0 {
        Seq::empty()
    } else {
        match events[count - 1] {
            ProviderEvent::TextDelta { text } => text_until(events, count - 1) + text@,
            _ => text_until(events, count - 1),
        }
    }
}

/// The text of the first events.
proof fn lemma_text_until(events: Seq<ProviderEvent>, count: int)
    requires
        0 <= count <= events.len(),
    ensures
        streaming::streamed_text(events.take(count)) == text_until(events, count),
    decreases count,
{
    if count > 0 {
        lemma_text_until(events, count - 1);
        assert(events.take(count).drop_last() =~= events.take(count - 1));
        assert(text_until(events, count - 1) + Seq::<char>::empty() =~= text_until(
            events,
            count - 1,
        ));
    }
}

/// Events are reported in order up to the one that the host refuses, each as what it is, and the
/// text of the reply is the text of these.
pub proof fn law_events_are_reported_until_refused(
    events: Vec<ProviderEvent>,
    accepted: usize,
    reported: (Vec<RunEvent>, String),
    i: int,
)
    requires
        call_ensures(forward_provider_events, (events, accepted), reported),
    ensures
        events@.len() <= accepted ==> reported.0@.len() == events@.len(),
        events@.len() > accepted ==> reported.0@.len() == accepted + 1,
        0 <= i < reported.0@.len() ==> is_report_of(events@[i], reported.0@[i]),
        reported.1@ == text_until(events@, reported.0@.len() as int),
{
    lemma_text_until(events@, reported.0@.len() as int);
    if 0 <= i < reported.0@.len() {
        lemma_report(events@[i], reported.0@[i]);
    }
}

/// Each key but the first is tried once: another is booked exactly where one is wanted and left.
pub proof fn law_keys_are_booked_while_there_are_some(
    attempts: &mut StreamAttempts,
    wanted: bool,
    booked: bool,
    keys: u32,
    fresh: StreamAttempts,
)
    requires
        call_ensures(StreamAttempts::book_rotation, (attempts, wanted), booked),
        call_ensures(StreamAttempts::new, (keys,), fresh),
    ensures
        booked <==> wanted && old(attempts).rotations_left > 0,
        booked ==> final(attempts).rotations_left == old(attempts).rotations_left - 1,
        !booked ==> final(attempts).rotations_left == old(attempts).rotations_left,
        final(attempts).attempt == old(attempts).attempt,
        fresh.attempt == 0,
        keys > 0 ==> fresh.rotations_left == keys - 1,
        keys == 0 ==> fresh.rotations_left == 0,
{
}

/// A failed attempt is counted. With another key it is tried again at once; a failure that can pass
/// is tried again after its delay; any other is given up.
pub proof fn law_failed_attempts_are_counted(
    attempts: &mut StreamAttempts,
    rotated: bool,
    retryable: bool,
    delay_ms: Option<u64>,
    decision: RetryDecision,
)
    requires
        old(attempts).attempt < u32::MAX,
        call_ensures(
            StreamAttempts::failed,
            (attempts, rotated, retryable, delay_ms),
            decision,
        ),
    ensures
        final(attempts).attempt == old(attempts).attempt + 1,
        final(attempts).rotations_left == old(attempts).rotations_left,
        decision is GiveUp <==> !rotated && !(retryable && delay_ms is Some),
        decision matches RetryDecision::Retry { attempt, delay_ms: after } ==> {
            &&& attempt == final(attempts).attempt
            &&& rotated ==> after == 0
            &&& !rotated ==> delay_ms == Some(after)
        },
{
}

/// A reply that is cancelled while it streams leaves its text, and one that is cancelled between two
/// attempts leaves none.
pub proof fn law_cancelled_replies_leave_what_was_seen(
    streamed: String,
    waiting: bool,
    error: StreamError,
)
    requires
        call_ensures(cancelled_stream, (streamed, waiting), error),
    ensures
        error matches StreamError::Cancelled { streamed: kept } && {
            &&& waiting ==> kept@.len() == 0
            &&& !waiting ==> kept@ == streamed@
        },
{
}

/// A side question is answered from the whole conversation, with the question and its images last,
/// behind the reminder that nothing but an answer is wanted.
pub proof fn law_side_questions_come_last(
    history: Vec<Message>,
    question: &str,
    images: Vec<ImageSource>,
    asked: Vec<Message>,
    i: int,
)
    requires
        call_ensures(isolated_messages, (history, question, images), asked),
    ensures
        asked@.len() == history@.len() + 1,
        0 <= i < history@.len() ==> asked@[i] == history@[i],
        messages::says(
            asked@.last(),
            "<system-reminder>\nThis is a side question. Answer it directly in a single response.\n- You have NO tools: you cannot read files, run commands, or take any action.\n- One-off response: there are no follow-up turns.\n- Answer ONLY from the existing conversation context.\n- Never say \"Let me...\", \"I'll now...\", or promise any action.\n- If you don't know, say so; do not offer to look it up.\n</system-reminder>"@
                + "\n\n"@ + question@,
            images@,
        ),
{
    if 0 <= i < history@.len() {
        assert(asked@.take(history@.len() as int)[i] == asked@[i]);
    }
}

/// A side question reports text as text and thinking as thinking, and nothing else; it ends as its
/// answer ended.
pub proof fn law_side_questions_report_what_is_said(
    event: ProviderEvent,
    report: Option<IsolatedTurnEvent>,
    end: IsolatedEnd,
    last: IsolatedTurnEvent,
)
    requires
        call_ensures(isolated_event, (event,), report),
        call_ensures(isolated_terminal, (end,), last),
    ensures
        event matches ProviderEvent::TextDelta { text } ==> report == Some(
            IsolatedTurnEvent::TextDelta(text),
        ),
        event matches ProviderEvent::ThinkingDelta { text } ==> report == Some(
            IsolatedTurnEvent::ThinkingDelta(text),
        ),
        !(event is TextDelta || event is ThinkingDelta) ==> report is None,
        end is Answered ==> last is Done,
        end is Cancelled ==> last is Cancelled,
        end matches IsolatedEnd::Failed(why) ==> last == IsolatedTurnEvent::Error(why),
{
}

/// So many of the first events say something.
pub open spec fn said_until(events: Seq<ProviderEvent>, count: int) -> int
    decreases count,
{
    if count <= 0 {
        0
    } else if events[count - 1] is TextDelta || events[count - 1] is ThinkingDelta {
        said_until(events, count - 1) + 1
    } else {
        said_until(events, count - 1)
    }
}

/// An event that says something is reported in its place.
pub open spec fn is_said(
    events: Seq<ProviderEvent>,
    reports: Seq<IsolatedTurnEvent>,
    i: int,
) -> bool {
    let at = said_until(events, i);
    &&& 0 <= at
    &&& events[i] is TextDelta || events[i] is ThinkingDelta ==> at < reports.len()
    &&& events[i] matches ProviderEvent::TextDelta { text } ==> reports[at]
        == IsolatedTurnEvent::TextDelta(text)
    &&& events[i] matches ProviderEvent::ThinkingDelta { text } ==> reports[at]
        == IsolatedTurnEvent::ThinkingDelta(text)
}

/// What is reported of the first events.
proof fn lemma_said(events: Seq<ProviderEvent>, count: int)
    requires
        0 <= count <= events.len(),
    ensures
        isolated_turn::reported(events.take(count)).len() == said_until(events, count),
        forall|i: int|
            0 <= i < count ==> #[trigger] is_said(
                events,
                isolated_turn::reported(events.take(count)),
                i,
            ),
    decreases count,
{
    if count > 0 {
        lemma_said(events, count - 1);
        assert(events.take(count).drop_last() =~= events.take(count - 1));
        let before = isolated_turn::reported(events.take(count - 1));
        let after = isolated_turn::reported(events.take(count));
        assert forall|i: int| 0 <= i < count implies #[trigger] is_said(events, after, i) by {
            if i < count - 1 {
                assert(is_said(events, before, i));
            }
        }
    }
}

/// A side question reports all that is said, in order, and then how it ended.
pub proof fn law_side_questions_report_all_and_end(
    events: Vec<ProviderEvent>,
    end: IsolatedEnd,
    reports: Vec<IsolatedTurnEvent>,
    i: int,
)
    requires
        call_ensures(run_isolated_turn, (events, end), reports),
    ensures
        reports@.len() == said_until(events@, events@.len() as int) + 1,
        0 <= i < events@.len() ==> is_said(events@, reports@.drop_last(), i),
        end is Answered ==> reports@.last() is Done,
        end is Cancelled ==> reports@.last() is Cancelled,
        end matches IsolatedEnd::Failed(why) ==> reports@.last() == IsolatedTurnEvent::Error(why),
{
    lemma_said(events@, events@.len() as int);
    assert(events@.take(events@.len() as int) =~= events@);
}

} // verus!
