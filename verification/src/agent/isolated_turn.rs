//! A question on the side: answered from the conversation so far, without tools and without a
//! trace in it.
use vstd::prelude::*;

use crate::agent::streaming::ProviderEvent;
use crate::types;
use crate::types::{ImageSource, Message};

verus! {

/// What the side question reports while it is answered.
#[derive(Debug, PartialEq, Eq)]
pub enum IsolatedTurnEvent {
    TextDelta(String),
    ThinkingDelta(String),
    Done,
    Cancelled,
    Error(String),
}

/// What the model is told before a side question.
pub open spec fn reminder() -> Seq<char> {
    "<system-reminder>\nThis is a side question. Answer it directly in a single response.\n- You have NO tools: you cannot read files, run commands, or take any action.\n- One-off response: there are no follow-up turns.\n- Answer ONLY from the existing conversation context.\n- Never say \"Let me...\", \"I'll now...\", or promise any action.\n- If you don't know, say so; do not offer to look it up.\n</system-reminder>"@
}

/// The messages that a side question is answered from: a copy of the conversation, in which every
/// tool call has its result, and the question behind a reminder.
pub fn isolated_messages(history: Vec<Message>, question: &str, images: Vec<ImageSource>)
    -> (result: Vec<Message>)
    ensures
        result@.len() == history@.len() + 1,
        result@.take(history@.len() as int) == history@,
        types::is_user_message(result@.last(), reminder() + "\n\n"@ + question@, images@),
{
    let mut messages = history;
    let mut text =
        "<system-reminder>\nThis is a side question. Answer it directly in a single response.\n- You have NO tools: you cannot read files, run commands, or take any action.\n- One-off response: there are no follow-up turns.\n- Answer ONLY from the existing conversation context.\n- Never say \"Let me...\", \"I'll now...\", or promise any action.\n- If you don't know, say so; do not offer to look it up.\n</system-reminder>".to_owned();
    text.append("\n\n");
    text.append(question);
    messages.push(Message::user_with_images(text, images));
    assert(messages@.take(history@.len() as int) =~= history@);
    messages
}

/// What a side question reports for an event of the provider: text and thinking, nothing else.
pub fn isolated_event(event: ProviderEvent) -> (result: Option<IsolatedTurnEvent>)
    ensures
        result == match event {
            ProviderEvent::TextDelta { text } => Some(IsolatedTurnEvent::TextDelta(text)),
            ProviderEvent::ThinkingDelta { text } => Some(IsolatedTurnEvent::ThinkingDelta(text)),
            _ => None,
        },
{
    match event {
        ProviderEvent::TextDelta { text } => Some(IsolatedTurnEvent::TextDelta(text)),
        ProviderEvent::ThinkingDelta { text } => Some(IsolatedTurnEvent::ThinkingDelta(text)),
        _ => None,
    }
}

/// How the provider's answer ended.
#[derive(Debug, PartialEq, Eq)]
pub enum IsolatedEnd {
    Answered,
    Cancelled,
    Failed(String),
}

/// The last event of a side question.
pub fn isolated_terminal(end: IsolatedEnd) -> (result: IsolatedTurnEvent)
    ensures
        result == match end {
            IsolatedEnd::Answered => IsolatedTurnEvent::Done,
            IsolatedEnd::Cancelled => IsolatedTurnEvent::Cancelled,
            IsolatedEnd::Failed(message) => IsolatedTurnEvent::Error(message),
        },
{
    match end {
        IsolatedEnd::Answered => IsolatedTurnEvent::Done,
        IsolatedEnd::Cancelled => IsolatedTurnEvent::Cancelled,
        IsolatedEnd::Failed(message) => IsolatedTurnEvent::Error(message),
    }
}

/// What a side question reports from first to last: what the provider says that it reports, in
/// order, and then its end.
pub open spec fn reported(events: Seq<ProviderEvent>) -> Seq<IsolatedTurnEvent>
    decreases events.len(),
{
    if events.len() == 0 {
        Seq::empty()
    } else {
        let before = reported(events.drop_last());
        match events.last() {
            ProviderEvent::TextDelta { text } => before.push(IsolatedTurnEvent::TextDelta(text)),
            ProviderEvent::ThinkingDelta { text } => before.push(
                IsolatedTurnEvent::ThinkingDelta(text),
            ),
            _ => before,
        }
    }
}

/// What a side question reports, given everything that the provider says and how it ended.
pub fn run_isolated_turn(events: Vec<ProviderEvent>, end: IsolatedEnd) -> (result: Vec<
    IsolatedTurnEvent,
>)
    ensures
        result@.len() > 0,
        result@.drop_last() == reported(events@),
        result@.last() == match end {
            IsolatedEnd::Answered => IsolatedTurnEvent::Done,
            IsolatedEnd::Cancelled => IsolatedTurnEvent::Cancelled,
            IsolatedEnd::Failed(message) => IsolatedTurnEvent::Error(message),
        },
{
    let ghost all = events@;
    let mut rest = crate::text_map::reversed(events);
    let mut output: Vec<IsolatedTurnEvent> = Vec::new();
    let ghost mut done: int = 0;
    assert(all.take(0) =~= Seq::empty());
    while rest.len() > 0
        invariant
            0 <= done <= all.len(),
            rest@.len() == all.len() - done,
            forall|j: int| 0 <= j < rest@.len() ==> rest@[j] == all[all.len() - 1 - j],
            output@ == reported(all.take(done)),
        decreases rest@.len(),
    {
        match rest.pop() {
            Some(event) => {
                assert(event == all[done]);
                assert(all.take(done + 1).drop_last() =~= all.take(done));
                assert(all.take(done + 1).last() == event);
                match isolated_event(event) {
                    Some(event) => {
                        output.push(event);
                    },
                    None => {},
                }
                proof {
                    done = done + 1;
                }
            },
            None => {},
        }
    }
    assert(all.take(all.len() as int) =~= all);
    let ghost before = output@;
    output.push(isolated_terminal(end));
    assert(output@.drop_last() =~= before);
    output
}

} // verus!
