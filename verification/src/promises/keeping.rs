//! What is kept: maps by text, lists, notices, recent calls, copies, and values to start from.
use vstd::prelude::*;

use crate::acp::pending::{dismissed_text, RequestId};
use crate::actor::queue::ActorQueue;
use crate::actor::work::{ActorLifecycle, RootWork};
use crate::agent::catalog::Callable;
use crate::agent::events::{copy_option, ToolDone, ToolLabel, ToolOutput};
use crate::agent::run::among;
use crate::agent::tool_calls::{RecentCalls, ToolCall};
use crate::command::frontmatter::Frontmatter;
use crate::text_map::{reversed, TextMap};
use crate::types::{
    AgentInput, AgentMode, ImageSource, SessionDefaults, ThinkingConfig, TokenUsage, TurnFailure,
    TurnOutcome,
};

verus! {

/// What was put under a key last is found there, and no other key finds anything else than before.
pub proof fn law_what_was_put_is_found<V>(
    map: &mut TextMap<V>,
    key: String,
    value: V,
    asked: &str,
    before: Option<&V>,
    found: Option<&V>,
)
    requires
        call_ensures(TextMap::<V>::get, (&*old(map), asked), before),
        call_ensures(TextMap::<V>::insert, (map, key, value), ()),
        call_ensures(TextMap::<V>::get, (&*final(map), asked), found),
    ensures
        asked@ == key@ ==> found == Some(&value),
        asked@ != key@ ==> found == before,
{
}

/// What was removed is not found, and no other key finds anything else than before.
pub proof fn law_what_was_removed_is_gone<V>(
    map: &mut TextMap<V>,
    key: &str,
    asked: &str,
    before: Option<&V>,
    found: Option<&V>,
    there: bool,
)
    requires
        call_ensures(TextMap::<V>::get, (&*old(map), asked), before),
        call_ensures(TextMap::<V>::remove, (map, key), ()),
        call_ensures(TextMap::<V>::get, (&*final(map), asked), found),
        call_ensures(TextMap::<V>::contains, (&*final(map), asked), there),
    ensures
        asked@ == key@ ==> found is None,
        asked@ != key@ ==> found == before,
        there <==> found is Some,
{
}

/// A new map finds nothing, and neither does one that was cleared.
pub proof fn law_empty_maps_find_nothing<V>(
    fresh: TextMap<V>,
    map: &mut TextMap<V>,
    asked: &str,
    found: Option<&V>,
    left: Option<&V>,
)
    requires
        call_ensures(TextMap::<V>::new, (), fresh),
        call_ensures(TextMap::<V>::get, (&fresh, asked), found),
        call_ensures(TextMap::<V>::clear, (map,), ()),
        call_ensures(TextMap::<V>::get, (&*final(map), asked), left),
    ensures
        found is None,
        left is None,
{
}

/// A list in reverse has the same elements, the last first.
pub proof fn law_reversed_lists_start_at_the_end<T>(list: Vec<T>, result: Vec<T>, i: int)
    requires
        call_ensures(reversed::<T>, (list,), result),
    ensures
        result@.len() == list@.len(),
        0 <= i < list@.len() ==> result@[i] == list@[list@.len() - 1 - i],
{
}

/// A notice that was raised is taken once, and neither raising nor taking it touches the queue.
pub proof fn law_notices_are_taken_once(
    raising: &mut ActorQueue,
    taking: &mut ActorQueue,
    taken: bool,
    fresh: ActorQueue,
)
    requires
        call_ensures(ActorQueue::notify, (raising,), ()),
        call_ensures(ActorQueue::take_notice, (taking,), taken),
        call_ensures(ActorQueue::new, (), fresh),
    ensures
        final(raising)@ == old(raising)@,
        final(raising).pending_notice(),
        final(taking)@ == old(taking)@,
        !final(taking).pending_notice(),
        taken == old(taking).pending_notice(),
        fresh@.len() == 0,
        !fresh.pending_notice(),
{
}

/// A queue is drained exactly where nothing is left in it but barriers; then, and only then, that
/// is published.
pub proof fn law_drained_queues_are_published<F: FnOnce()>(
    queue: ActorQueue,
    publish: F,
    published: bool,
)
    requires
        call_ensures(ActorQueue::publish_if_empty::<F>, (&queue, publish), published),
    ensures
        published <==> (forall|i: int|
            0 <= i < queue@.len() ==> #[trigger] queue@[i] is PolicyBarrier),
        published ==> publish.ensures((), ()),
{
}

/// A call repeats exactly where the two before it were of the same tool with the same input.
pub proof fn law_third_calls_repeat(calls: RecentCalls, name: &str, hash: u64, repeats: bool)
    requires
        call_ensures(RecentCalls::is_repeat, (&calls, name, hash), repeats),
    ensures
        repeats ==> calls@.len() >= 2,
        calls@.len() >= 2 ==> (repeats <==> {
            let last = calls@[calls@.len() - 1];
            let other = calls@[calls@.len() - 2];
            last.0 == name@ && last.1 == hash && other.0 == name@ && other.1 == hash
        }),
{
}

/// A call that is recorded is the last, and those before it stay in order, as many as matter.
pub proof fn law_recorded_calls_are_last(calls: &mut RecentCalls, name: &str, hash: u64)
    requires
        call_ensures(RecentCalls::record_hash, (calls, name, hash), ()),
    ensures
        final(calls)@.len() > 0,
        final(calls)@.last().0 == name@,
        final(calls)@.last().1 == hash,
        old(calls)@.len() >= 3 ==> final(calls)@.len() == old(calls)@.len(),
        old(calls)@.len() < 3 ==> final(calls)@.len() == old(calls)@.len() + 1,
        forall|i: int|
            1 <= i < final(calls)@.len() && i <= old(calls)@.len() ==> #[trigger] final(
                calls)@[final(calls)@.len() - 1 - i] == old(calls)@[old(calls)@.len() - i],
{
}

/// The same call twice in a row, recorded each time, makes the next one of it a repetition.
pub proof fn law_a_call_made_twice_repeats(
    first: &mut RecentCalls,
    second: &mut RecentCalls,
    name: &str,
    hash: u64,
    repeats: bool,
)
    requires
        call_ensures(RecentCalls::record_hash, (first, name, hash), ()),
        *old(second) == *final(first),
        call_ensures(RecentCalls::record_hash, (second, name, hash), ()),
        call_ensures(RecentCalls::is_repeat, (&*final(second), name, hash), repeats),
    ensures
        repeats,
{
}

/// A text is among others exactly where one of them is it.
pub proof fn law_a_text_is_among_others(texts: Vec<String>, text: &str, found: bool)
    requires
        call_ensures(among, (&texts, text), found),
    ensures
        found <==> (exists|i: int| 0 <= i < texts@.len() && (#[trigger] texts@[i])@ == text@),
{
}

/// A question that is dismissed is answered by saying so.
pub proof fn law_dismissals_say_so(written: String)
    requires
        call_ensures(dismissed_text, (), written),
    ensures
        written@ == "{\"dismissed\":true}"@,
{
}

/// A root that comes alone is what it is made of, and stands for nothing else.
pub proof fn law_new_roots_stand_alone(
    input: AgentInput,
    run_id: u64,
    displayed: bool,
    text: String,
    images: Vec<ImageSource>,
    correlation: String,
    root: RootWork,
)
    requires
        call_ensures(
            RootWork::new,
            (input, run_id, displayed, text, images, correlation),
            root,
        ),
    ensures
        root.input == input,
        root.run_id == run_id,
        root.displayed == displayed,
        root.text == text,
        root.images == images,
        root.correlation == correlation,
        root.generation == 0,
        root.earlier@.len() == 0,
{
}

/// What there is at first: an actor that is open, a session that does not think and has its
/// switches off, nothing spent, and a heading that says nothing.
pub proof fn law_first_values_are_empty(
    lifecycle: ActorLifecycle,
    defaults: SessionDefaults,
    usage: TokenUsage,
    heading: Frontmatter,
    queue: ActorQueue,
)
    requires
        call_ensures(ActorLifecycle::default, (), lifecycle),
        call_ensures(SessionDefaults::default, (), defaults),
        call_ensures(TokenUsage::default, (), usage),
        call_ensures(Frontmatter::default, (), heading),
        call_ensures(ActorQueue::default, (), queue),
    ensures
        lifecycle == ActorLifecycle::Open,
        defaults.thinking == ThinkingConfig::Off,
        !defaults.fast,
        !defaults.workflow,
        usage.input == 0,
        usage.output == 0,
        usage.cache_creation == 0,
        usage.cache_read == 0,
        heading.name is None,
        heading.description is None,
        heading.argument_hint is None,
        queue@.len() == 0,
        !queue.pending_notice(),
{
}

/// A copy is what it is a copy of.
pub proof fn law_copies_are_the_same(
    outcome: TurnOutcome,
    outcome_copy: TurnOutcome,
    failure: TurnFailure,
    failure_copy: TurnFailure,
    image: ImageSource,
    image_copy: ImageSource,
    mode: AgentMode,
    mode_copy: AgentMode,
    text: Option<String>,
    text_copy: Option<String>,
)
    requires
        call_ensures(TurnOutcome::clone, (&outcome,), outcome_copy),
        call_ensures(TurnFailure::clone, (&failure,), failure_copy),
        call_ensures(ImageSource::clone, (&image,), image_copy),
        call_ensures(AgentMode::clone, (&mode,), mode_copy),
        call_ensures(copy_option, (&text,), text_copy),
    ensures
        outcome_copy == outcome,
        failure_copy == failure,
        image_copy == image,
        mode_copy == mode,
        text_copy == text,
{
}

/// A copy of what tools are called by and end with is the same.
pub proof fn law_copies_of_calls_are_the_same(
    output: ToolOutput,
    output_copy: ToolOutput,
    label: ToolLabel,
    label_copy: ToolLabel,
    done: ToolDone,
    done_copy: ToolDone,
    call: ToolCall,
    call_copy: ToolCall,
    callable: Callable,
    callable_copy: Callable,
    id: RequestId,
    id_copy: RequestId,
)
    requires
        call_ensures(ToolOutput::clone, (&output,), output_copy),
        call_ensures(ToolLabel::clone, (&label,), label_copy),
        call_ensures(ToolDone::clone, (&done,), done_copy),
        call_ensures(ToolCall::clone, (&call,), call_copy),
        call_ensures(Callable::clone, (&callable,), callable_copy),
        call_ensures(RequestId::clone, (&id,), id_copy),
    ensures
        output_copy == output,
        label_copy == label,
        done_copy == done,
        call_copy == call,
        callable_copy == callable,
        id_copy == id,
{
}

} // verus!
