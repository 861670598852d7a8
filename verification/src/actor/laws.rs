//! What holds of every actor.
use vstd::prelude::*;

use crate::actor::handle;
use crate::actor::inner;
use crate::actor::inner::{ActorModel, Delivery, RunTokens};
use crate::actor::queue;
use crate::actor::runner;
use crate::actor::work::{
    ActorLifecycle, ActorStatus, ActorWork, BackendResult, ExtractedCommand, RootWork,
    TurnAdmission, WorkKind,
};
use crate::text;
use crate::types;
use crate::types::{AgentId, AgentInput, Message, TurnCancellationReason, TurnId, TurnOutcome};

verus! {

/// A decimal numeral is not empty.
proof fn lemma_decimal_not_empty(n: nat)
    ensures
        text::decimal(n).len() > 0,
    decreases n,
{
}

/// Two numbers with the same decimal numeral are the same.
pub proof fn lemma_decimal_injective(a: nat, b: nat)
    requires
        text::decimal(a) == text::decimal(b),
    ensures
        a == b,
    decreases a,
{
    let left = text::decimal(a);
    let right = text::decimal(b);
    assert(left.last() == text::digit(a % 10));
    assert(right.last() == text::digit(b % 10));
    assert(text::digit(a % 10) as nat == '0' as nat + a % 10);
    assert(text::digit(b % 10) as nat == '0' as nat + b % 10);
    if a >= 10 {
        lemma_decimal_not_empty(a / 10);
    }
    if b >= 10 {
        lemma_decimal_not_empty(b / 10);
    }
    if a >= 10 && b >= 10 {
        assert(left.drop_last() =~= text::decimal(a / 10));
        assert(right.drop_last() =~= text::decimal(b / 10));
        lemma_decimal_injective(a / 10, b / 10);
    }
}

/// Different runs have different keys, so a cancellation of one never hits the other.
pub proof fn law_run_keys_differ(a: u64, b: u64)
    requires
        queue::run_key(a) == queue::run_key(b),
    ensures
        a == b,
{
    let left = text::decimal(a as nat);
    let right = text::decimal(b as nat);
    assert(("r"@ + left).skip("r"@.len() as int) =~= left);
    assert(("r"@ + right).skip("r"@.len() as int) =~= right);
    lemma_decimal_injective(a as nat, b as nat);
}

/// The first outcome of a turn stands: settling the turn again changes nothing, and in particular
/// delivers and resolves nothing a second time.
pub proof fn law_first_outcome_stands(
    actor: ActorModel,
    admission: TurnAdmission,
    first: TurnOutcome,
    again: TurnAdmission,
    second: TurnOutcome,
    deliver: bool,
    deliver_again: bool,
)
    requires
        again.turn_id == admission.turn_id,
    ensures
        ({
            let once = inner::finalized(actor, admission, first, deliver);
            inner::finalized(once, again, second, deliver_again) == once
        }),
{
}

/// Settling dropped work loses no retained outcome.
proof fn lemma_terminalized_retains(
    actor: ActorModel,
    works: Seq<ActorWork>,
    reason: TurnCancellationReason,
)
    ensures
        inner::retains(actor.outcomes, inner::terminalized(actor, works, reason).outcomes),
        inner::terminalized(actor, works, reason).agent_id == actor.agent_id,
        inner::terminalized(actor, works, reason).queue == actor.queue,
        inner::terminalized(actor, works, reason).active == actor.active,
        inner::terminalized(actor, works, reason).tokens == actor.tokens,
        inner::terminalized(actor, works, reason).lifecycle == actor.lifecycle,
        inner::terminalized(actor, works, reason).status == actor.status,
        inner::terminalized(actor, works, reason).marks == actor.marks,
    decreases works.len(),
{
    if works.len() > 0 {
        lemma_terminalized_retains(actor, works.drop_last(), reason);
    }
}

/// Settling dropped work keeps everything of the actor that does not concern settled turns.
pub proof fn lemma_terminalized_keeps(
    actor: ActorModel,
    works: Seq<ActorWork>,
    reason: TurnCancellationReason,
)
    ensures
        inner::retains(actor.outcomes, inner::terminalized(actor, works, reason).outcomes),
        inner::terminalized(actor, works, reason) == (ActorModel {
            outcomes: inner::terminalized(actor, works, reason).outcomes,
            latest: inner::terminalized(actor, works, reason).latest,
            usage: inner::terminalized(actor, works, reason).usage,
            tickets: inner::terminalized(actor, works, reason).tickets,
            deliveries: inner::terminalized(actor, works, reason).deliveries,
            resolutions: inner::terminalized(actor, works, reason).resolutions,
            ..actor
        }),
    decreases works.len(),
{
    lemma_terminalized_retains(actor, works, reason);
    if works.len() > 0 {
        lemma_terminalized_keeps(actor, works.drop_last(), reason);
    }
}

/// No admitted turn is stranded: each turn among dropped work has an outcome afterwards. One that
/// had none before is cancelled for the given reason, and its ticket is no longer open.
pub proof fn law_dropped_turns_settle(
    actor: ActorModel,
    works: Seq<ActorWork>,
    reason: TurnCancellationReason,
    i: int,
)
    requires
        0 <= i < works.len(),
        works[i] is Turn,
    ensures
        ({
            let after = inner::terminalized(actor, works, reason);
            let turn_id = works[i]->Turn_0.turn_id;
            &&& after.outcomes.dom().contains(turn_id.value)
            &&& !actor.outcomes.dom().contains(turn_id.value) ==> {
                &&& after.outcomes[turn_id.value] == inner::cancelled(
                    actor.agent_id,
                    turn_id,
                    reason,
                )
                &&& !after.tickets.contains(turn_id.value)
            }
        }),
    decreases works.len(),
{
    let before = inner::terminalized(actor, works.drop_last(), reason);
    let turn_id = works[i]->Turn_0.turn_id;
    lemma_terminalized_retains(actor, works.drop_last(), reason);
    if i < works.len() - 1 {
        assert(works.drop_last()[i] == works[i]);
        law_dropped_turns_settle(actor, works.drop_last(), reason, i);
    } else if before.outcomes.dom().contains(turn_id.value) {
        if !actor.outcomes.dom().contains(turn_id.value) {
            lemma_newly_settled(actor, works.drop_last(), reason, turn_id.value);
            let j = choose|j: int|
                0 <= j < works.drop_last().len() && works.drop_last()[j] is Turn
                    && #[trigger] works.drop_last()[j]->Turn_0.turn_id.value == turn_id.value;
            law_dropped_turns_settle(actor, works.drop_last(), reason, j);
        }
    }
}

/// An outcome that dropped work brought about belongs to a turn among it.
proof fn lemma_newly_settled(
    actor: ActorModel,
    works: Seq<ActorWork>,
    reason: TurnCancellationReason,
    id: u128,
)
    requires
        !actor.outcomes.dom().contains(id),
        inner::terminalized(actor, works, reason).outcomes.dom().contains(id),
    ensures
        exists|j: int|
            0 <= j < works.len() && works[j] is Turn && #[trigger] works[j]->Turn_0.turn_id.value
                == id,
    decreases works.len(),
{
    let shorter = works.drop_last();
    let before = inner::terminalized(actor, shorter, reason);
    if before.outcomes.dom().contains(id) {
        lemma_newly_settled(actor, shorter, reason, id);
        let j = choose|j: int|
            0 <= j < shorter.len() && shorter[j] is Turn && #[trigger] shorter[j]->Turn_0.turn_id.value
                == id;
        assert(works[j]->Turn_0.turn_id.value == id);
    } else {
        assert(works[works.len() - 1]->Turn_0.turn_id.value == id);
    }
}

/// A retained outcome is never lost and never replaced, whatever is asked of the actor.
pub proof fn law_outcomes_are_kept(
    actor: ActorModel,
    admission: TurnAdmission,
    outcome: Option<TurnOutcome>,
    deliver: bool,
    works: Seq<ActorWork>,
    reason: TurnCancellationReason,
    lifecycle: ActorLifecycle,
    correlation: Seq<char>,
)
    ensures
        inner::retains(
            actor.outcomes,
            runner::settled(actor, admission, outcome, deliver).outcomes,
        ),
        inner::retains(actor.outcomes, inner::terminalized(actor, works, reason).outcomes),
        inner::retains(actor.outcomes, handle::closed_for(actor, lifecycle, reason).outcomes),
        inner::retains(
            actor.outcomes,
            handle::cancelled_under(actor, correlation, reason).outcomes,
        ),
{
    lemma_terminalized_retains(actor, works, reason);
    let refusing = ActorModel { lifecycle, marks: Map::empty(), ..actor };
    lemma_terminalized_retains(
        handle::emptied(handle::stopped(refusing, reason)),
        actor.queue,
        reason,
    );
    let matched = actor.queue.filter(|work: ActorWork| queue::carries(work, correlation));
    let left = ActorModel {
        queue: actor.queue.filter(|work: ActorWork| !queue::carries(work, correlation)),
        marks: actor.marks.insert(correlation, reason),
        ..actor
    };
    lemma_terminalized_retains(left, matched, reason);
}

/// Closing is final: an actor that has been closed stays as it is when it is closed again, for the
/// same or another reason, and so nothing is delivered a second time.
pub proof fn law_first_close_stands(
    actor: ActorModel,
    lifecycle: ActorLifecycle,
    reason: TurnCancellationReason,
    again: ActorLifecycle,
    other: TurnCancellationReason,
)
    ensures
        actor.lifecycle != ActorLifecycle::Open ==> handle::closed_for(actor, lifecycle, reason)
            == actor,
        lifecycle != ActorLifecycle::Open ==> {
            let closed = handle::closed_for(actor, lifecycle, reason);
            handle::closed_for(closed, again, other) == closed
        },
{
    let refusing = ActorModel { lifecycle, marks: Map::empty(), ..actor };
    lemma_terminalized_retains(
        handle::emptied(handle::stopped(refusing, reason)),
        actor.queue,
        reason,
    );
}

/// Each turn among the work is there once and has not settled.
pub open spec fn unsettled(outcomes: Map<u128, TurnOutcome>, works: Seq<ActorWork>) -> bool {
    &&& forall|i: int|
        0 <= i < works.len() && #[trigger] works[i] is Turn ==> !outcomes.dom().contains(
            works[i]->Turn_0.turn_id.value,
        )
    &&& forall|i: int, j: int|
        0 <= i < j < works.len() && #[trigger] works[i] is Turn && #[trigger] works[j] is Turn
            ==> works[i]->Turn_0.turn_id != works[j]->Turn_0.turn_id
}

/// Admitting a turn under a fresh identity keeps the queued turns apart: each is still there once,
/// and none of them has settled.
pub proof fn law_admission_keeps_turns_apart(
    actor: ActorModel,
    turn_id: TurnId,
    input: AgentInput,
    event_sender: Option<u64>,
    correlation: String,
    after: ActorModel,
)
    requires
        unsettled(actor.outcomes, actor.queue),
        !actor.outcomes.dom().contains(turn_id.value),
        forall|i: int|
            0 <= i < actor.queue.len() && #[trigger] actor.queue[i] is Turn
                ==> actor.queue[i]->Turn_0.turn_id != turn_id,
        handle::admitted(actor, turn_id, input, event_sender, correlation, after),
    ensures
        unsettled(after.outcomes, after.queue),
{
    assert forall|i: int| 0 <= i < after.queue.len() && #[trigger] after.queue[i] is Turn implies
        !after.outcomes.dom().contains(after.queue[i]->Turn_0.turn_id.value) by {
        if i < actor.queue.len() {
            assert(actor.queue[i] is Turn);
        }
    }
    assert forall|i: int, j: int|
        0 <= i < j < after.queue.len() && #[trigger] after.queue[i] is Turn && #[trigger] after.queue[
            j
        ] is Turn implies after.queue[i]->Turn_0.turn_id != after.queue[j]->Turn_0.turn_id by {
        assert(actor.queue[i] is Turn);
        if j < actor.queue.len() {
            assert(actor.queue[j] is Turn);
        }
    }
}

/// What the sinks of the turns among dropped work are told, in order: each once that its turn was
/// cancelled, and why.
pub open spec fn notices(
    agent_id: AgentId,
    works: Seq<ActorWork>,
    reason: TurnCancellationReason,
) -> Seq<Delivery>
    decreases works.len(),
{
    if works.len() == 0 {
        Seq::empty()
    } else {
        let before = notices(agent_id, works.drop_last(), reason);
        match works.last() {
            ActorWork::Turn(admission) => match admission.event_sender {
                Some(sender) => before.push(
                    Delivery {
                        sender,
                        outcome: inner::cancelled(agent_id, admission.turn_id, reason),
                    },
                ),
                None => before,
            },
            _ => before,
        }
    }
}

/// Settling dropped work tells each sink once.
proof fn lemma_terminalized_notices(
    actor: ActorModel,
    works: Seq<ActorWork>,
    reason: TurnCancellationReason,
)
    requires
        unsettled(actor.outcomes, works),
    ensures
        inner::terminalized(actor, works, reason).deliveries == actor.deliveries + notices(
            actor.agent_id,
            works,
            reason,
        ),
    decreases works.len(),
{
    if works.len() > 0 {
        let shorter = works.drop_last();
        let last = works.len() - 1;
        assert forall|i: int, j: int|
            0 <= i < j < shorter.len() && #[trigger] shorter[i] is Turn && #[trigger] shorter[
                j
            ] is Turn implies shorter[i]->Turn_0.turn_id != shorter[j]->Turn_0.turn_id by {
            assert(works[i] is Turn && works[j] is Turn);
        }
        assert forall|i: int| 0 <= i < shorter.len() && #[trigger] shorter[i] is Turn implies
            !actor.outcomes.dom().contains(shorter[i]->Turn_0.turn_id.value) by {
            assert(works[i] is Turn);
        }
        lemma_terminalized_notices(actor, shorter, reason);
        if works[last] is Turn {
            let id = works[last]->Turn_0.turn_id;
            if inner::terminalized(actor, shorter, reason).outcomes.dom().contains(id.value) {
                lemma_newly_settled(actor, shorter, reason, id.value);
                let j = choose|j: int|
                    0 <= j < shorter.len() && shorter[j] is Turn && #[trigger] shorter[j]->Turn_0.turn_id.value
                        == id.value;
                assert(works[j] is Turn && works[last] is Turn);
                assert(works[j]->Turn_0.turn_id == id);
            }
        }
    }
}

/// Closing an open actor strands nothing: it refuses all work from then on, its queue is empty, no
/// key is marked, and the active run is told to stop. Every turn that was queued is retained as
/// cancelled for the reason, and its sink is told so once.
pub proof fn law_closing_strands_nothing(
    actor: ActorModel,
    lifecycle: ActorLifecycle,
    reason: TurnCancellationReason,
)
    requires
        actor.lifecycle == ActorLifecycle::Open,
        lifecycle != ActorLifecycle::Open,
        unsettled(actor.outcomes, actor.queue),
    ensures
        ({
            let closed = handle::closed_for(actor, lifecycle, reason);
            &&& closed.lifecycle == lifecycle
            &&& handle::refusal(closed.lifecycle) is Some
            &&& closed.queue.len() == 0
            &&& closed.marks == Map::<Seq<char>, TurnCancellationReason>::empty()
            &&& closed.active is None
            &&& actor.active is Some ==> closed.tokens == inner::fired(actor.tokens, reason)
            &&& closed.deliveries == actor.deliveries + notices(
                actor.agent_id,
                actor.queue,
                reason,
            )
            &&& inner::retains(actor.outcomes, closed.outcomes)
            &&& forall|i: int|
                0 <= i < actor.queue.len() && #[trigger] actor.queue[i] is Turn ==> {
                    let turn_id = actor.queue[i]->Turn_0.turn_id;
                    &&& closed.outcomes.dom().contains(turn_id.value)
                    &&& closed.outcomes[turn_id.value] == inner::cancelled(
                        actor.agent_id,
                        turn_id,
                        reason,
                    )
                }
        }),
{
    let refusing = ActorModel { lifecycle, marks: Map::empty(), ..actor };
    let stopped = handle::emptied(handle::stopped(refusing, reason));
    lemma_terminalized_retains(stopped, actor.queue, reason);
    lemma_terminalized_notices(stopped, actor.queue, reason);
    assert forall|i: int| 0 <= i < actor.queue.len() && #[trigger] actor.queue[i] is Turn implies {
        let turn_id = actor.queue[i]->Turn_0.turn_id;
        let closed = handle::closed_for(actor, lifecycle, reason);
        &&& closed.outcomes.dom().contains(turn_id.value)
        &&& closed.outcomes[turn_id.value] == inner::cancelled(actor.agent_id, turn_id, reason)
    } by {
        law_dropped_turns_settle(stopped, actor.queue, reason, i);
    }
}

/// The first reason for which a run is told to stop is the one it sees.
pub proof fn law_first_reason_stands(
    tokens: RunTokens,
    first: TurnCancellationReason,
    second: TurnCancellationReason,
)
    ensures
        inner::fired(inner::fired(tokens, first), second) == inner::fired(tokens, first),
        inner::fired(inner::fresh_tokens(), first).reason == Some(first),
        inner::fired(tokens, first).cancelled,
{
}

/// Cancelling under a key hits exactly what is under it: no queued item of the key is left, every
/// other item is, and a run of another key goes on.
pub proof fn law_cancellation_is_targeted(
    actor: ActorModel,
    correlation: Seq<char>,
    reason: TurnCancellationReason,
    work: ActorWork,
)
    requires
        actor.queue.contains(work),
    ensures
        ({
            let after = handle::cancelled_under(actor, correlation, reason);
            &&& after.queue.contains(work) <==> !queue::carries(work, correlation)
            &&& !inner::active_carries(actor.active, correlation) ==> {
                &&& after.active == actor.active
                &&& after.tokens == actor.tokens
            }
            &&& inner::active_carries(actor.active, correlation) ==> {
                &&& after.active is None
                &&& after.tokens == inner::fired(actor.tokens, reason)
            }
            &&& after.lifecycle == actor.lifecycle
        }),
{
    let hit = |work: ActorWork| queue::carries(work, correlation);
    let miss = |work: ActorWork| !queue::carries(work, correlation);
    let matched = actor.queue.filter(hit);
    let left = ActorModel {
        queue: actor.queue.filter(miss),
        marks: actor.marks.insert(correlation, reason),
        ..actor
    };
    lemma_terminalized_retains(left, matched, reason);
    lemma_filter_members(actor.queue, miss, work);
}

/// What a filtered sequence holds.
proof fn lemma_filter_members<A>(items: Seq<A>, keep: spec_fn(A) -> bool, item: A)
    ensures
        items.filter(keep).contains(item) <==> items.contains(item) && keep(item),
    decreases items.len(),
{
    reveal(Seq::filter);
    if items.len() > 0 {
        let shorter = items.drop_last();
        let last = items.last();
        lemma_filter_members(shorter, keep, item);
        assert(items =~= shorter.push(last));
        assert(items.contains(item) <==> shorter.contains(item) || item == last) by {
            if shorter.contains(item) {
                let i = choose|i: int| 0 <= i < shorter.len() && shorter[i] == item;
                assert(items[i] == item);
            }
            if item == last {
                assert(items[items.len() - 1] == item);
            }
        }
        if keep(last) {
            let kept = shorter.filter(keep);
            assert(kept.push(last).contains(item) <==> kept.contains(item) || item == last) by {
                if kept.contains(item) {
                    let i = choose|i: int| 0 <= i < kept.len() && kept[i] == item;
                    assert(kept.push(last)[i] == item);
                }
                if item == last {
                    assert(kept.push(last)[kept.len() as int] == item);
                }
            }
        }
    }
}

/// A cancelled key is remembered, whatever was under it: work that is pushed under it afterwards
/// never runs. A root or a compaction is dropped. A turn is not queued; one that has no outcome yet
/// settles at once, with the remembered reason.
pub proof fn law_precancelled_work_never_runs(
    actor: ActorModel,
    correlation: String,
    reason: TurnCancellationReason,
    work: ActorWork,
    turn_id: TurnId,
    input: AgentInput,
    event_sender: Option<u64>,
    after: ActorModel,
)
    ensures
        ({
            let cancelled = handle::cancelled_under(actor, correlation@, reason);
            &&& cancelled.marks.dom().contains(correlation@)
            &&& cancelled.marks[correlation@] == reason
            &&& handle::pushed_under(cancelled, correlation@, work) == cancelled
            &&& handle::admitted(
                cancelled,
                turn_id,
                input,
                event_sender,
                correlation,
                after,
            ) ==> {
                &&& after.queue == cancelled.queue
                &&& after.outcomes.dom().contains(turn_id.value)
                &&& !actor.outcomes.dom().contains(turn_id.value)
                    ==> after.outcomes[turn_id.value] == inner::cancelled(
                    actor.agent_id,
                    turn_id,
                    reason,
                )
            }
        }),
{
    let hit = |work: ActorWork| queue::carries(work, correlation@);
    let miss = |work: ActorWork| !queue::carries(work, correlation@);
    let matched = actor.queue.filter(hit);
    let left = ActorModel {
        queue: actor.queue.filter(miss),
        marks: actor.marks.insert(correlation@, reason),
        ..actor
    };
    lemma_terminalized_retains(left, matched, reason);
    if inner::terminalized(left, matched, reason).outcomes.dom().contains(turn_id.value)
        && !actor.outcomes.dom().contains(turn_id.value) {
        lemma_newly_settled(left, matched, reason, turn_id.value);
        let j = choose|j: int|
            0 <= j < matched.len() && matched[j] is Turn && #[trigger] matched[j]->Turn_0.turn_id.value
                == turn_id.value;
        law_dropped_turns_settle(left, matched, reason, j);
        assert(matched[j]->Turn_0.turn_id == turn_id);
    }
}

/// A mark is spent once work under its key starts, also where the work was condensed into a later
/// root: it cannot hit work that is pushed afterwards.
pub proof fn law_marks_are_spent(
    actor: ActorModel,
    admission: TurnAdmission,
    work: WorkKind,
    generation: u64,
    i: int,
)
    requires
        runner::may_start(actor, admission, generation),
        0 <= i < runner::condensed_into(work).len(),
    ensures
        ({
            let held = runner::turn_started(actor, admission, work, generation);
            &&& !held.marks.dom().contains(admission.correlation@)
            &&& !held.marks.dom().contains(runner::condensed_into(work)[i].correlation@)
        }),
{
    lemma_unmarked(
        actor.marks.remove(admission.correlation@),
        runner::condensed_into(work),
        i,
        admission.correlation@,
    );
}

/// Unmarking removes the marks of all condensed roots and adds none.
proof fn lemma_unmarked(
    marks: Map<Seq<char>, TurnCancellationReason>,
    earlier: Seq<crate::actor::work::EarlierRoot>,
    i: int,
    key: Seq<char>,
)
    requires
        0 <= i < earlier.len(),
    ensures
        !runner::unmarked(marks, earlier).dom().contains(earlier[i].correlation@),
        !marks.dom().contains(key) ==> !runner::unmarked(marks, earlier).dom().contains(key),
    decreases earlier.len(),
{
    let shorter = earlier.drop_last();
    if i < shorter.len() {
        assert(shorter[i] == earlier[i]);
        lemma_unmarked(marks, shorter, i, key);
    } else if shorter.len() > 0 {
        lemma_unmarked(marks, shorter, 0, key);
    }
}

/// A root that is started, given up or finished leaves no outcome, no delivery and no resolution.
pub proof fn law_roots_leave_no_outcome(
    actor: ActorModel,
    admission: TurnAdmission,
    work: WorkKind,
    generation: u64,
    reason: TurnCancellationReason,
    result: BackendResult,
    after: ActorModel,
)
    requires
        admission.root,
        after == runner::turn_started(actor, admission, work, generation) || after
            == runner::given_up(actor, admission, reason) || runner::finished(
            actor,
            admission,
            result,
            after,
        ),
    ensures
        after.outcomes == actor.outcomes,
        after.deliveries == actor.deliveries,
        after.resolutions == actor.resolutions,
        after.usage == actor.usage,
{
}

/// However a turn ends, the actor is free for the next one.
pub proof fn law_settling_frees_the_actor(
    actor: ActorModel,
    admission: TurnAdmission,
    reason: TurnCancellationReason,
    result: BackendResult,
    after: ActorModel,
)
    requires
        runner::finished(actor, admission, result, after) || after == runner::given_up(
            actor,
            admission,
            reason,
        ),
    ensures
        after.active is None,
        after.status == ActorStatus::Idle,
        after.lifecycle == actor.lifecycle,
        after.queue == actor.queue,
        after.awake,
{
}

/// An admitted turn that its backend has executed has an outcome, whatever the backend answered.
/// One that ran delivered it by itself, so nothing is delivered for it again; one that did not run
/// has failed, and its sink is told so once.
pub proof fn law_executed_turns_settle(
    actor: ActorModel,
    admission: TurnAdmission,
    result: BackendResult,
    after: ActorModel,
)
    requires
        !admission.root,
        runner::finished(actor, admission, result, after),
    ensures
        after.outcomes.dom().contains(admission.turn_id.value),
        result is EnteredRun ==> after.deliveries == actor.deliveries,
        !actor.outcomes.dom().contains(admission.turn_id.value) ==> {
            let outcome = after.outcomes[admission.turn_id.value];
            &&& after.outcomes == actor.outcomes.insert(admission.turn_id.value, outcome)
            &&& result matches BackendResult::EnteredRun(reported) ==> outcome == reported
            &&& !(result is EnteredRun) ==> {
                &&& outcome is Failed
                &&& after.deliveries == (match admission.event_sender {
                    Some(sender) => actor.deliveries.push(Delivery { sender, outcome }),
                    None => actor.deliveries,
                })
            }
        },
{
}

/// What a running turn takes off the queue is a prefix of it that holds roots of its own policy
/// generation or one compaction: turns, controls and policy barriers are never taken, and what is
/// left keeps its order.
pub proof fn law_interrupts_take_only_a_prefix(
    items: Seq<ActorWork>,
    generation: u64,
    taken: Option<ExtractedCommand>,
    left: Seq<ActorWork>,
    i: int,
)
    requires
        queue::interrupted(items, generation, taken, left),
        0 <= i < items.len() - left.len(),
    ensures
        left == items.skip(items.len() - left.len()),
        items[i] is Compact || (items[i] is Root && items[i]->Root_0.generation == generation),
{
    if items[0] is Root {
        match items[0]->Root_0.input.batch_key {
            Some(key) => {
                if i > 0 {
                    queue::lemma_run_members(items, key, generation, 1, i);
                }
            },
            None => {},
        }
    }
}

/// Condensing loses no root: each is the one that stands for all, or recorded with its run and its
/// key, in order.
pub proof fn law_condensing_keeps_every_root(items: Seq<ActorWork>, merged: RootWork, i: int)
    requires
        queue::is_condensed(items, merged),
        items.len() > 1,
        0 <= i < items.len(),
    ensures
        merged.earlier@.len() == items.len() - 1,
        i == items.len() - 1 ==> merged.run_id == items[i]->Root_0.run_id && merged.correlation
            == items[i]->Root_0.correlation,
        i < items.len() - 1 ==> merged.earlier@[i].run_id == items[i]->Root_0.run_id
            && merged.earlier@[i].correlation == items[i]->Root_0.correlation,
{
    if i < items.len() - 1 {
        assert(queue::remains(items[i]->Root_0, merged.earlier@[i]));
    }
}

/// Condensing loses no message: what each earlier input said, with its images, is among the
/// messages that go before the last one.
pub proof fn law_merging_keeps_every_message(inputs: Seq<AgentInput>, merged: AgentInput, i: int)
    requires
        queue::is_merged(inputs, merged),
        0 <= i < inputs.len() - 1,
    ensures
        exists|at: int|
            0 <= at < merged.preamble@.len() && types::is_user_message(
                #[trigger] merged.preamble@[at],
                inputs[i].message@,
                inputs[i].images@,
            ),
{
    let start = merged.preamble@.len() - inputs.last().preamble@.len();
    let messages = merged.preamble@.take(start);
    lemma_told(inputs.drop_last(), messages, i);
    let at = choose|at: int|
        0 <= at < messages.len() && types::is_user_message(
            #[trigger] messages[at],
            inputs.drop_last()[i].message@,
            inputs.drop_last()[i].images@,
        );
    assert(merged.preamble@[at] == messages[at]);
}

/// What was told holds each input's message.
proof fn lemma_told(inputs: Seq<AgentInput>, messages: Seq<Message>, i: int)
    requires
        queue::told(inputs, messages),
        0 <= i < inputs.len(),
    ensures
        exists|at: int|
            0 <= at < messages.len() && types::is_user_message(
                #[trigger] messages[at],
                inputs[i].message@,
                inputs[i].images@,
            ),
    decreases inputs.len(),
{
    let last = inputs.last();
    let start = messages.len() - 1 - last.preamble@.len();
    if i == inputs.len() - 1 {
        assert(types::is_user_message(
            messages[messages.len() - 1],
            inputs[i].message@,
            inputs[i].images@,
        ));
    } else {
        let shorter = messages.take(start);
        lemma_told(inputs.drop_last(), shorter, i);
        let at = choose|at: int|
            0 <= at < shorter.len() && types::is_user_message(
                #[trigger] shorter[at],
                inputs.drop_last()[i].message@,
                inputs.drop_last()[i].images@,
            );
        assert(messages[at] == shorter[at]);
    }
}

} // verus!
