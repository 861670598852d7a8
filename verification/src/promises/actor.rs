//! The actor: what admitting, cancelling, closing and running do to it.
use vstd::prelude::*;

use crate::actor::error::ActorError;
use crate::actor::handle;
use crate::actor::handle::AgentActorHandle;
use crate::actor::inner;
use crate::actor::inner::{
    cancelled_outcome, finalize_turn, terminalize_work, ActiveCancel, ActorInner, ActorModel,
    Delivery, Resolution, RunTokens,
};
use crate::actor::laws;
use crate::actor::queue;
use crate::actor::runner;
use crate::actor::runner::{EnteredTurn, Launch, Popped, Runner, StartedTurn, Step, TurnIds};
use crate::actor::tickets::TurnTicket;
use crate::actor::work::{
    ActorBackend, ActorLifecycle, ActorSnapshot, ActorStatus, ActorWork, BackendResult, ControlWork,
    ExtractedCommand, InterruptQueue, QueueProjection, RootWork, TurnAdmission, WorkKind,
};
use crate::promises::queue as queued;
use crate::types::{
    AgentId, AgentInput, TurnCancellationReason, TurnFailureKind, TurnId, TurnOutcome,
};

verus! {

/// The outcome is that of a turn that was cancelled for a reason before it ran: nothing was spent.
pub open spec fn cancelled_unrun(
    outcome: TurnOutcome,
    agent_id: AgentId,
    turn_id: TurnId,
    why: TurnCancellationReason,
) -> bool {
    outcome matches TurnOutcome::Cancelled {
        agent_id: agent,
        turn_id: turn,
        usage,
        num_turns,
        reason,
    } && {
        &&& agent == agent_id
        &&& turn == turn_id
        &&& usage.input == 0 && usage.output == 0
        &&& usage.cache_creation == 0 && usage.cache_read == 0
        &&& num_turns == 0
        &&& reason == why
    }
}

/// Nothing but what concerns settled turns differs between two moments of an actor.
pub open spec fn same_but_settled(before: ActorModel, after: ActorModel) -> bool {
    &&& after.agent_id == before.agent_id
    &&& after.lifecycle == before.lifecycle
    &&& after.status == before.status
    &&& after.active == before.active
    &&& after.tokens == before.tokens
    &&& after.marks == before.marks
    &&& after.cancelled_turns == before.cancelled_turns
    &&& after.cancellation_generation == before.cancellation_generation
    &&& after.queue == before.queue
    &&& after.notice == before.notice
    &&& after.awake == before.awake
}

/// Nothing that concerns settled turns differs between two moments of an actor.
pub open spec fn same_settled(before: ActorModel, after: ActorModel) -> bool {
    &&& after.outcomes == before.outcomes
    &&& after.latest == before.latest
    &&& after.usage == before.usage
    &&& after.tickets == before.tickets
    &&& after.deliveries == before.deliveries
    &&& after.resolutions == before.resolutions
}

/// What an actor is seen as is what it holds.
pub proof fn law_an_actor_is_seen_as_it_is(actor: ActorInner)
    ensures
        actor@.agent_id == actor.agent_id,
        actor@.lifecycle == actor.state.lifecycle,
        actor@.status == actor.state.status,
        actor@.active == actor.state.active,
        actor@.tokens == actor.state.tokens,
        actor@.marks == actor.state.cancelled_correlations@,
        actor@.cancelled_turns == actor.state.cancelled_turns@,
        actor@.cancellation_generation == actor.state.cancellation_generation,
        actor@.queue == actor.queue@,
        actor@.notice == actor.queue.pending_notice(),
        actor@.outcomes == actor.outcomes@,
        actor@.latest == actor.latest,
        actor@.usage == actor.usage,
        actor@.tickets == actor.tickets@,
        actor@.deliveries == actor.deliveries@,
        actor@.resolutions == actor.resolutions@,
        actor@.awake == actor.awake,
{
}

/// A turn that is cancelled before it runs has spent nothing, and its outcome says why.
pub proof fn law_unrun_turns_spend_nothing(
    agent_id: AgentId,
    turn_id: TurnId,
    reason: TurnCancellationReason,
    outcome: TurnOutcome,
)
    requires
        call_ensures(cancelled_outcome, (agent_id, turn_id, reason), outcome),
    ensures
        cancelled_unrun(outcome, agent_id, turn_id, reason),
{
}

/// Settling a turn for the first time retains its outcome, makes it the latest, adds what it spent,
/// tells whoever waits, and tells the sink where that is asked. Settling it again does nothing.
pub proof fn law_settling_reaches_everyone_once(
    actor: &mut ActorInner,
    outcome: TurnOutcome,
    admission: TurnAdmission,
    deliver: bool,
)
    requires
        call_ensures(finalize_turn, (actor, outcome, &admission, deliver), ()),
    ensures
        ({
            let before = old(actor)@;
            let after = final(actor)@;
            let id = admission.turn_id.value;
            let spent = match outcome {
                TurnOutcome::Completed { usage, .. } => usage,
                TurnOutcome::Failed { usage, .. } => usage,
                TurnOutcome::Cancelled { usage, .. } => usage,
            };
            &&& same_but_settled(before, after)
            &&& before.outcomes.dom().contains(id) ==> same_settled(before, after)
            &&& !before.outcomes.dom().contains(id) ==> {
                &&& after.outcomes == before.outcomes.insert(id, outcome)
                &&& after.latest == Some(outcome)
                &&& before.usage.input + spent.input <= u32::MAX ==> after.usage.input
                    == before.usage.input + spent.input
                &&& before.usage.output + spent.output <= u32::MAX ==> after.usage.output
                    == before.usage.output + spent.output
                &&& before.usage.cache_creation + spent.cache_creation <= u32::MAX
                    ==> after.usage.cache_creation == before.usage.cache_creation
                    + spent.cache_creation
                &&& before.usage.cache_read + spent.cache_read <= u32::MAX
                    ==> after.usage.cache_read == before.usage.cache_read + spent.cache_read
                &&& !after.tickets.contains(id)
                &&& forall|other: u128|
                    other != id ==> (#[trigger] after.tickets.contains(other)
                        <==> before.tickets.contains(other))
                &&& after.resolutions == before.resolutions.push(
                    Resolution { turn_id: admission.ticket.id(), outcome },
                )
                &&& admission.event_sender is Some && deliver ==> after.deliveries
                    == before.deliveries.push(
                    Delivery { sender: admission.event_sender->0, outcome },
                )
                &&& admission.event_sender is None || !deliver ==> after.deliveries
                    == before.deliveries
            }
        }),
{
}

/// The wiring of a new run carries its key, and the run has not been told to stop.
pub proof fn law_new_runs_have_not_been_stopped(
    correlation: Option<String>,
    wiring: ActiveCancel,
    tokens: RunTokens,
    key: Option<&str>,
)
    requires
        call_ensures(ActiveCancel::new, (correlation,), (wiring, tokens)),
        call_ensures(ActiveCancel::correlation, (&wiring,), key),
    ensures
        wiring.correlation == correlation,
        !tokens.cancelled,
        tokens.reason is None,
        key is Some <==> correlation is Some,
        key is Some ==> key->0@ == correlation->0@,
{
}

/// A run that is told to stop stops, for the first reason it was given.
pub proof fn law_the_first_reason_is_kept(
    wiring: ActiveCancel,
    tokens: &mut RunTokens,
    reason: TurnCancellationReason,
)
    requires
        call_ensures(ActiveCancel::fire, (wiring, tokens, reason), ()),
    ensures
        final(tokens).cancelled,
        old(tokens).reason is None ==> final(tokens).reason == Some(reason),
        old(tokens).reason is Some ==> final(tokens).reason == old(tokens).reason,
{
}

/// A new actor is open and idle, and nothing has happened to it.
pub proof fn law_new_actors_are_idle(agent_id: AgentId, actor: AgentActorHandle)
    requires
        call_ensures(AgentActorHandle::spawn, (agent_id,), actor),
    ensures
        actor@.agent_id == agent_id,
        actor@.lifecycle == ActorLifecycle::Open,
        actor@.status == ActorStatus::Idle,
        actor@.active is None,
        !actor@.tokens.cancelled,
        actor@.tokens.reason is None,
        actor@.marks.dom().is_empty(),
        actor@.cancelled_turns.is_empty(),
        actor@.cancellation_generation == 0,
        actor@.queue.len() == 0,
        !actor@.notice,
        !actor@.awake,
        actor@.outcomes.dom().is_empty(),
        actor@.latest is None,
        actor@.usage.input == 0 && actor@.usage.output == 0,
        actor@.usage.cache_creation == 0 && actor@.usage.cache_read == 0,
        actor@.tickets.is_empty(),
        actor@.deliveries.len() == 0,
        actor@.resolutions.len() == 0,
{
}

/// How an actor that does not take work refuses it.
pub open spec fn refuses<T>(lifecycle: ActorLifecycle, result: Result<T, ActorError>) -> bool {
    match lifecycle {
        ActorLifecycle::Open => true,
        ActorLifecycle::Closed => result matches Err(ActorError::Closed),
        ActorLifecycle::Shutdown => result matches Err(ActorError::Shutdown),
    }
}

/// An admitted turn goes to the back of the queue as it was given, under its own identity, and
/// whoever has its ticket can wait. Where its key was cancelled it does not: it has an outcome at
/// once, with the reason, and its sink is told. An actor that has been closed takes nothing.
pub proof fn law_admitted_turns_wait_their_turn(
    actor: &mut AgentActorHandle,
    turn_id: TurnId,
    input: AgentInput,
    event_sender: Option<u64>,
    correlation: String,
    result: Result<TurnTicket, ActorError>,
)
    requires
        call_ensures(
            AgentActorHandle::admit_turn,
            (actor, turn_id, input, event_sender, correlation),
            result,
        ),
    ensures
        ({
            let before = old(actor)@;
            let after = final(actor)@;
            let marked = before.marks.dom().contains(correlation@);
            let id = turn_id.value;
            &&& before.lifecycle != ActorLifecycle::Open ==> refuses(before.lifecycle, result)
                && after == before
            &&& before.lifecycle == ActorLifecycle::Open ==> {
                &&& result matches Ok(ticket) && ticket.id() == turn_id
                &&& after.lifecycle == before.lifecycle
                &&& after.marks == before.marks
                &&& after.active == before.active
                &&& after.status == before.status
                &&& after.tokens == before.tokens
                &&& after.agent_id == before.agent_id
                &&& after.cancelled_turns == before.cancelled_turns
                &&& after.cancellation_generation == before.cancellation_generation
                &&& !marked ==> {
                    &&& after.queue.len() == before.queue.len() + 1
                    &&& after.queue.drop_last() == before.queue
                    &&& after.notice
                    &&& after.tickets == before.tickets.insert(id)
                    &&& after.outcomes == before.outcomes
                    &&& after.latest == before.latest
                    &&& after.usage == before.usage
                    &&& after.deliveries == before.deliveries
                    &&& after.resolutions == before.resolutions
                    &&& after.queue.last() matches ActorWork::Turn(admission) && {
                        &&& admission.turn_id == turn_id
                        &&& admission.input == Some(input)
                        &&& admission.event_sender == event_sender
                        &&& admission.correlation@ == correlation@
                        &&& !admission.root
                        &&& admission.generation == 0
                        &&& admission.ticket.id() == turn_id
                    }
                }
                &&& marked ==> {
                    &&& after.queue == before.queue
                    &&& after.outcomes.dom().contains(id)
                    &&& !before.outcomes.dom().contains(id) ==> {
                        &&& cancelled_unrun(
                            after.outcomes[id],
                            before.agent_id,
                            turn_id,
                            before.marks[correlation@],
                        )
                        &&& event_sender is Some ==> after.deliveries.len()
                            == before.deliveries.len() + 1 && after.deliveries.last().sender
                            == event_sender->0
                    }
                }
            }
        }),
{
    if old(actor)@.lifecycle == ActorLifecycle::Open {
        assert(final(actor)@.queue.drop_last() =~= old(actor)@.queue || final(actor)@.queue
            == old(actor)@.queue);
    }
}

/// A root goes to the back of the queue as it is, unless its key was cancelled: then it is dropped.
pub proof fn law_roots_wait_their_turn(
    actor: &mut AgentActorHandle,
    root: RootWork,
    result: Result<(), ActorError>,
)
    requires
        call_ensures(AgentActorHandle::rush, (actor, root), result),
    ensures
        old(actor)@.lifecycle != ActorLifecycle::Open ==> refuses(old(actor)@.lifecycle, result)
            && final(actor)@ == old(actor)@,
        old(actor)@.lifecycle == ActorLifecycle::Open ==> {
            &&& result is Ok
            &&& same_settled(old(actor)@, final(actor)@)
            &&& final(actor)@.queue == (if old(actor)@.marks.dom().contains(root.correlation@) {
                old(actor)@.queue
            } else {
                old(actor)@.queue.push(ActorWork::Root(root))
            })
        },
{
}

/// A control goes to the back of the queue as it is, whatever has been cancelled.
pub proof fn law_controls_wait_their_turn(
    actor: &mut AgentActorHandle,
    control: ControlWork,
    result: Result<(), ActorError>,
)
    requires
        call_ensures(AgentActorHandle::push_control, (actor, control), result),
    ensures
        old(actor)@.lifecycle != ActorLifecycle::Open ==> refuses(old(actor)@.lifecycle, result)
            && final(actor)@ == old(actor)@,
        old(actor)@.lifecycle == ActorLifecycle::Open ==> {
            &&& result is Ok
            &&& same_settled(old(actor)@, final(actor)@)
            &&& final(actor)@.queue == old(actor)@.queue.push(ActorWork::Control(control))
        },
{
}

/// A compaction goes to the back of the queue with its run and its instructions, unless its run was
/// cancelled: then it is dropped.
pub proof fn law_compactions_wait_their_turn(
    actor: &mut AgentActorHandle,
    run_id: u64,
    instructions: Option<String>,
    result: Result<(), ActorError>,
)
    requires
        call_ensures(AgentActorHandle::push_compact, (actor, run_id, instructions), result),
    ensures
        old(actor)@.lifecycle != ActorLifecycle::Open ==> refuses(old(actor)@.lifecycle, result)
            && final(actor)@ == old(actor)@,
        old(actor)@.lifecycle == ActorLifecycle::Open ==> {
            &&& result is Ok
            &&& same_settled(old(actor)@, final(actor)@)
            &&& final(actor)@.queue == (if old(actor)@.marks.dom().contains(
                "r"@ + crate::text::decimal(run_id as nat),
            ) {
                old(actor)@.queue
            } else {
                old(actor)@.queue.push(
                    ActorWork::Compact { run_id, instructions, generation: 0 },
                )
            })
        },
{
}

/// Taking a queued turn back settles it as cancelled by the user, and tells its sink; the other
/// work stays in order. A turn that is not queued is unknown, and nothing changes.
pub proof fn law_removed_turns_are_cancelled(
    actor: &mut AgentActorHandle,
    turn_id: TurnId,
    result: Result<TurnOutcome, ActorError>,
)
    requires
        call_ensures(AgentActorHandle::remove, (actor, turn_id), result),
    ensures
        ({
            let before = old(actor)@;
            let after = final(actor)@;
            match result {
                Ok(outcome) => {
                    &&& cancelled_unrun(
                        outcome,
                        before.agent_id,
                        turn_id,
                        TurnCancellationReason::User,
                    )
                    &&& after.outcomes.dom().contains(turn_id.value)
                    &&& !before.outcomes.dom().contains(turn_id.value)
                        ==> after.outcomes[turn_id.value] == outcome
                    &&& after.lifecycle == before.lifecycle
                    &&& after.active == before.active
                    &&& exists|at: int|
                        {
                            &&& 0 <= at < before.queue.len()
                            &&& #[trigger] before.queue[at] is Turn
                            &&& before.queue[at]->Turn_0.turn_id == turn_id
                            &&& after.queue == before.queue.remove(at)
                        }
                },
                Err(error) => error == ActorError::UnknownTurn(turn_id) && after == before,
            }
        }),
{
}

/// Taking an item out of the queue by its position takes that item and no other. A turn settles as
/// cancelled by the user; a policy barrier stays.
pub proof fn law_removed_items_are_cancelled(
    actor: &mut AgentActorHandle,
    index: usize,
    result: Option<QueueProjection>,
)
    requires
        call_ensures(AgentActorHandle::remove_at, (actor, index), result),
    ensures
        ({
            let before = old(actor)@;
            let after = final(actor)@;
            let there = index < before.queue.len() && !(before.queue[index as int]
                is PolicyBarrier);
            &&& result is Some <==> there
            &&& !there ==> after == before
            &&& there ==> {
                let work = before.queue[index as int];
                &&& after.queue == before.queue.remove(index as int)
                &&& after.active == before.active
                &&& after.lifecycle == before.lifecycle
                &&& !(work is Turn) ==> same_settled(before, after)
                &&& work is Turn && !before.outcomes.dom().contains(work->Turn_0.turn_id.value)
                    ==> after.outcomes.dom().contains(work->Turn_0.turn_id.value)
                    && cancelled_unrun(
                    after.outcomes[work->Turn_0.turn_id.value],
                    before.agent_id,
                    work->Turn_0.turn_id,
                    TurnCancellationReason::User,
                )
            }
        }),
{
}

/// Clearing drops everything that is queued, counts it, and settles the turns among it as cancelled
/// by the user. What runs goes on.
pub proof fn law_clearing_cancels_what_waits(
    actor: &mut AgentActorHandle,
    count: usize,
    i: int,
)
    requires
        call_ensures(AgentActorHandle::clear, (actor,), count),
    ensures
        count == old(actor)@.queue.len(),
        final(actor)@.queue.len() == 0,
        final(actor)@.active == old(actor)@.active,
        final(actor)@.tokens == old(actor)@.tokens,
        final(actor)@.lifecycle == old(actor)@.lifecycle,
        0 <= i < old(actor)@.queue.len() && old(actor)@.queue[i] is Turn
            && !old(actor)@.outcomes.dom().contains(old(actor)@.queue[i]->Turn_0.turn_id.value)
            ==> {
            let turn_id = old(actor)@.queue[i]->Turn_0.turn_id;
            &&& final(actor)@.outcomes.dom().contains(turn_id.value)
            &&& cancelled_unrun(
                final(actor)@.outcomes[turn_id.value],
                old(actor)@.agent_id,
                turn_id,
                TurnCancellationReason::User,
            )
        },
{
    let emptied = handle::emptied(old(actor)@);
    laws::lemma_terminalized_keeps(emptied, old(actor)@.queue, TurnCancellationReason::User);
    if 0 <= i < old(actor)@.queue.len() && old(actor)@.queue[i] is Turn {
        laws::law_dropped_turns_settle(
            emptied,
            old(actor)@.queue,
            TurnCancellationReason::User,
            i,
        );
    }
}

/// Cancelling everything stops what runs and cancels what waits, for the user. The actor stays
/// open, and work that was taken off the queue and has not started is overtaken.
pub proof fn law_cancelling_all_stops_everything(actor: &mut AgentActorHandle, i: int)
    requires
        call_ensures(AgentActorHandle::cancel_all, (actor,), ()),
    ensures
        final(actor)@.lifecycle == old(actor)@.lifecycle,
        final(actor)@.marks == old(actor)@.marks,
        final(actor)@.cancellation_generation != old(actor)@.cancellation_generation,
        final(actor)@.queue.len() == 0,
        final(actor)@.active is None,
        old(actor)@.active is Some ==> final(actor)@.tokens.cancelled,
        old(actor)@.active is Some && old(actor)@.tokens.reason is None
            ==> final(actor)@.tokens.reason == Some(TurnCancellationReason::User),
        old(actor)@.active is None ==> final(actor)@.tokens == old(actor)@.tokens,
        0 <= i < old(actor)@.queue.len() && old(actor)@.queue[i] is Turn
            && !old(actor)@.outcomes.dom().contains(old(actor)@.queue[i]->Turn_0.turn_id.value)
            ==> {
            let turn_id = old(actor)@.queue[i]->Turn_0.turn_id;
            &&& final(actor)@.outcomes.dom().contains(turn_id.value)
            &&& cancelled_unrun(
                final(actor)@.outcomes[turn_id.value],
                old(actor)@.agent_id,
                turn_id,
                TurnCancellationReason::User,
            )
        },
{
    let before = old(actor)@;
    let emptied = handle::emptied(
        ActorModel {
            cancellation_generation: handle::next_generation(before.cancellation_generation),
            ..handle::stopped(before, TurnCancellationReason::User)
        },
    );
    laws::lemma_terminalized_keeps(emptied, before.queue, TurnCancellationReason::User);
    if 0 <= i < before.queue.len() && before.queue[i] is Turn {
        laws::law_dropped_turns_settle(emptied, before.queue, TurnCancellationReason::User, i);
    }
}

/// What becomes of an open actor that is closed: see the two laws below.
pub open spec fn is_closed(
    before: ActorModel,
    after: ActorModel,
    lifecycle: ActorLifecycle,
    reason: TurnCancellationReason,
) -> bool {
    &&& after.lifecycle == lifecycle
    &&& after.queue.len() == 0
    &&& after.active is None
    &&& after.marks.dom().is_empty()
    &&& after.awake
    &&& before.active is Some ==> after.tokens.cancelled
    &&& before.active is Some && before.tokens.reason is None ==> after.tokens.reason == Some(
        reason,
    )
    &&& forall|i: int|
        0 <= i < before.queue.len() && #[trigger] before.queue[i] is Turn
            && !before.outcomes.dom().contains(before.queue[i]->Turn_0.turn_id.value) ==> {
            let turn_id = before.queue[i]->Turn_0.turn_id;
            &&& after.outcomes.dom().contains(turn_id.value)
            &&& cancelled_unrun(after.outcomes[turn_id.value], before.agent_id, turn_id, reason)
        }
}

/// What closing makes of an actor.
proof fn lemma_closed(
    before: ActorModel,
    lifecycle: ActorLifecycle,
    reason: TurnCancellationReason,
)
    requires
        before.lifecycle == ActorLifecycle::Open,
    ensures
        is_closed(before, handle::closed_for(before, lifecycle, reason), lifecycle, reason),
{
    let after = handle::closed_for(before, lifecycle, reason);
    let refusing = ActorModel { lifecycle, marks: Map::empty(), ..before };
    let stopped = handle::emptied(handle::stopped(refusing, reason));
    laws::lemma_terminalized_keeps(stopped, before.queue, reason);
    assert(after.marks.dom() =~= Set::empty());
    assert forall|i: int|
        0 <= i < before.queue.len() && #[trigger] before.queue[i] is Turn
            && !before.outcomes.dom().contains(before.queue[i]->Turn_0.turn_id.value) implies {
        let turn_id = before.queue[i]->Turn_0.turn_id;
        &&& after.outcomes.dom().contains(turn_id.value)
        &&& cancelled_unrun(after.outcomes[turn_id.value], before.agent_id, turn_id, reason)
    } by {
        laws::law_dropped_turns_settle(stopped, before.queue, reason, i);
    }
}

/// Closing an actor cancels what runs and what waits because the actor is closed. One that has been
/// closed already stays as it is.
pub proof fn law_closing_cancels_as_closed(actor: &mut AgentActorHandle)
    requires
        call_ensures(AgentActorHandle::close, (actor,), ()),
    ensures
        old(actor)@.lifecycle == ActorLifecycle::Open ==> is_closed(
            old(actor)@,
            final(actor)@,
            ActorLifecycle::Closed,
            TurnCancellationReason::Closed,
        ),
        old(actor)@.lifecycle != ActorLifecycle::Open ==> final(actor)@ == old(actor)@,
{
    if old(actor)@.lifecycle == ActorLifecycle::Open {
        lemma_closed(old(actor)@, ActorLifecycle::Closed, TurnCancellationReason::Closed);
    }
}

/// Shutting an actor down cancels what runs and what waits because the host shuts down.
pub proof fn law_shutting_down_cancels_as_shutdown(actor: &mut AgentActorHandle)
    requires
        call_ensures(AgentActorHandle::shutdown, (actor,), ()),
    ensures
        old(actor)@.lifecycle == ActorLifecycle::Open ==> is_closed(
            old(actor)@,
            final(actor)@,
            ActorLifecycle::Shutdown,
            TurnCancellationReason::Shutdown,
        ),
        old(actor)@.lifecycle != ActorLifecycle::Open ==> final(actor)@ == old(actor)@,
{
    if old(actor)@.lifecycle == ActorLifecycle::Open {
        lemma_closed(old(actor)@, ActorLifecycle::Shutdown, TurnCancellationReason::Shutdown);
    }
}

/// Cancelling under a key remembers the key with its reason, stops the run of that key and no
/// other, and leaves nothing under the key in the queue.
pub proof fn law_keys_cancel_their_own(
    actor: &mut AgentActorHandle,
    correlation: &str,
    reason: TurnCancellationReason,
    work: ActorWork,
)
    requires
        call_ensures(AgentActorHandle::cancel_correlation, (actor, correlation, reason), ()),
    ensures
        ({
            let before = old(actor)@;
            let after = final(actor)@;
            let runs = before.active matches Some(wiring) && wiring.correlation matches Some(key)
                && key@ == correlation@;
            let hit = match work {
                ActorWork::Turn(admission) => admission.correlation@ == correlation@,
                ActorWork::Root(root) => root.correlation@ == correlation@,
                ActorWork::Compact { run_id, .. } => "r"@ + crate::text::decimal(run_id as nat)
                    == correlation@,
                ActorWork::Control(_) => false,
                ActorWork::PolicyBarrier { .. } => false,
            };
            &&& after.lifecycle == before.lifecycle
            &&& after.marks == before.marks.insert(correlation@, reason)
            &&& runs ==> after.active is None && after.tokens.cancelled
            &&& runs && before.tokens.reason is None ==> after.tokens.reason == Some(reason)
            &&& !runs ==> after.active == before.active && after.tokens == before.tokens
            &&& before.queue.contains(work) ==> (after.queue.contains(work) <==> !hit)
            &&& work is Turn && hit && before.queue.contains(work)
                && !before.outcomes.dom().contains(work->Turn_0.turn_id.value)
                ==> after.outcomes.dom().contains(work->Turn_0.turn_id.value) && cancelled_unrun(
                after.outcomes[work->Turn_0.turn_id.value],
                before.agent_id,
                work->Turn_0.turn_id,
                reason,
            )
        }),
{
    let before = old(actor)@;
    let hit = |w: ActorWork| queue::carries(w, correlation@);
    let miss = |w: ActorWork| !queue::carries(w, correlation@);
    let matched = before.queue.filter(hit);
    let left = ActorModel {
        queue: before.queue.filter(miss),
        marks: before.marks.insert(correlation@, reason),
        ..before
    };
    laws::lemma_terminalized_keeps(left, matched, reason);
    queued::lemma_filter(before.queue, hit, miss, work);
    if matched.contains(work) && work is Turn {
        let j = choose|j: int| 0 <= j < matched.len() && matched[j] == work;
        laws::law_dropped_turns_settle(left, matched, reason, j);
    }
}

/// What the host is shown of an actor: how it is, how much waits, what came of the last turn and
/// what all turns have spent.
pub proof fn law_snapshots_show_the_actor(actor: AgentActorHandle, shown: ActorSnapshot)
    requires
        call_ensures(AgentActorHandle::snapshot, (&actor,), shown),
    ensures
        shown.lifecycle == actor@.lifecycle,
        shown.status == actor@.status,
        actor@.status is Idle ==> shown.active_turn is None,
        actor@.status matches ActorStatus::Running(turn_id) ==> shown.active_turn == Some(turn_id),
        shown.queued == actor@.queue.len(),
        shown.queue@.len() == queued::rows_among(actor@.queue),
        shown.latest == actor@.latest,
        shown.cumulative_usage == actor@.usage,
{
    queued::lemma_panel(actor@.queue);
}

/// A turn's outcome is found where it is retained, by whoever asks: by its identity, by its ticket,
/// or waiting for it. A turn that is known and has no outcome is waited for; one that is neither is
/// unknown.
pub proof fn law_outcomes_are_found(
    actor: AgentActorHandle,
    ticket: TurnTicket,
    found: Option<TurnOutcome>,
    peeked: Option<TurnOutcome>,
    shown: Option<TurnOutcome>,
    awaited: Result<Option<TurnOutcome>, ActorError>,
)
    requires
        call_ensures(AgentActorHandle::outcome, (&actor, ticket.id()), found),
        call_ensures(AgentActorHandle::peek, (&actor, &ticket), peeked),
        call_ensures(TurnTicket::peek, (&ticket, &actor), shown),
        call_ensures(AgentActorHandle::wait_outcome, (&actor, ticket.id()), awaited),
    ensures
        ({
            let id = ticket.id().value;
            let settled = actor@.outcomes.dom().contains(id);
            &&& settled ==> found == Some(actor@.outcomes[id]) && awaited == Ok::<_, ActorError>(
                found,
            )
            &&& !settled ==> found is None
            &&& peeked == found && shown == found
            &&& !settled && actor@.tickets.contains(id) ==> (awaited matches Ok(None))
            &&& !settled && !actor@.tickets.contains(id) ==> (awaited matches Err(
                ActorError::UnknownTurn(turn),
            ) && turn == ticket.id())
        }),
{
}

/// What is on its way to sinks and to those who wait is handed out once, all of it, in order.
pub proof fn law_outcomes_are_handed_out_once(
    actor: &mut AgentActorHandle,
    handed: Vec<Delivery>,
)
    requires
        call_ensures(AgentActorHandle::take_deliveries, (actor,), handed),
    ensures
        handed@ == old(actor)@.deliveries,
        final(actor)@.deliveries.len() == 0,
        final(actor)@.resolutions == old(actor)@.resolutions,
        final(actor)@.outcomes == old(actor)@.outcomes,
        same_but_settled(old(actor)@, final(actor)@),
{
}

/// What is on its way to those who wait is handed out once, all of it, in order.
pub proof fn law_waiters_are_told_once(actor: &mut AgentActorHandle, handed: Vec<Resolution>)
    requires
        call_ensures(AgentActorHandle::take_resolutions, (actor,), handed),
    ensures
        handed@ == old(actor)@.resolutions,
        final(actor)@.resolutions.len() == 0,
        final(actor)@.deliveries == old(actor)@.deliveries,
        final(actor)@.outcomes == old(actor)@.outcomes,
        same_but_settled(old(actor)@, final(actor)@),
{
}

/// A running turn folds nothing into itself once a cancellation has overtaken it; until then it
/// takes what the queue gives a turn of its generation.
pub proof fn law_overtaken_turns_fold_nothing(
    view: InterruptQueue,
    actor: &mut AgentActorHandle,
    taken: Option<ExtractedCommand>,
)
    requires
        call_ensures(InterruptQueue::poll, (&view, actor), taken),
    ensures
        old(actor)@.cancellation_generation != view.cancellation_generation ==> taken is None
            && final(actor)@ == old(actor)@,
        old(actor)@.cancellation_generation == view.cancellation_generation
            && old(actor)@.queue.len() > 0 && old(actor)@.queue[0] is Root
            && old(actor)@.queue[0]->Root_0.generation == view.policy_generation ==> (
        taken matches Some(ExtractedCommand::Interrupt(inputs)) && inputs@.len() > 0 && inputs@[0]
            == old(actor)@.queue[0]->Root_0.input),
        same_settled(old(actor)@, final(actor)@),
{
    if old(actor)@.queue.len() > 0 {
        queued::lemma_burst(old(actor)@.queue, 0);
    }
}

/// The view that a turn has of the queue is of this moment's cancellations and of its own
/// generation.
pub proof fn law_views_are_of_the_moment(
    actor: AgentActorHandle,
    generation: u64,
    view: InterruptQueue,
)
    requires
        call_ensures(AgentActorHandle::interrupt_source, (&actor, generation), view),
    ensures
        view.cancellation_generation == actor@.cancellation_generation,
        view.policy_generation == generation,
{
}

/// What a turn that starts does to its actor: it holds it, under its own key and identity, has not
/// been told to stop, and spends the marks of its key.
pub open spec fn holds(before: ActorModel, admission: TurnAdmission, after: ActorModel) -> bool {
    &&& after.status == ActorStatus::Running(admission.turn_id)
    &&& after.active matches Some(wiring) && wiring.correlation matches Some(key) && key@
        == admission.correlation@
    &&& !after.tokens.cancelled
    &&& after.tokens.reason is None
    &&& !after.marks.dom().contains(admission.correlation@)
    &&& after.queue == before.queue
    &&& after.lifecycle == before.lifecycle
    &&& after.cancelled_turns == before.cancelled_turns
    &&& after.cancellation_generation == before.cancellation_generation
    &&& same_settled(before, after)
}

/// What a turn that is given up leaves: the actor is free, and an admitted turn has an outcome with
/// the reason. A root leaves none.
pub open spec fn lets_go(
    before: ActorModel,
    admission: TurnAdmission,
    reason: TurnCancellationReason,
    after: ActorModel,
) -> bool {
    let id = admission.turn_id.value;
    &&& after.status == ActorStatus::Idle
    &&& after.active is None
    &&& after.awake
    &&& after.queue == before.queue
    &&& after.lifecycle == before.lifecycle
    &&& admission.root ==> same_settled(before, after)
    &&& !admission.root ==> after.outcomes.dom().contains(id)
    &&& !admission.root && !before.outcomes.dom().contains(id) ==> {
        &&& cancelled_unrun(after.outcomes[id], before.agent_id, admission.turn_id, reason)
        &&& admission.event_sender is Some ==> after.deliveries == before.deliveries.push(
            Delivery { sender: admission.event_sender->0, outcome: after.outcomes[id] },
        )
    }
}

/// Unmarking adds no mark.
proof fn lemma_unmarked_shrinks(
    marks: Map<Seq<char>, TurnCancellationReason>,
    earlier: Seq<crate::actor::work::EarlierRoot>,
    key: Seq<char>,
)
    requires
        !marks.dom().contains(key),
    ensures
        !runner::unmarked(marks, earlier).dom().contains(key),
    decreases earlier.len(),
{
    if earlier.len() > 0 {
        lemma_unmarked_shrinks(marks, earlier.drop_last(), key);
    }
}

/// A turn that was taken off the queue starts exactly where no cancellation has overtaken it, it
/// was not cancelled by itself, and the actor is open. Where it does not start it is given up, for
/// the user or for what closed the actor.
pub proof fn law_turns_start_where_nothing_stops_them(
    runner: &mut Runner,
    admission: TurnAdmission,
    work: WorkKind,
    popped_generation: u64,
    launch: Launch,
)
    requires
        call_ensures(Runner::run_turn, (runner, admission, work, popped_generation), launch),
    ensures
        ({
            let before = old(runner).actor@;
            let after = final(runner).actor@;
            let overtaken = before.cancellation_generation != popped_generation;
            let cancelled = before.cancelled_turns.contains(admission.turn_id.value);
            let open = before.lifecycle == ActorLifecycle::Open;
            &&& !overtaken && !cancelled && open ==> {
                &&& launch == Launch::Turn(StartedTurn { admission, work, popped_generation })
                &&& holds(before, admission, after)
            }
            &&& overtaken || cancelled || !open ==> launch is Settled
            &&& overtaken || cancelled ==> lets_go(
                before,
                admission,
                TurnCancellationReason::User,
                after,
            )
            &&& !overtaken && !cancelled && before.lifecycle == ActorLifecycle::Closed ==> lets_go(
                before,
                admission,
                TurnCancellationReason::Closed,
                after,
            )
            &&& !overtaken && !cancelled && before.lifecycle == ActorLifecycle::Shutdown
                ==> lets_go(before, admission, TurnCancellationReason::Shutdown, after)
        }),
{
    let before = old(runner).actor@;
    lemma_unmarked_shrinks(
        before.marks.remove(admission.correlation@),
        runner::condensed_into(work),
        admission.correlation@,
    );
}

/// A started turn reaches its backend with its own input, under its own identity and key, unless it
/// has been told to stop since or its manager refuses it: then it is given up for that reason.
pub proof fn law_started_turns_reach_their_backend(
    runner: &mut Runner,
    started: StartedTurn,
    refused: Option<TurnCancellationReason>,
    entered: Option<EnteredTurn>,
)
    requires
        call_ensures(Runner::enter_turn, (runner, started, refused), entered),
    ensures
        ({
            let before = old(runner).actor@;
            let after = final(runner).actor@;
            let admission = started.admission;
            &&& entered is Some <==> !before.tokens.cancelled && refused is None
            &&& entered matches Some(turn) ==> {
                &&& Some(turn.input) == admission.input
                &&& turn.work == started.work
                &&& turn.admission.turn_id == admission.turn_id
                &&& turn.admission.event_sender == admission.event_sender
                &&& turn.admission.root == admission.root
                &&& turn.admission.ticket == admission.ticket
                &&& turn.context.agent_id == before.agent_id
                &&& turn.context.turn_id == Some(admission.turn_id)
                &&& turn.context.correlation@ == admission.correlation@
                &&& turn.context.generation == admission.generation
                &&& turn.context.interrupt matches Some(view) && {
                    &&& view.cancellation_generation == started.popped_generation
                    &&& view.policy_generation == admission.generation
                }
                &&& after == before
            }
            &&& before.tokens.cancelled && before.tokens.reason is Some ==> lets_go(
                before,
                admission,
                before.tokens.reason->0,
                after,
            )
            &&& before.tokens.cancelled && before.tokens.reason is None ==> lets_go(
                before,
                admission,
                TurnCancellationReason::User,
                after,
            )
            &&& !before.tokens.cancelled && refused is Some ==> lets_go(
                before,
                admission,
                refused->0,
                after,
            )
        }),
{
}

/// An admitted turn that ran is retained with the outcome that the backend reports, and nothing is
/// delivered again. One that did not run has failed, spent nothing, may be tried again, and its
/// sink is told. A root leaves nothing.
pub proof fn law_executed_turns_keep_their_outcome(
    runner: &mut Runner,
    admission: TurnAdmission,
    result: BackendResult,
)
    requires
        call_ensures(Runner::finish_turn, (runner, admission, result), ()),
    ensures
        ({
            let before = old(runner).actor@;
            let after = final(runner).actor@;
            let id = admission.turn_id.value;
            let fresh = !admission.root && !before.outcomes.dom().contains(id);
            &&& after.status == ActorStatus::Idle
            &&& after.active is None
            &&& after.awake
            &&& after.queue == before.queue
            &&& admission.root ==> same_settled(before, after)
            &&& fresh && result is EnteredRun ==> {
                &&& after.outcomes == before.outcomes.insert(id, result->EnteredRun_0)
                &&& after.latest == Some(result->EnteredRun_0)
                &&& after.deliveries == before.deliveries
            }
            &&& fresh && !(result is EnteredRun) ==> {
                &&& after.outcomes.dom().contains(id)
                &&& after.outcomes[id] matches TurnOutcome::Failed {
                    agent_id,
                    turn_id,
                    usage,
                    num_turns,
                    failure,
                } && {
                    &&& agent_id == before.agent_id
                    &&& turn_id == admission.turn_id
                    &&& usage.input == 0 && usage.output == 0
                    &&& num_turns == 0
                    &&& failure.kind == TurnFailureKind::Internal
                    &&& failure.user_message@ == "The agent could not start this turn."@
                    &&& failure.retryable
                }
                &&& admission.event_sender is Some ==> after.deliveries == before.deliveries.push(
                    Delivery { sender: admission.event_sender->0, outcome: after.outcomes[id] },
                )
            }
        }),
{
}

/// A root starts as a turn of the fresh identity, with its own input, key and generation, and the
/// backend is told what was shown for it and what was condensed into it.
pub proof fn law_roots_start_as_themselves(
    runner: &mut Runner,
    root: RootWork,
    generation: u64,
    fresh: TurnId,
    launch: Launch,
)
    requires
        call_ensures(Runner::run_root, (runner, root, generation, fresh), launch),
    ensures
        same_settled(old(runner).actor@, final(runner).actor@),
        launch matches Launch::Turn(started) ==> {
            &&& started.admission.turn_id == fresh
            &&& started.admission.input == Some(root.input)
            &&& started.admission.correlation@ == root.correlation@
            &&& started.admission.generation == root.generation
            &&& started.admission.root
            &&& started.admission.event_sender is None
            &&& started.popped_generation == generation
            &&& started.work matches WorkKind::Root { run_id, displayed, text, images, earlier }
                && {
                &&& run_id == root.run_id
                &&& displayed == root.displayed
                &&& text@ == root.text@
                &&& images@ == root.images@
                &&& earlier@ == root.earlier@
            }
        },
        launch is Turn <==> old(runner).actor@.cancellation_generation == generation
            && !old(runner).actor@.cancelled_turns.contains(fresh.value)
            && old(runner).actor@.lifecycle == ActorLifecycle::Open,
        launch is Turn || launch is Settled,
{
}

/// A control holds the actor under its own key and reaches the backend as it is, unless a
/// cancellation has overtaken it: then nothing happens.
pub proof fn law_controls_run_as_themselves(
    runner: &mut Runner,
    control: ControlWork,
    generation: u64,
    launch: Launch,
)
    requires
        call_ensures(Runner::run_control, (runner, control, generation), launch),
    ensures
        ({
            let before = old(runner).actor@;
            let after = final(runner).actor@;
            &&& before.cancellation_generation != generation ==> launch is Settled && after
                == before
            &&& before.cancellation_generation == generation ==> {
                &&& launch matches Launch::Control(context, given) && {
                    &&& given == control
                    &&& context.agent_id == before.agent_id
                    &&& context.turn_id is None
                    &&& context.correlation@ == control.correlation@
                    &&& context.interrupt is None
                }
                &&& after.active matches Some(wiring) && wiring.correlation matches Some(key)
                    && key@ == control.correlation@
                &&& !after.tokens.cancelled
                &&& after.status == before.status
                &&& after.queue == before.queue
                &&& after.marks == before.marks.remove(control.correlation@)
                &&& same_settled(before, after)
            }
        }),
{
}

/// A compaction holds the actor under its run's key and reaches the backend with its instructions,
/// unless a cancellation has overtaken it: then nothing happens.
pub proof fn law_compactions_run_as_themselves(
    runner: &mut Runner,
    run_id: u64,
    instructions: Option<String>,
    policy: u64,
    generation: u64,
    launch: Launch,
)
    requires
        call_ensures(
            Runner::run_compact,
            (runner, run_id, instructions, policy, generation),
            launch,
        ),
    ensures
        ({
            let before = old(runner).actor@;
            let after = final(runner).actor@;
            let key = "r"@ + crate::text::decimal(run_id as nat);
            &&& before.cancellation_generation != generation ==> launch is Settled && after
                == before
            &&& before.cancellation_generation == generation ==> {
                &&& launch matches Launch::Compact(context, given) && {
                    &&& given == instructions
                    &&& context.agent_id == before.agent_id
                    &&& context.turn_id is None
                    &&& context.correlation@ == key
                    &&& context.generation == policy
                    &&& context.interrupt is None
                }
                &&& after.active matches Some(wiring) && wiring.correlation matches Some(own)
                    && own@ == key
                &&& !after.tokens.cancelled
                &&& after.status == before.status
                &&& after.queue == before.queue
                &&& after.marks == before.marks.remove(key)
                &&& same_settled(before, after)
            }
        }),
{
}

/// Work is started as what it is: a turn as itself, a root under the fresh identity, a control as a
/// control, a compaction as a compaction. A policy barrier does nothing.
pub proof fn law_work_starts_as_what_it_is(
    runner: &mut Runner,
    popped: Popped,
    fresh: TurnId,
    launch: Launch,
)
    requires
        call_ensures(Runner::process, (runner, popped, fresh), launch),
    ensures
        match popped.work {
            ActorWork::Turn(admission) => launch matches Launch::Turn(started) ==> {
                &&& started.admission == admission
                &&& started.work is Turn
            },
            ActorWork::Root(root) => launch matches Launch::Turn(started) ==> {
                &&& started.admission.turn_id == fresh
                &&& started.admission.input == Some(root.input)
                &&& started.work is Root
            },
            ActorWork::PolicyBarrier { .. } => launch is Settled && final(runner).actor@ == old(
                runner,
            ).actor@,
            ActorWork::Control(control) => launch matches Launch::Control(_, given) ==> given
                == control,
            ActorWork::Compact { instructions, .. } => launch matches Launch::Compact(_, given)
                ==> given == instructions,
        },
        launch is Control ==> popped.work is Control,
        launch is Compact ==> popped.work is Compact,
        launch is Turn ==> popped.work is Turn || popped.work is Root,
        final(runner).actor@.queue == old(runner).actor@.queue,
{
}

/// A control or a compaction that was told to stop does not reach the backend and lets go of the
/// actor; any other does.
pub proof fn law_stopped_work_does_not_run(runner: &mut Runner, enters: bool)
    requires
        call_ensures(Runner::enter_keyed, (runner,), enters),
    ensures
        enters == !old(runner).actor@.tokens.cancelled,
        enters ==> final(runner).actor@ == old(runner).actor@,
        !enters ==> final(runner).actor@.active is None,
        same_settled(old(runner).actor@, final(runner).actor@),
        final(runner).actor@.queue == old(runner).actor@.queue,
{
}

/// A control or a compaction that has been executed lets go of the actor and changes nothing else.
pub proof fn law_executed_work_lets_go(runner: &mut Runner)
    requires
        call_ensures(Runner::finish_keyed, (runner,), ()),
    ensures
        final(runner).actor@.active is None,
        final(runner).actor@.status == old(runner).actor@.status,
        final(runner).actor@.queue == old(runner).actor@.queue,
        final(runner).actor@.marks == old(runner).actor@.marks,
        final(runner).actor@.lifecycle == old(runner).actor@.lifecycle,
        same_settled(old(runner).actor@, final(runner).actor@),
{
}

/// The runner goes on exactly as long as its actor is open.
pub proof fn law_runners_end_with_their_actor(runner: Runner, step: Step)
    requires
        call_ensures(Runner::step, (&runner,), step),
    ensures
        runner.actor@.lifecycle == ActorLifecycle::Open <==> step == Step::Waiting,
        runner.actor@.lifecycle != ActorLifecycle::Open <==> step == Step::Exit,
{
}

/// The runner takes the front of the queue, under this moment's cancellations.
pub proof fn law_runners_take_the_front(runner: &mut Runner, popped: Option<Popped>)
    requires
        call_ensures(Runner::next, (runner,), popped),
    ensures
        popped is None <==> old(runner).actor@.queue.len() == 0,
        popped matches Some(taken) ==> {
            let items = old(runner).actor@.queue;
            let count = items.len() - final(runner).actor@.queue.len();
            &&& taken.cancellation_generation == old(runner).actor@.cancellation_generation
            &&& 1 <= count <= items.len()
            &&& final(runner).actor@.queue == items.skip(count)
            &&& count == 1 ==> taken.work == items[0]
            &&& count > 1 ==> taken.work is Root && queued::stands_for_roots(
                items.take(count),
                taken.work->Root_0,
            )
            &&& count < items.len() ==> !queued::of_one_burst(items[0], items[count])
            &&& same_settled(old(runner).actor@, final(runner).actor@)
        },
{
    let items = old(runner).actor@.queue;
    if items.len() > 0 {
        let count = queue::batch_length(items) as int;
        queued::lemma_burst(items, 0);
        if items[0] is Root {
            if count == 1 {
                assert(items.take(count).last() == items[0]);
            } else {
                queued::lemma_condensed_stands(items.take(count), popped->0.work->Root_0);
            }
        }
    }
}

/// Identities are handed out one after another.
pub proof fn law_identities_follow_one_another(ids: &mut TurnIds, taken: TurnId)
    requires
        call_ensures(TurnIds::take, (ids,), taken),
    ensures
        taken.value == old(ids).next,
        old(ids).next < u128::MAX ==> final(ids).next == old(ids).next + 1,
        final(ids).next != old(ids).next,
{
}

/// What is said of each refusal.
pub proof fn law_refusals_are_told_apart(error: ActorError, message: &'static str)
    requires
        call_ensures(ActorError::message, (&error,), message),
    ensures
        error == ActorError::Closed ==> message@ == "the actor is closed"@,
        error == ActorError::Shutdown ==> message@ == "the actor is shutting down"@,
        error == ActorError::PolicyPending ==> message@
            == "policy update is pending; use async admission"@,
        error == ActorError::PolicyCancelled ==> message@ == "policy update was cancelled"@,
        error == ActorError::PolicyCeiling ==> message@
            == "child policy exceeds its inherited authority ceiling"@,
        error is UnknownTurn ==> message@ == "no such turn: "@,
{
}

/// A row of the panel leaves the queue by its number among the rows, and nothing else changes: what
/// is drawn is handed back, and where there are not so many rows, nothing leaves.
pub proof fn law_rows_leave_the_queue(
    actor: &mut AgentActorHandle,
    row: usize,
    shown: Option<QueueProjection>,
)
    requires
        call_ensures(AgentActorHandle::remove_visible_at, (actor, row), shown),
    ensures
        same_settled(old(actor)@, final(actor)@),
        final(actor)@.lifecycle == old(actor)@.lifecycle,
        final(actor)@.status == old(actor)@.status,
        final(actor)@.active == old(actor)@.active,
        final(actor)@.tokens == old(actor)@.tokens,
        final(actor)@.marks == old(actor)@.marks,
        final(actor)@.cancelled_turns == old(actor)@.cancelled_turns,
        shown is None <==> queued::rows_among(old(actor)@.queue) <= row,
        shown is None ==> final(actor)@.queue == old(actor)@.queue,
        shown is Some ==> exists|at: int|
            {
                let work = #[trigger] old(actor)@.queue[at];
                &&& 0 <= at < old(actor)@.queue.len()
                &&& queued::rows_among(old(actor)@.queue.take(at)) == row
                &&& final(actor)@.queue == old(actor)@.queue.remove(at)
                &&& work is Compact || (work is Root && !work->Root_0.displayed)
                &&& shown->0 is Compact <==> work is Compact
                &&& shown->0 is Message <==> work is Root
                &&& work is Root ==> shown->0->text@ == work->Root_0.text@
            },
{
    let items = old(actor)@.queue;
    assert(items.skip(0) =~= items);
    assert(items.take(items.len() as int) =~= items);
    queued::lemma_row_position(items, row as nat, 0);
    assert(queued::rows_among(items.take(0)) == 0);
    match queue::row_position(items, row as nat, 0) {
        Some(at) => {
            let work = items[at];
            queued::lemma_rows_grow(items, at + 1, items.len() as int);
            assert(items.take(at + 1).drop_last() =~= items.take(at));
        },
        None => {},
    }
}

/// An actor says whose it is, and a ticket says which turn it is for.
pub proof fn law_tickets_name_their_turn(
    actor: AgentActorHandle,
    agent_id: AgentId,
    turn_id: TurnId,
    ticket: TurnTicket,
    named: TurnId,
)
    requires
        call_ensures(AgentActorHandle::agent_id, (&actor,), agent_id),
        call_ensures(TurnTicket::new, (turn_id,), ticket),
        call_ensures(TurnTicket::turn_id, (&ticket,), named),
    ensures
        agent_id == actor@.agent_id,
        named.value == turn_id.value,
{
}

/// Settling the turn that runs frees the actor and wakes it; the outcome, where there is one, is
/// retained unless the turn has one already.
pub proof fn law_settled_turns_free_the_actor(
    runner: &mut Runner,
    admission: TurnAdmission,
    outcome: Option<TurnOutcome>,
    deliver: bool,
)
    requires
        call_ensures(Runner::settle_turn, (runner, admission, outcome, deliver), ()),
    ensures
        ({
            let before = old(runner).actor@;
            let after = final(runner).actor@;
            let id = admission.turn_id.value;
            &&& after.active is None
            &&& after.status == ActorStatus::Idle
            &&& after.awake
            &&& after.queue == before.queue
            &&& after.lifecycle == before.lifecycle
            &&& after.marks == before.marks
            &&& after.cancelled_turns == before.cancelled_turns
            &&& after.tokens == before.tokens
            &&& outcome is None || before.outcomes.dom().contains(id) ==> same_settled(
                before,
                after,
            )
            &&& outcome is Some && !before.outcomes.dom().contains(id) ==> {
                &&& after.outcomes == before.outcomes.insert(id, outcome->0)
                &&& after.latest == outcome
                &&& after.resolutions.len() == before.resolutions.len() + 1
                &&& after.resolutions.last().outcome == outcome->0
                &&& admission.event_sender is Some && deliver ==> after.deliveries
                    == before.deliveries.push(
                    Delivery { sender: admission.event_sender->0, outcome: outcome->0 },
                )
                &&& admission.event_sender is None || !deliver ==> after.deliveries
                    == before.deliveries
            }
        }),
{
}

/// Of work that is dropped every turn has an outcome afterwards: the one it had, or one that says
/// why it was dropped. Nothing else changes.
pub proof fn law_dropped_turns_have_an_outcome(
    actor: &mut ActorInner,
    drained: Vec<ActorWork>,
    reason: TurnCancellationReason,
    i: int,
)
    requires
        call_ensures(terminalize_work, (actor, drained, reason), ()),
    ensures
        same_but_settled(old(actor)@, final(actor)@),
        inner::retains(old(actor)@.outcomes, final(actor)@.outcomes),
        0 <= i < drained@.len() && drained@[i] is Turn ==> {
            let id = drained@[i]->Turn_0.turn_id;
            &&& final(actor)@.outcomes.dom().contains(id.value)
            &&& !old(actor)@.outcomes.dom().contains(id.value) ==> cancelled_unrun(
                final(actor)@.outcomes[id.value],
                old(actor)@.agent_id,
                id,
                reason,
            )
        },
{
    laws::lemma_terminalized_keeps(old(actor)@, drained@, reason);
    lemma_terminalized(old(actor)@, drained@, reason, i);
}

/// A turn of work that is dropped has an outcome.
proof fn lemma_terminalized(
    actor: ActorModel,
    works: Seq<ActorWork>,
    reason: TurnCancellationReason,
    i: int,
)
    ensures
        inner::retains(actor.outcomes, inner::terminalized(actor, works, reason).outcomes),
        0 <= i < works.len() && works[i] is Turn ==> {
            let id = works[i]->Turn_0.turn_id;
            let after = inner::terminalized(actor, works, reason);
            &&& after.outcomes.dom().contains(id.value)
            &&& !actor.outcomes.dom().contains(id.value) ==> cancelled_unrun(
                after.outcomes[id.value],
                actor.agent_id,
                id,
                reason,
            )
        },
    decreases works.len(),
{
    if works.len() > 0 {
        let shorter = works.drop_last();
        let before = inner::terminalized(actor, shorter, reason);
        lemma_terminalized(actor, shorter, reason, i);
        lemma_new_outcomes(actor, shorter, reason);
        if 0 <= i < works.len() && works[i] is Turn {
            assert(i < shorter.len() ==> shorter[i] == works[i]);
        }
    }
}

/// Every outcome that dropping work adds says that its turn was cancelled.
proof fn lemma_new_outcomes(
    actor: ActorModel,
    works: Seq<ActorWork>,
    reason: TurnCancellationReason,
)
    ensures
        forall|id: u128| #[trigger]
            inner::terminalized(actor, works, reason).outcomes.dom().contains(id)
                && !actor.outcomes.dom().contains(id) ==> cancelled_unrun(
                inner::terminalized(actor, works, reason).outcomes[id],
                actor.agent_id,
                TurnId { value: id },
                reason,
            ),
    decreases works.len(),
{
    if works.len() > 0 {
        lemma_new_outcomes(actor, works.drop_last(), reason);
    }
}

/// A runner that executes everything leaves nothing queued, every turn that was queued with an
/// outcome, and every outcome that was there as it was, whatever its backend answers.
pub proof fn law_runners_leave_nothing_unanswered<B: ActorBackend>(
    runner: &mut Runner,
    backend: &mut B,
    ids: &mut TurnIds,
    i: int,
    id: u128,
)
    requires
        forall|k: int|
            0 <= k < old(runner).actor@.queue.len() ==> (#[trigger] old(
                runner).actor@.queue[k] matches ActorWork::Turn(admission)
                ==> admission.input is Some),
        call_ensures(Runner::drain::<B>, (runner, backend, ids), ()),
    ensures
        final(runner).actor@.queue.len() == 0,
        final(runner).actor@.lifecycle == old(runner).actor@.lifecycle,
        old(runner).actor@.active is None ==> final(runner).actor@.active is None,
        old(runner).actor@.outcomes.dom().contains(id) ==> final(
            runner).actor@.outcomes.dom().contains(id) && final(runner).actor@.outcomes[id] == old(
            runner).actor@.outcomes[id],
        0 <= i < old(runner).actor@.queue.len() && old(runner).actor@.queue[i] is Turn && !old(
            runner).actor@.queue[i]->Turn_0.root ==> final(
            runner).actor@.outcomes.dom().contains(
            old(runner).actor@.queue[i]->Turn_0.turn_id.value,
        ),
{
    if 0 <= i < old(runner).actor@.queue.len() {
        assert(runner::answered(final(runner).actor@, old(runner).actor@.queue[i]));
    }
}

/// Between two moments the front of the queue has been executed. A turn that nothing stops leaves
/// the outcome that the backend reports, or one that says it failed; one that was cancelled, or
/// whose actor has been closed, leaves one that says so. Other work leaves no outcome.
pub open spec fn executes_the_front(before: ActorModel, result: BackendResult, after: ActorModel)
    -> bool {
    let count = before.queue.len() - after.queue.len();
    let stopped = before.cancelled_turns.contains(before.queue[0]->Turn_0.turn_id.value);
    let id = before.queue[0]->Turn_0.turn_id;
    let fresh = before.queue[0] is Turn && !before.queue[0]->Turn_0.root
        && !before.outcomes.dom().contains(id.value);
    &&& 1 <= count <= before.queue.len()
    &&& after.queue == before.queue.skip(count)
    &&& after.lifecycle == before.lifecycle
    &&& after.agent_id == before.agent_id
    &&& !(before.queue[0] is Turn) ==> same_settled(before, after)
    &&& fresh ==> after.outcomes == before.outcomes.insert(id.value, after.outcomes[id.value])
    &&& fresh && stopped ==> cancelled_unrun(
        after.outcomes[id.value],
        before.agent_id,
        id,
        TurnCancellationReason::User,
    )
    &&& fresh && !stopped && before.lifecycle != ActorLifecycle::Open ==> cancelled_unrun(
        after.outcomes[id.value],
        before.agent_id,
        id,
        if before.lifecycle == ActorLifecycle::Closed {
            TurnCancellationReason::Closed
        } else {
            TurnCancellationReason::Shutdown
        },
    )
    &&& fresh && !stopped && before.lifecycle == ActorLifecycle::Open ==> {
        &&& result is EnteredRun ==> after.outcomes[id.value] == result->EnteredRun_0
            && after.deliveries == before.deliveries
        &&& !(result is EnteredRun) ==> (after.outcomes[id.value] matches TurnOutcome::Failed {
            turn_id,
            failure,
            ..
        } && turn_id == id && failure.kind == TurnFailureKind::Internal)
    }
}

/// An actor goes through moments, in each of which the front of its queue is executed.
pub open spec fn goes_through(moments: Seq<ActorModel>, results: Seq<BackendResult>) -> bool {
    &&& moments.len() == results.len() + 1
    &&& forall|i: int|
        0 <= i < results.len() ==> executes_the_front(
            moments[i],
            #[trigger] results[i],
            moments[i + 1],
        )
}

/// A runner executes what is queued from the front, one piece after another, and takes an identity
/// for each.
pub proof fn law_runners_execute_front_to_back<B: ActorBackend>(
    runner: &mut Runner,
    backend: &mut B,
    ids: &mut TurnIds,
)
    requires
        forall|k: int|
            0 <= k < old(runner).actor@.queue.len() ==> (#[trigger] old(
                runner).actor@.queue[k] matches ActorWork::Turn(admission)
                ==> admission.input is Some),
        call_ensures(Runner::drain::<B>, (runner, backend, ids), ()),
    ensures
        exists|moments: Seq<ActorModel>, results: Seq<BackendResult>|
            {
                &&& #[trigger] goes_through(moments, results)
                &&& moments.first() == old(runner).actor@
                &&& moments.last() == final(runner).actor@
                &&& old(ids).next + results.len() <= u128::MAX ==> final(ids).next == old(ids).next
                    + results.len()
            },
{
    let (moments, results) = choose|moments: Seq<ActorModel>, results: Seq<BackendResult>|
        {
            &&& #[trigger] runner::executed_all::<B>(moments, old(ids).next, results)
            &&& moments.first() == old(runner).actor@
            &&& moments.last() == final(runner).actor@
            &&& final(ids).next == runner::identity_after(old(ids).next, results.len()).value
        };
    assert forall|i: int| 0 <= i < results.len() implies executes_the_front(
        moments[i],
        #[trigger] results[i],
        moments[i + 1],
    ) by {
        lemma_executed::<B>(
            moments[i],
            runner::identity_after(old(ids).next, i as nat),
            results[i],
            moments[i + 1],
        );
    }
    lemma_identities(old(ids).next, results.len());
    assert(goes_through(moments, results));
}

/// Identities are counted up.
proof fn lemma_identities(first: u128, count: nat)
    ensures
        first + count <= u128::MAX ==> runner::identity_after(first, count).value == first + count,
    decreases count,
{
    if count > 0 {
        lemma_identities(first, (count - 1) as nat);
    }
}

/// The front of the queue has been executed.
proof fn lemma_executed<B: ActorBackend>(
    before: ActorModel,
    fresh: TurnId,
    result: BackendResult,
    after: ActorModel,
)
    requires
        runner::executed::<B>(before, fresh, result, after),
    ensures
        executes_the_front(before, result, after),
{
    let taken = ActorModel {
        queue: before.queue.skip(queue::batch_length(before.queue) as int),
        ..before
    };
    let (popped, launch, held) = choose|popped: Popped, launch: Launch, held: ActorModel|
        {
            &&& runner::took(before, popped)
            &&& #[trigger] runner::launched(taken, popped, fresh, launch, held)
            &&& runner::ran::<B>(held, launch, result, after)
        };
    let id = before.queue[0]->Turn_0.turn_id.value;
    if before.queue[0] is Turn {
        assert(popped.work == before.queue[0]);
        if !before.queue[0]->Turn_0.root && !before.outcomes.dom().contains(id) {
            assert(after.outcomes =~= before.outcomes.insert(id, after.outcomes[id]));
        }
    }
}

} // verus!
