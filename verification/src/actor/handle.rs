//! What a host asks of an actor.
use std::collections::{HashMap, HashSet};

use vstd::prelude::*;

use crate::actor::error::ActorError;
use crate::actor::inner;
use crate::actor::inner::{
    cancelled_outcome, finalize_turn, terminalize_work, ActorInner, ActorModel, ActorState,
    Delivery, Resolution,
};
use crate::actor::queue;
use crate::actor::queue::{run_correlation, ActorQueue};
use crate::actor::tickets::TurnTicket;
use crate::actor::work::{
    ActorLifecycle, ActorSnapshot, ActorStatus, ActorWork, ControlWork, ExtractedCommand,
    InterruptQueue, QueueProjection, RootWork, TurnAdmission,
};
use crate::types;
use crate::types::{
    AgentId, AgentInput, TokenUsage, TurnCancellationReason, TurnId, TurnOutcome,
};

verus! {

broadcast use vstd::std_specs::hash::group_hash_axioms;

/// The error with which a lifecycle refuses work.
pub open spec fn refusal(lifecycle: ActorLifecycle) -> Option<ActorError> {
    match lifecycle {
        ActorLifecycle::Open => None,
        ActorLifecycle::Closed => Some(ActorError::Closed),
        ActorLifecycle::Shutdown => Some(ActorError::Shutdown),
    }
}

/// The actor with work at the back of its queue.
pub open spec fn pushed(actor: ActorModel, work: ActorWork) -> ActorModel {
    ActorModel { queue: actor.queue.push(work), notice: true, ..actor }
}

/// The actor with work under a key at the back of its queue, unless the key is marked: then the
/// work is dropped.
pub open spec fn pushed_under(actor: ActorModel, key: Seq<char>, work: ActorWork) -> ActorModel {
    if actor.marks.dom().contains(key) {
        actor
    } else {
        pushed(actor, work)
    }
}

/// The actor whose active run has been told to stop.
pub open spec fn stopped(actor: ActorModel, reason: TurnCancellationReason) -> ActorModel {
    match actor.active {
        Some(_) => ActorModel {
            active: None,
            tokens: inner::fired(actor.tokens, reason),
            ..actor
        },
        None => actor,
    }
}

/// The actor with an empty queue.
pub open spec fn emptied(actor: ActorModel) -> ActorModel {
    ActorModel { queue: Seq::empty(), ..actor }
}

/// The actor once it has been closed for `lifecycle`. An actor that was closed before stays as it
/// is.
pub open spec fn closed_for(
    actor: ActorModel,
    lifecycle: ActorLifecycle,
    reason: TurnCancellationReason,
) -> ActorModel {
    if actor.lifecycle != ActorLifecycle::Open {
        actor
    } else {
        let refusing = ActorModel { lifecycle, marks: Map::empty(), ..actor };
        let settled = inner::terminalized(
            emptied(stopped(refusing, reason)),
            actor.queue,
            reason,
        );
        ActorModel { notice: true, awake: true, ..settled }
    }
}

/// The actor once everything under one key has been cancelled. The key is marked, so that work
/// pushed under it later is cancelled at once.
pub open spec fn cancelled_under(
    actor: ActorModel,
    correlation: Seq<char>,
    reason: TurnCancellationReason,
) -> ActorModel {
    let active = inner::active_carries(actor.active, correlation);
    let matched = actor.queue.filter(|work: ActorWork| queue::carries(work, correlation));
    let left = ActorModel {
        queue: actor.queue.filter(|work: ActorWork| !queue::carries(work, correlation)),
        marks: actor.marks.insert(correlation, reason),
        ..actor
    };
    let settled = inner::terminalized(left, matched, reason);
    if active {
        stopped(settled, reason)
    } else {
        settled
    }
}

/// The actor of a session, as its host holds it.
pub struct AgentActorHandle {
    pub inner: ActorInner,
}

impl View for AgentActorHandle {
    type V = ActorModel;

    open spec fn view(&self) -> ActorModel {
        self.inner@
    }
}

/// An actor that has done nothing.
pub open spec fn newborn(agent_id: AgentId) -> ActorModel {
    ActorModel {
        agent_id,
        lifecycle: ActorLifecycle::Open,
        status: ActorStatus::Idle,
        active: None,
        tokens: inner::fresh_tokens(),
        marks: Map::empty(),
        cancelled_turns: Set::empty(),
        cancellation_generation: 0,
        queue: Seq::empty(),
        notice: false,
        outcomes: Map::empty(),
        latest: None,
        usage: types::no_usage(),
        tickets: Set::empty(),
        deliveries: Seq::empty(),
        resolutions: Seq::empty(),
        awake: false,
    }
}

impl AgentActorHandle {
    /// A new actor, open and idle.
    pub fn spawn(agent_id: AgentId) -> (result: Self)
        ensures
            result@ == newborn(agent_id),
    {
        let result = AgentActorHandle {
            inner: ActorInner {
                agent_id,
                state: ActorState::idle(),
                queue: ActorQueue::new(),
                outcomes: HashMap::new(),
                latest: None,
                usage: TokenUsage::zero(),
                tickets: HashSet::new(),
                deliveries: Vec::new(),
                resolutions: Vec::new(),
                awake: false,
            },
        };
        assert(result@ =~= newborn(agent_id));
        result
    }

    pub fn agent_id(&self) -> (result: AgentId)
        ensures
            result == self@.agent_id,
    {
        self.inner.agent_id
    }

    /// The error with which the actor refuses work, if it does.
    fn refused(&self) -> (result: Option<ActorError>)
        ensures
            result == refusal(self@.lifecycle),
    {
        match self.inner.state.lifecycle {
            ActorLifecycle::Open => None,
            ActorLifecycle::Closed => Some(ActorError::Closed),
            ActorLifecycle::Shutdown => Some(ActorError::Shutdown),
        }
    }

    /// Admits a turn under a fresh identity and queues it behind everything queued before. A turn
    /// whose key was cancelled beforehand settles at once, with the remembered reason.
    pub fn admit_turn(
        &mut self,
        turn_id: TurnId,
        input: AgentInput,
        event_sender: Option<u64>,
        correlation: String,
    ) -> (result: Result<TurnTicket, ActorError>)
        ensures
            match refusal(old(self)@.lifecycle) {
                Some(error) => result == Err::<TurnTicket, _>(error) && final(self)@ == old(self)@,
                None => {
                    &&& result is Ok
                    &&& result->Ok_0.id() == turn_id
                    &&& admitted(
                        old(self)@,
                        turn_id,
                        input,
                        event_sender,
                        correlation,
                        final(self)@,
                    )
                },
            },
    {
        match self.refused() {
            Some(error) => {
                return Err(error);
            },
            None => {},
        }
        let marked: Option<TurnCancellationReason> = match self.inner.state.cancelled_correlations
            .get(correlation.as_str()) {
            Some(reason) => Some(*reason),
            None => None,
        };
        let ticket = TurnTicket::new(turn_id);
        let admission = TurnAdmission {
            turn_id,
            input: Some(input),
            event_sender,
            correlation,
            root: false,
            generation: 0,
            ticket,
        };
        let ghost made = admission;
        match marked {
            Some(reason) => {
                let outcome = cancelled_outcome(self.inner.agent_id, turn_id, reason);
                finalize_turn(&mut self.inner, outcome, &admission, true);
                proof {
                    assert(queued_as(made, turn_id, input, event_sender, correlation));
                }
                Ok(ticket)
            },
            None => {
                self.inner.queue.push(ActorWork::Turn(admission));
                self.inner.tickets.insert(turn_id.value);
                proof {
                    assert(queued_as(made, turn_id, input, event_sender, correlation));
                    assert(self@ =~= ActorModel {
                        tickets: old(self)@.tickets.insert(turn_id.value),
                        ..pushed(old(self)@, ActorWork::Turn(made))
                    });
                }
                Ok(ticket)
            },
        }
    }

    /// Queues a root input. One whose key was cancelled beforehand is dropped.
    pub fn rush(&mut self, root: RootWork) -> (result: Result<(), ActorError>)
        ensures
            match refusal(old(self)@.lifecycle) {
                Some(error) => result == Err::<(), _>(error) && final(self)@ == old(self)@,
                None => {
                    &&& result is Ok
                    &&& final(self)@ == pushed_under(
                        old(self)@,
                        root.correlation@,
                        ActorWork::Root(root),
                    )
                },
            },
    {
        match self.refused() {
            Some(error) => {
                return Err(error);
            },
            None => {},
        }
        if self.inner.state.cancelled_correlations.contains(root.correlation.as_str()) {
            return Ok(());
        }
        self.inner.queue.push(ActorWork::Root(root));
        assert(self@ =~= pushed(old(self)@, ActorWork::Root(root)));
        Ok(())
    }

    /// Queues a control operation.
    pub fn push_control(&mut self, control: ControlWork) -> (result: Result<(), ActorError>)
        ensures
            match refusal(old(self)@.lifecycle) {
                Some(error) => result == Err::<(), _>(error) && final(self)@ == old(self)@,
                None => result is Ok && final(self)@ == pushed(
                    old(self)@,
                    ActorWork::Control(control),
                ),
            },
    {
        self.push_checked(ActorWork::Control(control))
    }

    /// Queues a compaction. One whose key was cancelled beforehand is dropped.
    pub fn push_compact(&mut self, run_id: u64, instructions: Option<String>) -> (result: Result<
        (),
        ActorError,
    >)
        ensures
            match refusal(old(self)@.lifecycle) {
                Some(error) => result == Err::<(), _>(error) && final(self)@ == old(self)@,
                None => {
                    &&& result is Ok
                    &&& final(self)@ == pushed_under(
                        old(self)@,
                        queue::run_key(run_id),
                        ActorWork::Compact { run_id, instructions, generation: 0 },
                    )
                },
            },
    {
        match self.refused() {
            Some(error) => {
                return Err(error);
            },
            None => {},
        }
        let key = run_correlation(run_id);
        if self.inner.state.cancelled_correlations.contains(key.as_str()) {
            return Ok(());
        }
        self.inner.queue.push(ActorWork::Compact { run_id, instructions, generation: 0 });
        assert(self@ =~= pushed(
            old(self)@,
            ActorWork::Compact { run_id, instructions, generation: 0 },
        ));
        Ok(())
    }

    /// Takes an admitted turn out of the queue and settles it as cancelled by the user.
    pub fn remove(&mut self, turn_id: TurnId) -> (result: Result<TurnOutcome, ActorError>)
        ensures
            match queue::turn_position(old(self)@.queue, turn_id, 0) {
                None => {
                    &&& result == Err::<TurnOutcome, _>(ActorError::UnknownTurn(turn_id))
                    &&& final(self)@ == old(self)@
                },
                Some(at) => {
                    let outcome = inner::cancelled(
                        old(self)@.agent_id,
                        turn_id,
                        TurnCancellationReason::User,
                    );
                    &&& 0 <= at < old(self)@.queue.len()
                    &&& queue::is_turn(old(self)@.queue[at], turn_id)
                    &&& result == Ok::<_, ActorError>(outcome)
                    &&& final(self)@ == inner::finalized(
                        ActorModel { queue: old(self)@.queue.remove(at), ..old(self)@ },
                        old(self)@.queue[at]->Turn_0,
                        outcome,
                        true,
                    )
                },
            },
    {
        proof {
            lemma_turn_position(self@.queue, turn_id, 0);
        }
        match self.inner.queue.remove_turn(turn_id) {
            None => Err(ActorError::UnknownTurn(turn_id)),
            Some(admission) => {
                let mut admission = admission;
                let outcome = cancelled_outcome(
                    self.inner.agent_id,
                    turn_id,
                    TurnCancellationReason::User,
                );
                let ghost at = queue::turn_position(old(self)@.queue, turn_id, 0)->0;
                assert(self@ =~= ActorModel { queue: old(self)@.queue.remove(at), ..old(self)@ });
                finalize_turn(&mut self.inner, outcome.clone(), &mut admission, true);
                Ok(outcome)
            },
        }
    }

    /// Takes the item at a position out of the queue; an admitted turn settles as cancelled by
    /// the user. Gives what a host draws for the item. A policy barrier cannot be taken.
    pub fn remove_at(&mut self, index: usize) -> (result: Option<QueueProjection>)
        ensures
            if index < old(self)@.queue.len() && !(old(self)@.queue[index as int]
                is PolicyBarrier) {
                &&& result == Some(queue::projection(old(self)@.queue[index as int]))
                &&& final(self)@ == taken_out(old(self)@, index as int)
            } else {
                result is None && final(self)@ == old(self)@
            },
    {
        match self.inner.queue.remove_at(index) {
            None => None,
            Some(work) => {
                let shown = QueueProjection::of(&work);
                assert(self@ =~= ActorModel {
                    queue: old(self)@.queue.remove(index as int),
                    ..old(self)@
                });
                self.settle_dropped(work);
                Some(shown)
            },
        }
    }

    /// Takes a row of the host's queue panel out of the queue. Gives what the host draws for it.
    pub fn remove_visible_at(&mut self, visible_index: usize) -> (result: Option<QueueProjection>)
        ensures
            match queue::row_position(old(self)@.queue, visible_index as nat, 0) {
                None => result is None && final(self)@ == old(self)@,
                Some(at) => {
                    &&& 0 <= at < old(self)@.queue.len()
                    &&& result == Some(queue::projection(old(self)@.queue[at]))
                    &&& final(self)@ == taken_out(old(self)@, at)
                },
            },
    {
        match self.inner.queue.remove_visible_at(visible_index) {
            None => None,
            Some((work, shown)) => {
                let ghost at = queue::row_position(
                    old(self)@.queue,
                    visible_index as nat,
                    0,
                )->0;
                assert(self@ =~= ActorModel { queue: old(self)@.queue.remove(at), ..old(self)@ });
                self.settle_dropped(work);
                Some(shown)
            },
        }
    }

    /// Settles a dropped turn as cancelled by the user.
    fn settle_dropped(&mut self, work: ActorWork)
        ensures
            final(self)@ == dropped(old(self)@, work),
    {
        match work {
            ActorWork::Turn(admission) => {
                let outcome = cancelled_outcome(
                    self.inner.agent_id,
                    admission.turn_id,
                    TurnCancellationReason::User,
                );
                finalize_turn(&mut self.inner, outcome, &admission, true);
            },
            _ => {},
        }
    }

    /// Drops everything that is queued; admitted turns settle as cancelled by the user. Gives the
    /// number of dropped items.
    pub fn clear(&mut self) -> (result: usize)
        ensures
            result == old(self)@.queue.len(),
            final(self)@ == inner::terminalized(
                emptied(old(self)@),
                old(self)@.queue,
                TurnCancellationReason::User,
            ),
    {
        let drained = self.inner.queue.drain_all();
        let count: usize = drained.len();
        assert(self@ =~= emptied(old(self)@));
        terminalize_work(&mut self.inner, drained, TurnCancellationReason::User);
        count
    }

    /// Cancels the active run and drops everything that is queued, settling admitted turns. The
    /// actor stays open. Work that was taken off the queue and has not started is cancelled too,
    /// since the cancellation generation moves on.
    pub fn cancel_all(&mut self)
        ensures
            final(self)@ == inner::terminalized(
                emptied(
                    ActorModel {
                        cancellation_generation: next_generation(
                            old(self)@.cancellation_generation,
                        ),
                        ..stopped(old(self)@, TurnCancellationReason::User)
                    },
                ),
                old(self)@.queue,
                TurnCancellationReason::User,
            ),
    {
        self.fire_active(TurnCancellationReason::User);
        self.inner.state.cancellation_generation = if self.inner.state.cancellation_generation
            == u64::MAX {
            0
        } else {
            self.inner.state.cancellation_generation + 1
        };
        let drained = self.inner.queue.drain_all();
        assert(self@ =~= emptied(
            ActorModel {
                cancellation_generation: next_generation(old(self)@.cancellation_generation),
                ..stopped(old(self)@, TurnCancellationReason::User)
            },
        ));
        terminalize_work(&mut self.inner, drained, TurnCancellationReason::User);
    }

    /// Closes the actor: it refuses work from now on, the active run is cancelled, and queued
    /// turns settle.
    pub fn close(&mut self)
        ensures
            final(self)@ == closed_for(
                old(self)@,
                ActorLifecycle::Closed,
                TurnCancellationReason::Closed,
            ),
    {
        self.close_internal(ActorLifecycle::Closed, TurnCancellationReason::Closed);
    }

    /// Closes the actor because its host shuts down.
    pub fn shutdown(&mut self)
        ensures
            final(self)@ == closed_for(
                old(self)@,
                ActorLifecycle::Shutdown,
                TurnCancellationReason::Shutdown,
            ),
    {
        self.close_internal(ActorLifecycle::Shutdown, TurnCancellationReason::Shutdown);
    }

    /// Cancels everything under one key, the active run and every queued item, and remembers the
    /// key for work that is pushed later.
    pub fn cancel_correlation(&mut self, correlation: &str, reason: TurnCancellationReason)
        ensures
            final(self)@ == cancelled_under(old(self)@, correlation@, reason),
    {
        let matched_active = match &self.inner.state.active {
            Some(active) => match active.correlation() {
                Some(key) => key.to_owned() == correlation.to_owned(),
                None => false,
            },
            None => false,
        };
        let matched = self.inner.queue.remove_correlation(correlation);
        self.inner.state.cancelled_correlations.insert(correlation.to_owned(), reason);
        assert(self@ =~= ActorModel {
            queue: old(self)@.queue.filter(
                |work: ActorWork| !queue::carries(work, correlation@),
            ),
            marks: old(self)@.marks.insert(correlation@, reason),
            ..old(self)@
        });
        terminalize_work(&mut self.inner, matched, reason);
        if matched_active {
            self.fire_active(reason);
        }
    }

    /// The view of the queue that a turn of a policy generation has while it runs.
    pub fn interrupt_source(&self, policy_generation: u64) -> (result: InterruptQueue)
        ensures
            result.cancellation_generation == self@.cancellation_generation,
            result.policy_generation == policy_generation,
    {
        InterruptQueue {
            cancellation_generation: self.inner.state.cancellation_generation,
            policy_generation,
        }
    }

    /// Publishes that the queue is drained, if nothing is left to execute; says whether it did.
    pub fn publish_if_empty<F: FnOnce()>(&self, publish: F) -> (result: bool)
        requires
            queue::idle(self@.queue) ==> publish.requires(()),
        ensures
            result == queue::idle(self@.queue),
            result ==> publish.ensures((), ()),
    {
        self.inner.queue.publish_if_empty(publish)
    }

    /// What the host sees of the actor. Everything that is queued is counted; of the queue itself
    /// the host sees what its panel shows.
    pub fn snapshot(&self) -> (result: ActorSnapshot)
        ensures
            result.lifecycle == self@.lifecycle,
            result.status == self@.status,
            result.active_turn == (match self@.status {
                ActorStatus::Running(turn_id) => Some(turn_id),
                ActorStatus::Idle => None,
            }),
            result.queued == self@.queue.len(),
            result.queue@ == queue::panel_rows(self@.queue),
            result.latest == self@.latest,
            result.cumulative_usage == self@.usage,
    {
        ActorSnapshot {
            lifecycle: self.inner.state.lifecycle,
            status: self.inner.state.status,
            active_turn: match self.inner.state.status {
                ActorStatus::Running(turn_id) => Some(turn_id),
                ActorStatus::Idle => None,
            },
            queued: self.inner.queue.len(),
            queue: self.inner.queue.panel(),
            latest: match &self.inner.latest {
                Some(outcome) => Some(outcome.clone()),
                None => None,
            },
            cumulative_usage: self.inner.usage,
        }
    }

    /// The retained outcome of a turn.
    pub fn outcome(&self, turn_id: TurnId) -> (result: Option<TurnOutcome>)
        ensures
            result == (if self@.outcomes.dom().contains(turn_id.value) {
                Some(self@.outcomes[turn_id.value])
            } else {
                None
            }),
    {
        match self.inner.outcomes.get(&turn_id.value) {
            Some(outcome) => Some(outcome.clone()),
            None => None,
        }
    }

    /// The outcome that a ticket waits for, where its turn has settled.
    pub fn peek(&self, ticket: &TurnTicket) -> (result: Option<TurnOutcome>)
        ensures
            result == (if self@.outcomes.dom().contains(ticket.id().value) {
                Some(self@.outcomes[ticket.id().value])
            } else {
                None
            }),
    {
        self.outcome(ticket.turn_id())
    }

    /// The outcome of a turn, or nothing where the turn is known and has yet to settle.
    pub fn wait_outcome(&self, turn_id: TurnId) -> (result: Result<
        Option<TurnOutcome>,
        ActorError,
    >)
        ensures
            result == (if self@.outcomes.dom().contains(turn_id.value) {
                Ok::<_, ActorError>(Some(self@.outcomes[turn_id.value]))
            } else if self@.tickets.contains(turn_id.value) {
                Ok(None)
            } else {
                Err(ActorError::UnknownTurn(turn_id))
            }),
    {
        match self.outcome(turn_id) {
            Some(outcome) => Ok(Some(outcome)),
            None => {
                if self.inner.tickets.contains(&turn_id.value) {
                    Ok(None)
                } else {
                    Err(ActorError::UnknownTurn(turn_id))
                }
            },
        }
    }

    /// Takes the outcomes that are on their way to the sinks of the admitted turns.
    pub fn take_deliveries(&mut self) -> (result: Vec<Delivery>)
        ensures
            result@ == old(self)@.deliveries,
            final(self)@ == (ActorModel { deliveries: Seq::empty(), ..old(self)@ }),
    {
        let mut taken: Vec<Delivery> = Vec::new();
        taken.append(&mut self.inner.deliveries);
        assert(taken@ =~= old(self)@.deliveries);
        assert(self@ =~= ActorModel { deliveries: Seq::empty(), ..old(self)@ });
        taken
    }

    /// Takes the outcomes that are on their way to those who wait for turns.
    pub fn take_resolutions(&mut self) -> (result: Vec<Resolution>)
        ensures
            result@ == old(self)@.resolutions,
            final(self)@ == (ActorModel { resolutions: Seq::empty(), ..old(self)@ }),
    {
        let mut taken: Vec<Resolution> = Vec::new();
        taken.append(&mut self.inner.resolutions);
        assert(taken@ =~= old(self)@.resolutions);
        assert(self@ =~= ActorModel { resolutions: Seq::empty(), ..old(self)@ });
        taken
    }

    /// Queues work, unless the actor refuses it.
    fn push_checked(&mut self, work: ActorWork) -> (result: Result<(), ActorError>)
        ensures
            match refusal(old(self)@.lifecycle) {
                Some(error) => result == Err::<(), _>(error) && final(self)@ == old(self)@,
                None => result is Ok && final(self)@ == pushed(old(self)@, work),
            },
    {
        match self.refused() {
            Some(error) => {
                return Err(error);
            },
            None => {},
        }
        self.inner.queue.push(work);
        assert(self@ =~= pushed(old(self)@, work));
        Ok(())
    }

    /// Closes the actor, unless it was closed before.
    fn close_internal(&mut self, lifecycle: ActorLifecycle, reason: TurnCancellationReason)
        ensures
            final(self)@ == closed_for(old(self)@, lifecycle, reason),
    {
        match self.inner.state.lifecycle {
            ActorLifecycle::Open => {},
            _ => {
                return;
            },
        }
        self.inner.state.lifecycle = lifecycle;
        self.inner.state.cancelled_correlations.clear();
        let ghost refusing = ActorModel { lifecycle, marks: Map::empty(), ..old(self)@ };
        assert(self@ =~= refusing);
        self.fire_active(reason);
        let drained = self.inner.queue.drain_all();
        assert(self@ =~= emptied(stopped(refusing, reason)));
        terminalize_work(&mut self.inner, drained, reason);
        let ghost settled = self@;
        self.inner.queue.notify();
        self.inner.awake = true;
        assert(self@ =~= ActorModel { notice: true, awake: true, ..settled });
    }

    /// Tells the active run to stop.
    fn fire_active(&mut self, reason: TurnCancellationReason)
        ensures
            final(self)@ == stopped(old(self)@, reason),
    {
        match self.inner.state.active.take() {
            Some(active) => {
                active.fire(&mut self.inner.state.tokens, reason);
            },
            None => {},
        }
        assert(self@ =~= stopped(old(self)@, reason));
    }
}

impl TurnTicket {
    /// The outcome of the ticket's turn, where the actor that admitted it has retained one.
    pub fn peek(&self, actor: &AgentActorHandle) -> (result: Option<TurnOutcome>)
        ensures
            result == (if actor@.outcomes.dom().contains(self.id().value) {
                Some(actor@.outcomes[self.id().value])
            } else {
                None
            }),
    {
        actor.peek(self)
    }
}

impl InterruptQueue {
    /// Takes what the running turn may fold into itself off the front of the queue. A turn that
    /// a cancellation has overtaken takes nothing.
    pub fn poll(&self, actor: &mut AgentActorHandle) -> (result: Option<ExtractedCommand>)
        ensures
            if old(actor)@.cancellation_generation == self.cancellation_generation {
                &&& queue::interrupted(
                    old(actor)@.queue,
                    self.policy_generation,
                    result,
                    final(actor)@.queue,
                )
                &&& final(actor)@ == (ActorModel { queue: final(actor)@.queue, ..old(actor)@ })
            } else {
                result is None && final(actor)@ == old(actor)@
            },
    {
        if actor.inner.state.cancellation_generation == self.cancellation_generation {
            let taken = actor.inner.queue.pop_interrupt(self.policy_generation);
            assert(actor@ =~= ActorModel { queue: actor@.queue, ..old(actor)@ });
            taken
        } else {
            None
        }
    }
}

/// The cancellation generation that follows another.
pub open spec fn next_generation(generation: u64) -> u64 {
    if generation == u64::MAX {
        0
    } else {
        (generation + 1) as u64
    }
}

/// The admission with which a turn is queued.
pub open spec fn queued_as(
    admission: TurnAdmission,
    turn_id: TurnId,
    input: AgentInput,
    event_sender: Option<u64>,
    correlation: String,
) -> bool {
    &&& admission.turn_id == turn_id
    &&& admission.input == Some(input)
    &&& admission.event_sender == event_sender
    &&& admission.correlation == correlation
    &&& !admission.root
    &&& admission.generation == 0
    &&& admission.ticket.id() == turn_id
}

/// What admitting a turn makes of an open actor.
pub open spec fn admitted(
    actor: ActorModel,
    turn_id: TurnId,
    input: AgentInput,
    event_sender: Option<u64>,
    correlation: String,
    after: ActorModel,
) -> bool {
    exists|admission: TurnAdmission|
        {
            &&& #[trigger] queued_as(admission, turn_id, input, event_sender, correlation)
            &&& after == (if actor.marks.dom().contains(correlation@) {
                inner::finalized(
                    actor,
                    admission,
                    inner::cancelled(actor.agent_id, turn_id, actor.marks[correlation@]),
                    true,
                )
            } else {
                ActorModel {
                    tickets: actor.tickets.insert(turn_id.value),
                    ..pushed(actor, ActorWork::Turn(admission))
                }
            })
        }
}

/// The actor once dropped work has been dealt with.
pub open spec fn dropped(actor: ActorModel, work: ActorWork) -> ActorModel {
    match work {
        ActorWork::Turn(admission) => inner::finalized(
            actor,
            admission,
            inner::cancelled(actor.agent_id, admission.turn_id, TurnCancellationReason::User),
            true,
        ),
        _ => actor,
    }
}

/// The actor once the item at a position has been taken out of its queue.
pub open spec fn taken_out(actor: ActorModel, at: int) -> ActorModel {
    dropped(ActorModel { queue: actor.queue.remove(at), ..actor }, actor.queue[at])
}

/// The position at which a turn is found holds that turn.
proof fn lemma_turn_position(items: Seq<ActorWork>, turn_id: TurnId, from: int)
    ensures
        queue::turn_position(items, turn_id, from) matches Some(at) ==> from <= at < items.len()
            && queue::is_turn(items[at], turn_id),
    decreases items.len() - from,
{
    if 0 <= from < items.len() && !queue::is_turn(items[from], turn_id) {
        lemma_turn_position(items, turn_id, from + 1);
    }
}

} // verus!
