//! How an actor's work is executed: strictly one item after another.
use vstd::prelude::*;

use crate::actor::handle::AgentActorHandle;
use crate::actor::inner;
use crate::actor::inner::{cancelled_outcome, finalize_turn, ActiveCancel, ActorModel};
use crate::actor::queue;
use crate::actor::queue::run_correlation;
use crate::actor::tickets::TurnTicket;
use crate::actor::work::{
    ActorBackend, ActorLifecycle, ActorStatus, ActorWork, BackendResult, ControlWork, EarlierRoot,
    InterruptQueue, RootWork, TurnAdmission, TurnContext, WorkKind,
};
use crate::types;
use crate::types::{
    AgentId, AgentInput, TokenUsage, TurnCancellationReason, TurnFailure, TurnFailureKind, TurnId,
    TurnOutcome,
};

verus! {

broadcast use vstd::std_specs::hash::group_hash_axioms;

/// What the runner does once the queue is drained and it has been woken.
#[derive(Debug, Clone, Copy, PartialEq, Eq, Structural)]
pub enum Step {
    Waiting,
    Exit,
}

/// Work taken off the queue, and the cancellation generation it was taken under.
#[derive(Debug)]
pub struct Popped {
    pub work: ActorWork,
    pub cancellation_generation: u64,
}

/// A turn that holds the actor and has not entered its backend.
#[derive(Debug)]
pub struct StartedTurn {
    pub admission: TurnAdmission,
    pub work: WorkKind,
    pub popped_generation: u64,
}

/// A turn that its backend executes.
#[derive(Debug)]
pub struct EnteredTurn {
    pub admission: TurnAdmission,
    pub context: TurnContext,
    pub input: AgentInput,
    pub work: WorkKind,
}

/// What comes of work taken off the queue.
#[derive(Debug)]
pub enum Launch {
    /// There is nothing to execute.
    Settled,
    /// A turn holds the actor.
    Turn(StartedTurn),
    /// A control operation holds the actor.
    Control(TurnContext, ControlWork),
    /// A compaction holds the actor.
    Compact(TurnContext, Option<String>),
}

/// The marks without those of condensed roots.
pub open spec fn unmarked(
    marks: Map<Seq<char>, TurnCancellationReason>,
    earlier: Seq<EarlierRoot>,
) -> Map<Seq<char>, TurnCancellationReason>
    decreases earlier.len(),
{
    if earlier.len() == 0 {
        marks
    } else {
        unmarked(marks, earlier.drop_last()).remove(earlier.last().correlation@)
    }
}

/// The roots that were condensed into the work.
pub open spec fn condensed_into(work: WorkKind) -> Seq<EarlierRoot> {
    match work {
        WorkKind::Root { earlier, .. } => earlier@,
        _ => Seq::empty(),
    }
}

/// The actor once a turn no longer holds it: idle, the outcome retained if there is one, and the
/// runner woken.
pub open spec fn settled(
    actor: ActorModel,
    admission: TurnAdmission,
    outcome: Option<TurnOutcome>,
    deliver: bool,
) -> ActorModel {
    let freed = ActorModel { active: None, status: ActorStatus::Idle, ..actor };
    let retained = match outcome {
        Some(outcome) => inner::finalized(freed, admission, outcome, deliver),
        None => freed,
    };
    ActorModel { awake: true, ..retained }
}

/// The actor once a turn has been given up before it ran: a root leaves no outcome, an admitted
/// turn settles as cancelled.
pub open spec fn given_up(
    actor: ActorModel,
    admission: TurnAdmission,
    reason: TurnCancellationReason,
) -> ActorModel {
    if admission.root {
        settled(actor, admission, None, false)
    } else {
        settled(
            actor,
            admission,
            Some(inner::cancelled(actor.agent_id, admission.turn_id, reason)),
            true,
        )
    }
}

/// The reason for which a lifecycle cancels what has not started.
pub open spec fn lifecycle_reason(lifecycle: ActorLifecycle) -> TurnCancellationReason {
    match lifecycle {
        ActorLifecycle::Shutdown => TurnCancellationReason::Shutdown,
        _ => TurnCancellationReason::Closed,
    }
}

/// A turn taken off the queue may start: no cancellation has overtaken it and the actor is open.
pub open spec fn may_start(actor: ActorModel, admission: TurnAdmission, popped_generation: u64)
    -> bool {
    &&& actor.cancellation_generation == popped_generation
    &&& !actor.cancelled_turns.contains(admission.turn_id.value)
    &&& actor.lifecycle == ActorLifecycle::Open
}

/// The actor held by a turn that starts. The marks of the work that it stands for are spent.
pub open spec fn held_by_turn(actor: ActorModel, admission: TurnAdmission, work: WorkKind)
    -> ActorModel {
    ActorModel {
        marks: unmarked(
            actor.marks.remove(admission.correlation@),
            condensed_into(work),
        ),
        active: Some(ActiveCancel { correlation: Some(admission.correlation) }),
        tokens: inner::fresh_tokens(),
        status: ActorStatus::Running(admission.turn_id),
        ..actor
    }
}

/// The actor once a turn taken off the queue has started or has been given up.
pub open spec fn turn_started(
    actor: ActorModel,
    admission: TurnAdmission,
    work: WorkKind,
    popped_generation: u64,
) -> ActorModel {
    if actor.cancellation_generation != popped_generation {
        given_up(actor, admission, TurnCancellationReason::User)
    } else if actor.cancelled_turns.contains(admission.turn_id.value) {
        given_up(
            ActorModel {
                cancelled_turns: actor.cancelled_turns.remove(admission.turn_id.value),
                ..actor
            },
            admission,
            TurnCancellationReason::User,
        )
    } else if actor.lifecycle != ActorLifecycle::Open {
        given_up(actor, admission, lifecycle_reason(actor.lifecycle))
    } else {
        held_by_turn(actor, admission, work)
    }
}

/// The actor held by work that is no turn. The mark of the work's key is spent.
pub open spec fn held_by_key(actor: ActorModel, active: ActiveCancel, key: Seq<char>)
    -> ActorModel {
    ActorModel {
        marks: actor.marks.remove(key),
        active: Some(active),
        tokens: inner::fresh_tokens(),
        ..actor
    }
}

/// The admission under which a root starts.
pub open spec fn root_admission(admission: TurnAdmission, root: RootWork, turn_id: TurnId) -> bool {
    &&& admission.turn_id == turn_id
    &&& admission.input == Some(root.input)
    &&& admission.event_sender is None
    &&& admission.correlation == root.correlation
    &&& admission.root
    &&& admission.generation == root.generation
    &&& admission.ticket.id() == turn_id
}

/// What the backend is told of a root.
pub open spec fn root_work(work: WorkKind, root: RootWork) -> bool {
    work == (WorkKind::Root {
        run_id: root.run_id,
        displayed: root.displayed,
        text: root.text,
        images: root.images,
        earlier: root.earlier,
    })
}

/// What comes of an admitted turn taken off the queue.
pub open spec fn launched_turn(
    actor: ActorModel,
    admission: TurnAdmission,
    work: WorkKind,
    popped_generation: u64,
    launch: Launch,
    after: ActorModel,
) -> bool {
    &&& after == turn_started(actor, admission, work, popped_generation)
    &&& if may_start(actor, admission, popped_generation) {
        launch == Launch::Turn(StartedTurn { admission, work, popped_generation })
    } else {
        launch is Settled
    }
}

/// The context of work that is no turn.
pub open spec fn keyed_context(
    context: TurnContext,
    agent_id: AgentId,
    key: Seq<char>,
    generation: u64,
) -> bool {
    &&& context.agent_id == agent_id
    &&& context.turn_id is None
    &&& context.correlation@ == key
    &&& context.generation == generation
    &&& context.interrupt is None
}

/// What comes of work taken off the queue.
pub open spec fn launched(
    actor: ActorModel,
    popped: Popped,
    fresh: TurnId,
    launch: Launch,
    after: ActorModel,
) -> bool {
    let overtaken = actor.cancellation_generation != popped.cancellation_generation;
    match popped.work {
        ActorWork::Turn(admission) => launched_turn(
            actor,
            admission,
            WorkKind::Turn,
            popped.cancellation_generation,
            launch,
            after,
        ),
        ActorWork::Root(root) => exists|admission: TurnAdmission, work: WorkKind|
            {
                &&& #[trigger] root_admission(admission, root, fresh)
                &&& #[trigger] root_work(work, root)
                &&& launched_turn(
                    actor,
                    admission,
                    work,
                    popped.cancellation_generation,
                    launch,
                    after,
                )
            },
        ActorWork::PolicyBarrier { .. } => launch is Settled && after == actor,
        ActorWork::Control(control) => if overtaken {
            launch is Settled && after == actor
        } else {
            &&& launch matches Launch::Control(context, given) && given == control
                && keyed_context(context, actor.agent_id, control.correlation@, 0)
            &&& after == held_by_key(
                actor,
                ActiveCancel { correlation: Some(control.correlation) },
                control.correlation@,
            )
        },
        ActorWork::Compact { run_id, instructions, generation } => if overtaken {
            launch is Settled && after == actor
        } else {
            &&& launch matches Launch::Compact(context, given) && given == instructions
                && keyed_context(context, actor.agent_id, queue::run_key(run_id), generation)
            &&& after.active matches Some(active) && active.correlation matches Some(key) && key@
                == queue::run_key(run_id)
            &&& after == held_by_key(actor, after.active->0, queue::run_key(run_id))
        },
    }
}

/// The outcome of an admitted turn that its backend did not run: it could not be set up, or the
/// backend answered with a result that is none of a turn.
pub open spec fn is_setup_failure(outcome: TurnOutcome, agent_id: AgentId, turn_id: TurnId)
    -> bool {
    outcome matches TurnOutcome::Failed { agent_id: a, turn_id: t, usage, num_turns, failure } && {
        &&& a == agent_id
        &&& t == turn_id
        &&& usage == types::no_usage()
        &&& num_turns == 0
        &&& failure.kind == TurnFailureKind::Internal
        &&& failure.diagnostic@ == "actor setup failed"@
        &&& failure.user_message@ == "The agent could not start this turn."@
        &&& failure.retryable
    }
}

/// The actor once the backend has executed a turn. A root leaves no outcome. The outcome of an
/// admitted turn that ran was delivered by its run; one that did not run has failed.
pub open spec fn finished(
    actor: ActorModel,
    admission: TurnAdmission,
    result: BackendResult,
    after: ActorModel,
) -> bool {
    if admission.root {
        after == settled(actor, admission, None, false)
    } else {
        match result {
            BackendResult::EnteredRun(outcome) => after == settled(
                actor,
                admission,
                Some(outcome),
                false,
            ),
            _ => exists|outcome: TurnOutcome|
                #[trigger] is_setup_failure(outcome, actor.agent_id, admission.turn_id) && after
                    == settled(actor, admission, Some(outcome), true),
        }
    }
}

/// Work is the first batch of the queue: one item, or the roots at its head condensed into one.
pub open spec fn took(actor: ActorModel, popped: Popped) -> bool {
    let items = actor.queue;
    let count = queue::batch_length(items) as int;
    &&& 0 < count <= items.len()
    &&& popped.cancellation_generation == actor.cancellation_generation
    &&& match items[0] {
        ActorWork::Root(_) => popped.work matches ActorWork::Root(merged) && queue::is_condensed(
            items.take(count),
            merged,
        ),
        other => popped.work == other,
    }
}

/// A backend was handed a turn's context, input and work, and this is what it made of them.
pub open spec fn turn_answered<B: ActorBackend>(turn: EnteredTurn, result: BackendResult) -> bool {
    exists|backend: &mut B| #[trigger]
        call_ensures(B::run_turn, (backend, turn.context, turn.input, turn.work), result)
}

/// A backend was handed a control operation, and this is what it made of it.
pub open spec fn control_answered<B: ActorBackend>(
    context: TurnContext,
    control: ControlWork,
    result: BackendResult,
) -> bool {
    exists|backend: &mut B| #[trigger]
        call_ensures(B::run_control, (backend, context, control), result)
}

/// A backend was handed a compaction, and this is what it made of it.
pub open spec fn compact_answered<B: ActorBackend>(
    context: TurnContext,
    instructions: Option<String>,
    result: BackendResult,
) -> bool {
    exists|backend: &mut B| #[trigger]
        call_ensures(B::run_compact, (backend, context, instructions), result)
}

/// The actor once work that holds it, or held it, has been executed: `result` is what the backend
/// made of it, where it reached the backend. Work that was cancelled before does not reach it.
pub open spec fn ran<B: ActorBackend>(
    held: ActorModel,
    launch: Launch,
    result: BackendResult,
    after: ActorModel,
) -> bool {
    match launch {
        Launch::Settled => after == held,
        Launch::Turn(started) => exists|turn: Option<EnteredTurn>, entering: ActorModel|
            {
                &&& #[trigger] entered(held, started, None, turn, entering)
                &&& match turn {
                    None => after == entering,
                    Some(turn) => {
                        &&& turn_answered::<B>(turn, result)
                        &&& finished(entering, turn.admission, result, after)
                    },
                }
            },
        Launch::Control(context, control) => {
            &&& !held.tokens.cancelled ==> control_answered::<B>(context, control, result)
            &&& after == (ActorModel { active: None, ..held })
        },
        Launch::Compact(context, instructions) => {
            &&& !held.tokens.cancelled ==> compact_answered::<B>(context, instructions, result)
            &&& after == (ActorModel { active: None, ..held })
        },
    }
}

/// The actor once the first batch of its queue has been executed.
pub open spec fn executed<B: ActorBackend>(
    before: ActorModel,
    fresh: TurnId,
    result: BackendResult,
    after: ActorModel,
) -> bool {
    let taken = ActorModel {
        queue: before.queue.skip(queue::batch_length(before.queue) as int),
        ..before
    };
    exists|popped: Popped, launch: Launch, held: ActorModel|
        {
            &&& took(before, popped)
            &&& #[trigger] launched(taken, popped, fresh, launch, held)
            &&& ran::<B>(held, launch, result, after)
        }
}

/// The identity that is handed out after `count` others.
pub open spec fn identity_after(first: u128, count: nat) -> TurnId
    decreases count,
{
    if count == 0 {
        TurnId { value: first }
    } else {
        TurnId { value: following(identity_after(first, (count - 1) as nat).value) }
    }
}

/// The identity that follows another.
pub open spec fn following(value: u128) -> u128 {
    if value == u128::MAX {
        0
    } else {
        (value + 1) as u128
    }
}

/// The actor at one moment after another: between each and the next the first batch of its queue
/// has been executed, under an identity of its own.
pub open spec fn executed_all<B: ActorBackend>(
    moments: Seq<ActorModel>,
    first: u128,
    results: Seq<BackendResult>,
) -> bool {
    &&& moments.len() == results.len() + 1
    &&& forall|i: int|
        0 <= i < results.len() ==> executed::<B>(
            moments[i],
            identity_after(first, i as nat),
            #[trigger] results[i],
            moments[i + 1],
        )
}

/// Every queued turn has its input.
pub open spec fn loaded(items: Seq<ActorWork>) -> bool {
    forall|i: int|
        0 <= i < items.len() ==> (#[trigger] items[i] matches ActorWork::Turn(admission)
            ==> admission.input is Some)
}

/// An admitted turn has an outcome; other work needs none.
pub open spec fn answered(actor: ActorModel, work: ActorWork) -> bool {
    work matches ActorWork::Turn(admission) ==> admission.root || actor.outcomes.dom().contains(
        admission.turn_id.value,
    )
}

/// Identities for turns that start from root inputs.
#[derive(Debug)]
pub struct TurnIds {
    pub next: u128,
}

impl TurnIds {
    /// The next identity.
    pub fn take(&mut self) -> (result: TurnId)
        ensures
            result.value == old(self).next,
            final(self).next == following(old(self).next),
    {
        let value: u128 = self.next;
        self.next = if value == u128::MAX { 0 } else { value + 1 };
        TurnId { value }
    }
}

/// The side of an actor that executes its work.
pub struct Runner {
    pub actor: AgentActorHandle,
}

impl Runner {
    /// Takes the next batch off the queue, with the cancellation generation it is taken under.
    pub fn next(&mut self) -> (result: Option<Popped>)
        ensures
            match result {
                None => old(self).actor@.queue.len() == 0 && final(self).actor@
                    == old(self).actor@,
                Some(popped) => {
                    &&& took(old(self).actor@, popped)
                    &&& final(self).actor@ == (ActorModel {
                        queue: old(self).actor@.queue.skip(
                            queue::batch_length(old(self).actor@.queue) as int,
                        ),
                        ..old(self).actor@
                    })
                },
            },
    {
        match self.actor.inner.queue.pop() {
            None => None,
            Some(work) => {
                assert(self.actor@ =~= ActorModel {
                    queue: self.actor@.queue,
                    ..old(self).actor@
                });
                Some(
                    Popped {
                        work,
                        cancellation_generation: self.actor.inner.state.cancellation_generation,
                    },
                )
            },
        }
    }

    /// What the runner does once it has been woken.
    pub fn step(&self) -> (result: Step)
        ensures
            result == (if self.actor@.lifecycle == ActorLifecycle::Open {
                Step::Waiting
            } else {
                Step::Exit
            }),
    {
        match self.actor.inner.state.lifecycle {
            ActorLifecycle::Open => Step::Waiting,
            ActorLifecycle::Closed => Step::Exit,
            ActorLifecycle::Shutdown => Step::Exit,
        }
    }

    /// Starts work taken off the queue. A root starts as a turn under the identity `fresh`.
    pub fn process(&mut self, popped: Popped, fresh: TurnId) -> (result: Launch)
        ensures
            launched(old(self).actor@, popped, fresh, result, final(self).actor@),
    {
        let Popped { work, cancellation_generation } = popped;
        match work {
            ActorWork::Turn(admission) => self.run_turn(
                admission,
                WorkKind::Turn,
                cancellation_generation,
            ),
            ActorWork::Root(root) => self.run_root(root, cancellation_generation, fresh),
            ActorWork::PolicyBarrier { .. } => Launch::Settled,
            ActorWork::Control(control) => self.run_control(control, cancellation_generation),
            ActorWork::Compact { run_id, instructions, generation } => self.run_compact(
                run_id,
                instructions,
                generation,
                cancellation_generation,
            ),
        }
    }

    /// Starts a turn taken off the queue, or gives it up: where a cancellation has overtaken it,
    /// where it was cancelled by itself, and where the actor has been closed.
    pub fn run_turn(
        &mut self,
        admission: TurnAdmission,
        work: WorkKind,
        popped_generation: u64,
    ) -> (result: Launch)
        ensures
            launched_turn(
                old(self).actor@,
                admission,
                work,
                popped_generation,
                result,
                final(self).actor@,
            ),
    {
        if self.actor.inner.state.cancellation_generation != popped_generation {
            self.give_up(admission, TurnCancellationReason::User);
            return Launch::Settled;
        }
        if self.actor.inner.state.cancelled_turns.remove(&admission.turn_id.value) {
            assert(self.actor@ =~= ActorModel {
                cancelled_turns: old(self).actor@.cancelled_turns.remove(
                    admission.turn_id.value,
                ),
                ..old(self).actor@
            });
            self.give_up(admission, TurnCancellationReason::User);
            return Launch::Settled;
        }
        assert(self.actor@ =~= old(self).actor@);
        match self.actor.inner.state.lifecycle {
            ActorLifecycle::Open => {},
            ActorLifecycle::Closed => {
                self.give_up(admission, TurnCancellationReason::Closed);
                return Launch::Settled;
            },
            ActorLifecycle::Shutdown => {
                self.give_up(admission, TurnCancellationReason::Shutdown);
                return Launch::Settled;
            },
        }
        self.actor.inner.state.cancelled_correlations.remove(admission.correlation.as_str());
        match &work {
            WorkKind::Root { earlier, .. } => {
                self.forget(earlier);
            },
            _ => {
                assert(unmarked(self.actor@.marks, condensed_into(work)) == self.actor@.marks);
            },
        }
        let (active, tokens) = ActiveCancel::new(Some(admission.correlation.clone()));
        self.actor.inner.state.active = Some(active);
        self.actor.inner.state.tokens = tokens;
        self.actor.inner.state.status = ActorStatus::Running(admission.turn_id);
        assert(self.actor@ =~= held_by_turn(old(self).actor@, admission, work));
        Launch::Turn(StartedTurn { admission, work, popped_generation })
    }

    /// Forgets the marks of condensed roots.
    fn forget(&mut self, earlier: &Vec<EarlierRoot>)
        ensures
            final(self).actor@ == (ActorModel {
                marks: unmarked(old(self).actor@.marks, earlier@),
                ..old(self).actor@
            }),
    {
        let mut i: usize = 0;
        assert(earlier@.take(0) =~= Seq::empty());
        while i < earlier.len()
            invariant
                i <= earlier@.len(),
                self.actor@ == (ActorModel {
                    marks: unmarked(old(self).actor@.marks, earlier@.take(i as int)),
                    ..old(self).actor@
                }),
            decreases earlier@.len() - i,
        {
            assert(earlier@.take(i + 1).drop_last() =~= earlier@.take(i as int));
            self.actor.inner.state.cancelled_correlations.remove(
                earlier[i].correlation.as_str(),
            );
            i += 1;
            assert(self.actor@ =~= ActorModel {
                marks: unmarked(old(self).actor@.marks, earlier@.take(i as int)),
                ..old(self).actor@
            });
        }
        assert(earlier@.take(i as int) =~= earlier@);
        assert(self.actor@ =~= ActorModel {
            marks: unmarked(old(self).actor@.marks, earlier@),
            ..old(self).actor@
        });
    }

    /// Gives up a turn before it runs.
    fn give_up(&mut self, admission: TurnAdmission, reason: TurnCancellationReason)
        ensures
            final(self).actor@ == given_up(old(self).actor@, admission, reason),
    {
        if admission.root {
            self.settle_turn(admission, None, false);
        } else {
            let outcome = cancelled_outcome(
                self.actor.inner.agent_id,
                admission.turn_id,
                reason,
            );
            self.settle_turn(admission, Some(outcome), true);
        }
    }

    /// Hands a started turn to its backend, unless it has been cancelled since or its manager
    /// refuses it.
    pub fn enter_turn(
        &mut self,
        started: StartedTurn,
        refused: Option<TurnCancellationReason>,
    ) -> (result: Option<EnteredTurn>)
        requires
            started.admission.input is Some,
        ensures
            entered(old(self).actor@, started, refused, result, final(self).actor@),
    {
        let StartedTurn { admission, work, popped_generation } = started;
        let mut admission = admission;
        if self.actor.inner.state.tokens.cancelled {
            let reason = match self.actor.inner.state.tokens.reason {
                Some(reason) => reason,
                None => TurnCancellationReason::User,
            };
            self.give_up(admission, reason);
            return None;
        }
        match refused {
            Some(reason) => {
                self.give_up(admission, reason);
                return None;
            },
            None => {},
        }
        let context = TurnContext {
            agent_id: self.actor.inner.agent_id,
            turn_id: Some(admission.turn_id),
            correlation: admission.correlation.clone(),
            generation: admission.generation,
            interrupt: Some(
                InterruptQueue {
                    cancellation_generation: popped_generation,
                    policy_generation: admission.generation,
                },
            ),
        };
        let input = admission.input.take();
        match input {
            Some(input) => Some(EnteredTurn { admission, context, input, work }),
            None => {
                assert(false);
                None
            },
        }
    }

    /// Settles a turn that its backend has executed.
    pub fn finish_turn(&mut self, admission: TurnAdmission, result: BackendResult)
        ensures
            finished(old(self).actor@, admission, result, final(self).actor@),
    {
        if admission.root {
            self.settle_turn(admission, None, false);
            return;
        }
        match result {
            BackendResult::EnteredRun(outcome) => {
                self.settle_turn(admission, Some(outcome), false);
            },
            _ => {
                let outcome = TurnOutcome::Failed {
                    agent_id: self.actor.inner.agent_id,
                    turn_id: admission.turn_id,
                    usage: TokenUsage::zero(),
                    num_turns: 0,
                    failure: TurnFailure {
                        kind: TurnFailureKind::Internal,
                        diagnostic: "actor setup failed".to_owned(),
                        user_message: "The agent could not start this turn.".to_owned(),
                        retryable: true,
                    },
                };
                assert(is_setup_failure(outcome, self.actor@.agent_id, admission.turn_id));
                self.settle_turn(admission, Some(outcome), true);
            },
        }
    }

    /// Starts a root as a turn of its own.
    pub fn run_root(&mut self, root: RootWork, cancellation_generation: u64, fresh: TurnId)
        -> (result: Launch)
        ensures
            launched(
                old(self).actor@,
                (Popped { work: ActorWork::Root(root), cancellation_generation }),
                fresh,
                result,
                final(self).actor@,
            ),
    {
        let ghost given = root;
        let RootWork {
            input,
            run_id,
            displayed,
            text,
            images,
            correlation,
            generation,
            earlier,
        } = root;
        let admission = TurnAdmission {
            turn_id: fresh,
            input: Some(input),
            event_sender: None,
            correlation,
            root: true,
            generation,
            ticket: TurnTicket::new(fresh),
        };
        let work = WorkKind::Root { run_id, displayed, text, images, earlier };
        assert(root_admission(admission, given, fresh));
        assert(root_work(work, given));
        self.run_turn(admission, work, cancellation_generation)
    }

    /// Starts a control operation, unless a cancellation has overtaken it.
    pub fn run_control(&mut self, control: ControlWork, popped_generation: u64) -> (result: Launch)
        ensures
            launched(
                old(self).actor@,
                (Popped {
                    work: ActorWork::Control(control),
                    cancellation_generation: popped_generation,
                }),
                arbitrary(),
                result,
                final(self).actor@,
            ),
    {
        if self.actor.inner.state.cancellation_generation != popped_generation {
            return Launch::Settled;
        }
        let (active, tokens) = ActiveCancel::new(Some(control.correlation.clone()));
        self.actor.inner.state.cancelled_correlations.remove(control.correlation.as_str());
        self.actor.inner.state.active = Some(active);
        self.actor.inner.state.tokens = tokens;
        assert(self.actor@ =~= held_by_key(
            old(self).actor@,
            ActiveCancel { correlation: Some(control.correlation) },
            control.correlation@,
        ));
        let context = TurnContext {
            agent_id: self.actor.inner.agent_id,
            turn_id: None,
            correlation: control.correlation.clone(),
            generation: 0,
            interrupt: None,
        };
        Launch::Control(context, control)
    }

    /// Starts a compaction, unless a cancellation has overtaken it.
    pub fn run_compact(
        &mut self,
        run_id: u64,
        instructions: Option<String>,
        policy_generation: u64,
        popped_generation: u64,
    ) -> (result: Launch)
        ensures
            launched(
                old(self).actor@,
                (Popped {
                    work: ActorWork::Compact {
                        run_id,
                        instructions,
                        generation: policy_generation,
                    },
                    cancellation_generation: popped_generation,
                }),
                arbitrary(),
                result,
                final(self).actor@,
            ),
    {
        if self.actor.inner.state.cancellation_generation != popped_generation {
            return Launch::Settled;
        }
        let key = run_correlation(run_id);
        let (active, tokens) = ActiveCancel::new(Some(key.clone()));
        self.actor.inner.state.cancelled_correlations.remove(key.as_str());
        self.actor.inner.state.active = Some(active);
        self.actor.inner.state.tokens = tokens;
        assert(self.actor@ =~= held_by_key(
            old(self).actor@,
            self.actor@.active->0,
            queue::run_key(run_id),
        ));
        let context = TurnContext {
            agent_id: self.actor.inner.agent_id,
            turn_id: None,
            correlation: key,
            generation: policy_generation,
            interrupt: None,
        };
        Launch::Compact(context, instructions)
    }

    /// Whether a control operation or a compaction that holds the actor may enter its backend. One
    /// that has been cancelled since lets go of the actor.
    pub fn enter_keyed(&mut self) -> (result: bool)
        ensures
            result == !old(self).actor@.tokens.cancelled,
            final(self).actor@ == (if result {
                old(self).actor@
            } else {
                ActorModel { active: None, ..old(self).actor@ }
            }),
    {
        if self.actor.inner.state.tokens.cancelled {
            self.finish_keyed();
            false
        } else {
            true
        }
    }

    /// Lets go of the actor after a control operation or a compaction, whatever came of it.
    pub fn finish_keyed(&mut self)
        ensures
            final(self).actor@ == (ActorModel { active: None, ..old(self).actor@ }),
    {
        self.actor.inner.state.active = None;
        assert(self.actor@ =~= ActorModel { active: None, ..old(self).actor@ });
    }

    /// Retains a turn's outcome, if there is one, frees the actor and wakes the runner.
    pub fn settle_turn(
        &mut self,
        admission: TurnAdmission,
        outcome: Option<TurnOutcome>,
        deliver: bool,
    )
        ensures
            final(self).actor@ == settled(old(self).actor@, admission, outcome, deliver),
    {
        self.actor.inner.state.active = None;
        self.actor.inner.state.status = ActorStatus::Idle;
        let ghost freed = ActorModel {
            active: None,
            status: ActorStatus::Idle,
            ..old(self).actor@
        };
        assert(self.actor@ =~= freed);
        match outcome {
            Some(outcome) => {
                finalize_turn(&mut self.actor.inner, outcome, &admission, deliver);
            },
            None => {},
        }
        self.actor.inner.awake = true;
        assert(self.actor@ =~= settled(old(self).actor@, admission, outcome, deliver));
    }

    /// Executes everything that is queued, one batch after another, with a backend that answers at
    /// once. Whatever the backend answers, the actor is free afterwards, every turn that was queued
    /// has an outcome, and no outcome that was retained before is lost or replaced.
    pub fn drain<B: ActorBackend>(&mut self, backend: &mut B, ids: &mut TurnIds)
        requires
            loaded(old(self).actor@.queue),
        ensures
            exists|moments: Seq<ActorModel>, results: Seq<BackendResult>|
                {
                    &&& #[trigger] executed_all::<B>(moments, old(ids).next, results)
                    &&& moments.first() == old(self).actor@
                    &&& moments.last() == final(self).actor@
                    &&& final(ids).next == identity_after(old(ids).next, results.len()).value
                },
            final(self).actor@.queue.len() == 0,
            final(self).actor@.active is None || final(self).actor@.active == old(
                self,
            ).actor@.active,
            final(self).actor@.lifecycle == old(self).actor@.lifecycle,
            inner::retains(old(self).actor@.outcomes, final(self).actor@.outcomes),
            forall|i: int|
                0 <= i < old(self).actor@.queue.len() ==> answered(
                    final(self).actor@,
                    #[trigger] old(self).actor@.queue[i],
                ),
    {
        let ghost all = self.actor@.queue;
        let ghost mut done: int = 0;
        assert(all.skip(0) =~= all);
        let ghost mut moments: Seq<ActorModel> = seq![self.actor@];
        let ghost mut results: Seq<BackendResult> = Seq::empty();
        loop
            invariant_except_break
                loaded(self.actor@.queue),
            invariant
                executed_all::<B>(moments, old(ids).next, results),
                moments.first() == old(self).actor@,
                moments.last() == self.actor@,
                ids.next == identity_after(old(ids).next, results.len()).value,
                self.actor@.lifecycle == old(self).actor@.lifecycle,
                inner::retains(old(self).actor@.outcomes, self.actor@.outcomes),
                self.actor@.active is None || self.actor@.active == old(self).actor@.active,
                all == old(self).actor@.queue,
                0 <= done <= all.len(),
                self.actor@.queue == all.skip(done),
                forall|i: int| 0 <= i < done ==> answered(self.actor@, #[trigger] all[i]),
            ensures
                self.actor@.queue.len() == 0,
            decreases self.actor@.queue.len(),
        {
            let ghost before = self.actor@;
            let popped = match self.next() {
                None => {
                    break;
                },
                Some(popped) => popped,
            };
            let ghost taken = self.actor@;
            proof {
                lemma_loaded_rest(before.queue, queue::batch_length(before.queue) as int);
                if popped.work is Turn {
                    assert(before.queue[0] matches ActorWork::Turn(admission)
                        ==> admission.input is Some);
                }
            }
            let fresh = ids.take();
            let result = self.execute(popped, fresh, backend);
            proof {
                assert(fresh == identity_after(old(ids).next, results.len()));
                assert(executed::<B>(before, fresh, result@, self.actor@)) by {
                    let (launch, held) = choose|launch: Launch, held: ActorModel|
                        {
                            &&& #[trigger] launched(taken, popped, fresh, launch, held)
                            &&& ran::<B>(held, launch, result@, self.actor@)
                        };
                    assert(launched(taken, popped, fresh, launch, held));
                }
                let later = moments.push(self.actor@);
                let longer = results.push(result@);
                assert forall|i: int| 0 <= i < longer.len() implies executed::<B>(
                    later[i],
                    identity_after(old(ids).next, i as nat),
                    #[trigger] longer[i],
                    later[i + 1],
                ) by {
                    if i < results.len() {
                        assert(longer[i] == results[i]);
                    }
                }
                moments = later;
                results = longer;
                let count = queue::batch_length(before.queue) as int;
                assert(all.skip(done).skip(count) =~= all.skip(done + count));
                assert forall|i: int| 0 <= i < done + count implies answered(
                    self.actor@,
                    #[trigger] all[i],
                ) by {
                    if i < done {
                        assert(answered(before, all[i]));
                    } else {
                        assert(before.queue[i - done] == all[i]);
                        if i > done {
                            lemma_batch_members(before.queue, i - done);
                        }
                    }
                }
                done = done + count;
            }
        }
    }

    /// Executes work that was taken off the queue, with a backend that answers at once. The result
    /// says what the backend made of it, where it reached the backend.
    fn execute<B: ActorBackend>(&mut self, popped: Popped, fresh: TurnId, backend: &mut B)
        -> (result: Ghost<BackendResult>)
        requires
            popped.work matches ActorWork::Turn(admission) ==> admission.input is Some,
        ensures
            exists|launch: Launch, held: ActorModel|
                {
                    &&& #[trigger] launched(old(self).actor@, popped, fresh, launch, held)
                    &&& ran::<B>(held, launch, result@, final(self).actor@)
                },
            final(self).actor@.queue == old(self).actor@.queue,
            final(self).actor@.active is None || final(self).actor@.active == old(
                self,
            ).actor@.active,
            final(self).actor@.lifecycle == old(self).actor@.lifecycle,
            inner::retains(old(self).actor@.outcomes, final(self).actor@.outcomes),
            answered(final(self).actor@, popped.work),
    {
        let launch = self.process(popped, fresh);
        let ghost held = self.actor@;
        let ghost launched_as = launch;
        assert(launched(old(self).actor@, popped, fresh, launched_as, held));
        assert(inner::retains(old(self).actor@.outcomes, held.outcomes));
        match launch {
            Launch::Settled => Ghost(BackendResult::ControlDone),
            Launch::Turn(started) => {
                let turn = self.enter_turn(started, None);
                assert(entered(held, started, None, turn, self.actor@));
                match turn {
                    None => Ghost(BackendResult::ControlDone),
                    Some(turn) => {
                        let result = backend.run_turn(turn.context, turn.input, turn.work);
                        self.finish_turn(turn.admission, result);
                        Ghost(result)
                    },
                }
            },
            Launch::Control(context, control) => {
                if self.enter_keyed() {
                    let result = backend.run_control(context, control);
                    self.finish_keyed();
                    Ghost(result)
                } else {
                    Ghost(BackendResult::ControlDone)
                }
            },
            Launch::Compact(context, instructions) => {
                if self.enter_keyed() {
                    let result = backend.run_compact(context, instructions);
                    self.finish_keyed();
                    Ghost(result)
                } else {
                    Ghost(BackendResult::ControlDone)
                }
            },
        }
    }
}

/// A batch of more than one item holds roots only.
proof fn lemma_batch_members(items: Seq<ActorWork>, i: int)
    requires
        0 < i < queue::batch_length(items),
    ensures
        items[i] is Root,
{
    let root = items[0]->Root_0;
    queue::lemma_run_members(items, root.input.batch_key->0, root.generation, 1, i);
}

/// What is left of a loaded queue is loaded.
proof fn lemma_loaded_rest(items: Seq<ActorWork>, count: int)
    requires
        loaded(items),
        0 <= count <= items.len(),
    ensures
        loaded(items.skip(count)),
{
    assert forall|i: int| 0 <= i < items.skip(count).len() implies (#[trigger] items.skip(
        count,
    )[i] matches ActorWork::Turn(admission) ==> admission.input is Some) by {
        assert(items.skip(count)[i] == items[count + i]);
    }
}

/// What comes of handing a started turn to its backend.
pub open spec fn entered(
    actor: ActorModel,
    started: StartedTurn,
    refused: Option<TurnCancellationReason>,
    result: Option<EnteredTurn>,
    after: ActorModel,
) -> bool {
    let admission = started.admission;
    if actor.tokens.cancelled {
        let reason = match actor.tokens.reason {
            Some(reason) => reason,
            None => TurnCancellationReason::User,
        };
        result is None && after == given_up(actor, admission, reason)
    } else if refused is Some {
        result is None && after == given_up(actor, admission, refused->0)
    } else {
        &&& after == actor
        &&& result matches Some(turn) && {
            &&& turn.admission == (TurnAdmission { input: None, ..admission })
            &&& Some(turn.input) == admission.input
            &&& turn.work == started.work
            &&& turn.context.agent_id == actor.agent_id
            &&& turn.context.turn_id == Some(admission.turn_id)
            &&& turn.context.correlation == admission.correlation
            &&& turn.context.generation == admission.generation
            &&& turn.context.interrupt == Some(
                InterruptQueue {
                    cancellation_generation: started.popped_generation,
                    policy_generation: admission.generation,
                },
            )
        }
    }
}

} // verus!
