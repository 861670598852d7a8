//! What an actor is at one moment, and how a turn settles.
use std::collections::{HashMap, HashSet};

use vstd::prelude::*;

use crate::actor::queue::ActorQueue;
use crate::actor::work::{ActorLifecycle, ActorStatus, ActorWork, TurnAdmission};
use crate::text_map::{reversed, TextMap};
use crate::types;
use crate::types::{AgentId, TokenUsage, TurnCancellationReason, TurnId, TurnOutcome};

verus! {

broadcast use vstd::std_specs::hash::group_hash_axioms;

/// What the active run sees of its cancellation: whether it must stop, and why.
#[derive(Debug, Clone, Copy, PartialEq, Eq, Structural)]
pub struct RunTokens {
    pub cancelled: bool,
    pub reason: Option<TurnCancellationReason>,
}

/// The tokens of a run that has not been cancelled.
pub open spec fn fresh_tokens() -> RunTokens {
    RunTokens { cancelled: false, reason: None }
}

/// The tokens of a run that is told to stop: the first reason stands.
pub open spec fn fired(tokens: RunTokens, reason: TurnCancellationReason) -> RunTokens {
    RunTokens {
        cancelled: true,
        reason: match tokens.reason {
            Some(first) => Some(first),
            None => Some(reason),
        },
    }
}

/// The wiring by which the active run is cancelled, and the key that cancels it.
#[derive(Debug)]
pub struct ActiveCancel {
    pub correlation: Option<String>,
}

impl ActiveCancel {
    /// The wiring of a new run, and the tokens that the run reads.
    pub fn new(correlation: Option<String>) -> (result: (ActiveCancel, RunTokens))
        ensures
            result.0.correlation == correlation,
            result.1 == fresh_tokens(),
    {
        (ActiveCancel { correlation }, RunTokens { cancelled: false, reason: None })
    }

    /// The key that cancels the run.
    pub fn correlation(&self) -> (result: Option<&str>)
        ensures
            match self.correlation {
                Some(key) => result is Some && result->0@ == key@,
                None => result is None,
            },
    {
        match &self.correlation {
            Some(key) => Some(key.as_str()),
            None => None,
        }
    }

    /// Tells the run to stop: records the reason, unless one was recorded before, then aborts.
    pub fn fire(self, tokens: &mut RunTokens, reason: TurnCancellationReason)
        ensures
            *final(tokens) == fired(*old(tokens), reason),
    {
        if tokens.reason.is_none() {
            tokens.reason = Some(reason);
        }
        tokens.cancelled = true;
    }
}

/// The active run is cancelled by the key `correlation`.
pub open spec fn active_carries(active: Option<ActiveCancel>, correlation: Seq<char>) -> bool {
    active matches Some(wiring) && wiring.correlation matches Some(key) && key@ == correlation
}

/// Lifecycle, run status and the wiring of the active run. `cancelled_correlations` remembers
/// keys that were cancelled before their work was pushed. The cancellation generation tells
/// whether a reusable cancellation fell between taking work off the queue and starting it.
pub struct ActorState {
    pub lifecycle: ActorLifecycle,
    pub status: ActorStatus,
    pub active: Option<ActiveCancel>,
    pub tokens: RunTokens,
    pub cancelled_correlations: TextMap<TurnCancellationReason>,
    pub cancelled_turns: HashSet<u128>,
    pub cancellation_generation: u64,
}

impl ActorState {
    /// The state of an actor that has done nothing.
    pub fn idle() -> (result: Self)
        ensures
            result.lifecycle == ActorLifecycle::Open,
            result.status == ActorStatus::Idle,
            result.active is None,
            result.tokens == fresh_tokens(),
            result.cancelled_correlations@ == Map::<Seq<char>, TurnCancellationReason>::empty(),
            result.cancelled_turns@ == Set::<u128>::empty(),
            result.cancellation_generation == 0,
    {
        ActorState {
            lifecycle: ActorLifecycle::Open,
            status: ActorStatus::Idle,
            active: None,
            tokens: RunTokens { cancelled: false, reason: None },
            cancelled_correlations: TextMap::new(),
            cancelled_turns: HashSet::new(),
            cancellation_generation: 0,
        }
    }
}

/// An outcome on its way to the sink that admitted the turn.
#[derive(Debug)]
pub struct Delivery {
    pub sender: u64,
    pub outcome: TurnOutcome,
}

/// An outcome on its way to whoever waits for the turn.
#[derive(Debug)]
pub struct Resolution {
    pub turn_id: TurnId,
    pub outcome: TurnOutcome,
}

/// Everything an actor knows: its state, its queue, the outcomes it retains, the tickets of the
/// turns that have not settled, and what it has yet to hand out.
pub struct ActorInner {
    pub agent_id: AgentId,
    pub state: ActorState,
    pub queue: ActorQueue,
    pub outcomes: HashMap<u128, TurnOutcome>,
    pub latest: Option<TurnOutcome>,
    pub usage: TokenUsage,
    pub tickets: HashSet<u128>,
    pub deliveries: Vec<Delivery>,
    pub resolutions: Vec<Resolution>,
    pub awake: bool,
}

/// An actor as a mathematical value.
#[verifier::ext_equal]
pub struct ActorModel {
    pub agent_id: AgentId,
    pub lifecycle: ActorLifecycle,
    pub status: ActorStatus,
    pub active: Option<ActiveCancel>,
    pub tokens: RunTokens,
    pub marks: Map<Seq<char>, TurnCancellationReason>,
    pub cancelled_turns: Set<u128>,
    pub cancellation_generation: u64,
    pub queue: Seq<ActorWork>,
    pub notice: bool,
    pub outcomes: Map<u128, TurnOutcome>,
    pub latest: Option<TurnOutcome>,
    pub usage: TokenUsage,
    pub tickets: Set<u128>,
    pub deliveries: Seq<Delivery>,
    pub resolutions: Seq<Resolution>,
    pub awake: bool,
}

impl View for ActorInner {
    type V = ActorModel;

    open spec fn view(&self) -> ActorModel {
        ActorModel {
            agent_id: self.agent_id,
            lifecycle: self.state.lifecycle,
            status: self.state.status,
            active: self.state.active,
            tokens: self.state.tokens,
            marks: self.state.cancelled_correlations@,
            cancelled_turns: self.state.cancelled_turns@,
            cancellation_generation: self.state.cancellation_generation,
            queue: self.queue@,
            notice: self.queue.pending_notice(),
            outcomes: self.outcomes@,
            latest: self.latest,
            usage: self.usage,
            tickets: self.tickets@,
            deliveries: self.deliveries@,
            resolutions: self.resolutions@,
            awake: self.awake,
        }
    }
}

/// The outcome of a turn that was cancelled before it ran.
pub open spec fn cancelled(agent_id: AgentId, turn_id: TurnId, reason: TurnCancellationReason)
    -> TurnOutcome {
    TurnOutcome::Cancelled { agent_id, turn_id, usage: types::no_usage(), num_turns: 0, reason }
}

/// The outcome of a turn that was cancelled before it ran.
pub fn cancelled_outcome(agent_id: AgentId, turn_id: TurnId, reason: TurnCancellationReason)
    -> (result: TurnOutcome)
    ensures
        result == cancelled(agent_id, turn_id, reason),
{
    TurnOutcome::Cancelled { agent_id, turn_id, usage: TokenUsage::zero(), num_turns: 0, reason }
}

/// The actor once a turn has settled: the outcome is retained, counted, handed to whoever waits
/// and, if asked, to the admitting sink. A turn that settled before changes nothing.
pub open spec fn finalized(
    actor: ActorModel,
    admission: TurnAdmission,
    outcome: TurnOutcome,
    deliver: bool,
) -> ActorModel {
    let id = admission.turn_id.value;
    if actor.outcomes.dom().contains(id) {
        actor
    } else {
        ActorModel {
            outcomes: actor.outcomes.insert(id, outcome),
            latest: Some(outcome),
            usage: types::usage_sum(actor.usage, outcome.spec_usage()),
            tickets: actor.tickets.remove(id),
            resolutions: actor.resolutions.push(
                Resolution { turn_id: admission.ticket.id(), outcome },
            ),
            deliveries: match admission.event_sender {
                Some(sender) if deliver => actor.deliveries.push(Delivery { sender, outcome }),
                _ => actor.deliveries,
            },
            ..actor
        }
    }
}

/// Every outcome that was retained before is retained after, unchanged.
pub open spec fn retains(before: Map<u128, TurnOutcome>, after: Map<u128, TurnOutcome>) -> bool {
    forall|id: u128| #[trigger]
        before.dom().contains(id) ==> after.dom().contains(id) && after[id] == before[id]
}

/// Retains a turn's outcome, hands it to whoever waits and, if asked, to the admitting sink. Only
/// the first call for a turn has an effect.
pub fn finalize_turn(
    inner: &mut ActorInner,
    outcome: TurnOutcome,
    admission: &TurnAdmission,
    deliver: bool,
)
    ensures
        final(inner)@ == finalized(old(inner)@, *admission, outcome, deliver),
{
    let id: u128 = admission.turn_id.value;
    if inner.outcomes.contains_key(&id) {
        return;
    }
    inner.outcomes.insert(id, outcome.clone());
    inner.latest = Some(outcome.clone());
    inner.usage = inner.usage.plus(outcome.usage());
    inner.resolutions.push(
        Resolution { turn_id: admission.ticket.turn_id(), outcome: outcome.clone() },
    );
    inner.tickets.remove(&id);
    match admission.event_sender {
        Some(sender) => {
            if deliver {
                inner.deliveries.push(Delivery { sender, outcome });
            }
        },
        None => {},
    }
    assert(inner@ =~= finalized(old(inner)@, *admission, outcome, deliver));
}

/// The actor once dropped work has been dealt with: each admitted turn among it settles as
/// cancelled, and the rest leaves no trace.
pub open spec fn terminalized(
    actor: ActorModel,
    works: Seq<ActorWork>,
    reason: TurnCancellationReason,
) -> ActorModel
    decreases works.len(),
{
    if works.len() == 0 {
        actor
    } else {
        let before = terminalized(actor, works.drop_last(), reason);
        match works.last() {
            ActorWork::Turn(admission) => finalized(
                before,
                admission,
                cancelled(actor.agent_id, admission.turn_id, reason),
                true,
            ),
            _ => before,
        }
    }
}

/// Settles each admitted turn among dropped work as cancelled.
pub fn terminalize_work(
    inner: &mut ActorInner,
    drained: Vec<ActorWork>,
    reason: TurnCancellationReason,
)
    ensures
        final(inner)@ == terminalized(old(inner)@, drained@, reason),
{
    let ghost all = drained@;
    let mut rest = reversed(drained);
    let ghost mut done: int = 0;
    assert(all.take(0) =~= Seq::empty());
    while rest.len() > 0
        invariant
            0 <= done <= all.len(),
            rest@.len() == all.len() - done,
            forall|j: int| 0 <= j < rest@.len() ==> rest@[j] == all[all.len() - 1 - j],
            inner@ == terminalized(old(inner)@, all.take(done), reason),
            inner.agent_id == old(inner).agent_id,
        decreases rest@.len(),
    {
        match rest.pop() {
            Some(work) => {
                assert(work == all[done]);
                assert(all.take(done + 1).drop_last() =~= all.take(done));
                assert(all.take(done + 1).last() == work);
                let ghost before = inner@;
                match work {
                    ActorWork::Turn(admission) => {
                        let outcome = cancelled_outcome(
                            inner.agent_id,
                            admission.turn_id,
                            reason,
                        );
                        finalize_turn(inner, outcome, &admission, true);
                        assert(inner@.agent_id == before.agent_id);
                    },
                    _ => {},
                }
                proof {
                    done = done + 1;
                }
            },
            None => {},
        }
    }
    assert(all.take(done) =~= all);
}

} // verus!
