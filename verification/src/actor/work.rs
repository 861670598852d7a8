//! The work an actor is given, and what its backend makes of it.
use vstd::prelude::*;

use crate::actor::tickets::TurnTicket;
use crate::types::{AgentId, AgentInput, ImageSource, TokenUsage, TurnId, TurnOutcome};

verus! {

/// What a backend is asked to execute. Controls and compactions have no outcome; turns and
/// started roots settle into one. A started root carries what the host drew for it, so that the
/// backend announces only what has not been drawn, and the roots that were condensed into it.
#[derive(Debug)]
pub enum WorkKind {
    Turn,
    Root {
        run_id: u64,
        displayed: bool,
        text: String,
        images: Vec<ImageSource>,
        earlier: Vec<EarlierRoot>,
    },
    Control,
    Compact,
}

/// A root input that was condensed into a later one.
#[derive(Debug)]
pub struct EarlierRoot {
    pub run_id: u64,
    pub displayed: bool,
    pub text: String,
    pub images: Vec<ImageSource>,
    pub correlation: String,
}

/// What a backend is told about the work it executes: the actor, the turn if there is one, the
/// key by which the work is cancelled, the generation of the policy it was queued under and,
/// for a turn, the view of the queue from which it may fold further input into itself.
#[derive(Debug)]
pub struct TurnContext {
    pub agent_id: AgentId,
    pub turn_id: Option<TurnId>,
    pub correlation: String,
    pub generation: u64,
    pub interrupt: Option<InterruptQueue>,
}

/// A running turn's view of the queue: the cancellation generation that the turn was popped
/// under, and the policy generation whose roots it may fold into itself.
#[derive(Debug, Clone, Copy, PartialEq, Eq, Structural)]
pub struct InterruptQueue {
    pub cancellation_generation: u64,
    pub policy_generation: u64,
}

/// What a backend made of the work it was given. Only `EnteredRun` stands for an outcome that was
/// delivered already; `SetupFailed` reports a turn that never started.
#[derive(Debug)]
pub enum BackendResult {
    EnteredRun(TurnOutcome),
    SetupFailed { agent_id: AgentId, turn_id: TurnId },
    ControlDone,
    ControlFailed,
    CompactDone,
}

/// A root input queued by the host, with what the host shows for it.
#[derive(Debug)]
pub struct RootWork {
    pub input: AgentInput,
    pub run_id: u64,
    pub displayed: bool,
    pub text: String,
    pub images: Vec<ImageSource>,
    pub correlation: String,
    pub generation: u64,
    pub earlier: Vec<EarlierRoot>,
}

impl RootWork {
    /// A root input of the first policy generation that stands for itself alone.
    pub fn new(
        input: AgentInput,
        run_id: u64,
        displayed: bool,
        text: String,
        images: Vec<ImageSource>,
        correlation: String,
    ) -> (result: Self)
        ensures
            result.input == input,
            result.run_id == run_id,
            result.displayed == displayed,
            result.text == text,
            result.images == images,
            result.correlation == correlation,
            result.generation == 0,
            result.earlier@ == Seq::<EarlierRoot>::empty(),
    {
        RootWork {
            input,
            run_id,
            displayed,
            text,
            images,
            correlation,
            generation: 0,
            earlier: Vec::new(),
        }
    }
}

/// A standalone control operation and the key that routes its result back.
#[derive(Debug)]
pub struct ControlWork {
    pub name: String,
    pub correlation: String,
}

/// A turn admitted by the host, the sink that its outcome is delivered to, and its ticket. A turn
/// that was started from a root input retains no outcome when it is cancelled before it runs.
#[derive(Debug)]
pub struct TurnAdmission {
    pub turn_id: TurnId,
    pub input: Option<AgentInput>,
    pub event_sender: Option<u64>,
    pub correlation: String,
    pub root: bool,
    pub generation: u64,
    pub ticket: TurnTicket,
}

/// One unit of work. A `Turn` settles into exactly one outcome; a `Root` becomes a turn once it is
/// started; a `PolicyBarrier` separates the work of two policy generations; a `Control` and a
/// `Compact` have no outcome.
#[derive(Debug)]
pub enum ActorWork {
    Turn(TurnAdmission),
    Root(RootWork),
    PolicyBarrier { generation: u64 },
    Control(ControlWork),
    Compact { run_id: u64, instructions: Option<String>, generation: u64 },
}

/// Whether the actor takes work. `Closed` and `Shutdown` are final.
#[derive(Debug, Clone, Copy, PartialEq, Eq, Structural)]
pub enum ActorLifecycle {
    Open,
    Closed,
    Shutdown,
}

impl Default for ActorLifecycle {
    fn default() -> (result: Self)
        ensures
            result == ActorLifecycle::Open,
    {
        ActorLifecycle::Open
    }
}

/// Whether the actor runs a turn, and which.
#[derive(Debug, Clone, Copy, PartialEq, Eq, Structural)]
pub enum ActorStatus {
    Idle,
    Running(TurnId),
}

/// One queued item, as much of it as a host needs to draw it.
#[derive(Debug, PartialEq, Eq)]
pub enum QueueProjection {
    Message { text: String, image_count: usize, displayed: bool },
    Compact(Option<String>),
    Control(String),
    Turn(String),
    PolicyBarrier,
}

/// What the host sees of an actor at one moment.
#[derive(Debug)]
pub struct ActorSnapshot {
    pub lifecycle: ActorLifecycle,
    pub status: ActorStatus,
    pub active_turn: Option<TurnId>,
    pub queued: usize,
    pub queue: Vec<QueueProjection>,
    pub latest: Option<TurnOutcome>,
    pub cumulative_usage: TokenUsage,
}

/// What a running agent takes out of the queue: further input, or a compaction.
#[derive(Debug)]
pub enum ExtractedCommand {
    Interrupt(Vec<AgentInput>),
    Compact(Option<String>),
}

/// Executes an actor's work.
pub trait ActorBackend {
    /// Executes a turn or a started root.
    fn run_turn(&mut self, context: TurnContext, input: AgentInput, work: WorkKind)
        -> BackendResult;

    /// Executes a control operation, which has no turn and no outcome.
    fn run_control(&mut self, context: TurnContext, control: ControlWork) -> BackendResult;

    /// Executes a compaction, which has no turn and no outcome.
    fn run_compact(&mut self, context: TurnContext, instructions: Option<String>)
        -> BackendResult;
}

} // verus!
