//! An actor and its runner, driven step by step.
use makima::actor::error::ActorError;
use makima::actor::handle::AgentActorHandle;
use makima::actor::runner::{EnteredTurn, Launch, Runner, Step, TurnIds};
use makima::actor::tickets::TurnTicket;
use makima::actor::work::{
    ActorBackend, ActorLifecycle, ActorStatus, BackendResult, ControlWork, ExtractedCommand,
    QueueProjection, RootWork, TurnContext, WorkKind,
};
use makima::types::{
    AgentId, AgentInput, AgentMode, DoneReason, ImageMediaType, ImageSource, ThinkingConfig,
    TokenUsage, TurnCancellationReason, TurnFailureKind, TurnId, TurnOutcome,
};

const AGENT: AgentId = AgentId { value: 77 };

fn input(message: &str) -> AgentInput {
    AgentInput {
        message: message.to_owned(),
        mode: AgentMode::Build,
        images: Vec::new(),
        preamble: Vec::new(),
        thinking: ThinkingConfig::Off,
        fast: false,
        workflow: false,
        prompt: None,
        batch_key: None,
    }
}

fn root(message: &str, run_id: u64, displayed: bool, correlation: &str) -> RootWork {
    RootWork::new(
        input(message),
        run_id,
        displayed,
        message.to_owned(),
        Vec::new(),
        correlation.to_owned(),
    )
}

fn turn(value: u128) -> TurnId {
    TurnId { value }
}

fn completed(agent_id: AgentId, turn_id: TurnId) -> TurnOutcome {
    TurnOutcome::Completed {
        agent_id,
        turn_id,
        usage: TokenUsage { input: 10, output: 5, cache_creation: 0, cache_read: 0 },
        num_turns: 1,
        reason: DoneReason::EndTurn,
    }
}

/// Records what it is given and answers at once.
#[derive(Default)]
struct ScriptedBackend {
    runs: Vec<(String, String)>,
    metadata: Vec<(u64, bool, String, usize)>,
    controls: Vec<String>,
    compacts: u32,
    fail_next: bool,
}

impl ActorBackend for ScriptedBackend {
    fn run_turn(&mut self, context: TurnContext, input: AgentInput, work: WorkKind) -> BackendResult {
        let kind = match work {
            WorkKind::Turn => "turn",
            WorkKind::Root { run_id, displayed, text, images, .. } => {
                self.metadata.push((run_id, displayed, text, images.len()));
                "root"
            }
            WorkKind::Control => "control",
            WorkKind::Compact => "compact",
        };
        self.runs.push((kind.to_owned(), input.message));
        let turn_id = context.turn_id.expect("a turn has an identity");
        if self.fail_next {
            self.fail_next = false;
            return BackendResult::SetupFailed { agent_id: context.agent_id, turn_id };
        }
        BackendResult::EnteredRun(completed(context.agent_id, turn_id))
    }

    fn run_control(&mut self, _context: TurnContext, control: ControlWork) -> BackendResult {
        self.controls.push(control.name);
        BackendResult::ControlDone
    }

    fn run_compact(&mut self, _context: TurnContext, _instructions: Option<String>) -> BackendResult {
        self.compacts += 1;
        BackendResult::CompactDone
    }
}

fn runner() -> (Runner, TurnIds) {
    (Runner { actor: AgentActorHandle::spawn(AGENT) }, TurnIds { next: 1000 })
}

fn admitted(runner: &mut Runner, value: u128, message: &str, correlation: &str) -> TurnTicket {
    runner
        .actor
        .admit_turn(turn(value), input(message), None, correlation.to_owned())
        .expect("the actor is open")
}

/// Takes the next item off the queue and hands it to a backend that has not answered yet.
fn enter(runner: &mut Runner, ids: &mut TurnIds) -> EnteredTurn {
    let popped = runner.next().expect("something is queued");
    let fresh = ids.take();
    let Launch::Turn(started) = runner.process(popped, fresh) else {
        panic!("expected a turn");
    };
    runner.enter_turn(started, None).expect("nothing cancels the turn")
}

fn finish(runner: &mut Runner, entered: EnteredTurn) {
    let outcome = completed(entered.context.agent_id, entered.admission.turn_id);
    runner.finish_turn(entered.admission, BackendResult::EnteredRun(outcome));
}

/// Answers as an agent does that reads why it was cancelled.
fn finish_cancelled(runner: &mut Runner, entered: EnteredTurn) {
    let reason = runner.actor.inner.state.tokens.reason.expect("the run was cancelled");
    let outcome = TurnOutcome::Cancelled {
        agent_id: entered.context.agent_id,
        turn_id: entered.admission.turn_id,
        usage: TokenUsage::default(),
        num_turns: 0,
        reason,
    };
    runner.finish_turn(entered.admission, BackendResult::EnteredRun(outcome));
}

fn reason_of(runner: &Runner, ticket: &TurnTicket) -> TurnCancellationReason {
    match ticket.peek(&runner.actor) {
        Some(TurnOutcome::Cancelled { reason, .. }) => reason,
        other => panic!("expected a cancelled outcome, got {other:?}"),
    }
}

fn is_completed(runner: &Runner, ticket: &TurnTicket) -> bool {
    matches!(ticket.peek(&runner.actor), Some(TurnOutcome::Completed { .. }))
}

#[test]
fn fifo_order_is_strict() {
    let (mut runner, mut ids) = runner();
    let mut backend = ScriptedBackend::default();
    let a = admitted(&mut runner, 1, "first", "a");
    let b = admitted(&mut runner, 2, "second", "b");
    let c = admitted(&mut runner, 3, "third", "c");
    runner.drain(&mut backend, &mut ids);
    for ticket in [&a, &b, &c] {
        let outcome = ticket.peek(&runner.actor).expect("settled");
        assert_eq!(outcome.turn_id(), ticket.turn_id());
    }
    let messages: Vec<&str> = backend.runs.iter().map(|(_, message)| message.as_str()).collect();
    assert_eq!(messages, ["first", "second", "third"]);
}

#[test]
fn exact_wait_and_lookup() {
    let (mut runner, mut ids) = runner();
    let mut backend = ScriptedBackend::default();
    let ticket = admitted(&mut runner, 1, "work", "w");
    assert_eq!(runner.actor.wait_outcome(ticket.turn_id()), Ok(None));
    runner.drain(&mut backend, &mut ids);
    let outcome = ticket.peek(&runner.actor).expect("settled");
    assert_eq!(outcome.turn_id(), ticket.turn_id());
    assert!(matches!(outcome, TurnOutcome::Completed { .. }));
    assert_eq!(runner.actor.wait_outcome(ticket.turn_id()), Ok(Some(outcome.clone())));
    let resolutions = runner.actor.take_resolutions();
    assert_eq!(resolutions.len(), 1);
    assert_eq!(resolutions[0].outcome, outcome);
    assert!(matches!(
        runner.actor.wait_outcome(turn(999)),
        Err(ActorError::UnknownTurn(_))
    ));
}

#[test]
fn failed_actor_is_reusable() {
    let (mut runner, mut ids) = runner();
    let mut backend = ScriptedBackend { fail_next: true, ..ScriptedBackend::default() };
    let a = admitted(&mut runner, 1, "one", "a");
    runner.drain(&mut backend, &mut ids);
    assert!(matches!(
        a.peek(&runner.actor),
        Some(TurnOutcome::Failed { num_turns: 0, .. })
    ));
    let b = admitted(&mut runner, 2, "two", "b");
    runner.drain(&mut backend, &mut ids);
    assert!(is_completed(&runner, &b));
    assert_eq!(backend.runs.len(), 2);
}

#[test]
fn close_drains_queued_turns_and_cancels_active_with_closed_reason() {
    let (mut runner, mut ids) = runner();
    let t1 = admitted(&mut runner, 1, "running", "t1");
    let t2 = admitted(&mut runner, 2, "queued", "t2");
    let t3 = runner
        .actor
        .admit_turn(turn(3), input("queued-with-sink"), Some(30), "t3".to_owned())
        .unwrap();
    let entered = enter(&mut runner, &mut ids);
    assert_ne!(runner.actor.snapshot().status, ActorStatus::Idle);
    runner.actor.close();
    assert_eq!(reason_of(&runner, &t2), TurnCancellationReason::Closed);
    assert_eq!(reason_of(&runner, &t3), TurnCancellationReason::Closed);
    let deliveries = runner.actor.take_deliveries();
    assert_eq!(deliveries.len(), 1, "each queued turn delivers its outcome exactly once");
    assert_eq!(deliveries[0].sender, 30);
    finish_cancelled(&mut runner, entered);
    assert_eq!(reason_of(&runner, &t1), TurnCancellationReason::Closed);
    assert_eq!(runner.actor.snapshot().queued, 0);
    assert_eq!(runner.step(), Step::Exit);
}

#[test]
fn cancel_all_is_reusable() {
    let (mut runner, mut ids) = runner();
    let mut backend = ScriptedBackend::default();
    let t1 = admitted(&mut runner, 1, "running", "t1");
    let entered = enter(&mut runner, &mut ids);
    runner.actor.rush(root("root", 1, false, "r1")).unwrap();
    let t2 = admitted(&mut runner, 2, "queued", "t2");
    runner.actor.cancel_all();
    assert_eq!(reason_of(&runner, &t2), TurnCancellationReason::User);
    assert_eq!(runner.actor.snapshot().queued, 0);
    finish_cancelled(&mut runner, entered);
    assert_eq!(reason_of(&runner, &t1), TurnCancellationReason::User);
    assert_eq!(
        runner.actor.snapshot().lifecycle,
        ActorLifecycle::Open,
        "cancel_all keeps the actor open"
    );
    let t3 = admitted(&mut runner, 3, "after", "t3");
    runner.drain(&mut backend, &mut ids);
    assert!(is_completed(&runner, &t3));
}

#[test]
fn entered_run_is_never_emitted_twice() {
    let (mut runner, mut ids) = runner();
    let mut backend = ScriptedBackend::default();
    let ticket = runner
        .actor
        .admit_turn(turn(1), input("work"), Some(10), "w".to_owned())
        .unwrap();
    runner.drain(&mut backend, &mut ids);
    assert!(runner.actor.take_deliveries().is_empty());
    assert!(ticket.peek(&runner.actor).is_some());
    runner.actor.close();
    assert_eq!(runner.actor.take_deliveries().len(), 0);
}

#[test]
fn setup_failure_delivered_exactly_once() {
    let (mut runner, mut ids) = runner();
    let mut backend = ScriptedBackend { fail_next: true, ..ScriptedBackend::default() };
    let ticket = runner
        .actor
        .admit_turn(turn(1), input("work"), Some(10), "w".to_owned())
        .unwrap();
    runner.drain(&mut backend, &mut ids);
    let deliveries = runner.actor.take_deliveries();
    assert_eq!(deliveries.len(), 1, "synthesized outcome delivered exactly once");
    match ticket.peek(&runner.actor) {
        Some(TurnOutcome::Failed { failure, .. }) => {
            assert_eq!(failure.kind, TurnFailureKind::Internal);
            assert!(failure.retryable);
        }
        other => panic!("expected a failed outcome, got {other:?}"),
    }
}

#[test]
fn event_sink_failure_still_retains() {
    let (mut runner, mut ids) = runner();
    let mut backend = ScriptedBackend { fail_next: true, ..ScriptedBackend::default() };
    let ticket = runner
        .actor
        .admit_turn(turn(1), input("work"), Some(10), "w".to_owned())
        .unwrap();
    runner.drain(&mut backend, &mut ids);
    drop(runner.actor.take_deliveries());
    assert!(matches!(
        ticket.peek(&runner.actor),
        Some(TurnOutcome::Failed { .. })
    ));
}

#[test]
fn root_folds_into_active_turn_with_no_orphan() {
    let (mut runner, mut ids) = runner();
    let mut backend = ScriptedBackend::default();
    let main = admitted(&mut runner, 1, "main", "m");
    let entered = enter(&mut runner, &mut ids);
    assert!(matches!(entered.work, WorkKind::Turn));
    runner.actor.rush(root("fold-me", 1, false, "r1")).unwrap();
    let source = entered.context.interrupt.expect("a turn can be interrupted");
    let Some(ExtractedCommand::Interrupt(folded)) = source.poll(&mut runner.actor) else {
        panic!("expected an interrupt");
    };
    assert_eq!(folded.len(), 1);
    assert_eq!(folded[0].message, "fold-me");
    finish(&mut runner, entered);
    runner.drain(&mut backend, &mut ids);
    assert!(backend.runs.is_empty(), "root folded, never started as its own turn");
    let snapshot = runner.actor.snapshot();
    assert_eq!(snapshot.queued, 0);
    assert_eq!(snapshot.latest.map(|outcome| outcome.turn_id()), Some(main.turn_id()));
    assert_eq!(snapshot.status, ActorStatus::Idle);
}

#[test]
fn idle_root_start_preserves_metadata_to_backend() {
    let (mut runner, mut ids) = runner();
    let mut backend = ScriptedBackend::default();
    let images: Vec<ImageSource> = (0..3)
        .map(|_| ImageSource { media_type: ImageMediaType::Png, data: "AA==".to_owned() })
        .collect();
    runner
        .actor
        .rush(RootWork::new(
            input("deferred"),
            7,
            false,
            "deferred bubble".to_owned(),
            images,
            "r7".to_owned(),
        ))
        .unwrap();
    runner.drain(&mut backend, &mut ids);
    assert_eq!(backend.runs, vec![("root".to_owned(), "deferred".to_owned())]);
    assert_eq!(backend.metadata, vec![(7, false, "deferred bubble".to_owned(), 3)]);
    let snapshot = runner.actor.snapshot();
    assert_eq!(snapshot.queued, 0);
    assert_eq!(snapshot.status, ActorStatus::Idle);
    assert!(snapshot.latest.is_none(), "a root leaves no outcome");
}

#[test]
fn control_produces_no_outcome() {
    let (mut runner, mut ids) = runner();
    let mut backend = ScriptedBackend::default();
    runner
        .actor
        .push_control(ControlWork { name: "pin".to_owned(), correlation: "c1".to_owned() })
        .unwrap();
    runner.drain(&mut backend, &mut ids);
    assert_eq!(backend.controls, ["pin"]);
    let snapshot = runner.actor.snapshot();
    assert!(snapshot.latest.is_none(), "control must not produce an outcome");
    assert_eq!(snapshot.queued, 0);
}

#[test]
fn first_cancellation_reason_wins() {
    let (mut runner, mut ids) = runner();
    let ticket = admitted(&mut runner, 1, "work", "w");
    let entered = enter(&mut runner, &mut ids);
    runner.actor.close();
    finish_cancelled(&mut runner, entered);
    assert_eq!(reason_of(&runner, &ticket), TurnCancellationReason::Closed);
}

#[test]
fn first_reason_wins_across_sources() {
    let (mut runner, mut ids) = runner();
    let ticket = admitted(&mut runner, 1, "work", "w");
    let entered = enter(&mut runner, &mut ids);
    runner.actor.cancel_all();
    runner.actor.close();
    finish_cancelled(&mut runner, entered);
    assert_eq!(reason_of(&runner, &ticket), TurnCancellationReason::User);
}

#[test]
fn close_rejects_new_admissions() {
    let (mut runner, _ids) = runner();
    runner.actor.close();
    assert_eq!(
        runner
            .actor
            .admit_turn(turn(1), input("late"), None, "late".to_owned())
            .unwrap_err(),
        ActorError::Closed
    );
    assert_eq!(runner.actor.snapshot().lifecycle, ActorLifecycle::Closed);
}

#[test]
fn remove_terminalizes_instead_of_stranding() {
    let (mut runner, mut ids) = runner();
    let mut backend = ScriptedBackend::default();
    let t1 = admitted(&mut runner, 1, "running", "t1");
    let entered = enter(&mut runner, &mut ids);
    let t2 = admitted(&mut runner, 2, "queued", "t2");
    let t3 = admitted(&mut runner, 3, "also-queued", "t3");
    let removed = runner.actor.remove(t2.turn_id()).unwrap();
    assert!(matches!(
        removed,
        TurnOutcome::Cancelled { reason: TurnCancellationReason::User, .. }
    ));
    assert_eq!(reason_of(&runner, &t2), TurnCancellationReason::User);
    assert_eq!(runner.actor.snapshot().queued, 1, "only t3 remains");
    finish(&mut runner, entered);
    runner.drain(&mut backend, &mut ids);
    assert!(is_completed(&runner, &t1));
    assert!(is_completed(&runner, &t3));
}

#[test]
fn targeted_cancel_matching_queued_correlation_and_reuse() {
    let (mut runner, mut ids) = runner();
    let mut backend = ScriptedBackend::default();
    let t1 = admitted(&mut runner, 1, "one", "keep");
    let entered = enter(&mut runner, &mut ids);
    let t2 = admitted(&mut runner, 2, "two", "drop");
    let t3 = admitted(&mut runner, 3, "three", "keep");
    runner.actor.rush(root("root-drop", 9, false, "drop")).unwrap();
    runner.actor.cancel_correlation("drop", TurnCancellationReason::User);
    assert_eq!(reason_of(&runner, &t2), TurnCancellationReason::User);
    let left = runner.actor.snapshot();
    let running = usize::from(left.active_turn.is_some());
    assert_eq!(left.queued + running, 2, "only t1, which runs, and t3 remain");
    finish(&mut runner, entered);
    runner.drain(&mut backend, &mut ids);
    assert!(is_completed(&runner, &t1));
    assert!(is_completed(&runner, &t3));
    let t4 = admitted(&mut runner, 4, "four", "new");
    runner.drain(&mut backend, &mut ids);
    assert!(is_completed(&runner, &t4));
}

#[test]
fn targeted_cancel_matching_active_run() {
    let (mut runner, mut ids) = runner();
    let mut backend = ScriptedBackend::default();
    let running = admitted(&mut runner, 1, "running", "run-a");
    let entered = enter(&mut runner, &mut ids);
    runner.actor.cancel_correlation("run-a", TurnCancellationReason::User);
    finish_cancelled(&mut runner, entered);
    assert_eq!(reason_of(&runner, &running), TurnCancellationReason::User);
    let later = admitted(&mut runner, 2, "later", "run-b");
    runner.drain(&mut backend, &mut ids);
    assert!(is_completed(&runner, &later));
}

#[test]
fn precancel_marks_match_and_do_not_poison() {
    let (mut runner, mut ids) = runner();
    let mut backend = ScriptedBackend::default();
    runner.actor.cancel_correlation("run-5", TurnCancellationReason::User);
    let ticket = runner
        .actor
        .admit_turn(turn(1), input("late"), Some(10), "run-5".to_owned())
        .unwrap();
    assert_eq!(reason_of(&runner, &ticket), TurnCancellationReason::User);
    assert_eq!(
        runner.actor.take_deliveries().len(),
        1,
        "precancelled admission delivered once"
    );
    runner.actor.rush(root("late-root", 5, false, "run-5")).unwrap();
    assert_eq!(runner.actor.snapshot().queued, 0);
    let ok = admitted(&mut runner, 2, "other", "other");
    runner.drain(&mut backend, &mut ids);
    assert!(is_completed(&runner, &ok));
    assert_eq!(backend.runs.len(), 1);
}

#[test]
fn targeted_cancel_first_reason_wins_vs_close() {
    let (mut runner, mut ids) = runner();
    let running = admitted(&mut runner, 1, "running", "race-a");
    let entered = enter(&mut runner, &mut ids);
    runner.actor.cancel_correlation("race-a", TurnCancellationReason::User);
    runner.actor.close();
    finish_cancelled(&mut runner, entered);
    assert_eq!(reason_of(&runner, &running), TurnCancellationReason::User);
}

#[test]
fn remove_visible_at_skips_hidden_and_removes_deferred() {
    let (mut runner, mut ids) = runner();
    let running = admitted(&mut runner, 1, "running", "r0");
    let entered = enter(&mut runner, &mut ids);
    runner.actor.rush(root("displayed-root", 1, true, "h2")).unwrap();
    runner.actor.rush(root("deferred-root", 2, false, "v1")).unwrap();
    runner.actor.push_compact(3, None).unwrap();
    let queue = runner.actor.snapshot().queue;
    assert_eq!(queue.len(), 2);
    assert!(matches!(
        queue[0],
        QueueProjection::Message { ref text, .. } if text == "deferred-root"
    ));
    assert!(matches!(queue[1], QueueProjection::Compact(_)));
    let removed = runner.actor.remove_visible_at(0).unwrap();
    assert!(matches!(
        removed,
        QueueProjection::Message { ref text, .. } if text == "deferred-root"
    ));
    assert_eq!(runner.actor.snapshot().queued, 2);
    finish(&mut runner, entered);
    assert!(is_completed(&runner, &running));
}

#[test]
fn remove_at_raw_index_terminalizes_real_turn() {
    let (mut runner, mut ids) = runner();
    let mut backend = ScriptedBackend::default();
    let t1 = admitted(&mut runner, 1, "running", "r1");
    let entered = enter(&mut runner, &mut ids);
    let t2 = admitted(&mut runner, 2, "queued", "r2");
    let t3 = admitted(&mut runner, 3, "queued2", "r3");
    let removed = runner.actor.remove_at(0).unwrap();
    assert!(matches!(removed, QueueProjection::Turn(_)));
    assert_eq!(reason_of(&runner, &t2), TurnCancellationReason::User);
    assert_eq!(runner.actor.snapshot().queued, 1);
    finish(&mut runner, entered);
    runner.drain(&mut backend, &mut ids);
    assert!(is_completed(&runner, &t1));
    assert!(is_completed(&runner, &t3));
}

#[test]
fn remove_at_out_of_bounds_is_none() {
    let (mut runner, _ids) = runner();
    assert_eq!(runner.actor.remove_at(0), None);
    assert_eq!(runner.actor.remove_visible_at(0), None);
}

#[test]
fn cancel_r7_precancels_and_drops_compact_7_but_not_8() {
    let (mut first, mut ids) = runner();
    let mut backend = ScriptedBackend::default();
    first.actor.cancel_correlation("r7", TurnCancellationReason::User);
    first.actor.push_compact(7, None).unwrap();
    first.actor.push_compact(8, None).unwrap();
    first.drain(&mut backend, &mut ids);
    assert_eq!(backend.compacts, 1, "compact 7 dropped, only compact 8 ran");

    let (mut second, mut ids) = runner();
    let running = admitted(&mut second, 1, "running", "run-1");
    let entered = enter(&mut second, &mut ids);
    second.actor.push_compact(7, None).unwrap();
    second.actor.push_compact(8, None).unwrap();
    assert_eq!(second.actor.snapshot().queued, 2);
    second.actor.cancel_correlation("r7", TurnCancellationReason::User);
    let queue = second.actor.snapshot().queue;
    assert_eq!(queue.len(), 1, "compact 7 removed, compact 8 survives");
    assert!(matches!(queue[0], QueueProjection::Compact(_)));
    finish(&mut second, entered);
    assert!(is_completed(&second, &running));
}

#[test]
fn usage_adds_up_over_turns() {
    let (mut runner, mut ids) = runner();
    let mut backend = ScriptedBackend::default();
    admitted(&mut runner, 1, "a", "a");
    admitted(&mut runner, 2, "b", "b");
    runner.drain(&mut backend, &mut ids);
    let usage = runner.actor.snapshot().cumulative_usage;
    assert_eq!(usage, TokenUsage { input: 20, output: 10, cache_creation: 0, cache_read: 0 });
    assert_eq!(usage.total_input(), 20);
    let full = TokenUsage { input: u32::MAX, output: 1, cache_creation: 1, cache_read: 1 };
    assert_eq!(full.plus(full).input, u32::MAX);
    assert_eq!(full.total_input(), u32::MAX);
}

#[test]
fn a_cancellation_between_taking_and_starting_is_kept() {
    let (mut runner, mut ids) = runner();
    let ticket = admitted(&mut runner, 1, "work", "w");
    let popped = runner.next().expect("queued");
    runner.actor.cancel_all();
    let fresh = ids.take();
    assert!(matches!(runner.process(popped, fresh), Launch::Settled));
    assert_eq!(reason_of(&runner, &ticket), TurnCancellationReason::User);
}

#[test]
fn a_turn_that_the_manager_refuses_settles_as_cancelled() {
    let (mut runner, mut ids) = runner();
    let ticket = admitted(&mut runner, 1, "work", "w");
    let popped = runner.next().expect("queued");
    let fresh = ids.take();
    let Launch::Turn(started) = runner.process(popped, fresh) else {
        panic!("expected a turn");
    };
    assert!(runner.enter_turn(started, Some(TurnCancellationReason::Shutdown)).is_none());
    assert_eq!(reason_of(&runner, &ticket), TurnCancellationReason::Shutdown);
    assert_eq!(runner.actor.snapshot().status, ActorStatus::Idle);
}

#[test]
fn shutdown_refuses_work_and_keeps_the_first_close() {
    let (mut runner, _ids) = runner();
    let ticket = admitted(&mut runner, 1, "queued", "w");
    runner.actor.shutdown();
    runner.actor.close();
    assert_eq!(reason_of(&runner, &ticket), TurnCancellationReason::Shutdown);
    assert_eq!(runner.actor.snapshot().lifecycle, ActorLifecycle::Shutdown);
    assert_eq!(runner.actor.rush(root("late", 1, false, "r")), Err(ActorError::Shutdown));
    assert_eq!(runner.actor.push_compact(1, None), Err(ActorError::Shutdown));
}

#[test]
fn clearing_settles_queued_turns() {
    let (mut runner, _ids) = runner();
    let ticket = admitted(&mut runner, 1, "queued", "w");
    runner.actor.rush(root("root", 2, false, "r2")).unwrap();
    assert_eq!(runner.actor.clear(), 2);
    assert_eq!(reason_of(&runner, &ticket), TurnCancellationReason::User);
    assert_eq!(runner.actor.snapshot().queued, 0);
}

#[test]
fn a_ticket_finds_the_first_outcome_of_its_turn() {
    let (mut runner, mut ids) = runner();
    let ticket = admitted(&mut runner, 4, "work", "w");
    let copy = ticket;
    assert_eq!(copy.turn_id(), turn(4));
    assert!(copy.peek(&runner.actor).is_none());
    let entered = enter(&mut runner, &mut ids);
    finish(&mut runner, entered);
    assert!(matches!(copy.peek(&runner.actor), Some(TurnOutcome::Completed { .. })));
    runner.actor.close();
    assert!(matches!(runner.actor.peek(&ticket), Some(TurnOutcome::Completed { .. })));
    assert!(runner.actor.peek(&TurnTicket::new(turn(5))).is_none());
}

#[test]
fn a_cancelled_key_stays_cancelled_where_it_matched() {
    let (mut runner, mut ids) = runner();
    let mut backend = ScriptedBackend::default();
    let queued = admitted(&mut runner, 1, "queued", "k");
    runner.actor.cancel_correlation("k", TurnCancellationReason::User);
    assert_eq!(reason_of(&runner, &queued), TurnCancellationReason::User);
    let again = runner
        .actor
        .admit_turn(turn(2), input("again"), Some(20), "k".to_owned())
        .unwrap();
    assert_eq!(reason_of(&runner, &again), TurnCancellationReason::User);
    let deliveries = runner.actor.take_deliveries();
    assert_eq!(deliveries.len(), 1);
    assert_eq!(deliveries[0].sender, 20);
    runner.actor.rush(root("again", 3, false, "k")).unwrap();
    assert_eq!(runner.actor.snapshot().queued, 0);

    let running = admitted(&mut runner, 4, "running", "r8");
    let entered = enter(&mut runner, &mut ids);
    runner.actor.cancel_correlation("r8", TurnCancellationReason::User);
    finish_cancelled(&mut runner, entered);
    assert_eq!(reason_of(&runner, &running), TurnCancellationReason::User);
    runner.actor.push_compact(8, None).unwrap();
    runner.drain(&mut backend, &mut ids);
    assert_eq!(backend.compacts, 0);
}

#[test]
fn a_turn_that_is_answered_like_a_control_has_failed() {
    for answer in 0..3 {
        let (mut runner, mut ids) = runner();
        let ticket = runner
            .actor
            .admit_turn(turn(1), input("work"), Some(10), "w".to_owned())
            .unwrap();
        let entered = enter(&mut runner, &mut ids);
        let result = match answer {
            0 => BackendResult::ControlDone,
            1 => BackendResult::ControlFailed,
            _ => BackendResult::CompactDone,
        };
        runner.finish_turn(entered.admission, result);
        match ticket.peek(&runner.actor) {
            Some(TurnOutcome::Failed { num_turns, failure, .. }) => {
                assert_eq!(num_turns, 0);
                assert_eq!(failure.diagnostic, "actor setup failed");
            }
            other => panic!("expected a failed outcome, got {other:?}"),
        }
        let deliveries = runner.actor.take_deliveries();
        assert_eq!(deliveries.len(), 1);
        assert_eq!(deliveries[0].sender, 10);
        assert_eq!(runner.actor.snapshot().status, ActorStatus::Idle);
    }
}

#[test]
fn closing_tells_each_sink_once() {
    let (mut runner, _ids) = runner();
    for value in 1..4 {
        runner
            .actor
            .admit_turn(turn(value), input("queued"), Some(value as u64 * 10), format!("k{value}"))
            .unwrap();
    }
    runner.actor.cancel_correlation("unused", TurnCancellationReason::User);
    runner.actor.close();
    runner.actor.close();
    runner.actor.shutdown();
    let told: Vec<(u64, TurnOutcome)> = runner
        .actor
        .take_deliveries()
        .into_iter()
        .map(|delivery| (delivery.sender, delivery.outcome))
        .collect();
    assert_eq!(told.len(), 3);
    for (at, (sender, outcome)) in told.iter().enumerate() {
        assert_eq!(*sender, (at as u64 + 1) * 10);
        assert!(matches!(
            outcome,
            TurnOutcome::Cancelled { reason: TurnCancellationReason::Closed, .. }
        ));
    }
    assert_eq!(runner.actor.snapshot().lifecycle, ActorLifecycle::Closed);
}

#[test]
fn errors_have_sentences() {
    assert_eq!(ActorError::Closed.message(), "the actor is closed");
    assert_eq!(ActorError::Shutdown.message(), "the actor is shutting down");
    assert_eq!(
        ActorError::PolicyPending.message(),
        "policy update is pending; use async admission"
    );
    assert_eq!(ActorError::PolicyCancelled.message(), "policy update was cancelled");
    assert_eq!(
        ActorError::PolicyCeiling.message(),
        "child policy exceeds its inherited authority ceiling"
    );
    assert_eq!(ActorError::UnknownTurn(turn(1)).message(), "no such turn: ");
}
