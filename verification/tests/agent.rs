//! An agent's turn, from its input to its outcome.
use std::collections::VecDeque;

use makima::agent::events::{OutputKind, RunEvent, ToolDone, ToolLabel};
use makima::agent::isolated_turn::{
    isolated_messages, run_isolated_turn, IsolatedEnd, IsolatedTurnEvent,
};
use makima::agent::modes::{current_mode, restrict_write_to, ModeDef, ModeId};
use makima::agent::run::{
    estimate_message_tokens, filter_tools, request_tools, resolve_compaction_model, tool_cwd,
    Agent, Entry, RunConfig, RunEnd, RunError, RunStep, StopReason, StreamResponse, MAX_NUDGES,
    MAX_REAUTH_ATTEMPTS, RECENT_TOOL_WINDOW,
};
use makima::agent::streaming::{
    cancelled_stream, canonical_tool_name, canonicalize_tool_names, forward_provider_events,
    ProviderEvent, ProviderFailure, RetryDecision, StreamAttempts, StreamError,
};
use makima::agent::tool_calls::{
    collect_results, plan_calls, plan_hashed, tool_results, tool_uses, CallPlan, RecentCalls,
    ToolCall,
};
use makima::types::{
    AgentId, AgentInput, AgentMode, DoneReason, ImageMediaType, ImageSource, Message, MessageBlock,
    Role, ThinkingConfig, TokenUsage, TurnCancellationReason, TurnFailure, TurnFailureKind, TurnId,
    TurnOutcome,
};

const AGENT: AgentId = AgentId { value: 1 };
const TURN: TurnId = TurnId { value: 2 };
const CANCELLED_TEXT_NOTE: &str = "[Response cut off by user cancel]";
const DOOM_LOOP_MESSAGE: &str = "You have called this tool with identical input 3 times in a row. \
    You are stuck in a loop. Break out and try a different approach.";

fn text(text: &str) -> MessageBlock {
    MessageBlock::Text { text: text.to_owned() }
}

fn tool_use(id: &str, name: &str, input: &str) -> MessageBlock {
    MessageBlock::ToolUse { id: id.to_owned(), name: name.to_owned(), input: input.to_owned() }
}

fn assistant(content: Vec<MessageBlock>) -> Message {
    Message { role: Role::Assistant, content, display_text: None }
}

fn user(message: &str) -> Message {
    Message::user_with_images(message.to_owned(), vec![])
}

fn response(content: Vec<MessageBlock>, stop: StopReason) -> StreamResponse {
    StreamResponse {
        message: assistant(content),
        usage: TokenUsage::default(),
        stop_reason: Some(stop),
    }
}

fn text_response(stop: StopReason) -> StreamResponse {
    response(vec![text("response")], stop)
}

fn empty_response() -> StreamResponse {
    response(vec![], StopReason::EndTurn)
}

fn thinking_response() -> StreamResponse {
    response(
        vec![MessageBlock::Thinking { thinking: "stalled".to_owned() }],
        StopReason::EndTurn,
    )
}

fn tool_call_response(name: &str, id: &str) -> StreamResponse {
    response(
        vec![tool_use(id, name, "{\"pattern\":\"*.nonexistent_test_xyz\",\"path\":\"/tmp\"}")],
        StopReason::ToolUse,
    )
}

fn config() -> RunConfig {
    RunConfig { max_turns: None, max_continuation_turns: 3, auto_compact: true }
}

fn default_input() -> AgentInput {
    AgentInput {
        message: "hello".to_owned(),
        mode: AgentMode::Build,
        images: vec![],
        preamble: vec![],
        thinking: ThinkingConfig::Off,
        fast: false,
        workflow: false,
        prompt: None,
        batch_key: Some(0),
    }
}

fn failure(message: &str) -> ProviderFailure {
    ProviderFailure { message: message.to_owned(), is_auth: false }
}

/// What the provider, the queue and the tools do.
#[derive(Default)]
struct Script {
    replies: VecDeque<Result<StreamResponse, StreamError>>,
    queue: VecDeque<Queued>,
    mailbox: Vec<Message>,
    cancelled: bool,
    overflow: bool,
    answers_auth: bool,
}

enum Queued {
    Input(AgentInput),
    Compact,
}

fn replies(responses: Vec<StreamResponse>) -> Script {
    Script { replies: responses.into_iter().map(Ok).collect(), ..Script::default() }
}

/// How often in a row the model has been nudged.
fn recent_nudges(history: &[Entry]) -> u32 {
    let mut nudges = 0;
    for entry in history.iter().rev() {
        match entry {
            Entry::EmptyMarker => {}
            Entry::Synthetic(_) => nudges += 1,
            _ => break,
        }
    }
    nudges
}

/// Whether a message of late holds tool results.
fn has_recent_tool_results(history: &[Entry]) -> bool {
    history
        .iter()
        .rev()
        .filter_map(|entry| match entry {
            Entry::Message(message) => Some(message),
            _ => None,
        })
        .take(RECENT_TOOL_WINDOW)
        .any(|message| {
            message.content.iter().any(|b| matches!(b, MessageBlock::ToolResult { .. }))
        })
}

struct Trace {
    events: Vec<RunEvent>,
    done: Vec<ToolDone>,
    requests: usize,
}

fn drive(
    agent: &mut Agent,
    mut step: RunStep,
    script: &mut Script,
    trace: &mut Trace,
) -> Result<DoneReason, RunError> {
    let mut recent = RecentCalls::new();
    loop {
        step = match step {
            RunStep::Again => agent.next_request(script.cancelled),
            RunStep::Stream => {
                trace.requests += 1;
                match script.replies.pop_front().expect("no more replies") {
                    Ok(response) => {
                        let nudges = recent_nudges(&agent.history);
                        let had_tools = has_recent_tool_results(&agent.history);
                        agent.responded(response, true, nudges, had_tools)
                    }
                    Err(error) => agent.stream_failed(error, true),
                }
            }
            RunStep::ReportAuth => {
                trace.events.push(RunEvent::AuthRequired);
                agent.auth_reported(true)
            }
            RunStep::AwaitAuth => agent.auth_awaited(script.answers_auth, Ok(())),
            RunStep::RunTools(message) => {
                let plan: CallPlan = plan_calls(&mut recent, &message);
                let ended = plan
                    .runnable
                    .iter()
                    .map(|call| {
                        Ok(ToolDone::prose(
                            call.id.clone(),
                            ToolLabel::Unknown,
                            OutputKind::Plain,
                            format!("unknown tool: {}", call.name),
                            true,
                        ))
                    })
                    .collect();
                let results = collect_results(plan, ended);
                let answer = tool_results(&results);
                trace.done.extend(results);
                agent.tools_done(vec![message, answer])
            }
            RunStep::ReportNudge => {
                trace.events.push(RunEvent::Nudge);
                agent.nudged(true)
            }
            RunStep::CheckCompaction => {
                let overflow = script.overflow;
                script.overflow = false;
                agent.try_auto_compact(overflow)
            }
            RunStep::ReportCompacting => {
                trace.events.push(RunEvent::AutoCompacting);
                agent.compacting_reported(true)
            }
            RunStep::Compact => agent.compacted(
                vec![Entry::Message(user("summary"))],
                TokenUsage { input: 5, output: 1, cache_creation: 0, cache_read: 0 },
            ),
            RunStep::ReportCompacted => {
                trace.events.push(RunEvent::CompactionDone);
                agent.compaction_reported(true, "go on".to_owned())
            }
            RunStep::PollQueue => match script.queue.pop_front() {
                Some(Queued::Input(input)) => {
                    trace.events.push(RunEvent::QueueItemConsumed {
                        text: input.message.clone(),
                        image_count: input.images.len(),
                    });
                    let mailbox = std::mem::take(&mut script.mailbox);
                    agent.interrupted(input, mailbox, true)
                }
                Some(Queued::Compact) => RunStep::Compact,
                None => agent.queue_empty(),
            },
            RunStep::Finished(result) => return result,
        };
    }
}

fn run(agent: &mut Agent, input: AgentInput, script: &mut Script) -> (TurnOutcome, Trace) {
    let mut trace = Trace { events: vec![], done: vec![], requests: 0 };
    let mailbox = std::mem::take(&mut script.mailbox);
    let step = agent.begin(input, mailbox);
    let end = match drive(agent, step, script, &mut trace) {
        Ok(reason) => RunEnd::Completed(reason),
        Err(RunError::Cancelled) => RunEnd::Cancelled,
        Err(RunError::Provider(failure)) => RunEnd::Failed(TurnFailure {
            kind: TurnFailureKind::Provider,
            diagnostic: failure.message.clone(),
            user_message: failure.message,
            retryable: false,
        }),
        Err(RunError::Undelivered) => RunEnd::Failed(TurnFailure {
            kind: TurnFailureKind::Internal,
            diagnostic: "undelivered".to_owned(),
            user_message: "undelivered".to_owned(),
            retryable: false,
        }),
    };
    (agent.outcome(TURN, end), trace)
}

fn texts(history: &[Entry]) -> Vec<String> {
    history
        .iter()
        .map(|entry| match entry {
            Entry::Message(message) => message.first_text_content().unwrap_or("").to_owned(),
            Entry::EmptyMarker => "<empty>".to_owned(),
            Entry::Synthetic(text) => text.clone(),
            Entry::Interrupt { display, .. } => display.clone(),
        })
        .collect()
}

#[test]
fn run_ingests_preamble_then_mailbox_then_user_message() {
    let mut agent = Agent::new(AGENT, config(), vec![]);
    let mut input = default_input();
    input.preamble = vec![user("preamble")];
    let mut script = replies(vec![text_response(StopReason::EndTurn)]);
    script.mailbox = vec![user("mailbox")];
    run(&mut agent, input, &mut script);
    assert_eq!(texts(&agent.history)[..3], ["preamble", "mailbox", "hello"]);
}

#[test]
fn queued_input_drains_preamble_and_mailbox() {
    let mut agent = Agent::new(AGENT, config(), vec![]);
    let mut input = default_input();
    input.preamble = vec![user("preamble")];
    assert_eq!(agent.interrupted(input, vec![user("mailbox")], true), RunStep::Again);
    assert_eq!(texts(&agent.history), ["preamble", "mailbox", "hello"]);
    assert_eq!(
        agent.history[2],
        Entry::Interrupt {
            text: "<user-interrupt>\nThe user sent a new message while you were working. Address \
                   it and continue.\n\nhello\n</user-interrupt>"
                .to_owned(),
            display: "hello".to_owned(),
        }
    );
    let before = agent.history.len();
    assert_eq!(
        agent.interrupted(default_input(), vec![], false),
        RunStep::Finished(Err(RunError::Undelivered))
    );
    assert_eq!(agent.history.len(), before);
}

#[test]
fn wake_only_run_does_not_insert_an_empty_user_turn() {
    let mut agent = Agent::new(AGENT, config(), vec![]);
    let mut input = default_input();
    input.message.clear();
    let mut script = replies(vec![text_response(StopReason::EndTurn)]);
    script.mailbox = vec![user("failed")];
    run(&mut agent, input, &mut script);
    assert_eq!(agent.history.len(), 2);
    assert_eq!(texts(&agent.history), ["failed", "response"]);
    assert!(matches!(&agent.history[1], Entry::Message(m) if m.role == Role::Assistant));
}

#[test]
fn an_input_of_white_space_and_an_image_is_said() {
    let mut agent = Agent::new(AGENT, config(), vec![]);
    let mut input = default_input();
    input.message = " \n\t".to_owned();
    agent.begin(input, vec![]);
    assert!(agent.history.is_empty());

    let mut input = default_input();
    input.message = "  ".to_owned();
    input.images =
        vec![ImageSource { media_type: ImageMediaType::Png, data: "QQ==".to_owned() }];
    agent.begin(input, vec![]);
    assert_eq!(agent.history.len(), 1);
}

#[test]
fn run_emits_same_completed_outcome_once() {
    let mut agent = Agent::new(AGENT, config(), vec![]);
    let mut script = replies(vec![text_response(StopReason::EndTurn)]);
    let (outcome, _) = run(&mut agent, default_input(), &mut script);
    assert_eq!(
        outcome,
        TurnOutcome::Completed {
            agent_id: AGENT,
            turn_id: TURN,
            usage: TokenUsage::default(),
            num_turns: 1,
            reason: DoneReason::EndTurn,
        }
    );
    assert_eq!(outcome.turn_id(), TURN);
}

#[test]
fn terminal_delivery_failure_does_not_change_outcome() {
    let (sink, events) = std::sync::mpsc::sync_channel(1);
    sink.try_send(None).expect("the channel has room for one event");
    let mut agent = Agent::new(AGENT, config(), vec![]);
    let mut script = replies(vec![text_response(StopReason::EndTurn)]);
    let (outcome, _) = run(&mut agent, default_input(), &mut script);
    assert!(sink.try_send(Some(outcome.clone())).is_err(), "the full channel rejects the outcome");

    assert!(matches!(outcome, TurnOutcome::Completed { .. }));
    assert_eq!(outcome.turn_id(), TURN);
    assert_eq!(outcome.num_turns(), 1);
    assert_eq!(agent.outcome(TURN, RunEnd::Completed(DoneReason::EndTurn)), outcome);
    assert_eq!(
        events.try_iter().filter(|event| event.is_some()).count(),
        0,
        "terminal delivery must not be retried after the full channel rejects it"
    );
}

#[test]
fn run_emits_same_failed_outcome_once() {
    let mut agent = Agent::new(AGENT, config(), vec![]);
    let mut script = Script::default();
    script.replies.push_back(Err(StreamError::Other(failure("stub"))));
    let (outcome, trace) = run(&mut agent, default_input(), &mut script);
    assert!(matches!(outcome, TurnOutcome::Failed { .. }));
    assert_eq!(trace.requests, 1);
}

#[test]
fn reused_agent_fails_then_succeeds() {
    let mut agent = Agent::new(AGENT, config(), vec![]);
    let mut script = Script::default();
    script.replies.push_back(Err(StreamError::Other(failure("bad request"))));
    script.replies.push_back(Ok(text_response(StopReason::EndTurn)));
    let (failed, _) = run(&mut agent, default_input(), &mut script);
    let (completed, _) = run(&mut agent, default_input(), &mut script);
    assert!(matches!(failed, TurnOutcome::Failed { num_turns: 0, .. }));
    assert!(matches!(completed, TurnOutcome::Completed { num_turns: 1, .. }));
}

#[test]
fn reused_agent_reports_per_turn_usage_and_turn_count() {
    let mut first = text_response(StopReason::EndTurn);
    first.usage.input = 11;
    let mut second = text_response(StopReason::EndTurn);
    second.usage.input = 22;
    let mut agent = Agent::new(AGENT, config(), vec![]);
    let mut script = replies(vec![first, second]);
    let (first, _) = run(&mut agent, default_input(), &mut script);
    let (second, _) = run(&mut agent, default_input(), &mut script);
    assert_eq!(first.usage().input, 11);
    assert_eq!(second.usage().input, 22);
    assert_eq!(first.num_turns(), 1);
    assert_eq!(second.num_turns(), 1);
}

#[test]
fn a_reply_that_cannot_be_reported_ends_the_turn() {
    let mut agent = Agent::new(AGENT, config(), vec![]);
    agent.begin(default_input(), vec![]);
    let mut reply = text_response(StopReason::EndTurn);
    reply.usage.input = 9;
    let step = agent.responded(reply, false, 0, false);
    assert_eq!(step, RunStep::Finished(Err(RunError::Undelivered)));
    assert_eq!((agent.num_turns, agent.total_usage.input), (1, 0));
    assert_eq!(agent.nudged(false), RunStep::Finished(Err(RunError::Undelivered)));
    assert_eq!(agent.auth_reported(false), RunStep::Finished(Err(RunError::Undelivered)));
    assert_eq!(agent.compacting_reported(false), RunStep::Finished(Err(RunError::Undelivered)));
    assert_eq!(
        agent.compaction_reported(false, String::new()),
        RunStep::Finished(Err(RunError::Undelivered))
    );
}

#[test]
fn turn_counting() {
    let (end, max) = (StopReason::EndTurn, StopReason::MaxTokens);
    let cases: [(&[StopReason], Option<u32>, u32, DoneReason); 4] = [
        (&[end], None, 1, DoneReason::EndTurn),
        (&[max, end], None, 2, DoneReason::EndTurn),
        (&[max; 4], None, 4, DoneReason::MaxTokens),
        (&[max, end], Some(1), 1, DoneReason::MaxTurns),
    ];
    for (stops, max_turns, expected_turns, expected_reason) in cases {
        let mut agent = Agent::new(AGENT, RunConfig { max_turns, ..config() }, vec![]);
        let mut script = replies(stops.iter().map(|stop| text_response(*stop)).collect());
        let (outcome, _) = run(&mut agent, default_input(), &mut script);
        assert!(
            matches!(outcome, TurnOutcome::Completed { num_turns, reason, .. }
                if num_turns == expected_turns && reason == expected_reason)
        );
    }
}

#[test]
fn interrupt_handling() {
    let cases = [(Some(true), true), (Some(false), true), (None, false)];
    for (queued, expected) in cases {
        let first = if queued.unwrap_or(true) {
            tool_call_response("glob", "t1")
        } else {
            text_response(StopReason::EndTurn)
        };
        let mut agent = Agent::new(AGENT, config(), vec![]);
        let mut script = replies(vec![first, text_response(StopReason::EndTurn)]);
        if queued.is_some() {
            script.queue.push_back(Queued::Input(default_input()));
        }
        let (_, trace) = run(&mut agent, default_input(), &mut script);
        let consumed =
            trace.events.iter().any(|e| matches!(e, RunEvent::QueueItemConsumed { .. }));
        assert_eq!(consumed, expected);
        let injected = agent.history.iter().any(
            |e| matches!(e, Entry::Interrupt { text, .. } if text.contains("<user-interrupt>")),
        );
        assert_eq!(injected, expected);
    }
}

#[test]
fn compaction_through_interrupt() {
    let prior = (0..10).map(|i| Entry::Message(user(&format!("msg {i}")))).collect();
    let mut agent = Agent::new(AGENT, config(), prior);
    let mut script =
        replies(vec![tool_call_response("glob", "t1"), text_response(StopReason::EndTurn)]);
    script.queue.push_back(Queued::Compact);
    let (outcome, trace) = run(&mut agent, default_input(), &mut script);
    assert!(matches!(outcome, TurnOutcome::Completed { .. }));
    assert_eq!(trace.events, vec![RunEvent::CompactionDone]);
    assert_eq!(texts(&agent.history), ["summary", "go on", "response"]);
    assert_eq!(agent.rollback_len, 1);
    assert_eq!(outcome.usage().input, 5);
}

#[test]
fn try_auto_compact_behavior() {
    for (enabled, overflow, expected) in
        [(true, true, true), (true, false, false), (false, true, false)]
    {
        let go = vec![Entry::Message(user("go"))];
        let agent = Agent::new(AGENT, RunConfig { auto_compact: enabled, ..config() }, go);
        let step = agent.try_auto_compact(overflow);
        assert_eq!(step == RunStep::ReportCompacting, expected);
        assert_eq!(step == RunStep::PollQueue, !expected);
    }
}

#[test]
fn a_conversation_that_is_too_long_is_compacted() {
    let mut agent = Agent::new(AGENT, config(), vec![]);
    let mut script =
        replies(vec![text_response(StopReason::EndTurn), text_response(StopReason::EndTurn)]);
    script.overflow = true;
    let (outcome, trace) = run(&mut agent, default_input(), &mut script);
    assert_eq!(trace.events, vec![RunEvent::AutoCompacting, RunEvent::CompactionDone]);
    assert_eq!(outcome.num_turns(), 2);
    assert_eq!(texts(&agent.history), ["summary", "go on", "response"]);
}

#[test]
fn do_compact_appends_post_instructions_to_continue_message() {
    const POST: &str = "Re-read plan.md";
    let mut agent = Agent::new(AGENT, config(), vec![Entry::Message(user("go"))]);
    let step = agent.compacted(vec![Entry::Message(user("summary"))], TokenUsage::default());
    assert_eq!(step, RunStep::ReportCompacted);
    assert_eq!(agent.compaction_reported(true, format!("Continue.\n\n{POST}")), RunStep::Again);
    assert!(matches!(
        agent.history.last(),
        Some(Entry::Synthetic(text)) if text.ends_with(POST) && text != POST
    ));
}

#[test]
fn cancel_token_aborts_during_api_call() {
    let mut agent = Agent::new(AGENT, config(), vec![]);
    let mut script = Script { cancelled: true, ..Script::default() };
    let (outcome, trace) = run(&mut agent, default_input(), &mut script);
    assert!(matches!(
        &outcome,
        TurnOutcome::Cancelled { turn_id, reason: TurnCancellationReason::User, .. }
            if *turn_id == outcome.turn_id()
    ));
    assert_eq!(trace.requests, 0);
}

#[test]
fn cancel_mid_stream_keeps_partial_text_in_history() {
    const PARTIAL: &str = "partial answer";
    let mut agent = Agent::new(AGENT, config(), vec![]);
    let mut script = Script::default();
    let streamed = format!("{PARTIAL} \n");
    script.replies.push_back(Err(cancelled_stream(streamed, false)));
    let (outcome, _) = run(&mut agent, default_input(), &mut script);
    assert!(matches!(outcome, TurnOutcome::Cancelled { .. }));
    let expected = format!("{PARTIAL}\n\n{CANCELLED_TEXT_NOTE}");
    assert_eq!(
        agent.history.last(),
        Some(&Entry::Message(assistant(vec![text(&expected)])))
    );
}

#[test]
fn cancel_during_retry_backoff_discards_failed_attempt_text() {
    const PARTIAL: &str = "doomed attempt";
    let mut agent = Agent::new(AGENT, config(), vec![]);
    let mut script = Script::default();
    script.replies.push_back(Err(cancelled_stream(PARTIAL.to_owned(), true)));
    let (outcome, _) = run(&mut agent, default_input(), &mut script);
    assert!(matches!(outcome, TurnOutcome::Cancelled { .. }));
    assert!(texts(&agent.history).iter().all(|text| !text.contains(PARTIAL)));
    assert_eq!(agent.history.len(), 1);
}

#[test]
fn error_emits_tool_done_event() {
    let cases = [
        (vec![tool_call_response("nonexistent_tool_xyz", "t1")], "t1"),
        (
            vec![
                tool_call_response("glob", "t1"),
                tool_call_response("glob", "t2"),
                tool_call_response("glob", "t3"),
            ],
            "t3",
        ),
    ];
    for (mut responses, expected) in cases {
        responses.push(text_response(StopReason::EndTurn));
        let mut agent = Agent::new(AGENT, config(), vec![]);
        let (_, trace) = run(&mut agent, default_input(), &mut replies(responses));
        assert!(trace.done.iter().any(|done| done.is_error && done.id == expected));
        if expected == "t3" {
            assert_eq!(trace.done.last().unwrap().output.text, DOOM_LOOP_MESSAGE);
        }
    }
}

#[test]
fn nudge_behavior() {
    let mut stalled = vec![tool_call_response("glob", "t1"), thinking_response()];
    stalled.extend((0..MAX_NUDGES).map(|_| empty_response()));
    let cases = [
        (
            vec![
                tool_call_response("glob", "t1"),
                empty_response(),
                text_response(StopReason::EndTurn),
            ],
            3,
            1,
        ),
        (stalled, MAX_NUDGES + 2, MAX_NUDGES as usize),
        (vec![tool_call_response("glob", "t1"), text_response(StopReason::EndTurn)], 2, 0),
        (vec![empty_response(), text_response(StopReason::EndTurn)], 1, 0),
    ];
    for (responses, expected_turns, expected_nudges) in cases {
        let mut agent = Agent::new(AGENT, config(), vec![]);
        let (outcome, trace) = run(&mut agent, default_input(), &mut replies(responses));
        let nudges = trace.events.iter().filter(|e| **e == RunEvent::Nudge).count();
        assert_eq!(nudges, expected_nudges);
        assert_eq!(outcome.num_turns(), expected_turns);
        assert!(agent.history.iter().all(|entry| match entry {
            Entry::Message(message) =>
                message.content.iter().any(|b| !matches!(b, MessageBlock::Thinking { .. })),
            _ => true,
        }));
    }
}

#[test]
fn nudge_budget_resets_on_new_run() {
    let mut responses = vec![tool_call_response("glob", "t1")];
    responses.extend((0..=MAX_NUDGES).map(|_| empty_response()));
    responses.extend([empty_response(), text_response(StopReason::EndTurn)]);
    let mut agent = Agent::new(AGENT, config(), vec![]);
    let mut script = replies(responses);
    let (_, first) = run(&mut agent, default_input(), &mut script);
    let (_, second) = run(&mut agent, default_input(), &mut script);
    let nudges = |trace: &Trace| trace.events.iter().filter(|e| **e == RunEvent::Nudge).count();
    assert_eq!(nudges(&first) + nudges(&second), MAX_NUDGES as usize + 1);
    assert_eq!(MAX_NUDGES, 20);
}

#[test]
fn authentication_is_asked_for_twice_in_a_row() {
    let rejected = || {
        Err(StreamError::Other(ProviderFailure { message: "401".to_owned(), is_auth: true }))
    };
    let mut agent = Agent::new(AGENT, config(), vec![]);
    let mut script = Script { answers_auth: true, ..Script::default() };
    script.replies.extend([rejected(), rejected(), rejected()]);
    let (outcome, trace) = run(&mut agent, default_input(), &mut script);
    assert!(matches!(outcome, TurnOutcome::Failed { .. }));
    assert_eq!(trace.events.len(), MAX_REAUTH_ATTEMPTS as usize);

    let mut script = Script::default();
    script.replies.push_back(rejected());
    let (outcome, _) = run(&mut agent, default_input(), &mut script);
    assert!(matches!(outcome, TurnOutcome::Cancelled { .. }));

    let mut agent = Agent::new(AGENT, config(), vec![]);
    agent.begin(default_input(), vec![]);
    let Err(error) = rejected() else { unreachable!() };
    assert!(matches!(
        agent.stream_failed(error, false),
        RunStep::Finished(Err(RunError::Provider(_)))
    ));
    assert_eq!(
        agent.auth_awaited(true, Err(failure("refresh"))),
        RunStep::Finished(Err(RunError::Provider(failure("refresh"))))
    );
}

#[test]
fn message_tokens_are_a_quarter_of_the_bytes() {
    assert_eq!(estimate_message_tokens(&vec![]), 0);
    assert_eq!(estimate_message_tokens(&vec![user("a")]), 1);
    assert_eq!(estimate_message_tokens(&vec![user("12345678"), user("1234567")]), 3);
    assert_eq!(estimate_message_tokens(&vec![user("ééé")]), 1);
    let message = assistant(vec![
        MessageBlock::Thinking { thinking: "1234".to_owned() },
        tool_use("t", "x", "{\"a\":1}"),
        MessageBlock::Image {
            source: ImageSource { media_type: ImageMediaType::Gif, data: "12345678".to_owned() },
        },
    ]);
    assert_eq!(estimate_message_tokens(&vec![message]), 2);
}

fn names(tools: &serde_json::Value) -> Vec<String> {
    tools
        .as_array()
        .unwrap()
        .iter()
        .filter_map(|d| d["name"].as_str().map(str::to_owned))
        .collect()
}

fn json(text: &str) -> serde_json::Value {
    serde_json::from_str(text).unwrap()
}

#[test]
fn filter_tools_keeps_only_allowed_names() {
    let all = json(
        "[{\"name\":\"read\",\"description\":\"r\"},{\"name\":\"write\",\"description\":\"w\"},\
         {\"name\":\"grep\",\"description\":\"g\"},{\"name\":7},3]",
    );
    let filtered = filter_tools(&all, &vec!["read".to_owned(), "grep".to_owned()]);
    assert_eq!(names(&filtered), ["read", "grep"]);
    assert_eq!(filtered.as_array().unwrap().len(), 2);
    assert_eq!(filtered[0]["description"].as_str(), Some("r"));
}

#[test]
fn filter_tools_non_array_passes_through() {
    let all = json("{\"name\":\"read\"}");
    assert_eq!(filter_tools(&all, &vec!["write".to_owned()]), all);
}

fn builtin_modes() -> Vec<ModeDef> {
    vec![
        ModeDef { id: ModeId::Build, label: "Build".to_owned(), tools: None },
        ModeDef { id: ModeId::Plan, label: "Plan".to_owned(), tools: None },
    ]
}

#[test]
fn mode_tools_swaps_requested_toolset() {
    let mut modes = builtin_modes();
    modes.push(ModeDef {
        id: ModeId::Custom("audit".to_owned()),
        label: "Audit".to_owned(),
        tools: Some(vec!["read".to_owned(), "grep".to_owned()]),
    });
    let all =
        json("[{\"name\":\"read\"},{\"name\":\"write\"},{\"name\":\"grep\"},{\"name\":\"task\"}]");
    let audit = AgentMode::Custom("audit".to_owned());
    assert_eq!(names(&request_tools(&all, &modes, &audit)), ["read", "grep"]);
    assert_eq!(request_tools(&all, &modes, &AgentMode::Build), all);
}

#[test]
fn build_mode_inherits_full_toolset() {
    let modes = builtin_modes();
    let def = current_mode(&modes, &AgentMode::Build).expect("build is there");
    assert!(def.tools.is_none());
    assert_eq!(restrict_write_to(&AgentMode::Build), None);
    assert_eq!(def.id, ModeId::Build);
    let plan = AgentMode::Plan("/p.md".to_owned());
    assert_eq!(restrict_write_to(&plan).map(String::as_str), Some("/p.md"));
    assert_eq!(current_mode(&modes, &AgentMode::Custom("x".to_owned())), None);
}

#[test]
fn compaction_has_its_own_model_where_there_is_one() {
    let spec = || Some("small".to_owned());
    assert_eq!(resolve_compaction_model(spec(), true, true, true), spec());
    assert_eq!(resolve_compaction_model(spec(), false, true, true), None);
    assert_eq!(resolve_compaction_model(spec(), true, false, true), None);
    assert_eq!(resolve_compaction_model(spec(), true, true, false), None);
    assert_eq!(resolve_compaction_model(None, true, true, true), None);
}

#[test]
fn tools_work_in_the_sessions_directory() {
    assert_eq!(tool_cwd(Some("/s"), Some("/p")), "/s");
    assert_eq!(tool_cwd(None, Some("/p")), "/p");
    assert_eq!(tool_cwd(None, None), ".");
}

#[test]
fn tool_use_names_canonicalized() {
    let mut message = assistant(vec![
        text("hi"),
        tool_use("t1", "functions.bash", "{}"),
        tool_use("t2", "read", "{}"),
        tool_use("t3", "my_functions.x", "{}"),
    ]);
    canonicalize_tool_names(&mut message);
    let names: Vec<String> = tool_uses(&message).into_iter().map(|call| call.name).collect();
    assert_eq!(names, ["bash", "read", "my_functions.x"]);
    assert_eq!(message.first_text_content(), Some("hi"));
    assert_eq!(canonical_tool_name("functions."), "");
}

#[test]
fn forward_provider_events_maps_thinking_block_end() {
    let sent = vec![
        ProviderEvent::ThinkingDelta { text: "a".to_owned() },
        ProviderEvent::ThinkingBlockEnd,
        ProviderEvent::ThinkingDelta { text: "b".to_owned() },
    ];
    let (events, streamed) = forward_provider_events(sent, usize::MAX);
    assert_eq!(
        events,
        vec![
            RunEvent::ThinkingDelta { text: "a".to_owned() },
            RunEvent::ThinkingBlockEnd,
            RunEvent::ThinkingDelta { text: "b".to_owned() },
        ]
    );
    assert_eq!(streamed, "");
}

#[test]
fn forwarded_text_is_collected() {
    let sent = vec![
        ProviderEvent::TextDelta { text: "par".to_owned() },
        ProviderEvent::ToolUseStart { id: "t".to_owned(), name: "functions.read".to_owned() },
        ProviderEvent::PromptProgress { processed: 1, total: 2, cache: 3 },
        ProviderEvent::TextDelta { text: "tial".to_owned() },
    ];
    let (events, streamed) = forward_provider_events(sent, 4);
    assert_eq!(events.len(), 4);
    assert_eq!(streamed, "partial");
    assert_eq!(
        events[1],
        RunEvent::ToolPending { id: "t".to_owned(), name: "read".to_owned() }
    );
    assert_eq!(events[2], RunEvent::PromptProgress { processed: 1, total: 2, cache: 3 });
}

#[test]
fn forwarding_stops_at_the_first_event_that_is_not_taken() {
    let sent = || {
        ["a", "b", "c", "d"]
            .into_iter()
            .map(|text| ProviderEvent::TextDelta { text: text.to_owned() })
            .collect::<Vec<ProviderEvent>>()
    };
    let (events, streamed) = forward_provider_events(sent(), 1);
    assert_eq!(events.len(), 2);
    assert_eq!(streamed, "ab");
    let (events, streamed) = forward_provider_events(sent(), 0);
    assert_eq!(events, vec![RunEvent::TextDelta { text: "a".to_owned() }]);
    assert_eq!(streamed, "a");
    assert_eq!(forward_provider_events(vec![], 0), (vec![], String::new()));
}

const POOL_KEYS: [&str; 3] = ["sk-first", "sk-second", "sk-third"];

/// Sends a request to a server that accepts at most one key, with no retries to spend.
fn send_pooled(keys: usize, accepted: Option<&str>) -> (bool, Vec<String>) {
    let mut attempts = StreamAttempts::new(keys as u32);
    let mut current = 0;
    let mut seen = vec![];
    loop {
        seen.push(POOL_KEYS[current].to_owned());
        if accepted == Some(POOL_KEYS[current]) {
            return (true, seen);
        }
        let rotated = attempts.book_rotation(true) && current + 1 < keys;
        if rotated {
            current += 1;
        }
        match attempts.failed(rotated, true, None) {
            RetryDecision::GiveUp => return (false, seen),
            RetryDecision::Retry { attempt, delay_ms } => {
                assert_eq!(attempt as usize, seen.len());
                assert_eq!(delay_ms, 0);
            }
        }
    }
}

#[test]
fn a_fresh_key_is_tried_without_spending_the_retry_budget() {
    let (answered, seen) = send_pooled(3, Some(POOL_KEYS[2]));
    assert!(answered);
    assert_eq!(seen, POOL_KEYS);
}

#[test]
fn a_spent_pool_is_walked_once_and_then_gives_up() {
    for keys in [3, 3, 3, 1] {
        let (answered, seen) = send_pooled(keys, None);
        assert!(!answered);
        assert_eq!(seen.len(), keys);
    }
}

#[test]
fn failures_that_pass_are_tried_again_after_their_delay() {
    let mut attempts = StreamAttempts::new(1);
    assert!(!attempts.book_rotation(true));
    assert_eq!(
        attempts.failed(false, true, Some(250)),
        RetryDecision::Retry { attempt: 1, delay_ms: 250 }
    );
    assert_eq!(attempts.failed(false, true, None), RetryDecision::GiveUp);
    assert_eq!(attempts.failed(false, false, Some(1)), RetryDecision::GiveUp);
    assert_eq!(attempts.attempt, 3);
}

fn side_question(end: IsolatedEnd, events: Vec<ProviderEvent>) -> Vec<IsolatedTurnEvent> {
    run_isolated_turn(events, end)
}

#[test]
fn isolated_turn_preserves_primary_history_on_failure() {
    let events = side_question(IsolatedEnd::Failed("provider failed".to_owned()), vec![]);
    assert!(matches!(events.last(), Some(IsolatedTurnEvent::Error(_))));
}

#[test]
fn isolated_turn_preserves_primary_history_on_cancel() {
    let events = side_question(IsolatedEnd::Cancelled, vec![]);
    assert_eq!(events.last(), Some(&IsolatedTurnEvent::Cancelled));
}

#[test]
fn isolated_turn_uses_copy_and_empty_tools() {
    let messages = isolated_messages(vec![user("primary")], "why?", vec![]);
    assert_eq!(messages.len(), 2);
    assert_eq!(messages[0], user("primary"));
    let question = messages[1].user_text().unwrap();
    assert!(question.starts_with("<system-reminder>\nThis is a side question."));
    assert!(question.ends_with("</system-reminder>\n\nwhy?"));
    let events = side_question(
        IsolatedEnd::Answered,
        vec![
            ProviderEvent::ThinkingDelta { text: "hm".to_owned() },
            ProviderEvent::PromptProgress { processed: 1, total: 1, cache: 0 },
            ProviderEvent::TextDelta { text: "answer".to_owned() },
        ],
    );
    assert_eq!(
        events,
        vec![
            IsolatedTurnEvent::ThinkingDelta("hm".to_owned()),
            IsolatedTurnEvent::TextDelta("answer".to_owned()),
            IsolatedTurnEvent::Done,
        ]
    );
}

#[test]
fn doom_loop_detection() {
    let cases: [(&str, &[(&str, &str)], bool); 5] = [
        ("read", &[("read", "/a"), ("read", "/a")], true),
        ("read", &[("read", "/a")], false),
        ("read", &[("read", "/a"), ("read", "/b")], false),
        ("grep", &[("glob", "/a"), ("glob", "/a")], false),
        ("bash", &[("bash", "/a"), ("bash", "/b"), ("bash", "/a")], false),
    ];
    for (name, history, expected) in cases {
        let mut recent = RecentCalls::new();
        for (name, path) in history {
            recent.record(name, &format!("{{\"path\":\"{path}\"}}"));
        }
        assert_eq!(recent.is_doom_loop(name, "{\"path\":\"/a\"}"), expected);
    }
}

#[test]
fn a_call_is_refused_until_another_comes_between() {
    let call = |id: &str, hash: u64| {
        (ToolCall { id: id.to_owned(), name: "x".to_owned(), input: "{}".to_owned() }, hash)
    };
    let calls = [call("1", 5), call("2", 5), call("3", 5), call("4", 6), call("5", 5)];
    let mut recent = RecentCalls::new();
    let (calls, hashes): (Vec<ToolCall>, Vec<u64>) = calls.into_iter().unzip();
    let plan = plan_hashed(&mut recent, &calls, &hashes);
    let runnable: Vec<&str> = plan.runnable.iter().map(|call| call.id.as_str()).collect();
    assert_eq!(runnable, ["1", "2", "4", "5"]);
    assert_eq!(plan.errors.len(), 1);
    assert_eq!(plan.errors[0].id, "3");
    assert_eq!(plan.errors[0].output.text, DOOM_LOOP_MESSAGE);
    assert!(recent.is_repeat("x", 5) || !recent.is_repeat("x", 6));
}

#[test]
fn results_come_in_the_order_of_their_calls_with_refusals_last() {
    let message = assistant(vec![
        tool_use("a", "x", "{}"),
        tool_use("b", "x", "{}"),
        tool_use("c", "x", "{}"),
        tool_use("d", "y", "{}"),
    ]);
    let mut recent = RecentCalls::new();
    let plan = plan_calls(&mut recent, &message);
    assert_eq!(plan.runnable.len(), 3);
    let done = |id: &str, text: &str| {
        ToolDone::prose(
            id.to_owned(),
            ToolLabel::Named("x".to_owned()),
            OutputKind::Plain,
            text.to_owned(),
            false,
        )
    };
    let ended = vec![Ok(done("a", "one")), Err("boom".to_owned()), Ok(done("d", "three"))];
    let results = collect_results(plan, ended);
    let ids: Vec<&str> = results.iter().map(|done| done.id.as_str()).collect();
    assert_eq!(ids, ["a", "b", "d", "c"]);
    assert_eq!(results[1].output.text, "internal error: tool panicked: boom");
    let message = tool_results(&results);
    assert_eq!(message.role, Role::User);
    assert_eq!(
        message.content[1],
        MessageBlock::ToolResult {
            tool_use_id: "b".to_owned(),
            content: "internal error: tool panicked: boom".to_owned(),
            is_error: true,
        }
    );
}

#[test]
fn results_that_cannot_be_handed_on_stay_out_of_the_conversation() {
    let mut agent = Agent::new(AGENT, config(), vec![]);
    let reply = || assistant(vec![tool_use("t1", "read", "{}")]);
    let size = agent.context_size;
    assert_eq!(
        agent.tools_undelivered(reply()),
        RunStep::Finished(Err(RunError::Undelivered))
    );
    assert_eq!(agent.history, vec![Entry::Message(reply())]);
    assert_eq!(agent.context_size, size);
}

#[test]
fn every_call_of_a_reply_is_answered_under_its_own_id() {
    let mut recent = RecentCalls::new();
    for _ in 0..2 {
        plan_calls(&mut recent, &assistant(vec![tool_use("early", "read", "{}")]));
    }
    let reply = assistant(vec![
        tool_use("t1", "read", "{}"),
        tool_use("t2", "bash", "{}"),
        tool_use("t3", "glob", "{}"),
    ]);
    let plan = plan_calls(&mut recent, &reply);
    assert_eq!(plan.runnable.len(), 2, "the third call in a row is refused");
    let done = ToolDone::prose(
        "t2".to_owned(),
        ToolLabel::Unknown,
        OutputKind::Plain,
        "ran".to_owned(),
        false,
    );
    let results = collect_results(plan, vec![Ok(done), Err("lost".to_owned())]);
    let answer = tool_results(&results);
    let ids: Vec<&str> = answer
        .content
        .iter()
        .map(|block| match block {
            MessageBlock::ToolResult { tool_use_id, .. } => tool_use_id.as_str(),
            other => panic!("unexpected {other:?}"),
        })
        .collect();
    assert_eq!(ids, ["t2", "t3", "t1"]);
}
