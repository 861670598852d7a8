//! A server and its client.
use makima::acp::commands::{available_commands, PresentedCommand};
use makima::acp::error::{
    command_error, coordinator_error, session_registration_error, AcpError, CoordinatorError,
    ErrorData,
};
use makima::acp::event_pump::{AgentEvent, Envelope, EventPump, RequestIds};
use makima::acp::mcp_servers::{injected_servers, server_name, RawTransport};
use makima::acp::methods::{
    initialize_response, load_session_response, mode_id_to_agent_mode, new_session_response,
};
use makima::acp::operations::{
    abandon_operation, on_compaction_end, on_compaction_event, on_isolated_end, on_isolated_event,
    send_command_turn, send_isolated_turn, send_manual_compaction, LeaseReply,
    ManualCompactionEvent, OperationIds,
};
use makima::acp::options::{
    refresh_models, session_config_options, ConfigCategory, ConfigKind, OptionProjection,
    OptionValue, SessionOption, SessionOptionCategory, SessionOptionsSnapshot,
};
use makima::acp::pending::{
    Answer, OperationKind, Pending, PendingOperation, PermissionAnswer, PermissionAsk, Reply,
    RequestId,
};
use makima::acp::prompt::{extract_prompt_content, PromptBlock};
use makima::acp::requests::{
    load_session_request, new_session_request, permission_in, OfferedAnswer, OptionChange,
};
use makima::acp::restore::{
    restore_closed, restore_installed, restore_requested, Found, RestoreStep,
};
use makima::acp::server::{
    handle_line, handle_request, new_session_guidance, respond_request, route_prompt,
    supports_boolean_config, InputDispatch, Line, MessageKind, Method, OptionMutationError, PromptStep, ResponseStep,
    Server,
};
use makima::acp::session::{
    effective_session_cwd, keeps_beating, load_history_from, load_session, new_session,
    policy_trusts, question_mode, unknown_session, CloseAction, Installation, InstallStep,
    LockBeat, ModelFacts, QuestionMode, RollbackAction, StoredMeta, StoredSession, TrustRecord,
};
use makima::acp::updates::{Action, PromptEnd, SessionUpdate, StopReason, ToolCallStatus};
use makima::agent::events::{OutputKind, ToolDone, ToolLabel, ToolOutput, ToolStart};
use makima::agent::isolated_turn::IsolatedTurnEvent;
use makima::agent::modes::{ModeDef, ModeId};
use makima::command::builtin::{interpret, BuiltinId};
use makima::command::custom::{CommandScope, CustomCommand};
use makima::command::host::CommandError;
use makima::types::{
    AgentId, AgentMode, AgentTurn, CommandAttachment, CommandContent, DoneReason, ImageMediaType,
    Message, SessionDefaults, ThinkingConfig, TokenUsage, TurnCancellationReason, TurnFailure,
    TurnFailureKind, TurnId, TurnOutcome,
};
use serde_json::Value;

const ANSWERED_ID: i64 = 1001;
const UNKNOWN_ID: i64 = 1002;
const DISCOVERED_SPEC: &str = "openrouter/discovered-model";
const FAST_SPEC: &str = "anthropic/quick-model";
const OFFLINE_SPEC: &str = "openai/gpt-5";
const SESSION: &str = "01965087-4c71-7f00-8000-000000000000";
const STALE: &str = "01965087-4c71-7f00-8000-00000000dead";
const OPEN_ELSEWHERE_MSG: &str = "session is open elsewhere";
const AUTH_FAILED_MSG: &str =
    "Authentication failed. Run `maki auth login`, then send the prompt again.";
const CANCELLATION_IN_PROGRESS_MESSAGE: &str =
    "session cancellation is still in progress; retry the prompt";
const DISMISSED: &str = "{\"dismissed\":true}";
const ROOT: u64 = 5;
const SUBAGENT: u64 = 6;

fn json(text: &str) -> Value {
    serde_json::from_str(text).unwrap()
}

fn modes() -> Vec<ModeDef> {
    vec![
        ModeDef { id: ModeId::Custom("audit".to_owned()), label: "Audit".to_owned(), tools: None },
        ModeDef { id: ModeId::Build, label: "Build".to_owned(), tools: None },
        ModeDef { id: ModeId::Plan, label: "Plan".to_owned(), tools: None },
    ]
}

fn bare_server() -> Server {
    Server {
        model_specs: vec![],
        modes: modes(),
        session: None,
        elicitation: false,
        supports_boolean: false,
        defaults: SessionDefaults::default(),
    }
}

fn ask(request_id: i64, permission_id: &str, channel: u64) -> PermissionAsk {
    PermissionAsk { request_id, permission_id: permission_id.to_owned(), channel }
}

fn server_awaiting_answer() -> Server {
    let mut server = bare_server();
    server.install_session(SESSION.to_owned(), ROOT, false, 1);
    server.session.as_mut().unwrap().pending.permissions = vec![ask(ANSWERED_ID, "toolu_1", ROOT)];
    server
}

fn pending(server: &mut Server) -> &mut Pending {
    &mut server.session.as_mut().unwrap().pending
}

fn operation(id: u64, request: i64, kind: OperationKind) -> PendingOperation {
    PendingOperation {
        id,
        request_id: RequestId::Number(request),
        kind,
        run_id: None,
        cancelling: false,
        cancel: None,
        lease: None,
    }
}

fn prompt_request(session: &str, text: &str, image: bool) -> Value {
    let image = if image {
        ",{\"type\":\"image\",\"data\":\"aGVsbG8=\",\"mimeType\":\"image/png\"}"
    } else {
        ""
    };
    json(&format!(
        "{{\"params\":{{\"sessionId\":\"{session}\",\"prompt\":\
         [{{\"type\":\"text\",\"text\":\"{text}\"}}{image}]}}}}"
    ))
}

fn cancel_request(session: &str) -> Value {
    json(&format!("{{\"params\":{{\"sessionId\":\"{session}\"}}}}"))
}

fn allow_once(id: i64) -> Value {
    json(&format!(
        "{{\"id\":{id},\"result\":{{\"outcome\":\
         {{\"outcome\":\"selected\",\"optionId\":\"allow_once\"}}}}}}"
    ))
}

fn offered() -> Vec<OfferedAnswer> {
    let answer = |option_id: &str, answer| OfferedAnswer { option_id: option_id.to_owned(), answer };
    vec![
        answer("allow_once", PermissionAnswer::AllowOnce),
        answer("allow_always", PermissionAnswer::AllowAlways),
        answer("reject_once", PermissionAnswer::Deny),
        answer("reject_always", PermissionAnswer::DenyAlways),
    ]
}

fn permission(channel: u64, id: &str, answer: PermissionAnswer) -> Answer {
    Answer { channel, reply: Reply::Permission { permission_id: id.to_owned(), answer } }
}

fn dismissed(channel: u64) -> Answer {
    Answer { channel, reply: Reply::Text(DISMISSED.to_owned()) }
}

fn respond(server: &mut Server, raw: &Value) -> Option<Answer> {
    server.handle_incoming_response(raw, &offered(), None)
}

fn answers(id: i64, reason: StopReason) -> Action {
    Action::Respond { id: RequestId::Number(id), end: PromptEnd::Stopped(reason) }
}

/// Takes a prompt on and starts the turn that it asks for.
fn start_prompt(server: &mut Server, ids: &mut OperationIds, text: &str, id: i64) -> AgentTurnStart {
    let raw = prompt_request(SESSION, text, false);
    let content = match server.handle_prompt(&raw, true) {
        Ok(content) => content,
        Err(error) => return Err(error),
    };
    let turn = AgentTurn { content, prompt: None };
    let (mode, defaults) = (AgentMode::Build, server.defaults);
    let cancel = 700 + id as u64;
    let started = send_command_turn(
        pending(server),
        ids,
        RequestId::Number(id),
        turn,
        &mode,
        defaults,
        Some(&vec![]),
        LeaseReply::Granted(70),
        cancel,
    )?;
    Ok((started.input.message, started.operation_id, cancel))
}

type AgentTurnStart = Result<(String, u64, u64), AcpError>;

fn event(event: AgentEvent) -> Envelope {
    Envelope { event, subagent: None, run_id: 0 }
}

fn subagent_event(event: AgentEvent, channel: Option<u64>) -> Envelope {
    Envelope { event, subagent: Some(channel), run_id: 0 }
}

fn permission_request(id: &str, tool: &str, scope: &str) -> AgentEvent {
    AgentEvent::PermissionRequest {
        id: id.to_owned(),
        tool: tool.to_owned(),
        scopes: vec![scope.to_owned()],
    }
}

fn outcome(reason: Result<DoneReason, TurnCancellationReason>) -> TurnOutcome {
    let (agent_id, turn_id) = (AgentId { value: 1 }, TurnId { value: 2 });
    let usage = TokenUsage::default();
    match reason {
        Ok(reason) => TurnOutcome::Completed { agent_id, turn_id, usage, num_turns: 1, reason },
        Err(reason) => TurnOutcome::Cancelled { agent_id, turn_id, usage, num_turns: 1, reason },
    }
}

fn values(values: &[&str]) -> Vec<OptionValue> {
    values
        .iter()
        .map(|value| OptionValue { value: (*value).to_owned(), name: (*value).to_owned() })
        .collect()
}

fn option(id: &str, category: SessionOptionCategory, own: &[&str], current: &str) -> SessionOption {
    SessionOption {
        id: id.to_owned(),
        name: id.to_owned(),
        description: String::new(),
        category,
        values: values(own),
        free_value: false,
        current_value: current.to_owned(),
    }
}

fn snapshot(version: u64, model: &str, yolo: &str, fast: &str) -> SessionOptionsSnapshot {
    let toggle = ["enabled", "disabled"];
    let mode = SessionOptionCategory::Mode;
    SessionOptionsSnapshot {
        version,
        options: vec![
            option("model", SessionOptionCategory::Model, &[OFFLINE_SPEC, FAST_SPEC], model),
            option("yolo", mode, &toggle, yolo),
            option("fast", mode, &toggle, fast),
            option("workflow", mode, &toggle, "disabled"),
            option("thinking", mode, &["off", "low", "high"], "off"),
        ],
    }
}

#[test]
fn permission_answer_maps_response() {
    let cases = [
        (allow_once(ANSWERED_ID), PermissionAnswer::AllowOnce),
        (
            json("{\"id\":1001,\"result\":{\"outcome\":{\"outcome\":\"cancelled\"}}}"),
            PermissionAnswer::Deny,
        ),
        (json("{\"id\":1001,\"result\":{\"nonsense\":true}}"), PermissionAnswer::Deny),
        (json("{\"id\":1001,\"error\":{\"code\":-32603}}"), PermissionAnswer::Deny),
    ];
    for (raw, expected) in cases {
        let mut server = server_awaiting_answer();
        assert_eq!(respond(&mut server, &raw), Some(permission(ROOT, "toolu_1", expected)));
    }
}

#[test]
fn the_chosen_permission_is_the_one_that_was_offered() {
    let chosen = |id: &str| {
        json(&format!(
            "{{\"result\":{{\"outcome\":{{\"outcome\":\"selected\",\"optionId\":\"{id}\"}}}}}}"
        ))
    };
    let answer = |id: &str| permission_in(&chosen(id), &offered());
    assert_eq!(answer("reject_always"), Some(PermissionAnswer::DenyAlways));
    assert_eq!(answer("allow_always"), Some(PermissionAnswer::AllowAlways));
    assert_eq!(answer("whatever"), None);
}

#[test]
fn boolean_config_capability_requires_object() {
    let stated = |value: &str| {
        json(&format!(
            "{{\"params\":{{\"clientCapabilities\":{{\"session\":\
             {{\"configOptions\":{{\"boolean\":{value}}}}}}}}}}}"
        ))
    };
    assert!(!supports_boolean_config(&json("{}")));
    assert!(supports_boolean_config(&stated("{}")));
    assert!(!supports_boolean_config(&stated("true")));
}

#[test]
fn a_client_says_what_it_can_do() {
    let mut server = bare_server();
    let raw = json(
        "{\"params\":{\"protocolVersion\":1,\"clientCapabilities\":{\"elicitation\":{\"form\":{}},\
         \"session\":{\"configOptions\":{\"boolean\":{}}}}}}",
    );
    let answer = server.initialize(&raw, "1.2.3");
    assert!(server.elicitation && server.supports_boolean);
    assert_eq!((answer.protocol_version, answer.agent_version.as_str()), (1, "1.2.3"));
    server.initialize(&json("{\"params\":{\"protocolVersion\":1}}"), "1.2.3");
    assert!(!server.elicitation && !server.supports_boolean);
    server.initialize(&json("{}"), "1.2.3");
    assert!(!server.elicitation);
}

#[test]
fn registration_error_preserves_open_elsewhere_message() {
    let error = session_registration_error(OPEN_ELSEWHERE_MSG.to_owned());
    assert_eq!(error.code, AcpError::internal_error().code);
    assert_eq!(error.data, ErrorData::Text(OPEN_ELSEWHERE_MSG.to_owned()));
}

#[test]
fn sessions_directory_failure_rolls_back_install() {
    let installation = Installation::begin(SESSION.to_owned(), ROOT, true);
    let InstallStep::Failed { error, rollback } = installation.advance(Err("file".to_owned()))
    else {
        panic!("the directory cannot be made");
    };
    assert!(!error.is_empty());
    assert_eq!(rollback, vec![RollbackAction::CancelTask, RollbackAction::ShutdownMcp]);
}

fn next(step: InstallStep) -> Installation {
    match step {
        InstallStep::Next(installation) => installation,
        other => panic!("unexpected {other:?}"),
    }
}

#[test]
fn post_registration_lock_failure_rolls_back_and_same_id_retries() {
    let mut server = bare_server();
    let first = next(Installation::begin(SESSION.to_owned(), ROOT, false).advance(Ok(())));
    let InstallStep::Failed { error, rollback } = first.advance(Err(OPEN_ELSEWHERE_MSG.to_owned()))
    else {
        panic!("the lock is taken");
    };
    assert_eq!(error, OPEN_ELSEWHERE_MSG);
    assert_eq!(rollback, vec![RollbackAction::CancelTask]);
    assert!(server.session.is_none());

    let mut again = Installation::begin(SESSION.to_owned(), ROOT, false);
    for _ in 0..3 {
        again = next(again.advance(Ok(())));
    }
    let InstallStep::Ready { session_id, channel, mcp } = again.advance(Ok(())) else {
        panic!("every stage has passed");
    };
    server.install_session(session_id, channel, mcp, 1);
    assert_eq!(server.session.as_ref().unwrap().session_id, SESSION);
}

#[test]
fn a_late_failure_gives_the_lock_back() {
    let mut installation = Installation::begin(SESSION.to_owned(), ROOT, true);
    for _ in 0..2 {
        installation = next(installation.advance(Ok(())));
    }
    let InstallStep::Failed { rollback, .. } = installation.advance(Err("x".to_owned())) else {
        panic!("the stage fails");
    };
    assert_eq!(
        rollback,
        vec![RollbackAction::CancelTask, RollbackAction::ShutdownMcp, RollbackAction::ReleaseLock]
    );
}

#[test]
fn close_retires_routing_with_retained_committer() {
    let mut server = server_awaiting_answer();
    let mut ids = OperationIds::new();
    pending(&mut server).permissions.clear();
    start_prompt(&mut server, &mut ids, "hello", 41).unwrap();
    let actions = server.close_session();
    assert!(server.session.is_none());
    assert!(matches!(&actions[0], CloseAction::Act(action) if *action
        == answers(41, StopReason::Cancelled)));
    let names: Vec<String> = actions[1..].iter().map(|action| format!("{action:?}")).collect();
    assert_eq!(
        names,
        ["CancelTask", "CloseCoordinator", "DrainCheckpoint", "CancelProjections", "ReleaseLock"]
    );
    server.install_session(SESSION.to_owned(), ROOT, false, 1);
    assert!(server.validate_session(SESSION, true).is_ok());
    assert!(bare_server().close_session().is_empty());
}

fn replies(actions: Vec<CloseAction>) -> Vec<Answer> {
    actions
        .into_iter()
        .filter_map(|action| match action {
            CloseAction::Act(Action::Reply(answer)) => Some(answer),
            _ => None,
        })
        .collect()
}

#[test]
fn close_denies_outstanding_permission_requests() {
    let mut server = server_awaiting_answer();
    pending(&mut server).permissions = vec![ask(ANSWERED_ID, "perm-id", SUBAGENT)];
    assert_eq!(
        replies(server.close_session()),
        vec![permission(SUBAGENT, "perm-id", PermissionAnswer::Deny)]
    );
    assert!(server.session.is_none());
}

#[test]
fn close_dismisses_outstanding_elicitation() {
    let mut server = server_awaiting_answer();
    pending(&mut server).permissions.clear();
    pending(&mut server).elicitation = Some(ANSWERED_ID);
    assert_eq!(replies(server.close_session()), vec![dismissed(ROOT)]);
}

#[test]
fn operation_terminal_is_compare_and_set() {
    let mut pending = Pending::new();
    pending.operation = Some(operation(7, 41, OperationKind::IsolatedTurn));
    assert!(pending.finish_operation(6, OperationKind::IsolatedTurn).is_none());
    assert!(pending.finish_operation(7, OperationKind::PrimaryTurn).is_none());
    assert_eq!(
        pending.finish_operation(7, OperationKind::IsolatedTurn),
        Some(RequestId::Number(41))
    );
    assert!(pending.finish_operation(7, OperationKind::IsolatedTurn).is_none());
}

#[test]
fn operation_is_removed_before_response() {
    let mut pending = Pending::new();
    pending.operation = Some(operation(8, 42, OperationKind::IsolatedTurn));
    pending.operation.as_mut().unwrap().cancelling = true;
    let answered = pending.finish_operation(8, OperationKind::IsolatedTurn);
    assert!(pending.operation.is_none());
    assert_eq!(answered, Some(RequestId::Number(42)));
}

#[test]
fn primary_terminal_cannot_finish_isolated_operation() {
    let mut pending = Pending::new();
    pending.operation = Some(operation(9, 43, OperationKind::IsolatedTurn));
    assert!(pending.finish_active_operation(OperationKind::PrimaryTurn).is_none());
    assert!(pending.finish_active_operation(OperationKind::IsolatedTurn).is_some());
}

#[test]
fn primary_prompt_holds_coordinator_lease_until_terminal() {
    let mut server = server_awaiting_answer();
    let mut ids = OperationIds::new();
    let (message, ..) = start_prompt(&mut server, &mut ids, "hello", 41).unwrap();
    assert_eq!(message, "hello");
    assert_eq!(pending(&mut server).operation.as_ref().unwrap().lease, Some(70));
    assert_eq!(
        pending(&mut server).finish_active_operation(OperationKind::PrimaryTurn),
        Some(RequestId::Number(41))
    );
    assert!(pending(&mut server).operation.is_none());
}

#[test]
fn slash_update_precedes_prompt_response() {
    let Ok(PromptStep::Answered { show_options, actions }) =
        route_prompt(InputDispatch::Completed, RequestId::Number(42))
    else {
        panic!("the command has done its work");
    };
    assert!(show_options);
    assert_eq!(actions, vec![answers(42, StopReason::EndTurn)]);
    let mut projection = OptionProjection { supports_boolean: false, emitted_version: 1 };
    let shown = projection.emit(&snapshot(2, FAST_SPEC, "disabled", "enabled")).unwrap();
    assert_eq!(shown.shown.unwrap().len(), 5);
}

#[test]
fn set_config_accepts_legacy_and_boolean_values() {
    for (supports_boolean, value) in
        [(false, "\"value\":\"enabled\""), (true, "\"type\":\"boolean\",\"value\":true")]
    {
        let mut server = bare_server();
        server.supports_boolean = supports_boolean;
        server.install_session(SESSION.to_owned(), ROOT, false, 1);
        let raw = json(&format!(
            "{{\"params\":{{\"sessionId\":\"{SESSION}\",\"configId\":\"yolo\",{value}}}}}"
        ));
        let change = server.handle_set_config(&raw, true).unwrap();
        assert_eq!(
            change,
            OptionChange { config_id: "yolo".to_owned(), value: "enabled".to_owned() }
        );
        let reply = Ok(snapshot(2, OFFLINE_SPEC, "enabled", "disabled"));
        let changed = server.option_changed(reply).unwrap();
        assert_eq!(
            matches!(changed.shown[1].kind, ConfigKind::Boolean(true)),
            supports_boolean
        );
        assert_eq!(
            matches!(changed.shown[1].kind, ConfigKind::Select { .. }),
            !supports_boolean
        );
        assert!(changed.projected.unwrap().committed.yolo);
    }
}

#[test]
fn acp_rejected_plugin_option_does_not_mutate_or_checkpoint() {
    let mut server = server_awaiting_answer();
    let message = "session option callback failed: rejected by test";
    let refused = CoordinatorError::OptionRejected { message: message.to_owned() };
    let error =
        server.option_changed(Err(OptionMutationError::Coordinator(refused))).unwrap_err();
    assert_eq!(error.code, AcpError::invalid_params().code);
    assert_eq!(error.data, ErrorData::Text(message.to_owned()));
    let projection = server.session.as_ref().unwrap().projection.as_ref().unwrap();
    assert_eq!(projection.emitted_version, 1);
}

#[test]
fn set_config_projection_applies_host_state_before_response() {
    let mut server = server_awaiting_answer();
    let reply = Ok(snapshot(2, OFFLINE_SPEC, "enabled", "disabled"));
    let changed = server.option_changed(reply).unwrap();
    assert!(matches!(
        &changed.shown[1].kind,
        ConfigKind::Select { current, .. } if current == "enabled"
    ));
    let projected = changed.projected.unwrap();
    assert!(projected.committed.yolo);
    assert!(projected.shown.is_none(), "what the client is answered is not shown again");
}

#[test]
fn config_model_change_clears_ineligible_fast_mode() {
    let mut server = server_awaiting_answer();
    let before = server.option_changed(Ok(snapshot(2, FAST_SPEC, "disabled", "enabled"))).unwrap();
    assert!(before.projected.unwrap().committed.fast);
    let reply = Ok(snapshot(3, OFFLINE_SPEC, "disabled", "disabled"));
    let changed = server.option_changed(reply).unwrap();
    assert_eq!(changed.shown.len(), 5);
    let committed = changed.projected.unwrap().committed;
    assert_eq!(committed.model.as_deref(), Some(OFFLINE_SPEC));
    assert!(!committed.fast);
}

#[test]
fn options_that_cannot_be_changed_say_why() {
    let refusal = |error| server_awaiting_answer().option_changed(Err(error)).unwrap_err();
    let coordinator = |error| refusal(OptionMutationError::Coordinator(error));
    let stale = coordinator(CoordinatorError::StaleSession { id: "7".to_owned() });
    assert_eq!((stale.code, stale.data), (-32002, ErrorData::Uri("session/7".to_owned())));
    let busy = coordinator(CoordinatorError::SessionBusy { message: "busy".to_owned() });
    assert_eq!((busy.code, busy.message.as_str()), (-32600, "busy"));
    let other = coordinator(CoordinatorError::Other { message: "boom".to_owned() });
    assert_eq!((other.code, other.data), (-32603, ErrorData::Text("boom".to_owned())));
    let dead = refusal(OptionMutationError::HostDead { message: "gone".to_owned() });
    assert_eq!((dead.code, dead.data), (-32603, ErrorData::Text("gone".to_owned())));
    let none = bare_server()
        .option_changed(Ok(snapshot(2, OFFLINE_SPEC, "enabled", "disabled")))
        .unwrap_err();
    assert_eq!((none.code, none.message.as_str()), (-32600, "no active session"));
    assert_eq!(
        coordinator_error(CoordinatorError::StaleSession { id: "7".to_owned() }).message,
        "Resource not found"
    );
}

#[test]
fn only_the_outstanding_request_id_is_answered() {
    let mut server = server_awaiting_answer();
    assert_eq!(respond(&mut server, &allow_once(UNKNOWN_ID)), None);
    assert_eq!(
        respond(&mut server, &allow_once(ANSWERED_ID)),
        Some(permission(ROOT, "toolu_1", PermissionAnswer::AllowOnce))
    );
    assert_eq!(respond(&mut server, &allow_once(ANSWERED_ID)), None);
}

#[test]
fn acp_rejects_stale_session_ids_for_prompt_set_option_mode_and_cancel() {
    let mut server = server_awaiting_answer();
    let not_found = AcpError::resource_not_found(String::new()).code;
    let error = server.handle_prompt(&prompt_request(STALE, "hello", false), true).unwrap_err();
    assert_eq!(error.code, not_found);
    assert_eq!(error.data, ErrorData::Uri(format!("session/{STALE}")));

    let raw = json(&format!(
        "{{\"params\":{{\"sessionId\":\"{STALE}\",\"configId\":\"yolo\",\"value\":\"enabled\"}}}}"
    ));
    assert_eq!(server.handle_set_config(&raw, true).unwrap_err().code, not_found);

    let raw =
        json(&format!("{{\"params\":{{\"sessionId\":\"{STALE}\",\"modeId\":\"build\"}}}}"));
    assert_eq!(server.handle_set_mode(&raw, true, None).unwrap_err().code, not_found);

    assert!(server.handle_notification("session/cancel", &cancel_request(STALE), true).is_none());
    assert_eq!(
        respond(&mut server, &allow_once(ANSWERED_ID)),
        Some(permission(ROOT, "toolu_1", PermissionAnswer::AllowOnce))
    );
    let raw = prompt_request(SESSION, "hello", false);
    assert_eq!(server.handle_prompt(&raw, false).unwrap_err().code, not_found);
    assert_eq!(bare_server().handle_prompt(&raw, true).unwrap_err().message, "no active session");
}

#[test]
fn requests_that_cannot_be_read_are_refused() {
    let mut server = server_awaiting_answer();
    let invalid = AcpError::invalid_params().code;
    let raw = json("{\"params\":{\"nonsense\":true}}");
    assert_eq!(server.handle_prompt(&raw, true).unwrap_err().code, invalid);
    assert_eq!(server.handle_set_mode(&raw, true, None).unwrap_err().code, invalid);
    assert_eq!(server.handle_set_config(&raw, true).unwrap_err().code, invalid);
    assert_eq!(new_session_request(&raw).unwrap_err().code, invalid);
    let error = load_session_request(&json("{}")).unwrap_err();
    assert_eq!(error.code, invalid);
    assert!(matches!(error.data, ErrorData::Text(reason) if !reason.is_empty()));
}

#[test]
fn cancel_denies_all_outstanding_permission_requests() {
    let mut server = server_awaiting_answer();
    pending(&mut server).permissions.push(ask(ANSWERED_ID + 1, "sub-perm", SUBAGENT));
    pending(&mut server).operation = Some(operation(1, 41, OperationKind::IsolatedTurn));
    let cancelled =
        server.handle_notification("session/cancel", &cancel_request(SESSION), true).unwrap();
    assert_eq!(
        cancelled.answers,
        vec![
            permission(ROOT, "toolu_1", PermissionAnswer::Deny),
            permission(SUBAGENT, "sub-perm", PermissionAnswer::Deny),
        ]
    );
    assert_eq!(respond(&mut server, &allow_once(ANSWERED_ID)), None);
}

#[test]
fn cancel_dismisses_pending_elicitation_and_rejects_late_answer() {
    let mut server = server_awaiting_answer();
    pending(&mut server).permissions.clear();
    pending(&mut server).elicitation = Some(ANSWERED_ID);
    pending(&mut server).operation = Some(operation(1, 41, OperationKind::IsolatedTurn));
    let cancelled =
        server.handle_notification("session/cancel", &cancel_request(SESSION), true).unwrap();
    assert_eq!(cancelled.answers, vec![dismissed(ROOT)]);
    assert_eq!(respond(&mut server, &allow_once(ANSWERED_ID)), None);
}

#[test]
fn other_notifications_do_nothing() {
    let mut server = server_awaiting_answer();
    pending(&mut server).operation = Some(operation(1, 41, OperationKind::IsolatedTurn));
    assert!(server.handle_notification("session/other", &cancel_request(SESSION), true).is_none());
    assert!(server.handle_notification("session/cancel", &json("{}"), true).is_none());
    assert!(!pending(&mut server).operation.as_ref().unwrap().cancelling);
}

#[test]
fn cancel_during_permission_allows_the_next_prompt() {
    let mut server = server_awaiting_answer();
    pending(&mut server).permissions.clear();
    let mut pump = EventPump::new(false, ROOT, true);
    let (mut ids, mut requests) = (OperationIds::new(), RequestIds::new());
    let (message, ..) = start_prompt(&mut server, &mut ids, "first", 41).unwrap();
    assert_eq!(message, "first");

    let asked = event(permission_request("tool-1", "bash", "echo first"));
    let actions = pump.on_event(pending(&mut server), &mut requests, asked);
    let Action::AskPermission { request_id, .. } = &actions[0] else {
        panic!("the client is asked");
    };
    let request_id = *request_id;
    let cancelled =
        server.handle_notification("session/cancel", &cancel_request(SESSION), true).unwrap();
    assert_eq!(cancelled.answers, vec![permission(ROOT, "tool-1", PermissionAnswer::Deny)]);
    assert_eq!(respond(&mut server, &allow_once(request_id)), None);

    let stale = event(permission_request("tool-stale", "bash", "echo stale"));
    assert_eq!(
        pump.on_event(pending(&mut server), &mut requests, stale),
        vec![Action::Reply(permission(ROOT, "tool-stale", PermissionAnswer::Deny))]
    );

    let error = start_prompt(&mut server, &mut ids, "second", 42).unwrap_err();
    assert_eq!(error.code, -32001);
    assert_eq!(error.message, CANCELLATION_IN_PROGRESS_MESSAGE);
    assert_eq!(error.data, ErrorData::Retryable);

    let done = event(AgentEvent::ControlComplete);
    assert_eq!(
        pump.on_event(pending(&mut server), &mut requests, done),
        vec![answers(41, StopReason::EndTurn)]
    );
    assert_eq!(start_prompt(&mut server, &mut ids, "second", 43).unwrap().0, "second");
}

#[test]
fn new_session_response_precedes_available_commands() {
    assert_eq!(
        respond_request(Method::NewSession, true),
        vec![ResponseStep::Respond, ResponseStep::OfferCommands]
    );
    assert_eq!(
        respond_request(Method::LoadSession, true),
        vec![ResponseStep::Respond, ResponseStep::OfferCommands]
    );
    assert_eq!(respond_request(Method::NewSession, false), vec![ResponseStep::Respond]);
    assert_eq!(respond_request(Method::Prompt, true), vec![]);
    assert_eq!(respond_request(Method::Prompt, false), vec![ResponseStep::Respond]);
    assert_eq!(respond_request(Method::Initialize, true), vec![ResponseStep::Respond]);
    let response = new_session_response(SESSION, &modes());
    assert_eq!(response.session_id, SESSION);
    assert_eq!(response.modes.current, "build");
}

#[test]
fn cancelled_prompt_rejects_follow_up_and_processes_new_session() {
    let mut server = server_awaiting_answer();
    let mut ids = OperationIds::new();
    start_prompt(&mut server, &mut ids, "first", 41).unwrap();

    let line = format!(
        "{{\"jsonrpc\":\"2.0\",\"method\":\"session/cancel\",\
         \"params\":{{\"sessionId\":\"{SESSION}\"}}}}"
    );
    let Line::Message { raw, kind: MessageKind::Notification { method } } = handle_line(&line)
    else {
        panic!("a notification");
    };
    assert!(server.handle_notification(&method, &raw, true).is_some());

    let line = format!(
        "{{\"jsonrpc\":\"2.0\",\"id\":42,\"method\":\"session/prompt\",\"params\":{{\
         \"sessionId\":\"{SESSION}\",\"prompt\":[{{\"type\":\"text\",\"text\":\"second\"}}]}}}}"
    );
    let Line::Message { raw, kind: MessageKind::Request { id, method } } = handle_line(&line)
    else {
        panic!("a request");
    };
    assert_eq!(id, RequestId::Number(42));
    assert_eq!(handle_request(&method), Ok(Method::Prompt));
    let rejected = server.handle_prompt(&raw, true).unwrap_err();
    assert_eq!(rejected.code, -32001);
    assert_eq!(rejected.message, CANCELLATION_IN_PROGRESS_MESSAGE);
    assert_eq!(rejected.data, ErrorData::Retryable);

    let line = "{\"jsonrpc\":\"2.0\",\"id\":43,\"method\":\"session/new\",\
                \"params\":{\"cwd\":\"/project\",\"mcpServers\":[]}}";
    let Line::Message { raw, kind: MessageKind::Request { id, method } } = handle_line(line) else {
        panic!("a request");
    };
    assert_eq!(id, RequestId::Number(43));
    assert_eq!(handle_request(&method), Ok(Method::NewSession));
    let request = new_session_request(&raw).unwrap();
    assert_eq!(request.cwd, "/project");
    assert!(request.servers.is_empty());
    server.close_session();
    assert!(server.session.is_none());
}

#[test]
fn lines_are_told_apart() {
    assert!(matches!(handle_line("  \t "), Line::Blank));
    let Line::Malformed { error } = handle_line("{nope") else { panic!("no JSON") };
    assert_eq!((error.code, error.message.as_str()), (-32700, "Parse error"));
    let kind = |line: &str| match handle_line(line) {
        Line::Message { kind, .. } => kind,
        _ => panic!("a message"),
    };
    assert_eq!(kind("{\"id\":1,\"result\":null}"), MessageKind::Response);
    assert_eq!(kind("{\"id\":1,\"error\":{}}"), MessageKind::Response);
    assert_eq!(
        kind("{\"id\":\"a\",\"method\":\"m\"}"),
        MessageKind::Request { id: RequestId::Str("a".to_owned()), method: "m".to_owned() }
    );
    assert_eq!(
        kind("{\"id\":null,\"method\":\"m\"}"),
        MessageKind::Request { id: RequestId::Null, method: "m".to_owned() }
    );
    assert_eq!(kind("{\"id\":1.5}"), MessageKind::Invalid { id: RequestId::Null });
    assert_eq!(kind("{\"id\":7,\"method\":3}"), MessageKind::Invalid { id: RequestId::Number(7) });
    assert_eq!(kind("[]"), MessageKind::Nothing);
}

#[test]
fn methods_are_named() {
    assert_eq!(handle_request("initialize"), Ok(Method::Initialize));
    assert_eq!(handle_request("session/load"), Ok(Method::LoadSession));
    assert_eq!(handle_request("session/set_mode"), Ok(Method::SetMode));
    assert_eq!(handle_request("session/set_config_option"), Ok(Method::SetConfigOption));
    let error = handle_request("session/nope").unwrap_err();
    assert_eq!((error.code, error.message.as_str()), (-32601, "Method not found"));
    let error = AcpError::invalid_request();
    assert_eq!((error.code, error.message.as_str()), (-32600, "Invalid request"));
}

#[test]
fn primary_completion_with_reusable_subagent_activity_survives_cancellation_stress() {
    let (mut ids, mut requests) = (OperationIds::new(), RequestIds::new());
    for iteration in 0..64_i64 {
        let mut server = server_awaiting_answer();
        pending(&mut server).permissions.clear();
        let mut pump = EventPump::new(false, ROOT, true);
        start_prompt(&mut server, &mut ids, "primary", iteration + 1).unwrap();
        for _ in 0..2 {
            let hidden = subagent_event(AgentEvent::ControlComplete, None);
            assert!(pump.on_event(pending(&mut server), &mut requests, hidden).is_empty());
        }
        let cancels = iteration % 2 == 0;
        let cancel = cancel_request(SESSION);
        if cancels {
            server.handle_notification("session/cancel", &cancel, true);
        }
        let (ended, expected) = if cancels {
            let cancelled = outcome(Err(TurnCancellationReason::User));
            (AgentEvent::TurnOutcome(cancelled), StopReason::Cancelled)
        } else {
            (AgentEvent::ControlComplete, StopReason::EndTurn)
        };
        assert_eq!(
            pump.on_event(pending(&mut server), &mut requests, event(ended)),
            vec![answers(iteration + 1, expected)]
        );
        assert!(server.handle_notification("session/cancel", &cancel, true).is_none());
        assert!(pending(&mut server).operation.is_none());
    }
}

#[test]
fn cancel_during_completed_turn_checkpoint_does_not_cancel_next_prompt() {
    let mut server = server_awaiting_answer();
    let mut pump = EventPump::new(false, ROOT, true);
    let (mut ids, mut requests) = (OperationIds::new(), RequestIds::new());
    start_prompt(&mut server, &mut ids, "first", 41).unwrap();
    server.handle_notification("session/cancel", &cancel_request(SESSION), true);
    let done = event(AgentEvent::ControlComplete);
    assert_eq!(
        pump.on_event(pending(&mut server), &mut requests, done),
        vec![answers(41, StopReason::EndTurn)]
    );
    let (message, _, cancel) = start_prompt(&mut server, &mut ids, "second", 42).unwrap();
    assert_eq!(message, "second");
    let operation = pending(&mut server).operation.as_ref().unwrap();
    assert!(!operation.cancelling);
    assert_eq!(operation.cancel, Some(cancel));
}

#[test]
fn idle_and_duplicate_cancel_do_not_poison_the_next_prompt() {
    let mut server = server_awaiting_answer();
    let mut ids = OperationIds::new();
    let cancel = cancel_request(SESSION);
    assert!(server.handle_notification("session/cancel", &cancel, true).is_none());
    let (message, _, first) = start_prompt(&mut server, &mut ids, "first", 41).unwrap();
    assert_eq!(message, "first");
    let cancelled = server.handle_notification("session/cancel", &cancel, true).unwrap();
    assert_eq!(cancelled.trigger, Some(first));
    assert!(server.handle_notification("session/cancel", &cancel, true).is_none());
    pending(&mut server).finish_active_operation(OperationKind::PrimaryTurn).unwrap();
    let (message, _, second) = start_prompt(&mut server, &mut ids, "second", 42).unwrap();
    assert_eq!(message, "second");
    assert_ne!(second, first);
    assert!(!pending(&mut server).operation.as_ref().unwrap().cancelling);
}

#[test]
fn elicitation_answer_is_routed_by_id_and_decoded() {
    let mut server = server_awaiting_answer();
    pending(&mut server).permissions.clear();
    pending(&mut server).elicitation = Some(ANSWERED_ID);
    let raw = json(
        "{\"id\":1001,\"result\":{\"action\":\"accept\",\
         \"content\":{\"q1\":\"a\",\"q2\":[\"x\",\"y\"]}}}",
    );
    let payload = r#"{"answers":[["a"],["x","y"]]}"#;
    assert_eq!(
        server.handle_incoming_response(&raw, &offered(), Some(payload.to_owned())),
        Some(Answer { channel: ROOT, reply: Reply::Text(payload.to_owned()) })
    );
    assert_eq!(respond(&mut server, &allow_once(ANSWERED_ID)), None);
}

#[test]
fn unparsable_elicitation_result_dismisses_instead_of_hanging() {
    let mut server = server_awaiting_answer();
    pending(&mut server).elicitation = Some(ANSWERED_ID);
    let raw = json("{\"id\":1001,\"result\":{\"nonsense\":true}}");
    assert_eq!(
        server.handle_incoming_response(&raw, &offered(), Some("unused".to_owned())),
        Some(dismissed(ROOT))
    );
}

#[test]
fn cancelled_operation_dismisses_late_question() {
    let mut pending = Pending::new();
    pending.operation = Some(operation(1, 41, OperationKind::IsolatedTurn));
    pending.operation.as_mut().unwrap().cancelling = true;
    let mut pump = EventPump::new(true, ROOT, true);
    let question = event(AgentEvent::Question {
        id: "t1".to_owned(),
        form: Some("Continue?".to_owned()),
    });
    assert_eq!(
        pump.on_event(&mut pending, &mut RequestIds::new(), question),
        vec![Action::Reply(dismissed(ROOT))]
    );
    assert!(pending.elicitation.is_none());
}

#[test]
fn malformed_question_in_elicitation_mode_unblocks_the_tool() {
    let mut pending = Pending::new();
    let mut requests = RequestIds::new();
    let mut pump = EventPump::new(true, ROOT, true);
    let question = event(AgentEvent::Question { id: "t1".to_owned(), form: None });
    assert_eq!(
        pump.on_event(&mut pending, &mut requests, question),
        vec![Action::Reply(dismissed(ROOT))]
    );
    assert_eq!(requests.next, 1000);
}

#[test]
fn questions_are_asked_of_clients_that_have_forms() {
    let mut pending = Pending::new();
    let mut requests = RequestIds::new();
    let form = || AgentEvent::Question { id: "t1".to_owned(), form: Some("form".to_owned()) };
    let mut pump = EventPump::new(true, ROOT, true);
    assert_eq!(
        pump.on_event(&mut pending, &mut requests, event(form())),
        vec![Action::AskElicitation { request_id: 1000, form: "form".to_owned() }]
    );
    assert_eq!(pending.elicitation, Some(1000));
    let mut pump = EventPump::new(false, ROOT, true);
    assert_eq!(
        pump.on_event(&mut pending, &mut requests, event(form())),
        vec![Action::Reply(dismissed(ROOT))]
    );
}

#[test]
fn late_checkpoint_error_cannot_terminate_next_prompt() {
    let (old_run, next_run) = (7, 8);
    let mut pending = Pending::new();
    pending.operation = Some(operation(1, 41, OperationKind::PrimaryTurn));
    let mut pump = EventPump::new(true, ROOT, true);
    let mut requests = RequestIds::new();
    let completed = |run_id| Envelope {
        event: AgentEvent::TurnOutcome(outcome(Ok(DoneReason::EndTurn))),
        subagent: None,
        run_id,
    };
    assert_eq!(
        pump.on_event(&mut pending, &mut requests, completed(old_run)),
        vec![answers(41, StopReason::EndTurn)]
    );
    pending.operation = Some(operation(2, 42, OperationKind::PrimaryTurn));
    let late = Envelope {
        event: AgentEvent::ControlError {
            message: "failed to checkpoint completed turn".to_owned(),
        },
        subagent: None,
        run_id: old_run,
    };
    assert!(pump.on_event(&mut pending, &mut requests, late).is_empty());
    assert_eq!(
        pump.on_event(&mut pending, &mut requests, completed(next_run)),
        vec![answers(42, StopReason::EndTurn)]
    );
}

fn tool_start(id: &str, tool: &str, summary: &str, raw_input: &str) -> ToolStart {
    ToolStart {
        id: id.to_owned(),
        tool: tool.to_owned(),
        summary: summary.to_owned(),
        render_header: None,
        annotation: None,
        input: None,
        raw_input: Some(raw_input.to_owned()),
        output: None,
    }
}

#[test]
fn event_pump_projects_tool_permission_lifecycle_in_wire_order() {
    let tool_id = "tool-1";
    let mut pending = Pending::new();
    let mut pump = EventPump::new(true, ROOT, true);
    let mut requests = RequestIds::new();
    let mut out = vec![];
    for sent in [
        AgentEvent::ToolPending { id: tool_id.to_owned(), name: "bash".to_owned() },
        AgentEvent::ToolStart(ToolStart {
            annotation: Some("120s".to_owned()),
            output: Some(ToolOutput { kind: OutputKind::Plain, text: "$ true".to_owned() }),
            ..tool_start(tool_id, "bash", "Run command", "{\"command\":\"true\"}")
        }),
        permission_request(tool_id, "bash", "true"),
        AgentEvent::ToolExecutionStart { id: tool_id.to_owned() },
    ] {
        out.extend(pump.on_event(&mut pending, &mut requests, event(sent)));
    }
    assert_eq!(out.len(), 4);
    let status = |action: &Action| match action {
        Action::Update(update) => update.status(),
        _ => None,
    };
    assert_eq!(status(&out[0]), Some(ToolCallStatus::Pending));
    assert_eq!(status(&out[1]), Some(ToolCallStatus::Pending));
    assert!(matches!(
        &out[1],
        Action::Update(SessionUpdate::ToolStart(start))
            if start.id == tool_id && start.summary == "Run command"
                && start.annotation.as_deref() == Some("120s")
                && start.output.as_ref().is_some_and(|output| output.text == "$ true")
    ));
    assert_eq!(
        out[2],
        Action::AskPermission {
            request_id: 1000,
            tool_call_id: tool_id.to_owned(),
            title: "bash: true".to_owned(),
            tool: "bash".to_owned(),
            raw_input: Some("{\"command\":\"true\"}".to_owned()),
            project_trusted: true,
        }
    );
    assert_eq!(
        out[3],
        Action::Update(SessionUpdate::ToolExecutionStart { id: tool_id.to_owned() })
    );
    assert_eq!(status(&out[3]), Some(ToolCallStatus::InProgress));
}

#[test]
fn event_pump_routes_subagent_permission_answer_to_subagent() {
    let mut server = server_awaiting_answer();
    pending(&mut server).permissions.clear();
    let mut pump = EventPump::new(false, ROOT, true);
    let mut requests = RequestIds::new();
    let hidden = subagent_event(AgentEvent::TextDelta { text: "hidden".to_owned() }, None);
    assert!(pump.on_event(pending(&mut server), &mut requests, hidden).is_empty());
    let asked =
        subagent_event(permission_request("subagent-tool", "bash", "true"), Some(SUBAGENT));
    let out = pump.on_event(pending(&mut server), &mut requests, asked);
    let Action::AskPermission { request_id, tool_call_id, .. } = &out[0] else {
        panic!("the client is asked");
    };
    assert_eq!(tool_call_id, "subagent-tool");
    assert_eq!(
        respond(&mut server, &allow_once(*request_id)),
        Some(permission(SUBAGENT, "subagent-tool", PermissionAnswer::AllowOnce))
    );
    let hidden = subagent_event(AgentEvent::ControlComplete, None);
    assert!(pump.on_event(pending(&mut server), &mut requests, hidden).is_empty());
}

#[test]
fn event_pump_emits_thinking_separator() {
    let mut pending = Pending::new();
    let mut pump = EventPump::new(true, ROOT, true);
    let mut requests = RequestIds::new();
    let first = event(AgentEvent::ThinkingDelta { text: "first".to_owned() });
    let mut seen = pump.on_event(&mut pending, &mut requests, first);
    seen.extend(pump.on_event(&mut pending, &mut requests, event(AgentEvent::ThinkingBlockEnd)));
    assert_eq!(
        seen,
        vec![
            Action::Update(SessionUpdate::ThinkingDelta("first".to_owned())),
            Action::Update(SessionUpdate::ThinkingDelta("\n\n".to_owned())),
        ]
    );
}

#[test]
fn the_pump_shows_what_the_agent_says() {
    let mut pending = Pending::new();
    let mut pump = EventPump::new(true, ROOT, true);
    let mut requests = RequestIds::new();
    let mut pumped = |sent| pump.on_event(&mut pending, &mut requests, event(sent));
    assert_eq!(
        pumped(AgentEvent::ToolOutput { id: "t".to_owned(), content: "o".to_owned() }),
        vec![Action::Update(SessionUpdate::ToolOutput {
            id: "t".to_owned(),
            content: "o".to_owned()
        })]
    );
    let ended = || {
        let tool = ToolLabel::Named("bash".to_owned());
        ToolDone {
            annotation: Some("1s".to_owned()),
            written_path: Some("/w/a.txt".to_owned()),
            ..ToolDone::prose("t".to_owned(), tool, OutputKind::Plain, "o".to_owned(), true)
        }
    };
    let done = pumped(AgentEvent::ToolDone(ended()));
    assert_eq!(done, vec![Action::Update(SessionUpdate::ToolDone(ended()))]);
    assert!(matches!(&done[0], Action::Update(update)
        if update.status() == Some(ToolCallStatus::Failed)));
    assert_eq!(
        pumped(AgentEvent::TurnComplete { context_size: Some(3), context_window: 9 }),
        vec![Action::Update(SessionUpdate::Usage { context_size: Some(3), context_window: 9 })]
    );
    assert!(pumped(AgentEvent::Silent).is_empty());
    assert!(EventPump::on_end(&mut pending).is_none());
    pending.operation = Some(operation(1, 41, OperationKind::PrimaryTurn));
    let Some(Action::Respond { id, end: PromptEnd::Failed(error) }) =
        EventPump::on_end(&mut pending)
    else {
        panic!("the prompt has ended");
    };
    assert_eq!(id, RequestId::Number(41));
    assert_eq!(error.data, ErrorData::Text("session event stream ended".to_owned()));
}

#[test]
fn a_failed_turn_tells_the_user_why() {
    let mut pending = Pending::new();
    pending.operation = Some(operation(1, 41, OperationKind::PrimaryTurn));
    let mut pump = EventPump::new(true, ROOT, true);
    let failed = TurnOutcome::Failed {
        agent_id: AgentId { value: 1 },
        turn_id: TurnId { value: 2 },
        usage: TokenUsage::default(),
        num_turns: 1,
        failure: TurnFailure {
            kind: TurnFailureKind::Provider,
            diagnostic: "diag".to_owned(),
            user_message: "try later".to_owned(),
            retryable: true,
        },
    };
    let sent = event(AgentEvent::TurnOutcome(failed));
    let out = pump.on_event(&mut pending, &mut RequestIds::new(), sent);
    assert!(matches!(
        &out[0],
        Action::Respond { end: PromptEnd::Failed(error), .. }
            if error.data == ErrorData::Text("try later".to_owned()) && error.code == -32603
    ));
}

#[test]
fn available_command_projection_tracks_registry_generation() {
    let presented = |name: &str, hint: Option<&str>| PresentedCommand {
        name: name.to_owned(),
        description: "Review code".to_owned(),
        argument_hint: hint.map(str::to_owned),
    };
    let mut commands: Vec<PresentedCommand> =
        ["/compact", "/model", "/cd", "/btw", "/yolo", "/fast", "/workflow"]
            .iter()
            .map(|name| presented(name, None))
            .collect();
    let names = |commands: &Vec<PresentedCommand>| {
        available_commands(commands).into_iter().map(|c| c.name).collect::<Vec<_>>()
    };
    assert_eq!(
        names(&commands),
        ["compact", "model", "cd", "btw", "yolo", "fast", "workflow"]
    );
    commands.push(presented("/review", Some("<path>")));
    let told = available_commands(&commands);
    let review = told.iter().find(|command| command.name == "review").unwrap();
    assert_eq!(review.description, "Review code");
    assert_eq!(review.argument_hint.as_deref(), Some("<path>"));
}

#[test]
fn discovered_models_are_pushed_to_the_client() {
    let mut specs = vec![OFFLINE_SPEC.to_owned()];
    assert!(refresh_models(&mut specs, vec![DISCOVERED_SPEC.to_owned()]));
    assert_eq!(specs, [OFFLINE_SPEC, DISCOVERED_SPEC]);
    let shown = session_config_options(&snapshot(2, OFFLINE_SPEC, "disabled", "disabled"), false);
    assert_eq!(shown.len(), 5);
    for option in &shown[1..4] {
        assert!(matches!(&option.kind, ConfigKind::Select { current, .. } if current == "disabled"));
    }
    assert!(!refresh_models(&mut specs, vec![DISCOVERED_SPEC.to_owned()]));
    assert_eq!(specs.len(), 2);
    assert!(refresh_models(&mut specs, vec!["a".to_owned(), "a".to_owned()]));
    assert_eq!(specs.len(), 3);
}

#[test]
fn options_are_shown_once_for_each_version() {
    let mut projection = OptionProjection { supports_boolean: true, emitted_version: 4 };
    assert!(projection.emit(&snapshot(4, OFFLINE_SPEC, "enabled", "disabled")).is_none());
    assert!(projection.emit(&snapshot(5, OFFLINE_SPEC, "enabled", "disabled")).is_some());
    assert!(projection.apply(&snapshot(5, OFFLINE_SPEC, "disabled", "disabled")).is_none());
    assert!(projection.emit(&snapshot(3, OFFLINE_SPEC, "disabled", "disabled")).is_none());
    assert_eq!(projection.emitted_version, 5);
}

fn compact(server: &mut Server, ids: &mut OperationIds, id: i64) -> (u64, String, Action) {
    let Ok(PromptStep::Compaction(instructions)) =
        route_prompt(InputDispatch::ManualCompaction(None), RequestId::Number(id))
    else {
        panic!("a compaction");
    };
    let started = send_manual_compaction(
        pending(server),
        ids,
        RequestId::Number(id),
        instructions,
        LeaseReply::Granted(1),
        9,
    )
    .unwrap();
    (started.operation_id, started.tool_id, started.shown)
}

#[test]
fn compact_tool_progress_success_sequence() {
    let mut server = server_awaiting_answer();
    let mut ids = OperationIds::new();
    let (operation_id, tool, shown) = compact(&mut server, &mut ids, 30);
    assert_eq!(tool, "compact-1");
    assert_eq!(
        shown,
        Action::Update(SessionUpdate::LocalOperationPending {
            tool_id: tool.clone(),
            title: "Compact context".to_owned(),
        })
    );
    let pending = pending(&mut server);
    let started =
        on_compaction_event(pending, operation_id, &tool, ManualCompactionEvent::Started);
    assert!(!started.done);
    assert!(matches!(&started.actions[0], Action::Update(update)
        if update.status() == Some(ToolCallStatus::InProgress)));
    let done = on_compaction_event(pending, operation_id, &tool, ManualCompactionEvent::Completed);
    assert!(done.done);
    assert!(matches!(&done.actions[0], Action::Update(update)
        if update.status() == Some(ToolCallStatus::Completed)));
    assert_eq!(done.actions[1], answers(30, StopReason::EndTurn));
    assert_eq!(done.actions.len(), 2);
}

#[test]
fn compact_prompt_cancellation_completes_once() {
    let mut server = server_awaiting_answer();
    let mut ids = OperationIds::new();
    let (operation_id, tool, _) = compact(&mut server, &mut ids, 33);
    let cancelled =
        server.handle_notification("session/cancel", &cancel_request(SESSION), true).unwrap();
    assert_eq!(cancelled.trigger, Some(9));
    let pending = pending(&mut server);
    let ended = on_compaction_event(pending, operation_id, &tool, ManualCompactionEvent::Cancelled);
    assert!(matches!(&ended.actions[0], Action::Update(update)
        if update.status() == Some(ToolCallStatus::Failed)));
    assert_eq!(ended.actions[1], answers(33, StopReason::Cancelled));
    let late = on_compaction_event(pending, operation_id, &tool, ManualCompactionEvent::Completed);
    assert!(late.actions.is_empty());
    assert!(on_compaction_end(pending, operation_id, &tool).is_empty());
}

#[test]
fn compact_tool_progress_failure_sequence() {
    let mut server = server_awaiting_answer();
    let mut ids = OperationIds::new();
    let (operation_id, tool, _) = compact(&mut server, &mut ids, 32);
    let failed = ManualCompactionEvent::Failed("save failed".to_owned());
    let ended = on_compaction_event(pending(&mut server), operation_id, &tool, failed);
    assert!(matches!(&ended.actions[0], Action::Update(update)
        if update.status() == Some(ToolCallStatus::Failed)));
    let Action::Respond { id, end: PromptEnd::Failed(error) } = &ended.actions[1] else {
        panic!("the prompt has failed");
    };
    assert_eq!(*id, RequestId::Number(32));
    assert_eq!(error.data, ErrorData::Text("save failed".to_owned()));
    assert_eq!(ended.actions.len(), 2);
}

#[test]
fn operations_that_fall_silent_fail() {
    let mut server = server_awaiting_answer();
    let mut ids = OperationIds::new();
    let (operation_id, tool, _) = compact(&mut server, &mut ids, 32);
    let ended = on_compaction_end(pending(&mut server), operation_id, &tool);
    assert!(matches!(
        &ended[1],
        Action::Respond { end: PromptEnd::Failed(error), .. }
            if error.data == ErrorData::Text("manual compaction event stream ended".to_owned())
    ));
    let content = CommandContent { text: "why?".to_owned(), attachments: vec![] };
    let started = send_isolated_turn(
        pending(&mut server),
        &mut ids,
        RequestId::Number(33),
        content,
        LeaseReply::Granted(1),
        9,
    )
    .unwrap();
    let ended = on_isolated_end(pending(&mut server), started.operation_id);
    assert!(matches!(
        &ended[0],
        Action::Respond { end: PromptEnd::Failed(error), .. }
            if error.data == ErrorData::Text("isolated turn event stream ended".to_owned())
    ));
}

#[test]
fn operations_need_a_lease() {
    let mut pending = Pending::new();
    let mut ids = OperationIds::new();
    let mut start = |pending: &mut Pending, lease| {
        let id = RequestId::Number(1);
        send_manual_compaction(pending, &mut ids, id, None, lease, 9).map(|started| started.tool_id)
    };
    let error = start(&mut pending, LeaseReply::NoCoordinator).unwrap_err();
    assert_eq!(error.message, "no active session");
    let busy = CoordinatorError::SessionBusy { message: "busy".to_owned() };
    assert_eq!(start(&mut pending, LeaseReply::Refused(busy)).unwrap_err().message, "busy");
    assert!(pending.operation.is_none());
    assert_eq!(start(&mut pending, LeaseReply::Granted(4)).unwrap(), "compact-1");
    let error = start(&mut pending, LeaseReply::Granted(5)).unwrap_err();
    assert_eq!(error.message, "session already has an active operation");
    assert_eq!(ids.take(), 2);
    let error = pending.admit_prompt().unwrap_err();
    assert_eq!((error.code, error.message.as_str()), (-32600, "session already has an active operation"));
}

#[test]
fn btw_streams_and_completes_active_prompt() {
    let mut server = server_awaiting_answer();
    let mut ids = OperationIds::new();
    let content = CommandContent {
        text: "why?".to_owned(),
        attachments: vec![CommandAttachment {
            media_type: "image/png".to_owned(),
            data: "aGVsbG8=".to_owned(),
        }],
    };
    let Ok(PromptStep::Question(content)) =
        route_prompt(InputDispatch::IsolatedTurn(content), RequestId::Number(31))
    else {
        panic!("a question");
    };
    let started = send_isolated_turn(
        pending(&mut server),
        &mut ids,
        RequestId::Number(31),
        content,
        LeaseReply::Granted(1),
        9,
    )
    .unwrap();
    assert_eq!(started.question, "why?");
    assert_eq!(started.images.len(), 1);
    let id = started.operation_id;
    let pending = pending(&mut server);
    let thought =
        on_isolated_event(pending, id, IsolatedTurnEvent::ThinkingDelta("thought".to_owned()));
    assert_eq!(
        thought.actions,
        vec![Action::Update(SessionUpdate::ThinkingDelta("thought".to_owned()))]
    );
    let answer = on_isolated_event(pending, id, IsolatedTurnEvent::TextDelta("answer".to_owned()));
    assert_eq!(
        answer.actions,
        vec![Action::Update(SessionUpdate::TextDelta("answer".to_owned()))]
    );
    let done = on_isolated_event(pending, id, IsolatedTurnEvent::Done);
    assert!(done.done);
    assert_eq!(done.actions, vec![answers(31, StopReason::EndTurn)]);
    assert!(on_isolated_event(pending, id, IsolatedTurnEvent::Done).actions.is_empty());
    assert!(on_isolated_event(pending, id, IsolatedTurnEvent::Cancelled).actions.is_empty());
}

#[test]
fn completed_then_cancelled_session_can_be_replaced_and_prompted() {
    let mut server = server_awaiting_answer();
    pending(&mut server).permissions.clear();
    let mut pump = EventPump::new(false, ROOT, true);
    let (mut ids, mut requests) = (OperationIds::new(), RequestIds::new());
    start_prompt(&mut server, &mut ids, "old primary", 81).unwrap();
    let hidden = subagent_event(AgentEvent::ControlComplete, None);
    assert!(pump.on_event(pending(&mut server), &mut requests, hidden).is_empty());
    let done = event(AgentEvent::ControlComplete);
    assert_eq!(
        pump.on_event(pending(&mut server), &mut requests, done),
        vec![answers(81, StopReason::EndTurn)]
    );
    server.handle_notification("session/cancel", &cancel_request(SESSION), true);
    server.close_session();
    server.install_session(STALE.to_owned(), ROOT, false, 1);
    assert!(pending(&mut server).operation.is_none());
    let raw = prompt_request(STALE, "new primary", false);
    assert_eq!(server.handle_prompt(&raw, true).unwrap().text, "new primary");
}

fn rejected(message: &str) -> AcpError {
    let id = RequestId::Number(1);
    route_prompt(InputDispatch::Failed(message.to_owned()), id).unwrap_err()
}

fn failed_builtin(id: BuiltinId, words: &str, attachments: Vec<CommandAttachment>) -> AcpError {
    match interpret(id, words, attachments, false) {
        Err(CommandError::Producer(message)) => rejected(&format!("command failed: {message}")),
        other => panic!("unexpected {other:?}"),
    }
}

#[test]
fn unknown_slash_prompt_is_rejected() {
    let error = rejected("unknown command /does-not-exist");
    assert_eq!(error.code, AcpError::invalid_params().code);
    assert_eq!(error.message, "unknown command /does-not-exist");
    assert_eq!(command_error("x").code, -32602);
}

#[test]
fn escaped_slash_prompt_is_sent_literal() {
    let mut server = server_awaiting_answer();
    let raw = prompt_request(SESSION, "//does-not-exist value", true);
    let said = server.handle_prompt(&raw, true).unwrap();
    assert_eq!(said.text, "//does-not-exist value");
    let content =
        CommandContent { text: "/does-not-exist value".to_owned(), attachments: said.attachments };
    let Ok(PromptStep::Turn(turn)) =
        route_prompt(InputDispatch::LiteralInput(content), RequestId::Number(2))
    else {
        panic!("a turn");
    };
    let started = send_command_turn(
        pending(&mut server),
        &mut OperationIds::new(),
        RequestId::Number(2),
        turn,
        &AgentMode::Build,
        SessionDefaults::default(),
        Some(&vec![]),
        LeaseReply::Granted(1),
        9,
    )
    .unwrap();
    assert_eq!(started.input.message, "/does-not-exist value");
    assert_eq!(started.input.images.len(), 1);
    assert_eq!(started.input.images[0].media_type, ImageMediaType::Png);
    assert_eq!(started.input.images[0].data, "aGVsbG8=");
}

#[test]
fn turns_run_under_the_sessions_options() {
    let mut pending = Pending::new();
    let turn = || AgentTurn {
        content: CommandContent { text: "x".to_owned(), attachments: vec![] },
        prompt: None,
    };
    let options = snapshot(1, OFFLINE_SPEC, "disabled", "enabled").options;
    let mut ids = OperationIds::new();
    let defaults = SessionDefaults { thinking: ThinkingConfig::Low, fast: false, workflow: true };
    let mut send = |pending: &mut Pending, session| {
        send_command_turn(
            pending,
            &mut ids,
            RequestId::Number(2),
            turn(),
            &AgentMode::Plan("/p".to_owned()),
            defaults,
            session,
            LeaseReply::Granted(1),
            9,
        )
    };
    assert_eq!(send(&mut pending, None).unwrap_err().message, "no active session");
    let input = send(&mut pending, Some(&options)).unwrap().input;
    assert!(input.fast && input.workflow);
    assert_eq!(input.thinking, ThinkingConfig::Low);
    assert_eq!(input.mode, AgentMode::Plan("/p".to_owned()));
}

#[test]
fn a_command_that_would_start_over_answers_with_guidance() {
    let guidance = "Start a new conversation using the client’s new-session action. \
        This conversation has not been changed.";
    for id in [10, 11] {
        let Ok(PromptStep::Answered { show_options, actions }) =
            route_prompt(new_session_guidance(), RequestId::Number(id))
        else {
            panic!("the prompt is answered");
        };
        assert!(!show_options);
        assert_eq!(
            actions,
            vec![
                Action::Update(SessionUpdate::TextDelta(guidance.to_owned())),
                answers(id, StopReason::EndTurn),
            ]
        );
    }
}

#[test]
fn a_new_working_directory_is_said() {
    let dispatch = InputDispatch::WorkingDirectory("/srv".to_owned());
    let Ok(PromptStep::Answered { actions, .. }) = route_prompt(dispatch, RequestId::Number(1))
    else {
        panic!("the prompt is answered");
    };
    assert_eq!(
        actions[0],
        Action::Update(SessionUpdate::TextDelta("Working directory: /srv".to_owned()))
    );
}

fn review() -> CustomCommand {
    CustomCommand {
        name: "review".to_owned(),
        description: "review code".to_owned(),
        content: "Review $ARGUMENTS".to_owned(),
        scope: CommandScope::Project,
        accepts_args: true,
        argument_hint: None,
    }
}

fn run_review(image: bool) -> (String, usize) {
    let mut server = server_awaiting_answer();
    let raw = prompt_request(SESSION, "/project:review src", image);
    let said = server.handle_prompt(&raw, true).unwrap();
    assert_eq!(said.text, "/project:review src");
    let turn = review().execute("src", said.attachments);
    let Ok(PromptStep::Turn(turn)) =
        route_prompt(InputDispatch::AgentTurn(turn), RequestId::Number(2))
    else {
        panic!("a turn");
    };
    let input = send_command_turn(
        pending(&mut server),
        &mut OperationIds::new(),
        RequestId::Number(2),
        turn,
        &AgentMode::Build,
        SessionDefaults::default(),
        Some(&vec![]),
        LeaseReply::Granted(1),
        9,
    )
    .unwrap()
    .input;
    (input.message, input.images.len())
}

#[test]
fn custom_slash_prompt_dispatches_rendered_agent_input() {
    assert_eq!(run_review(false), ("Review src".to_owned(), 0));
}

#[test]
fn unavailable_interactive_command_is_rejected() {
    let error = rejected("unknown command /help");
    assert_eq!(error.code, AcpError::invalid_params().code);
    assert_eq!(error.message, "unknown command /help");
}

#[test]
fn consecutive_model_errors_follow_each_prompt() {
    let first = rejected("command failed: unsupported provider 'definitely-invalid-provider'");
    let second = rejected("command failed: unsupported provider 'codex'");
    assert_eq!(
        first.message,
        "command failed: unsupported provider 'definitely-invalid-provider'"
    );
    assert_eq!(second.message, "command failed: unsupported provider 'codex'");
}

#[test]
fn portable_bare_model_returns_shared_usage_error() {
    let error = failed_builtin(BuiltinId::Model, "", vec![]);
    assert_eq!(error.code, AcpError::invalid_params().code);
    assert_eq!(error.message, "command failed: Usage: /model <model>");
}

#[test]
fn portable_local_builtin_rejects_non_text_content() {
    let server = server_awaiting_answer();
    let said = server.handle_prompt(&prompt_request(SESSION, "/compact", true), true).unwrap();
    assert_eq!((said.text.as_str(), said.attachments.len()), ("/compact", 1));
    let error = failed_builtin(BuiltinId::Compact, "", said.attachments);
    assert_eq!(error.code, AcpError::invalid_params().code);
    assert_eq!(error.message, "command failed: local commands cannot include non-text content");
    assert!(server.session.as_ref().unwrap().pending.operation.is_none());
}

#[test]
fn agent_turn_preserves_image_content() {
    assert_eq!(run_review(true), ("Review src".to_owned(), 1));
}

#[test]
fn custom_command_with_unsupported_content_has_exact_error() {
    let server = server_awaiting_answer();
    let raw = json(&format!(
        "{{\"params\":{{\"sessionId\":\"{SESSION}\",\"prompt\":[\
         {{\"type\":\"text\",\"text\":\"/project:review src\"}},\
         {{\"type\":\"audio\",\"data\":\"aGVsbG8=\",\"mimeType\":\"audio/wav\"}}]}}}}"
    ));
    let error = server.handle_prompt(&raw, true).unwrap_err();
    assert_eq!(error.code, AcpError::invalid_params().code);
    assert_eq!(
        error.data,
        ErrorData::Text("unsupported content block in command prompt".to_owned())
    );
}

#[test]
fn prompts_hold_resources_and_links() {
    let server = server_awaiting_answer();
    let raw = json(&format!(
        "{{\"params\":{{\"sessionId\":\"{SESSION}\",\"prompt\":[\
         {{\"type\":\"text\",\"text\":\"see\"}},\
         {{\"type\":\"resource_link\",\"name\":\"a\",\"uri\":\"file:///a\"}},\
         {{\"type\":\"resource\",\"resource\":{{\"uri\":\"file:///b\",\"text\":\"body\"}}}}]}}}}"
    ));
    let content = server.handle_prompt(&raw, true).unwrap();
    assert_eq!(content.text, "see\n[Resource: file:///a]\n--- file:///b ---\\nbody");
    let blob = PromptBlock::BlobResource { uri: "file:///c".to_owned() };
    assert!(extract_prompt_content(&vec![blob]).is_err());
    assert!(extract_prompt_content(&vec![PromptBlock::Unknown]).is_err());
    assert_eq!(extract_prompt_content(&vec![]).unwrap().text, "");
}

#[test]
fn completed_lua_slash_prompt_returns_without_agent_input() {
    let Ok(PromptStep::Answered { actions, .. }) =
        route_prompt(InputDispatch::Completed, RequestId::Number(4))
    else {
        panic!("the prompt is answered");
    };
    assert_eq!(actions, vec![answers(4, StopReason::EndTurn)]);
}

#[test]
fn portable_bare_btw_is_rejected_by_registry() {
    let error = rejected("invalid typed arguments for /btw: raw arguments are required");
    assert_eq!(error.code, AcpError::invalid_params().code);
    assert_eq!(
        error.message,
        "invalid typed arguments for /btw: raw arguments are required"
    );
}

#[test]
fn isolated_btw_is_not_forwarded_to_primary_agent() {
    let mut server = server_awaiting_answer();
    let content = CommandContent { text: "explain this".to_owned(), attachments: vec![] };
    let started = send_isolated_turn(
        pending(&mut server),
        &mut OperationIds::new(),
        RequestId::Number(4),
        content,
        LeaseReply::Granted(1),
        9,
    )
    .unwrap();
    let kind = OperationKind::IsolatedTurn;
    let error = abandon_operation(pending(&mut server), started.operation_id, kind);
    assert_eq!(error.code, AcpError::internal_error().code);
    assert_eq!(error.message, "session ended");
    assert!(pending(&mut server).operation.is_none());
}

#[test]
fn restored_cwd_overrides_client_cwd() {
    let restored = "/restored/project";
    let client = "/client/project";
    assert_eq!(effective_session_cwd(Some(restored), client), restored);
    assert_eq!(effective_session_cwd(None, client), client);
}

fn user(text: &str) -> Message {
    Message::user_with_images(text.to_owned(), vec![])
}

fn stored() -> StoredSession {
    StoredSession {
        history: vec![user("rename foo to bar"), user("done")],
        model: "anthropic/test-model".to_owned(),
        cwd: "/project".to_owned(),
        cwd_is_absolute: true,
        meta: StoredMeta {
            yolo: Some(true),
            fast: true,
            workflow: true,
            thinking: Some(ThinkingConfig::High),
            options: vec![("bash.auto_mode".to_owned(), "enabled".to_owned())],
        },
    }
}

fn load_request() -> Value {
    json(&format!(
        "{{\"params\":{{\"sessionId\":\"{SESSION}\",\"cwd\":\"/client\",\"mcpServers\":[]}}}}"
    ))
}

fn found(stored: StoredSession) -> Option<Found> {
    Some(Found { loaded: Ok(stored), directory: Ok(()), elsewhere: None })
}

/// Loads a session whose installation ends as `ends` says, stage by stage: the steps that were
/// taken, in order.
fn load(
    server: &mut Server,
    stored: StoredSession,
    ends: [Result<(), String>; 4],
) -> Vec<RestoreStep> {
    let mut taken = Vec::new();
    let step = restore_requested(&load_request());
    let RestoreStep::LookUp(params) = step else {
        panic!("the request can be read");
    };
    let step = server.restore_found(&params.session_id, found(stored));
    taken.push(RestoreStep::LookUp(params));
    let RestoreStep::Close { restored, .. } = step else {
        panic!("the session can be loaded");
    };
    let fallback = facts(OFFLINE_SPEC, false);
    let defaults = SessionDefaults::default();
    let step = restore_closed(restored, None, true, fallback, "/client", false, defaults);
    let RestoreStep::Start(plan) = step else {
        panic!("the agent starts");
    };
    let mut installation = Installation::begin(SESSION.to_owned(), ROOT, false);
    let mut plan = plan;
    for end in ends {
        match restore_installed(plan, installation.advance(end)) {
            RestoreStep::Install { plan: same, installation: next } => {
                plan = same;
                installation = next;
            }
            last => {
                taken.push(last);
                return taken;
            }
        }
    }
    panic!("the installation ends");
}

#[test]
fn load_failure_does_not_replay_transcript() {
    let taken = "session is registered already";
    let ends = [Ok(()), Ok(()), Ok(()), Err(taken.to_owned())];
    let mut failing = stored();
    failing.history = vec![user("not yet visible")];
    let mut server = bare_server();
    let steps = load(&mut server, failing, ends);
    assert!(
        !steps.iter().any(|step| matches!(step, RestoreStep::Replay(_))),
        "failed installation must not replay history"
    );
    let Some(RestoreStep::Refused { error, rollback }) = steps.last() else {
        panic!("the session has a coordinator");
    };
    assert_eq!(error.data, ErrorData::Text(taken.to_owned()));
    assert_eq!(*rollback, vec![RollbackAction::CancelTask, RollbackAction::ReleaseLock]);
    assert_eq!(respond_request(Method::LoadSession, false), vec![ResponseStep::Respond]);
    assert!(server.session.is_none());
}

#[test]
fn a_new_session_closes_the_served_one_only_where_it_can_be_read() {
    let mut server = server_awaiting_answer();
    let error = server.session_requested(&json("{}")).unwrap_err();
    assert_eq!(error.code, AcpError::invalid_params().code);
    assert_eq!(pending(&mut server).permissions.len(), 1);
    let raw = json("{\"params\":{\"cwd\":\"/client\",\"mcpServers\":[]}}");
    let (params, actions) = server.session_requested(&raw).unwrap();
    assert_eq!(params.cwd, "/client");
    assert!(matches!(actions[0], CloseAction::Act(Action::Reply(_))));
    assert!(matches!(actions[1], CloseAction::CancelTask));
    assert!(server.session.is_none());
}

#[test]
fn a_loaded_session_is_replayed_once_it_is_installed() {
    let mut server = server_awaiting_answer();
    let steps = load(&mut server, stored(), [Ok(()), Ok(()), Ok(()), Ok(())]);
    let Some(RestoreStep::Replay(plan)) = steps.last() else {
        panic!("the conversation is shown");
    };
    assert_eq!(plan.history, stored().history);
    assert_eq!(plan.cwd, "/project");
}

#[test]
fn a_refused_load_leaves_the_served_session_open() {
    let mut server = server_awaiting_answer();
    let served = server.session.as_ref().map(|session| session.session_id.clone());
    assert!(served.is_some());
    assert!(matches!(
        restore_requested(&json("{}")),
        RestoreStep::Refused { error, .. } if error.code == AcpError::invalid_params().code
    ));
    let missing = Found {
        loaded: Err("missing".to_owned()),
        directory: Ok(()),
        elsewhere: None,
    };
    let denied = Found {
        loaded: Ok(stored()),
        directory: Err("denied".to_owned()),
        elsewhere: None,
    };
    let open = Found {
        loaded: Ok(stored()),
        directory: Ok(()),
        elsewhere: Some(OPEN_ELSEWHERE_MSG.to_owned()),
    };
    let refusals = [
        (None, ErrorData::Uri(SESSION.to_owned())),
        (Some(missing), ErrorData::Text("missing".to_owned())),
        (Some(denied), ErrorData::Text("denied".to_owned())),
        (Some(open), ErrorData::Text(OPEN_ELSEWHERE_MSG.to_owned())),
    ];
    for (found, data) in refusals {
        let RestoreStep::Refused { error, rollback } = server.restore_found(SESSION, found) else {
            panic!("the session cannot be loaded");
        };
        assert_eq!(error.data, data);
        assert!(rollback.is_empty());
        assert_eq!(server.session.as_ref().map(|session| session.session_id.clone()), served);
        assert_eq!(pending(&mut server).permissions.len(), 1);
    }
    let RestoreStep::Close { actions, .. } = server.restore_found(SESSION, found(stored())) else {
        panic!("the session can be loaded");
    };
    assert!(!actions.is_empty());
    assert!(server.session.is_none());
}

#[test]
fn load_history_round_trips_stored_messages() {
    let restored = load_history_from(SESSION, Ok(stored()), Ok(()), None).unwrap();
    assert_eq!(restored.history, stored().history);
    assert_eq!(restored.model, "anthropic/test-model");
    assert_eq!(restored.cwd.as_deref(), Some("/project"));
    let relative = StoredSession { cwd_is_absolute: false, ..stored() };
    assert_eq!(load_history_from(SESSION, Ok(relative), Ok(()), None).unwrap().cwd, None);
}

#[test]
fn load_history_restores_projected_option_metadata() {
    let restored = load_history_from(SESSION, Ok(stored()), Ok(()), None).unwrap();
    assert_eq!(restored.meta.yolo, Some(true));
    assert!(restored.meta.fast);
    assert!(restored.meta.workflow);
    assert_eq!(
        restored.meta.options,
        vec![("bash.auto_mode".to_owned(), "enabled".to_owned())]
    );
}

#[test]
fn load_missing_session_is_resource_not_found() {
    let error = load_history_from(SESSION, Err("missing".to_owned()), Ok(()), None).unwrap_err();
    assert_eq!(error.code, AcpError::resource_not_found(String::new()).code);
    assert_eq!(error.data, ErrorData::Text("missing".to_owned()));
    let error = unknown_session("nope".to_owned());
    assert_eq!(error.data, ErrorData::Uri("nope".to_owned()));
}

#[test]
fn load_history_from_rejects_session_open_elsewhere() {
    let elsewhere = Some(OPEN_ELSEWHERE_MSG.to_owned());
    let error = load_history_from(SESSION, Ok(stored()), Ok(()), elsewhere).unwrap_err();
    assert_eq!(error.code, AcpError::internal_error().code);
    assert_eq!(error.data, ErrorData::Text(OPEN_ELSEWHERE_MSG.to_owned()));
    let error =
        load_history_from(SESSION, Ok(stored()), Err("denied".to_owned()), None).unwrap_err();
    assert_eq!(error.data, ErrorData::Text("denied".to_owned()));
    assert!(load_history_from(SESSION, Ok(stored()), Ok(()), None).is_ok());
}

fn facts(spec: &str, able: bool) -> ModelFacts {
    ModelFacts { spec: spec.to_owned(), supports_fast: able, supports_thinking: able }
}

#[test]
fn sessions_start_as_they_were_left() {
    let restored = || load_history_from(SESSION, Ok(stored()), Ok(()), None).unwrap();
    let defaults = SessionDefaults::default();
    let fallback = || facts(OFFLINE_SPEC, false);
    let recorded = || Some(facts("recorded", true));
    let plan = load_session(restored(), recorded(), true, fallback(), "/client", false, defaults);
    assert_eq!(plan.model.spec, "recorded");
    assert_eq!(plan.cwd, "/project");
    assert!(plan.yolo && plan.fast && plan.workflow);
    assert_eq!(plan.thinking, ThinkingConfig::High);
    assert!(plan.defaults.fast && plan.defaults.workflow);
    assert_eq!(plan.history.len(), 2);
    assert_eq!(plan.options.len(), 1);

    let plan = load_session(restored(), recorded(), false, fallback(), "/client", false, defaults);
    assert_eq!(plan.model.spec, OFFLINE_SPEC);
    assert!(!plan.fast && !plan.defaults.fast);
    assert_eq!(plan.thinking, ThinkingConfig::Off);

    let plan = new_session(fallback(), "/client", true, defaults);
    assert_eq!((plan.cwd.as_str(), plan.yolo, plan.fast), ("/client", true, false));
    assert!(plan.history.is_empty());
}

#[test]
fn small_decisions() {
    assert_eq!(question_mode(true), QuestionMode::Elicitation);
    assert_eq!(question_mode(false), QuestionMode::Headless);
    assert!(keeps_beating(false, LockBeat::Held));
    assert!(keeps_beating(false, LockBeat::Failed));
    assert!(!keeps_beating(false, LockBeat::Lost));
    assert!(!keeps_beating(true, LockBeat::Held));
    assert!(policy_trusts(TrustRecord::Unanswered, true));
    assert!(!policy_trusts(TrustRecord::Rejected, true));
    assert!(!policy_trusts(TrustRecord::Unanswered, false));
}

#[test]
fn converts_injected_mcp_servers() {
    let raw = json(&format!(
        "{{\"params\":{{\"sessionId\":\"{SESSION}\",\"cwd\":\"/project\",\"mcpServers\":[\
         {{\"type\":\"http\",\"name\":\"kan.dev/mcp\",\"url\":\"http://127.0.0.1:41012\",\
         \"headers\":[{{\"name\":\"Authorization\",\"value\":\"Bearer abc\"}}]}},\
         {{\"name\":\"local\",\"command\":\"/usr/bin/mcp\",\"args\":[\"--stdio\"],\
         \"env\":[{{\"name\":\"TOKEN\",\"value\":\"t\"}}]}},\
         {{\"type\":\"sse\",\"name\":\"legacy\",\"url\":\"http://127.0.0.1:41013\",\
         \"headers\":[]}}]}}}}"
    ));
    let request = load_session_request(&raw).unwrap();
    assert_eq!((request.session_id.as_str(), request.cwd.as_str()), (SESSION, "/project"));
    let servers = injected_servers(&request.servers, 64);
    assert_eq!(servers.len(), 2, "sse is dropped, not converted");

    let (name, RawTransport::Http { url, headers }) = &servers[0] else {
        panic!("expected http transport");
    };
    assert_eq!(name, "kan-dev-mcp");
    assert_eq!(url, "http://127.0.0.1:41012");
    assert_eq!(headers.get("Authorization").map(String::as_str), Some("Bearer abc"));

    let (name, RawTransport::Stdio { command, environment }) = &servers[1] else {
        panic!("expected stdio transport");
    };
    assert_eq!(name, "local");
    assert_eq!(*command, ["/usr/bin/mcp", "--stdio"]);
    assert_eq!(environment.get("TOKEN").map(String::as_str), Some("t"));

    let request = new_session_request(&raw).unwrap();
    assert_eq!((request.cwd.as_str(), request.servers.len()), ("/project", 3));
    assert_eq!(server_name("a.b.c.d", 3), "a-b");
    assert_eq!(server_name("é", 3), "-");
}

#[test]
fn auth_required_ends_the_prompt_instead_of_parking_the_session() {
    let mut server = server_awaiting_answer();
    pending(&mut server).permissions.clear();
    let mut pump = EventPump::new(false, ROOT, true);
    let mut ids = OperationIds::new();
    start_prompt(&mut server, &mut ids, "first", 41).unwrap();
    let out = pump.on_event(
        pending(&mut server),
        &mut RequestIds::new(),
        event(AgentEvent::AuthRequired),
    );
    let Action::Respond { id, end: PromptEnd::Failed(error) } = &out[0] else {
        panic!("the prompt has ended");
    };
    assert_eq!(*id, RequestId::Number(41));
    assert_eq!(error.code, AcpError::auth_required().code);
    assert_eq!(error.data, ErrorData::Text(AUTH_FAILED_MSG.to_owned()));
    assert_eq!(out[1], Action::CancelRun);
    assert!(pending(&mut server).operation.is_none());
}

#[test]
fn a_response_is_delivered_whatever_shape_its_id_has() {
    for (id, delivered) in [("1001", true), ("\"1001\"", true), ("\"not-an-id\"", false)] {
        let mut server = server_awaiting_answer();
        let raw = json(&format!(
            "{{\"id\":{id},\"result\":{{\"outcome\":\
             {{\"outcome\":\"selected\",\"optionId\":\"allow_once\"}}}}}}"
        ));
        let answered = permission(ROOT, "toolu_1", PermissionAnswer::AllowOnce);
        assert_eq!(respond(&mut server, &raw), delivered.then_some(answered));
        assert_eq!(pending(&mut server).permissions.is_empty(), delivered);
    }
}

#[test]
fn permission_request_carries_file_context_and_diff() {
    let mut server = server_awaiting_answer();
    let mut pump = EventPump::new(false, ROOT, true);
    let (mut ids, mut requests) = (OperationIds::new(), RequestIds::new());
    start_prompt(&mut server, &mut ids, "first", 41).unwrap();
    let started = event(AgentEvent::ToolStart(tool_start(
        "call_write",
        "write",
        "",
        "{\"content\":\"new text\",\"path\":\"/project/file.txt\"}",
    )));
    pump.on_event(pending(&mut server), &mut requests, started);
    let asked = event(permission_request("call_write", "write", "/project/file.txt"));
    let out = pump.on_event(pending(&mut server), &mut requests, asked);
    let Action::AskPermission { raw_input: Some(input), .. } = &out[0] else {
        panic!("the client is asked");
    };
    assert_eq!(json(input)["content"], "new text");
}

#[test]
fn full_snapshot_maps_order_and_categories() {
    let shown = session_config_options(&snapshot(1, OFFLINE_SPEC, "enabled", "disabled"), false);
    let ids: Vec<&str> = shown.iter().map(|option| option.id.as_str()).collect();
    assert_eq!(ids, ["model", "yolo", "fast", "workflow", "thinking"]);
    assert_eq!(shown[0].category, ConfigCategory::Model);
    assert!(shown[1..4].iter().all(|option| option.category == ConfigCategory::Mode));
    assert_eq!(shown[4].category, ConfigCategory::ThoughtLevel);
}

#[test]
fn supported_toggle_options_project_as_boolean() {
    let shown = session_config_options(&snapshot(1, OFFLINE_SPEC, "enabled", "disabled"), true);
    assert!(matches!(shown[0].kind, ConfigKind::Select { .. }));
    assert_eq!(shown[1].kind, ConfigKind::Boolean(true));
    assert_eq!(shown[2].kind, ConfigKind::Boolean(false));
    assert_eq!(shown[3].kind, ConfigKind::Boolean(false));
    assert!(matches!(shown[4].kind, ConfigKind::Select { .. }));
}

#[test]
fn legacy_projection_keeps_toggle_select_domains() {
    let shown = session_config_options(&snapshot(1, OFFLINE_SPEC, "enabled", "disabled"), false);
    assert!(shown.iter().all(|option| matches!(option.kind, ConfigKind::Select { .. })));
    assert_eq!(
        shown[1].kind,
        ConfigKind::Select {
            current: "enabled".to_owned(),
            values: values(&["enabled", "disabled"]),
        }
    );
}

#[test]
fn agent_info_names_makima() {
    assert_eq!(initialize_response("1").agent_name, "makima");
}

#[test]
fn modes_are_chosen_by_name() {
    let modes = modes();
    assert_eq!(mode_id_to_agent_mode("build", &modes, None), Some(AgentMode::Build));
    assert_eq!(
        mode_id_to_agent_mode("plan", &modes, Some("/p.md".to_owned())),
        Some(AgentMode::Plan("/p.md".to_owned()))
    );
    assert_eq!(mode_id_to_agent_mode("plan", &modes, None), None);
    assert_eq!(
        mode_id_to_agent_mode("audit", &modes, None),
        Some(AgentMode::Custom("audit".to_owned()))
    );
    assert_eq!(mode_id_to_agent_mode("nope", &modes, None), None);
    let state = load_session_response(&modes);
    let ids: Vec<&str> = state.modes.iter().map(|mode| mode.id.as_str()).collect();
    assert_eq!(ids, ["build", "plan", "audit"]);
}

#[test]
fn a_mode_is_set_and_shown() {
    let mut server = server_awaiting_answer();
    let request = |mode: &str| {
        json(&format!("{{\"params\":{{\"sessionId\":\"{SESSION}\",\"modeId\":\"{mode}\"}}}}"))
    };
    let shown = server.handle_set_mode(&request("audit"), true, None).unwrap();
    assert_eq!(shown, Action::Update(SessionUpdate::CurrentMode("audit".to_owned())));
    let session = server.session.as_ref().unwrap();
    assert_eq!(session.mode, AgentMode::Custom("audit".to_owned()));
    let error = server.handle_set_mode(&request("nope"), true, None).unwrap_err();
    assert_eq!((error.code, error.message.as_str()), (-32602, "unknown mode: nope"));
}
