//! What the client hears of an agent's events, and how prompts are answered.
use vstd::prelude::*;

use crate::acp::error::{
    command_error, coordinator_error, no_session, session_registration_error, AcpError,
    CoordinatorError, ErrorData,
};
use crate::acp::event_pump;
use crate::acp::event_pump::{AgentEvent, Envelope, EventPump, RequestIds};
use crate::acp::pending;
use crate::acp::pending::{Answer, OperationKind, Pending, PermissionAnswer, PermissionAsk, Reply};
use crate::acp::updates::{
    failed_prompt, map_done_reason, prompt_end, Action, PromptEnd, SessionUpdate, StopReason,
    ToolCallStatus,
};
use crate::types::{DoneReason, TurnOutcome};

verus! {

/// The error has a code and a message, and carries a text that says more.
pub open spec fn explained(error: AcpError, code: int, message: Seq<char>, more: Seq<char>)
    -> bool {
    &&& error.code == code
    &&& error.message@ == message
    &&& error.data matches ErrorData::Text(text) && text@ == more
}

/// The error has a code and a message, and carries nothing.
pub open spec fn bare(error: AcpError, code: int, message: Seq<char>) -> bool {
    &&& error.code == code
    &&& error.message@ == message
    &&& error.data is Nothing
}

/// Each kind of error has its own code and message.
pub proof fn law_errors_are_told_apart(
    parse: AcpError,
    request: AcpError,
    method: AcpError,
    params: AcpError,
    internal: AcpError,
    auth: AcpError,
    session: AcpError,
    uri: String,
    missing: AcpError,
)
    requires
        call_ensures(AcpError::parse_error, (), parse),
        call_ensures(AcpError::invalid_request, (), request),
        call_ensures(AcpError::method_not_found, (), method),
        call_ensures(AcpError::invalid_params, (), params),
        call_ensures(AcpError::internal_error, (), internal),
        call_ensures(AcpError::auth_required, (), auth),
        call_ensures(no_session, (), session),
        call_ensures(AcpError::resource_not_found, (uri,), missing),
    ensures
        bare(parse, -32700, "Parse error"@),
        bare(request, -32600, "Invalid request"@),
        bare(method, -32601, "Method not found"@),
        bare(params, -32602, "Invalid params"@),
        bare(internal, -32603, "Internal error"@),
        bare(auth, -32000, "Authentication required"@),
        bare(session, -32600, "no active session"@),
        missing.code == -32002,
        missing.message@ == "Resource not found"@,
        missing.data matches ErrorData::Uri(named) && named@ == uri@,
{
}

/// An error is what it is made of.
pub proof fn law_errors_are_what_they_are_made_of(
    code: i32,
    message: &str,
    plain: AcpError,
    data: ErrorData,
    more: AcpError,
    failed: AcpError,
    reason: String,
    registration: AcpError,
)
    requires
        call_ensures(AcpError::new, (code, message), plain),
        call_ensures(AcpError::data, (plain, data), more),
        call_ensures(command_error, (message,), failed),
        call_ensures(session_registration_error, (reason,), registration),
    ensures
        bare(plain, code as int, message@),
        more.code == code,
        more.message@ == message@,
        data matches ErrorData::Text(text) ==> (more.data matches ErrorData::Text(own) && own@
            == text@),
        data matches ErrorData::Uri(uri) ==> (more.data matches ErrorData::Uri(own) && own@
            == uri@),
        data is Retryable ==> more.data is Retryable,
        data is Nothing ==> more.data is Nothing,
        bare(failed, -32602, message@),
        explained(registration, -32603, "Internal error"@, reason@),
{
}

/// Why the coordinator refuses is what the client is told.
pub proof fn law_refusals_reach_the_client(refusal: CoordinatorError, error: AcpError)
    requires
        call_ensures(coordinator_error, (refusal,), error),
    ensures
        match refusal {
            CoordinatorError::StaleSession { id } => {
                &&& error.code == -32002
                &&& error.message@ == "Resource not found"@
                &&& error.data matches ErrorData::Uri(uri) && uri@ == "session/"@ + id@
            },
            CoordinatorError::SessionBusy { message } => bare(error, -32600, message@),
            CoordinatorError::OptionRejected { message } => explained(
                error,
                -32602,
                "Invalid params"@,
                message@,
            ),
            CoordinatorError::Other { message } => explained(
                error,
                -32603,
                "Internal error"@,
                message@,
            ),
        },
{
}

/// A prompt is answered with how its turn ended: the reason where it completed, cancelled where it
/// was, and an internal error with the message for the user where it failed.
pub open spec fn answered_as(outcome: TurnOutcome, end: PromptEnd) -> bool {
    match outcome {
        TurnOutcome::Completed { reason, .. } => end == PromptEnd::Stopped(
            match reason {
                DoneReason::EndTurn => StopReason::EndTurn,
                DoneReason::MaxTokens => StopReason::MaxTokens,
                DoneReason::MaxTurns => StopReason::MaxTurnRequests,
            },
        ),
        TurnOutcome::Cancelled { .. } => end == PromptEnd::Stopped(StopReason::Cancelled),
        TurnOutcome::Failed { failure, .. } => end matches PromptEnd::Failed(error) && explained(
            error,
            -32603,
            "Internal error"@,
            failure.user_message@,
        ),
    }
}

/// A prompt is answered with how its turn ended.
pub proof fn law_prompts_end_as_their_turns(
    outcome: TurnOutcome,
    end: PromptEnd,
    reason: DoneReason,
    stop: StopReason,
    why: String,
    failed: PromptEnd,
)
    requires
        call_ensures(prompt_end, (outcome,), end),
        call_ensures(map_done_reason, (reason,), stop),
        call_ensures(failed_prompt, (why,), failed),
    ensures
        answered_as(outcome, end),
        stop == StopReason::EndTurn <==> reason == DoneReason::EndTurn,
        stop == StopReason::MaxTokens <==> reason == DoneReason::MaxTokens,
        stop == StopReason::MaxTurnRequests <==> reason == DoneReason::MaxTurns,
        failed matches PromptEnd::Failed(error) && explained(
            error,
            -32603,
            "Internal error"@,
            why@,
        ),
{
    assert(outcome is Completed ==> end is Stopped);
}

/// What the client is shown of a tool call's way: pending when it is announced or started, in
/// progress when it runs, failed or completed when it has ended. No other update says anything of
/// it.
pub proof fn law_statuses_follow_the_call(
    update: SessionUpdate,
    status: Option<ToolCallStatus>,
    announces: bool,
)
    requires
        call_ensures(SessionUpdate::status, (&update,), status),
        call_ensures(SessionUpdate::announces_pending, (&update,), announces),
    ensures
        match update {
            SessionUpdate::ToolPending { .. }
            | SessionUpdate::ToolStart(_)
            | SessionUpdate::LocalOperationPending { .. } => status == Some(
                ToolCallStatus::Pending,
            ),
            SessionUpdate::ToolExecutionStart { .. }
            | SessionUpdate::LocalOperationStarted { .. } => status == Some(
                ToolCallStatus::InProgress,
            ),
            SessionUpdate::ToolDone(done) => status == Some(
                if done.is_error {
                    ToolCallStatus::Failed
                } else {
                    ToolCallStatus::Completed
                },
            ),
            SessionUpdate::LocalOperationTerminal { error, .. } => status == Some(
                if error is Some {
                    ToolCallStatus::Failed
                } else {
                    ToolCallStatus::Completed
                },
            ),
            SessionUpdate::TextDelta(_)
            | SessionUpdate::ThinkingDelta(_)
            | SessionUpdate::Usage { .. }
            | SessionUpdate::ToolOutput { .. }
            | SessionUpdate::CurrentMode(_) => status is None,
        },
        announces <==> status == Some(ToolCallStatus::Pending),
{
}

/// The host tells the client one thing, and does nothing else.
pub open spec fn shows_only(actions: Seq<Action>, update: SessionUpdate) -> bool {
    actions.len() == 1 && actions[0] == Action::Update(update)
}

/// The client sees each event of the session's own agent as what it is: text as text, thinking as
/// thinking, a tool's steps as those steps with what they carry, and the end of a request as the
/// usage. Nothing outstanding changes by it.
pub proof fn law_events_are_shown_as_they_are(
    pump: &mut EventPump,
    outstanding: &mut Pending,
    ids: &mut RequestIds,
    envelope: Envelope,
    actions: Vec<Action>,
)
    requires
        call_ensures(EventPump::on_event, (pump, outstanding, ids, envelope), actions),
        envelope.subagent is None,
    ensures
        match envelope.event {
            AgentEvent::TextDelta { text } => shows_only(actions@, SessionUpdate::TextDelta(text)),
            AgentEvent::ThinkingDelta { text } => shows_only(
                actions@,
                SessionUpdate::ThinkingDelta(text),
            ),
            AgentEvent::ThinkingBlockEnd => {
                &&& actions@.len() == 1
                &&& actions@[0] matches Action::Update(SessionUpdate::ThinkingDelta(text)) && text@
                    == "\n\n"@
            },
            AgentEvent::ToolPending { id, name } => shows_only(
                actions@,
                SessionUpdate::ToolPending { id, name },
            ),
            AgentEvent::ToolStart(start) => shows_only(actions@, SessionUpdate::ToolStart(start)),
            AgentEvent::ToolExecutionStart { id } => shows_only(
                actions@,
                SessionUpdate::ToolExecutionStart { id },
            ),
            AgentEvent::ToolOutput { id, content } => shows_only(
                actions@,
                SessionUpdate::ToolOutput { id, content },
            ),
            AgentEvent::ToolDone(done) => shows_only(actions@, SessionUpdate::ToolDone(done)),
            AgentEvent::TurnComplete { context_size, context_window } => shows_only(
                actions@,
                SessionUpdate::Usage { context_size, context_window },
            ),
            AgentEvent::Silent => actions@.len() == 0,
            _ => true,
        },
        !(envelope.event is PermissionRequest || envelope.event is AuthRequired || envelope.event
            is Question || envelope.event is TurnOutcome || envelope.event is ControlComplete
            || envelope.event is ControlError) ==> {
            &&& final(outstanding)@ == old(outstanding)@
            &&& final(ids).next == old(ids).next
        },
{
}

/// What the client is told comes from an event of its own kind: text only from text, thinking only
/// from thinking, and a prompt is answered only where a run ends or authentication fails.
pub proof fn law_what_is_told_has_happened(
    pump: &mut EventPump,
    outstanding: &mut Pending,
    ids: &mut RequestIds,
    envelope: Envelope,
    actions: Vec<Action>,
    i: int,
)
    requires
        call_ensures(EventPump::on_event, (pump, outstanding, ids, envelope), actions),
        0 <= i < actions@.len(),
    ensures
        match actions@[i] {
            Action::Update(SessionUpdate::TextDelta(_)) => envelope.event is TextDelta,
            Action::Update(SessionUpdate::ThinkingDelta(_)) => envelope.event is ThinkingDelta
                || envelope.event is ThinkingBlockEnd,
            Action::Update(SessionUpdate::ToolPending { .. }) => envelope.event is ToolPending,
            Action::Update(SessionUpdate::ToolStart(_)) => envelope.event is ToolStart,
            Action::Update(SessionUpdate::ToolExecutionStart { .. }) => envelope.event
                is ToolExecutionStart,
            Action::Update(SessionUpdate::ToolOutput { .. }) => envelope.event is ToolOutput,
            Action::Update(SessionUpdate::ToolDone(_)) => envelope.event is ToolDone,
            Action::Update(SessionUpdate::Usage { .. }) => envelope.event is TurnComplete,
            Action::Update(_) => false,
            Action::Respond { .. } => envelope.event is TurnOutcome || envelope.event
                is ControlComplete || envelope.event is ControlError || envelope.event
                is AuthRequired,
            Action::AskPermission { .. } => envelope.event is PermissionRequest,
            Action::AskElicitation { .. } => envelope.event is Question,
            Action::Reply(_) => envelope.event is PermissionRequest || envelope.event is Question,
            Action::CancelRun => envelope.event is AuthRequired,
        },
        envelope.subagent is Some ==> envelope.event is PermissionRequest,
{
}

/// The client hears nothing of a subagent but the permissions that it asks for on a channel of its
/// own.
pub proof fn law_subagents_are_not_heard(
    pump: &mut EventPump,
    outstanding: &mut Pending,
    ids: &mut RequestIds,
    envelope: Envelope,
    actions: Vec<Action>,
)
    requires
        call_ensures(EventPump::on_event, (pump, outstanding, ids, envelope), actions),
        envelope.subagent is Some,
        envelope.subagent == Some(None::<u64>) || !(envelope.event is PermissionRequest),
    ensures
        actions@.len() == 0,
        final(outstanding)@ == old(outstanding)@,
        final(ids).next == old(ids).next,
        final(pump).tool_inputs@ == old(pump).tool_inputs@,
{
}

/// The pump keeps what it was made with, and knows the input of each call that has been started,
/// until the run ends.
pub proof fn law_inputs_are_known_while_the_run_lasts(
    pump: &mut EventPump,
    outstanding: &mut Pending,
    ids: &mut RequestIds,
    envelope: Envelope,
    actions: Vec<Action>,
)
    requires
        call_ensures(EventPump::on_event, (pump, outstanding, ids, envelope), actions),
        envelope.subagent is None,
    ensures
        final(pump).elicitation == old(pump).elicitation,
        final(pump).channel == old(pump).channel,
        final(pump).project_trusted == old(pump).project_trusted,
        envelope.event matches AgentEvent::ToolStart(start) ==> {
            &&& start.raw_input matches Some(input) ==> final(pump).tool_inputs@ == old(pump).tool_inputs@.insert(start.id@, input)
            &&& start.raw_input is None ==> final(pump).tool_inputs@ == old(pump).tool_inputs@
        },
        envelope.event is TurnOutcome || envelope.event is ControlComplete || envelope.event
            is ControlError || envelope.event is AuthRequired
            ==> final(pump).tool_inputs@.dom().is_empty(),
        !(envelope.event is ToolStart || envelope.event is TurnOutcome || envelope.event
            is ControlComplete || envelope.event is ControlError || envelope.event is AuthRequired)
            ==> final(pump).tool_inputs@ == old(pump).tool_inputs@,
{
}

/// A new pump is what it is made with and knows no inputs.
pub proof fn law_new_pumps_know_no_inputs(
    elicitation: bool,
    channel: u64,
    project_trusted: bool,
    pump: EventPump,
)
    requires
        call_ensures(EventPump::new, (elicitation, channel, project_trusted), pump),
    ensures
        pump.elicitation == elicitation,
        pump.channel == channel,
        pump.project_trusted == project_trusted,
        pump.tool_inputs@.dom().is_empty(),
{
}

/// Texts in one line: each behind a comma, but for the first.
pub open spec fn in_one_line(texts: Seq<String>, count: int) -> Seq<char>
    decreases count,
{
    if count <= 0 {
        Seq::empty()
    } else if count == 1 {
        texts[0]@
    } else {
        in_one_line(texts, count - 1) + ", "@ + texts[count - 1]@
    }
}

/// The scopes are listed in one line.
proof fn lemma_listed(scopes: Seq<String>, count: int)
    requires
        0 <= count <= scopes.len(),
    ensures
        event_pump::listed(scopes.take(count)) == in_one_line(scopes, count),
    decreases count,
{
    if count > 1 {
        lemma_listed(scopes, count - 1);
        assert(scopes.take(count).drop_last() =~= scopes.take(count - 1));
    }
}

/// The permission that was asked for under a request, from a position on.
pub proof fn lemma_ask_position(asks: Seq<PermissionAsk>, id: int, from: int)
    requires
        0 <= from,
    ensures
        match pending::ask_position(asks, id, from) {
            Some(at) => from <= at < asks.len() && asks[at].request_id == id && forall|k: int|
                from <= k < at ==> (#[trigger] asks[k]).request_id != id,
            None => forall|k: int|
                from <= k < asks.len() ==> (#[trigger] asks[k]).request_id != id,
        },
    decreases asks.len() - from,
{
    if from < asks.len() && asks[from].request_id != id {
        lemma_ask_position(asks, id, from + 1);
    }
}

/// A permission is asked for under an identity of its own, with the tool, the scopes and the input
/// of the call, and what is outstanding says which question waits for the answer and where. While
/// the operation is being cancelled it is denied at once, where it was asked.
pub proof fn law_permissions_are_asked_for(
    pump: &mut EventPump,
    outstanding: &mut Pending,
    ids: &mut RequestIds,
    envelope: Envelope,
    actions: Vec<Action>,
    other: PermissionAsk,
)
    requires
        call_ensures(EventPump::on_event, (pump, outstanding, ids, envelope), actions),
        envelope.event is PermissionRequest,
        envelope.subagent != Some(None::<u64>),
    ensures
        ({
            let before = old(outstanding)@;
            let after = final(outstanding)@;
            let id = envelope.event->PermissionRequest_id;
            let tool = envelope.event->PermissionRequest_tool;
            let scopes = envelope.event->PermissionRequest_scopes;
            let own = old(ids).next;
            let channel = match envelope.subagent {
                Some(Some(theirs)) => theirs,
                _ => old(pump).channel,
            };
            let cancelling = before.operation is Some && before.operation->0.cancelling;
            &&& actions@.len() == 1
            &&& own < i64::MAX ==> final(ids).next == own + 1
            &&& final(ids).next != own
            &&& after.operation == before.operation
            &&& after.retired_primary_run == before.retired_primary_run
            &&& after.elicitation == before.elicitation
            &&& cancelling ==> {
                &&& after.permissions == before.permissions
                &&& actions@[0] matches Action::Reply(answer) && answer.channel == channel
                    && answer.reply == (Reply::Permission {
                    permission_id: id,
                    answer: PermissionAnswer::Deny,
                })
            }
            &&& !cancelling ==> {
                &&& actions@[0] matches Action::AskPermission {
                    request_id,
                    tool_call_id,
                    title,
                    tool: asked,
                    raw_input,
                    project_trusted,
                } && {
                    &&& request_id == own
                    &&& tool_call_id == id
                    &&& title@ == tool@ + ": "@ + in_one_line(scopes@, scopes@.len() as int)
                    &&& asked == tool
                    &&& envelope.subagent is None && old(pump).tool_inputs@.dom().contains(id@)
                        ==> raw_input == Some(old(pump).tool_inputs@[id@])
                    &&& envelope.subagent is Some || !old(pump).tool_inputs@.dom().contains(id@)
                        ==> raw_input is None
                    &&& project_trusted == old(pump).project_trusted
                }
                &&& after.permissions.contains(
                    PermissionAsk { request_id: own, permission_id: id, channel },
                )
                &&& other.request_id != own ==> (after.permissions.contains(other)
                    <==> before.permissions.contains(other))
            }
        }),
{
    let before = old(outstanding)@;
    let after = final(outstanding)@;
    let scopes = envelope.event->PermissionRequest_scopes@;
    let own = old(ids).next;
    let channel = event_pump::answer_channel(old(pump).channel, envelope.subagent);
    let ask = PermissionAsk {
        request_id: own,
        permission_id: envelope.event->PermissionRequest_id,
        channel,
    };
    lemma_listed(scopes, scopes.len() as int);
    assert(scopes.take(scopes.len() as int) =~= scopes);
    lemma_ask_position(before.permissions, own as int, 0);
    if !(before.operation is Some && before.operation->0.cancelling) {
        match pending::ask_position(before.permissions, own as int, 0) {
            Some(at) => {
                assert(after.permissions[at] == ask);
                if other.request_id != own {
                    if after.permissions.contains(other) {
                        let k = choose|k: int|
                            0 <= k < after.permissions.len() && after.permissions[k] == other;
                        assert(before.permissions[k] == other);
                    }
                    if before.permissions.contains(other) {
                        let k = choose|k: int|
                            0 <= k < before.permissions.len() && before.permissions[k] == other;
                        assert(after.permissions[k] == other);
                    }
                }
            },
            None => {
                assert(after.permissions[before.permissions.len() as int] == ask);
                if other.request_id != own {
                    if after.permissions.contains(other) {
                        let k = choose|k: int|
                            0 <= k < after.permissions.len() && after.permissions[k] == other;
                        assert(before.permissions[k] == other);
                    }
                    if before.permissions.contains(other) {
                        let k = choose|k: int|
                            0 <= k < before.permissions.len() && before.permissions[k] == other;
                        assert(after.permissions[k] == other);
                    }
                }
            },
        }
    }
}

/// The answer dismisses the question on a channel.
pub open spec fn dismissed(answer: Answer, channel: u64) -> bool {
    &&& answer.channel == channel
    &&& answer.reply matches Reply::Text(text) && text@ == "{\"dismissed\":true}"@
}

/// A question is put to a client that fills in forms, under an identity of its own; a client that
/// does not, or an operation that is being cancelled, has it dismissed.
pub proof fn law_questions_are_asked_or_dismissed(
    pump: &mut EventPump,
    outstanding: &mut Pending,
    ids: &mut RequestIds,
    envelope: Envelope,
    actions: Vec<Action>,
)
    requires
        call_ensures(EventPump::on_event, (pump, outstanding, ids, envelope), actions),
        envelope.event is Question,
        envelope.subagent is None,
    ensures
        ({
            let before = old(outstanding)@;
            let after = final(outstanding)@;
            let form = envelope.event->Question_form;
            let cancelling = before.operation is Some && before.operation->0.cancelling;
            let asks = old(pump).elicitation && form is Some && !cancelling;
            &&& actions@.len() == 1
            &&& after.operation == before.operation
            &&& after.retired_primary_run == before.retired_primary_run
            &&& after.permissions == before.permissions
            &&& asks ==> {
                &&& actions@[0] == (Action::AskElicitation {
                    request_id: old(ids).next,
                    form: form->0,
                })
                &&& after.elicitation == Some(old(ids).next)
                &&& final(ids).next != old(ids).next
            }
            &&& !asks ==> {
                &&& actions@[0] matches Action::Reply(answer) && dismissed(
                    answer,
                    old(pump).channel,
                )
                &&& after.elicitation == before.elicitation
            }
        }),
{
}

/// The active operation is the primary turn of a run that has not ended yet.
pub open spec fn is_run_of(outstanding: Pending, run_id: u64) -> bool {
    &&& outstanding@.operation matches Some(operation) && {
        &&& operation.kind == OperationKind::PrimaryTurn
        &&& operation.run_id is None || operation.run_id == Some(run_id)
    }
    &&& outstanding@.retired_primary_run is None || outstanding@.retired_primary_run->0 < run_id
}

/// Where a run ends, the prompt that started it is answered once, as the run ended, and nothing of
/// it is outstanding any more. A run that is not the active one, or that has ended before, answers
/// nothing.
pub proof fn law_a_run_answers_its_prompt(
    pump: &mut EventPump,
    outstanding: &mut Pending,
    ids: &mut RequestIds,
    envelope: Envelope,
    actions: Vec<Action>,
)
    requires
        call_ensures(EventPump::on_event, (pump, outstanding, ids, envelope), actions),
        envelope.event is TurnOutcome || envelope.event is ControlComplete || envelope.event
            is ControlError,
        envelope.subagent is None,
    ensures
        final(ids).next == old(ids).next,
        !is_run_of(*old(outstanding), envelope.run_id) ==> actions@.len() == 0 && final(outstanding)@ == old(outstanding)@,
        is_run_of(*old(outstanding), envelope.run_id) ==> {
            &&& final(outstanding)@.operation is None
            &&& final(outstanding)@.permissions.len() == 0
            &&& final(outstanding)@.elicitation is None
            &&& final(outstanding)@.retired_primary_run == Some(envelope.run_id)
            &&& actions@.len() == 1
            &&& actions@[0] matches Action::Respond { id, end } && {
                &&& id == old(outstanding)@.operation->0.request_id
                &&& match envelope.event {
                    AgentEvent::TurnOutcome(outcome) => answered_as(outcome, end),
                    AgentEvent::ControlComplete => end == PromptEnd::Stopped(StopReason::EndTurn),
                    AgentEvent::ControlError { message } => end matches PromptEnd::Failed(error)
                        && explained(error, -32603, "Internal error"@, message@),
                    _ => false,
                }
            }
        },
{
}

/// Where authentication fails, the run is cancelled, and the prompt of a primary turn is answered
/// with what the user can do.
pub proof fn law_failed_authentication_ends_the_turn(
    pump: &mut EventPump,
    outstanding: &mut Pending,
    ids: &mut RequestIds,
    envelope: Envelope,
    actions: Vec<Action>,
)
    requires
        call_ensures(EventPump::on_event, (pump, outstanding, ids, envelope), actions),
        envelope.event is AuthRequired,
        envelope.subagent is None,
    ensures
        ({
            let before = old(outstanding)@;
            let after = final(outstanding)@;
            let primary = before.operation is Some && before.operation->0.kind
                == OperationKind::PrimaryTurn;
            &&& actions@.len() > 0
            &&& actions@.last() is CancelRun
            &&& !primary ==> actions@.len() == 1 && after == before
            &&& primary ==> {
                &&& actions@.len() == 2
                &&& actions@[0] matches Action::Respond { id, end } && {
                    &&& id == before.operation->0.request_id
                    &&& end matches PromptEnd::Failed(error) && explained(
                        error,
                        -32000,
                        "Authentication required"@,
                        "Authentication failed. Run `maki auth login`, then send the prompt again."@,
                    )
                }
                &&& after.operation is None
                &&& after.permissions.len() == 0
                &&& after.elicitation is None
                &&& after.retired_primary_run == before.retired_primary_run
            }
        }),
{
}

/// Where the agent reports nothing any more, the prompt of a primary turn is answered with an
/// error.
pub proof fn law_a_silent_agent_ends_the_turn(outstanding: &mut Pending, action: Option<Action>)
    requires
        call_ensures(EventPump::on_end, (outstanding,), action),
    ensures
        ({
            let before = old(outstanding)@;
            let after = final(outstanding)@;
            let primary = before.operation is Some && before.operation->0.kind
                == OperationKind::PrimaryTurn;
            &&& !primary ==> action is None && after == before
            &&& primary ==> {
                &&& action matches Some(Action::Respond { id, end }) && {
                    &&& id == before.operation->0.request_id
                    &&& end matches PromptEnd::Failed(error) && explained(
                        error,
                        -32603,
                        "Internal error"@,
                        "session event stream ended"@,
                    )
                }
                &&& after.operation is None
                &&& after.permissions.len() == 0
                &&& after.elicitation is None
                &&& after.retired_primary_run == before.retired_primary_run
            }
        }),
{
}

/// The identities of requests are all different until they have all been used.
pub proof fn law_request_identities_differ(
    first: RequestIds,
    ids: &mut RequestIds,
    taken: i64,
)
    requires
        call_ensures(RequestIds::new, (), first),
        call_ensures(RequestIds::take, (ids,), taken),
    ensures
        first.next == 1000,
        taken == old(ids).next,
        old(ids).next < i64::MAX ==> final(ids).next == old(ids).next + 1,
        old(ids).next == i64::MAX ==> final(ids).next == i64::MIN,
{
}

} // verus!
