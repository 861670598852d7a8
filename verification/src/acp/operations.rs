//! The operations that prompts start: how each begins, and how it ends.
use vstd::prelude::*;

use crate::acp::error;
use crate::acp::error::{coordinator_error, no_session, AcpError, CoordinatorError};
use crate::acp::options;
use crate::acp::options::{enabled, SessionOption};
use crate::acp::pending;
use crate::acp::pending::{OperationKind, Pending, PendingModel, RequestId};
use crate::acp::prompt;
use crate::acp::prompt::attached_images;
use crate::acp::updates;
use crate::acp::updates::{
    failed_prompt, Action, EndView, PromptEnd, SessionUpdate, StopReason,
};
use crate::agent::isolated_turn::IsolatedTurnEvent;
use crate::text;
use crate::text::decimal_text;
use crate::types::{
    AgentInput, AgentMode, AgentTurn, CommandAttachment, CommandContent, ImageSource, McpPromptRef,
    Message, SessionDefaults,
};

verus! {

/// Identities for operations.
#[derive(Debug)]
pub struct OperationIds {
    pub next: u64,
}

/// The identity that follows another.
pub open spec fn following_operation(id: u64) -> u64 {
    if id == u64::MAX {
        0
    } else {
        (id + 1) as u64
    }
}

impl OperationIds {
    /// The first identities.
    pub fn new() -> (result: Self)
        ensures
            result.next == 1,
    {
        OperationIds { next: 1 }
    }

    /// The next identity.
    pub fn take(&mut self) -> (result: u64)
        ensures
            result == old(self).next,
            final(self).next == following_operation(old(self).next),
    {
        let id: u64 = self.next;
        self.next = if id == u64::MAX { 0 } else { id + 1 };
        id
    }
}

/// What came of asking the session's coordinator for a lease on its history.
#[derive(Debug)]
pub enum LeaseReply {
    NoCoordinator,
    Refused(CoordinatorError),
    Granted(u64),
}

/// The error with which an operation is refused: another is active, the session has no
/// coordinator, or the coordinator refuses the lease.
pub open spec fn start_error(pending: PendingModel, lease: LeaseReply) -> Option<error::ErrorView> {
    if pending.operation is Some {
        Some(pending::busy_error())
    } else {
        match lease {
            LeaseReply::NoCoordinator => Some(error::no_session_view()),
            LeaseReply::Refused(refusal) => Some(error::coordinator_error_view(refusal)),
            LeaseReply::Granted(_) => None,
        }
    }
}

/// What is outstanding once an operation has begun under the next identity.
pub open spec fn started(
    pending: PendingModel,
    next: u64,
    request_id: RequestId,
    kind: OperationKind,
    cancel: u64,
    lease: LeaseReply,
) -> PendingModel {
    pending::begun(pending, next, request_id, kind, cancel, lease->Granted_0)
}

/// Begins an operation under the next identity, or says why it cannot begin.
fn start_operation(
    pending: &mut Pending,
    ids: &mut OperationIds,
    request_id: RequestId,
    kind: OperationKind,
    lease: LeaseReply,
    cancel: u64,
) -> (result: Result<u64, AcpError>)
    ensures
        match start_error(old(pending)@, lease) {
            Some(error) => {
                &&& result is Err
                &&& result->Err_0@ == error
                &&& final(pending)@ == old(pending)@
                &&& final(ids).next == old(ids).next
            },
            None => {
                &&& result == Ok::<_, AcpError>(old(ids).next)
                &&& final(ids).next == following_operation(old(ids).next)
                &&& final(pending)@ == started(
                    old(pending)@,
                    old(ids).next,
                    request_id,
                    kind,
                    cancel,
                    lease,
                )
            },
        },
{
    match pending.check_free() {
        Ok(()) => {},
        Err(error) => {
            return Err(error);
        },
    }
    let lease: u64 = match lease {
        LeaseReply::NoCoordinator => {
            return Err(no_session());
        },
        LeaseReply::Refused(refusal) => {
            return Err(coordinator_error(refusal));
        },
        LeaseReply::Granted(lease) => lease,
    };
    let id: u64 = ids.take();
    match pending.begin_operation(id, request_id, kind, cancel, lease) {
        Ok(()) => Ok(id),
        Err(error) => Err(error),
    }
}

/// Ends an operation that could not be handed to the session's agent, and gives the error.
pub fn abandon_operation(pending: &mut Pending, operation_id: u64, kind: OperationKind)
    -> (result: AcpError)
    ensures
        result@ == error::plain_error(-32603, "session ended"@),
        final(pending)@ == (if pending::is_active(old(pending)@, operation_id, kind) {
            pending::ended(old(pending)@)
        } else {
            old(pending)@
        }),
{
    pending.release_operation(operation_id, kind);
    AcpError::new(-32603, "session ended")
}

/// A compaction that a prompt has started: what the client shows it as, what the client is told,
/// and what the agent is asked.
#[derive(Debug)]
pub struct StartedCompaction {
    pub operation_id: u64,
    pub tool_id: String,
    pub shown: Action,
    pub instructions: Option<String>,
}

/// What the client shows a compaction as.
pub open spec fn compaction_tool(operation_id: u64) -> Seq<char> {
    "compact-"@ + text::decimal(operation_id as nat)
}

/// Starts a compaction for a prompt.
pub fn send_manual_compaction(
    pending: &mut Pending,
    ids: &mut OperationIds,
    request_id: RequestId,
    instructions: Option<String>,
    lease: LeaseReply,
    cancel: u64,
) -> (result: Result<StartedCompaction, AcpError>)
    ensures
        match start_error(old(pending)@, lease) {
            Some(error) => {
                &&& result is Err
                &&& result->Err_0@ == error
                &&& final(pending)@ == old(pending)@
                &&& final(ids).next == old(ids).next
            },
            None => {
                &&& result matches Ok(begun) && {
                    &&& begun.operation_id == old(ids).next
                    &&& begun.tool_id@ == compaction_tool(old(ids).next)
                    &&& begun.instructions == instructions
                    &&& begun.shown matches Action::Update(
                        SessionUpdate::LocalOperationPending { tool_id, title },
                    ) && tool_id == begun.tool_id && title@ == "Compact context"@
                }
                &&& final(ids).next == following_operation(old(ids).next)
                &&& final(pending)@ == started(
                    old(pending)@,
                    old(ids).next,
                    request_id,
                    OperationKind::ManualCompaction,
                    cancel,
                    lease,
                )
            },
        },
{
    let operation_id: u64 = match start_operation(
        pending,
        ids,
        request_id,
        OperationKind::ManualCompaction,
        lease,
        cancel,
    ) {
        Ok(id) => id,
        Err(error) => {
            return Err(error);
        },
    };
    let mut tool_id = "compact-".to_owned();
    let number = decimal_text(operation_id);
    tool_id.append(number.as_str());
    let shown = Action::Update(
        SessionUpdate::LocalOperationPending {
            tool_id: tool_id.clone(),
            title: "Compact context".to_owned(),
        },
    );
    Ok(StartedCompaction { operation_id, tool_id, shown, instructions })
}

/// What a compaction reports.
#[derive(Debug, PartialEq, Eq)]
pub enum ManualCompactionEvent {
    Started,
    Completed,
    Cancelled,
    Failed(String),
}

/// What comes of an event of an operation: what the host does, and whether the operation's events
/// have come to an end.
#[derive(Debug)]
pub struct OperationStep {
    pub actions: Vec<Action>,
    pub done: bool,
}

/// An action shows that a local operation has come to an end.
pub open spec fn shows_terminal(action: Action, tool_id: Seq<char>, failure: Option<Seq<char>>)
    -> bool {
    action matches Action::Update(SessionUpdate::LocalOperationTerminal { tool_id: shown, error })
        && {
        &&& shown@ == tool_id
        &&& match failure {
            Some(text) => error is Some && error->0@ == text,
            None => error is None,
        }
    }
}

/// How a compaction comes to an end: what it shows as its failure, and how it answers the prompt.
pub open spec fn compaction_end(event: ManualCompactionEvent) -> (Option<Seq<char>>, EndView) {
    match event {
        ManualCompactionEvent::Cancelled => (
            Some("cancelled"@),
            EndView::Stopped(StopReason::Cancelled),
        ),
        ManualCompactionEvent::Failed(reason) => (
            Some(reason@),
            EndView::Failed(error::internal_error_because(reason@)),
        ),
        _ => (None, EndView::Stopped(StopReason::EndTurn)),
    }
}

/// What ends a compaction, if it is the active operation: the client is shown the end and the
/// prompt is answered, once.
pub open spec fn compaction_ended(
    before: PendingModel,
    operation_id: u64,
    tool_id: Seq<char>,
    failure: Option<Seq<char>>,
    end: EndView,
    actions: Seq<Action>,
    after: PendingModel,
) -> bool {
    if pending::is_active(before, operation_id, OperationKind::ManualCompaction) {
        &&& after == pending::ended(before)
        &&& actions.len() == 2
        &&& shows_terminal(actions[0], tool_id, failure)
        &&& updates::answers_prompt(actions[1], before.operation->0.request_id, end)
    } else {
        after == before && actions.len() == 0
    }
}

/// Ends a compaction.
fn end_compaction(
    pending: &mut Pending,
    operation_id: u64,
    tool_id: &str,
    failure: Option<String>,
    end: PromptEnd,
) -> (result: Vec<Action>)
    ensures
        compaction_ended(
            old(pending)@,
            operation_id,
            tool_id@,
            match failure {
                Some(text) => Some(text@),
                None => None,
            },
            end@,
            result@,
            final(pending)@,
        ),
{
    let mut actions: Vec<Action> = Vec::new();
    match pending.finish_operation(operation_id, OperationKind::ManualCompaction) {
        Some(id) => {
            actions.push(
                Action::Update(
                    SessionUpdate::LocalOperationTerminal {
                        tool_id: tool_id.to_owned(),
                        error: failure,
                    },
                ),
            );
            actions.push(Action::Respond { id, end });
        },
        None => {},
    }
    actions
}

/// Takes an event of a compaction.
pub fn on_compaction_event(
    pending: &mut Pending,
    operation_id: u64,
    tool_id: &str,
    event: ManualCompactionEvent,
) -> (result: OperationStep)
    ensures
        result.done == !(event is Started),
        if event is Started {
            &&& final(pending)@ == old(pending)@
            &&& result.actions@.len() == 1
            &&& result.actions@[0] matches Action::Update(
                SessionUpdate::LocalOperationStarted { tool_id: shown },
            ) && shown@ == tool_id@
        } else {
            compaction_ended(
                old(pending)@,
                operation_id,
                tool_id@,
                compaction_end(event).0,
                compaction_end(event).1,
                result.actions@,
                final(pending)@,
            )
        },
{
    match event {
        ManualCompactionEvent::Started => {
            let mut actions: Vec<Action> = Vec::new();
            actions.push(
                Action::Update(
                    SessionUpdate::LocalOperationStarted { tool_id: tool_id.to_owned() },
                ),
            );
            OperationStep { actions, done: false }
        },
        ManualCompactionEvent::Completed => OperationStep {
            actions: end_compaction(
                pending,
                operation_id,
                tool_id,
                None,
                PromptEnd::Stopped(StopReason::EndTurn),
            ),
            done: true,
        },
        ManualCompactionEvent::Cancelled => OperationStep {
            actions: end_compaction(
                pending,
                operation_id,
                tool_id,
                Some("cancelled".to_owned()),
                PromptEnd::Stopped(StopReason::Cancelled),
            ),
            done: true,
        },
        ManualCompactionEvent::Failed(reason) => {
            let end = failed_prompt(reason.clone());
            OperationStep {
                actions: end_compaction(pending, operation_id, tool_id, Some(reason), end),
                done: true,
            }
        },
    }
}

/// Ends a compaction that reports nothing any more.
pub fn on_compaction_end(pending: &mut Pending, operation_id: u64, tool_id: &str)
    -> (result: Vec<Action>)
    ensures
        compaction_ended(
            old(pending)@,
            operation_id,
            tool_id@,
            Some("event stream ended"@),
            EndView::Failed(
                error::internal_error_because("manual compaction event stream ended"@),
            ),
            result@,
            final(pending)@,
        ),
{
    end_compaction(
        pending,
        operation_id,
        tool_id,
        Some("event stream ended".to_owned()),
        failed_prompt("manual compaction event stream ended".to_owned()),
    )
}

/// A side question that a prompt has started: what the agent is asked.
#[derive(Debug)]
pub struct StartedQuestion {
    pub operation_id: u64,
    pub question: String,
    pub images: Vec<ImageSource>,
}

/// Starts a side question for a prompt.
pub fn send_isolated_turn(
    pending: &mut Pending,
    ids: &mut OperationIds,
    request_id: RequestId,
    content: CommandContent,
    lease: LeaseReply,
    cancel: u64,
) -> (result: Result<StartedQuestion, AcpError>)
    ensures
        match start_error(old(pending)@, lease) {
            Some(error) => {
                &&& result is Err
                &&& result->Err_0@ == error
                &&& final(pending)@ == old(pending)@
                &&& final(ids).next == old(ids).next
            },
            None => {
                &&& result matches Ok(begun) && {
                    &&& begun.operation_id == old(ids).next
                    &&& begun.question == content.text
                    &&& begun.images@ == content.attachments@.map_values(
                        |a: CommandAttachment| prompt::attached_image(a),
                    )
                }
                &&& final(ids).next == following_operation(old(ids).next)
                &&& final(pending)@ == started(
                    old(pending)@,
                    old(ids).next,
                    request_id,
                    OperationKind::IsolatedTurn,
                    cancel,
                    lease,
                )
            },
        },
{
    let operation_id: u64 = match start_operation(
        pending,
        ids,
        request_id,
        OperationKind::IsolatedTurn,
        lease,
        cancel,
    ) {
        Ok(id) => id,
        Err(error) => {
            return Err(error);
        },
    };
    let images = attached_images(&content.attachments);
    Ok(StartedQuestion { operation_id, question: content.text, images })
}

/// How a side question comes to an end: how it answers the prompt.
pub open spec fn question_end(event: IsolatedTurnEvent) -> EndView {
    match event {
        IsolatedTurnEvent::Cancelled => EndView::Stopped(StopReason::Cancelled),
        IsolatedTurnEvent::Error(reason) => EndView::Failed(
            error::internal_error_because(reason@),
        ),
        _ => EndView::Stopped(StopReason::EndTurn),
    }
}

/// What ends a side question, if it is the active operation: the prompt is answered, once.
pub open spec fn question_ended(
    before: PendingModel,
    operation_id: u64,
    end: EndView,
    actions: Seq<Action>,
    after: PendingModel,
) -> bool {
    if pending::is_active(before, operation_id, OperationKind::IsolatedTurn) {
        &&& after == pending::ended(before)
        &&& actions.len() == 1
        &&& updates::answers_prompt(actions[0], before.operation->0.request_id, end)
    } else {
        after == before && actions.len() == 0
    }
}

/// Ends a side question.
fn end_question(pending: &mut Pending, operation_id: u64, end: PromptEnd) -> (result: Vec<Action>)
    ensures
        question_ended(old(pending)@, operation_id, end@, result@, final(pending)@),
{
    let mut actions: Vec<Action> = Vec::new();
    match pending.finish_operation(operation_id, OperationKind::IsolatedTurn) {
        Some(id) => {
            actions.push(Action::Respond { id, end });
        },
        None => {},
    }
    actions
}

/// Takes an event of a side question.
pub fn on_isolated_event(pending: &mut Pending, operation_id: u64, event: IsolatedTurnEvent)
    -> (result: OperationStep)
    ensures
        result.done == !(event is TextDelta || event is ThinkingDelta),
        match event {
            IsolatedTurnEvent::TextDelta(delta) => {
                &&& final(pending)@ == old(pending)@
                &&& result.actions@ == seq![Action::Update(SessionUpdate::TextDelta(delta))]
            },
            IsolatedTurnEvent::ThinkingDelta(delta) => {
                &&& final(pending)@ == old(pending)@
                &&& result.actions@ == seq![Action::Update(SessionUpdate::ThinkingDelta(delta))]
            },
            _ => question_ended(
                old(pending)@,
                operation_id,
                question_end(event),
                result.actions@,
                final(pending)@,
            ),
        },
{
    match event {
        IsolatedTurnEvent::TextDelta(delta) => {
            let mut actions: Vec<Action> = Vec::new();
            actions.push(Action::Update(SessionUpdate::TextDelta(delta)));
            OperationStep { actions, done: false }
        },
        IsolatedTurnEvent::ThinkingDelta(delta) => {
            let mut actions: Vec<Action> = Vec::new();
            actions.push(Action::Update(SessionUpdate::ThinkingDelta(delta)));
            OperationStep { actions, done: false }
        },
        IsolatedTurnEvent::Done => OperationStep {
            actions: end_question(pending, operation_id, PromptEnd::Stopped(StopReason::EndTurn)),
            done: true,
        },
        IsolatedTurnEvent::Cancelled => OperationStep {
            actions: end_question(
                pending,
                operation_id,
                PromptEnd::Stopped(StopReason::Cancelled),
            ),
            done: true,
        },
        IsolatedTurnEvent::Error(reason) => OperationStep {
            actions: end_question(pending, operation_id, failed_prompt(reason)),
            done: true,
        },
    }
}

/// Ends a side question that reports nothing any more.
pub fn on_isolated_end(pending: &mut Pending, operation_id: u64) -> (result: Vec<Action>)
    ensures
        question_ended(
            old(pending)@,
            operation_id,
            EndView::Failed(error::internal_error_because("isolated turn event stream ended"@)),
            result@,
            final(pending)@,
        ),
{
    end_question(
        pending,
        operation_id,
        failed_prompt("isolated turn event stream ended".to_owned()),
    )
}

/// A turn that a prompt has started: what the agent is asked.
#[derive(Debug)]
pub struct StartedTurn {
    pub operation_id: u64,
    pub input: AgentInput,
}

/// The input with a message, images and a session's options; one that was made from an outside
/// prompt is answered alone.
pub fn agent_input(
    message: String,
    images: Vec<ImageSource>,
    mode: AgentMode,
    defaults: SessionDefaults,
    prompt: Option<McpPromptRef>,
) -> (result: AgentInput)
    ensures
        result.message == message,
        result.images == images,
        result.mode == mode,
        result.preamble@ == Seq::<Message>::empty(),
        result.thinking == defaults.thinking,
        result.fast == defaults.fast,
        result.workflow == defaults.workflow,
        result.prompt == prompt,
        result.batch_key == (if prompt is Some {
            None
        } else {
            Some(0u64)
        }),
{
    let mut input = AgentInput::from_defaults(message, mode, images, defaults);
    if prompt.is_some() {
        input.batch_key = None;
    }
    input.prompt = prompt;
    input
}

/// The input that a turn is asked for with: the session's options, and fast mode and workflow where
/// the session has switched them on. One that was made from an outside prompt is answered alone.
pub open spec fn turn_input(
    input: AgentInput,
    turn: AgentTurn,
    mode: AgentMode,
    defaults: SessionDefaults,
    session: Seq<SessionOption>,
) -> bool {
    &&& input.message == turn.content.text
    &&& input.images@ == turn.content.attachments@.map_values(
        |a: CommandAttachment| prompt::attached_image(a),
    )
    &&& input.mode == mode
    &&& input.preamble@.len() == 0
    &&& input.thinking == defaults.thinking
    &&& input.fast == (defaults.fast || options::any_on(session, "fast"@))
    &&& input.workflow == (defaults.workflow || options::any_on(session, "workflow"@))
    &&& input.prompt == turn.prompt
    &&& input.batch_key == (if turn.prompt is Some {
        None
    } else {
        Some(0u64)
    })
}

/// Starts a turn for a prompt. A session without a coordinator has no options.
pub fn send_command_turn(
    pending: &mut Pending,
    ids: &mut OperationIds,
    request_id: RequestId,
    turn: AgentTurn,
    mode: &AgentMode,
    defaults: SessionDefaults,
    session: Option<&Vec<SessionOption>>,
    lease: LeaseReply,
    cancel: u64,
) -> (result: Result<StartedTurn, AcpError>)
    ensures
        match (session, start_error(old(pending)@, lease)) {
            (Some(session), None) => {
                &&& result matches Ok(begun) && {
                    &&& begun.operation_id == old(ids).next
                    &&& turn_input(begun.input, turn, *mode, defaults, session@)
                }
                &&& final(ids).next == following_operation(old(ids).next)
                &&& final(pending)@ == started(
                    old(pending)@,
                    old(ids).next,
                    request_id,
                    OperationKind::PrimaryTurn,
                    cancel,
                    lease,
                )
            },
            (None, _) => {
                &&& result is Err
                &&& result->Err_0@ == error::no_session_view()
                &&& final(pending)@ == old(pending)@
                &&& final(ids).next == old(ids).next
            },
            (_, Some(error)) => {
                &&& result is Err
                &&& result->Err_0@ == error
                &&& final(pending)@ == old(pending)@
                &&& final(ids).next == old(ids).next
            },
        },
{
    let AgentTurn { content, prompt } = turn;
    let images = attached_images(&content.attachments);
    let session = match session {
        Some(session) => session,
        None => {
            return Err(no_session());
        },
    };
    let mut defaults = defaults;
    defaults.fast = defaults.fast || enabled(session, "fast");
    defaults.workflow = defaults.workflow || enabled(session, "workflow");
    let input = agent_input(content.text, images, mode.clone(), defaults, prompt);
    match start_operation(
        pending,
        ids,
        request_id,
        OperationKind::PrimaryTurn,
        lease,
        cancel,
    ) {
        Ok(operation_id) => Ok(StartedTurn { operation_id, input }),
        Err(error) => Err(error),
    }
}

} // verus!
