//! What a session tells its client without being asked.
use vstd::prelude::*;

use crate::acp::error;
use crate::acp::error::AcpError;
use crate::acp::pending::{Answer, RequestId};
use crate::agent::events::{ToolDone, ToolStart};
use crate::types::{DoneReason, TurnOutcome};

verus! {

/// Why a prompt ended.
#[derive(Debug, Clone, Copy, PartialEq, Eq, Structural)]
pub enum StopReason {
    EndTurn,
    MaxTokens,
    MaxTurnRequests,
    Cancelled,
}

/// How far a tool call has come.
#[derive(Debug, Clone, Copy, PartialEq, Eq, Structural)]
pub enum ToolCallStatus {
    Pending,
    InProgress,
    Completed,
    Failed,
}

/// One update of what the client shows.
#[derive(Debug, PartialEq, Eq)]
pub enum SessionUpdate {
    TextDelta(String),
    ThinkingDelta(String),
    ToolPending { id: String, name: String },
    ToolStart(ToolStart),
    ToolExecutionStart { id: String },
    ToolOutput { id: String, content: String },
    ToolDone(ToolDone),
    Usage { context_size: Option<u32>, context_window: u32 },
    LocalOperationPending { tool_id: String, title: String },
    LocalOperationStarted { tool_id: String },
    LocalOperationTerminal { tool_id: String, error: Option<String> },
    CurrentMode(String),
}

/// The status that an update gives its tool call, where it gives one.
pub open spec fn status_of(update: SessionUpdate) -> Option<ToolCallStatus> {
    match update {
        SessionUpdate::ToolPending { .. } => Some(ToolCallStatus::Pending),
        SessionUpdate::ToolStart(_) => Some(ToolCallStatus::Pending),
        SessionUpdate::LocalOperationPending { .. } => Some(ToolCallStatus::Pending),
        SessionUpdate::ToolExecutionStart { .. } => Some(ToolCallStatus::InProgress),
        SessionUpdate::LocalOperationStarted { .. } => Some(ToolCallStatus::InProgress),
        SessionUpdate::ToolDone(done) => Some(
            if done.is_error {
                ToolCallStatus::Failed
            } else {
                ToolCallStatus::Completed
            },
        ),
        SessionUpdate::LocalOperationTerminal { error, .. } => Some(
            if error is Some {
                ToolCallStatus::Failed
            } else {
                ToolCallStatus::Completed
            },
        ),
        _ => None,
    }
}

impl SessionUpdate {
    /// The status that the update gives its tool call, where it gives one.
    pub fn status(&self) -> (result: Option<ToolCallStatus>)
        ensures
            result == status_of(*self),
    {
        match self {
            SessionUpdate::ToolPending { .. } => Some(ToolCallStatus::Pending),
            SessionUpdate::ToolStart(_) => Some(ToolCallStatus::Pending),
            SessionUpdate::LocalOperationPending { .. } => Some(ToolCallStatus::Pending),
            SessionUpdate::ToolExecutionStart { .. } => Some(ToolCallStatus::InProgress),
            SessionUpdate::LocalOperationStarted { .. } => Some(ToolCallStatus::InProgress),
            SessionUpdate::ToolDone(done) => if done.is_error {
                Some(ToolCallStatus::Failed)
            } else {
                Some(ToolCallStatus::Completed)
            },
            SessionUpdate::LocalOperationTerminal { error, .. } => if error.is_some() {
                Some(ToolCallStatus::Failed)
            } else {
                Some(ToolCallStatus::Completed)
            },
            _ => None,
        }
    }

    /// Whether the update must say in so many words that its tool call is pending.
    pub fn announces_pending(&self) -> (result: bool)
        ensures
            result == (status_of(*self) == Some(ToolCallStatus::Pending)),
    {
        match self.status() {
            Some(ToolCallStatus::Pending) => true,
            _ => false,
        }
    }
}

/// How a prompt is answered: the reason it stopped, or an error.
#[derive(Debug, PartialEq, Eq)]
pub enum PromptEnd {
    Stopped(StopReason),
    Failed(AcpError),
}

/// How a prompt is answered, as a mathematical value.
pub enum EndView {
    Stopped(StopReason),
    Failed(error::ErrorView),
}

impl View for PromptEnd {
    type V = EndView;

    open spec fn view(&self) -> EndView {
        match self {
            PromptEnd::Stopped(reason) => EndView::Stopped(*reason),
            PromptEnd::Failed(error) => EndView::Failed(error@),
        }
    }
}

/// What the host does for a session.
#[derive(Debug, PartialEq, Eq)]
pub enum Action {
    /// Tells the client what has changed.
    Update(SessionUpdate),
    /// Answers a prompt.
    Respond { id: RequestId, end: PromptEnd },
    /// Asks the client for a permission.
    AskPermission {
        request_id: i64,
        tool_call_id: String,
        title: String,
        tool: String,
        raw_input: Option<String>,
        project_trusted: bool,
    },
    /// Asks the client to fill in a form.
    AskElicitation { request_id: i64, form: String },
    /// Answers a question of the agent.
    Reply(Answer),
    /// Cancels the agent's run.
    CancelRun,
}

/// An action answers a prompt in a certain way.
pub open spec fn answers_prompt(action: Action, id: RequestId, end: EndView) -> bool {
    action matches Action::Respond { id: answered, end: given } && answered == id && given@ == end
}

/// The reason a completed turn stopped, as the client sees it.
pub open spec fn stop_reason(reason: DoneReason) -> StopReason {
    match reason {
        DoneReason::EndTurn => StopReason::EndTurn,
        DoneReason::MaxTokens => StopReason::MaxTokens,
        DoneReason::MaxTurns => StopReason::MaxTurnRequests,
    }
}

/// The reason a completed turn stopped, as the client sees it.
pub fn map_done_reason(reason: DoneReason) -> (result: StopReason)
    ensures
        result == stop_reason(reason),
{
    match reason {
        DoneReason::EndTurn => StopReason::EndTurn,
        DoneReason::MaxTokens => StopReason::MaxTokens,
        DoneReason::MaxTurns => StopReason::MaxTurnRequests,
    }
}

/// How a prompt is answered whose turn has settled.
pub open spec fn end_of_turn(outcome: TurnOutcome) -> EndView {
    match outcome {
        TurnOutcome::Completed { reason, .. } => EndView::Stopped(stop_reason(reason)),
        TurnOutcome::Cancelled { .. } => EndView::Stopped(StopReason::Cancelled),
        TurnOutcome::Failed { failure, .. } => EndView::Failed(
            error::internal_error_because(failure.user_message@),
        ),
    }
}

/// How a prompt is answered whose turn has settled.
pub fn prompt_end(outcome: TurnOutcome) -> (result: PromptEnd)
    ensures
        result@ == end_of_turn(outcome),
{
    match outcome {
        TurnOutcome::Completed { reason, .. } => PromptEnd::Stopped(map_done_reason(reason)),
        TurnOutcome::Cancelled { .. } => PromptEnd::Stopped(StopReason::Cancelled),
        TurnOutcome::Failed { failure, .. } => failed_prompt(failure.user_message),
    }
}

/// A prompt is answered with an internal error, for a reason.
pub fn failed_prompt(reason: String) -> (result: PromptEnd)
    ensures
        result@ == EndView::Failed(error::internal_error_because(reason@)),
{
    PromptEnd::Failed(AcpError::internal_error().data(error::ErrorData::Text(reason)))
}

} // verus!
