//! The event pump: what each event of the agent means for the client.
use vstd::prelude::*;

use crate::acp::error;
use crate::acp::error::{AcpError, ErrorData};
use crate::acp::pending;
use crate::acp::pending::{
    dismissed_text, Answer, OperationKind, Pending, PendingModel, PermissionAnswer, PermissionAsk,
    Reply,
};
use crate::acp::updates;
use crate::acp::updates::{
    failed_prompt, prompt_end, Action, EndView, PromptEnd, SessionUpdate, StopReason,
};
use crate::agent::events::{ToolDone, ToolStart};
use crate::text_map::TextMap;
use crate::types::TurnOutcome;

verus! {

/// What an agent reports while it works. A question carries the form that the client would be
/// asked to fill in, where the question can be rendered as one.
#[derive(Debug)]
pub enum AgentEvent {
    TextDelta { text: String },
    ThinkingDelta { text: String },
    ThinkingBlockEnd,
    ToolPending { id: String, name: String },
    ToolStart(ToolStart),
    ToolExecutionStart { id: String },
    ToolOutput { id: String, content: String },
    ToolDone(ToolDone),
    TurnComplete { context_size: Option<u32>, context_window: u32 },
    PermissionRequest { id: String, tool: String, scopes: Vec<String> },
    AuthRequired,
    Question { id: String, form: Option<String> },
    TurnOutcome(TurnOutcome),
    ControlComplete,
    ControlError { message: String },
    /// Anything the client is not told.
    Silent,
}

/// An event, the run it belongs to and, where a subagent reports it, the subagent's answer channel
/// if it has one.
#[derive(Debug)]
pub struct Envelope {
    pub event: AgentEvent,
    pub subagent: Option<Option<u64>>,
    pub run_id: u64,
}

/// Identities for the requests that a host sends. None is used twice, so a late answer cannot
/// match a later request.
#[derive(Debug)]
pub struct RequestIds {
    pub next: i64,
}

/// The identity that follows another.
pub open spec fn following(id: i64) -> i64 {
    if id == i64::MAX {
        i64::MIN
    } else {
        (id + 1) as i64
    }
}

impl RequestIds {
    /// The first identities.
    pub fn new() -> (result: Self)
        ensures
            result.next == 1000,
    {
        RequestIds { next: 1000 }
    }

    /// The next identity.
    pub fn take(&mut self) -> (result: i64)
        ensures
            result == old(self).next,
            final(self).next == following(old(self).next),
    {
        let id: i64 = self.next;
        self.next = if id == i64::MAX { i64::MIN } else { id + 1 };
        id
    }
}

/// What the pump of a session knows: whether the client fills in forms, the channel of the
/// session's own agent, whether the project is trusted, and the inputs of the tools that have been
/// started, by call.
pub struct EventPump {
    pub elicitation: bool,
    pub channel: u64,
    pub project_trusted: bool,
    pub tool_inputs: TextMap<String>,
}

/// The scopes of a permission, in one line.
pub open spec fn listed(scopes: Seq<String>) -> Seq<char>
    decreases scopes.len(),
{
    if scopes.len() == 0 {
        Seq::empty()
    } else if scopes.len() == 1 {
        scopes[0]@
    } else {
        listed(scopes.drop_last()) + ", "@ + scopes.last()@
    }
}

/// The scopes of a permission, in one line.
fn list_scopes(scopes: &Vec<String>) -> (result: String)
    ensures
        result@ == listed(scopes@),
{
    let mut line = String::new();
    let mut i: usize = 0;
    assert(scopes@.take(0) =~= Seq::empty());
    while i < scopes.len()
        invariant
            i <= scopes@.len(),
            line@ == listed(scopes@.take(i as int)),
        decreases scopes@.len() - i,
    {
        let ghost longer = scopes@.take(i + 1);
        assert(longer.drop_last() =~= scopes@.take(i as int));
        assert(longer.last() == scopes@[i as int]);
        if i > 0 {
            line.append(", ");
        } else {
            assert(line@ + scopes@[0]@ =~= scopes@[0]@);
        }
        line.append(scopes[i].as_str());
        i += 1;
    }
    assert(scopes@.take(i as int) =~= scopes@);
    line
}

/// The permissions that are asked for once another is.
pub open spec fn asked(permissions: Seq<PermissionAsk>, ask: PermissionAsk) -> Seq<PermissionAsk> {
    match pending::ask_position(permissions, ask.request_id as int, 0) {
        Some(at) => permissions.update(at, ask),
        None => permissions.push(ask),
    }
}

/// The channel that a permission is answered on: the subagent's, or the session's own.
pub open spec fn answer_channel(channel: u64, subagent: Option<Option<u64>>) -> u64 {
    match subagent {
        Some(Some(own)) => own,
        _ => channel,
    }
}

/// The client hears of an event: not of a subagent's, but for a permission that a subagent with a
/// channel asks for.
pub open spec fn is_heard(envelope: Envelope) -> bool {
    match envelope.subagent {
        None => true,
        Some(channel) => channel is Some && envelope.event is PermissionRequest,
    }
}

/// The update that an event means, where it means nothing else.
pub open spec fn update_for(event: AgentEvent, update: SessionUpdate) -> bool {
    match event {
        AgentEvent::TextDelta { text } => update == SessionUpdate::TextDelta(text),
        AgentEvent::ThinkingDelta { text } => update == SessionUpdate::ThinkingDelta(text),
        AgentEvent::ThinkingBlockEnd => update matches SessionUpdate::ThinkingDelta(text) && text@
            == "\n\n"@,
        AgentEvent::ToolPending { id, name } => update == (SessionUpdate::ToolPending {
            id,
            name,
        }),
        AgentEvent::ToolStart(start) => update == SessionUpdate::ToolStart(start),
        AgentEvent::ToolExecutionStart { id } => update == (SessionUpdate::ToolExecutionStart {
            id,
        }),
        AgentEvent::ToolOutput { id, content } => update == (SessionUpdate::ToolOutput {
            id,
            content,
        }),
        AgentEvent::ToolDone(done) => update == SessionUpdate::ToolDone(done),
        AgentEvent::TurnComplete { context_size, context_window } => update == (
        SessionUpdate::Usage { context_size, context_window }),
        _ => false,
    }
}

/// An event is told to the client as an update.
pub open spec fn is_update(event: AgentEvent) -> bool {
    match event {
        AgentEvent::PermissionRequest { .. } => false,
        AgentEvent::AuthRequired => false,
        AgentEvent::Question { .. } => false,
        AgentEvent::TurnOutcome(_) => false,
        AgentEvent::ControlComplete => false,
        AgentEvent::ControlError { .. } => false,
        AgentEvent::Silent => false,
        _ => true,
    }
}

/// How an event that ends a run answers the prompt.
pub open spec fn run_end(event: AgentEvent) -> Option<EndView> {
    match event {
        AgentEvent::TurnOutcome(outcome) => Some(updates::end_of_turn(outcome)),
        AgentEvent::ControlComplete => Some(EndView::Stopped(StopReason::EndTurn)),
        AgentEvent::ControlError { message } => Some(
            EndView::Failed(error::internal_error_because(message@)),
        ),
        _ => None,
    }
}

/// The tool inputs that the pump knows after an event.
pub open spec fn inputs_after(inputs: Map<Seq<char>, String>, event: AgentEvent) -> Map<
    Seq<char>,
    String,
> {
    match event {
        AgentEvent::ToolStart(start) => match start.raw_input {
            Some(input) => inputs.insert(start.id@, input),
            None => inputs,
        },
        AgentEvent::AuthRequired => Map::empty(),
        _ => if run_end(event) is Some {
            Map::empty()
        } else {
            inputs
        },
    }
}

/// What an action says to ask for a permission.
pub open spec fn asks_permission(
    action: Action,
    request_id: i64,
    id: String,
    tool: String,
    scopes: Seq<String>,
    raw_input: Option<String>,
    project_trusted: bool,
) -> bool {
    action matches Action::AskPermission {
        request_id: asked_under,
        tool_call_id,
        title,
        tool: asked_tool,
        raw_input: given,
        project_trusted: trusted,
    } && {
        &&& asked_under == request_id
        &&& tool_call_id == id
        &&& title@ == tool@ + ": "@ + listed(scopes)
        &&& asked_tool == tool
        &&& given == raw_input
        &&& trusted == project_trusted
    }
}

/// An action dismisses the question that waits on a channel.
pub open spec fn dismisses_question(action: Action, channel: u64) -> bool {
    action matches Action::Reply(answer) && pending::dismisses(answer, channel)
}

/// The input of a tool call, for the permission that it waits for. A subagent's calls are not
/// known here.
pub open spec fn known_input(
    inputs: Map<Seq<char>, String>,
    id: Seq<char>,
    subagent: Option<Option<u64>>,
) -> Option<String> {
    if subagent is None && inputs.dom().contains(id) {
        Some(inputs[id])
    } else {
        None
    }
}

/// What a heard event leaves outstanding, and what the host does for it.
pub open spec fn pumped(
    pump: EventPump,
    before: PendingModel,
    next: i64,
    envelope: Envelope,
    actions: Seq<Action>,
    after: PendingModel,
    next_after: i64,
) -> bool {
    let run_id = envelope.run_id;
    match envelope.event {
        AgentEvent::PermissionRequest { id, tool, scopes } => {
            let channel = answer_channel(pump.channel, envelope.subagent);
            let ask = PermissionAsk { request_id: next, permission_id: id, channel };
            &&& next_after == following(next)
            &&& actions.len() == 1
            &&& if pending::cancelling(before) {
                after == before && actions[0] == Action::Reply(pending::denial(ask))
            } else {
                &&& after == (PendingModel {
                    permissions: asked(before.permissions, ask),
                    ..before
                })
                &&& asks_permission(
                    actions[0],
                    next,
                    id,
                    tool,
                    scopes@,
                    known_input(pump.tool_inputs@, id@, envelope.subagent),
                    pump.project_trusted,
                )
            }
        },
        AgentEvent::AuthRequired => {
            &&& next_after == next
            &&& if before.operation is Some && before.operation->0.kind
                == OperationKind::PrimaryTurn {
                &&& after == pending::ended(before)
                &&& actions.len() == 2
                &&& updates::answers_prompt(
                    actions[0],
                    before.operation->0.request_id,
                    EndView::Failed(
                        error::auth_required_because(
                            "Authentication failed. Run `maki auth login`, then send the prompt again."@,
                        ),
                    ),
                )
                &&& actions[1] is CancelRun
            } else {
                &&& after == before
                &&& actions.len() == 1
                &&& actions[0] is CancelRun
            }
        },
        AgentEvent::Question { form, .. } => {
            if pump.elicitation && form is Some {
                &&& next_after == following(next)
                &&& actions.len() == 1
                &&& if pending::cancelling(before) {
                    after == before && dismisses_question(actions[0], pump.channel)
                } else {
                    &&& after == (PendingModel { elicitation: Some(next), ..before })
                    &&& actions[0] == (Action::AskElicitation { request_id: next, form: form->0 })
                }
            } else {
                &&& next_after == next
                &&& after == before
                &&& actions.len() == 1
                &&& dismisses_question(actions[0], pump.channel)
            }
        },
        event => {
            &&& next_after == next
            &&& if run_end(event) is Some {
                if pending::run_ends(before, run_id) {
                    &&& after == (PendingModel {
                        retired_primary_run: Some(run_id),
                        ..pending::ended(before)
                    })
                    &&& actions.len() == 1
                    &&& updates::answers_prompt(
                        actions[0],
                        before.operation->0.request_id,
                        run_end(event)->0,
                    )
                } else {
                    after == before && actions.len() == 0
                }
            } else if is_update(event) {
                &&& after == before
                &&& actions.len() == 1
                &&& actions[0] matches Action::Update(update) && update_for(event, update)
            } else {
                after == before && actions.len() == 0
            }
        },
    }
}

impl EventPump {
    /// The pump of a new session.
    pub fn new(elicitation: bool, channel: u64, project_trusted: bool) -> (result: Self)
        ensures
            result.elicitation == elicitation,
            result.channel == channel,
            result.project_trusted == project_trusted,
            result.tool_inputs@ == Map::<Seq<char>, String>::empty(),
    {
        EventPump { elicitation, channel, project_trusted, tool_inputs: TextMap::new() }
    }

    /// Takes an event of the agent: changes what is outstanding and gives what the host does.
    pub fn on_event(
        &mut self,
        pending: &mut Pending,
        ids: &mut RequestIds,
        envelope: Envelope,
    ) -> (result: Vec<Action>)
        ensures
            if is_heard(envelope) {
                &&& pumped(
                    *old(self),
                    old(pending)@,
                    old(ids).next,
                    envelope,
                    result@,
                    final(pending)@,
                    final(ids).next,
                )
                &&& final(self).tool_inputs@ == inputs_after(
                    old(self).tool_inputs@,
                    envelope.event,
                )
            } else {
                &&& result@.len() == 0
                &&& final(pending)@ == old(pending)@
                &&& final(ids).next == old(ids).next
                &&& final(self).tool_inputs@ == old(self).tool_inputs@
            },
            final(self).elicitation == old(self).elicitation,
            final(self).channel == old(self).channel,
            final(self).project_trusted == old(self).project_trusted,
    {
        let Envelope { event, subagent, run_id } = envelope;
        let mut actions: Vec<Action> = Vec::new();
        let channel: u64 = match subagent {
            None => self.channel,
            Some(own) => {
                let permission = match &event {
                    AgentEvent::PermissionRequest { .. } => true,
                    _ => false,
                };
                match own {
                    Some(own) => {
                        if !permission {
                            return actions;
                        }
                        own
                    },
                    None => {
                        return actions;
                    },
                }
            },
        };
        match event {
            AgentEvent::TextDelta { text } => {
                actions.push(Action::Update(SessionUpdate::TextDelta(text)));
            },
            AgentEvent::ThinkingDelta { text } => {
                actions.push(Action::Update(SessionUpdate::ThinkingDelta(text)));
            },
            AgentEvent::ThinkingBlockEnd => {
                actions.push(Action::Update(SessionUpdate::ThinkingDelta("\n\n".to_owned())));
            },
            AgentEvent::ToolPending { id, name } => {
                actions.push(Action::Update(SessionUpdate::ToolPending { id, name }));
            },
            AgentEvent::ToolStart(start) => {
                match &start.raw_input {
                    Some(input) => {
                        self.tool_inputs.insert(start.id.clone(), input.clone());
                    },
                    None => {},
                }
                actions.push(Action::Update(SessionUpdate::ToolStart(start)));
            },
            AgentEvent::ToolExecutionStart { id } => {
                actions.push(Action::Update(SessionUpdate::ToolExecutionStart { id }));
            },
            AgentEvent::ToolOutput { id, content } => {
                actions.push(Action::Update(SessionUpdate::ToolOutput { id, content }));
            },
            AgentEvent::ToolDone(done) => {
                actions.push(Action::Update(SessionUpdate::ToolDone(done)));
            },
            AgentEvent::TurnComplete { context_size, context_window } => {
                actions.push(
                    Action::Update(SessionUpdate::Usage { context_size, context_window }),
                );
            },
            AgentEvent::PermissionRequest { id, tool, scopes } => {
                let raw_input: Option<String> = if subagent.is_none() {
                    match self.tool_inputs.get(id.as_str()) {
                        Some(input) => Some(input.clone()),
                        None => None,
                    }
                } else {
                    None
                };
                let action = self.ask_permission(pending, ids, id, tool, scopes, raw_input, channel);
                actions.push(action);
            },
            AgentEvent::AuthRequired => {
                self.tool_inputs.clear();
                match pending.finish_active_operation(OperationKind::PrimaryTurn) {
                    Some(id) => {
                        let error = AcpError::auth_required().data(
                            ErrorData::Text(
                                "Authentication failed. Run `maki auth login`, then send the prompt again."
                                    .to_owned(),
                            ),
                        );
                        actions.push(Action::Respond { id, end: PromptEnd::Failed(error) });
                    },
                    None => {},
                }
                actions.push(Action::CancelRun);
            },
            AgentEvent::Question { form, .. } => {
                let action = self.ask_question(pending, ids, form);
                actions.push(action);
            },
            AgentEvent::TurnOutcome(outcome) => {
                self.tool_inputs.clear();
                match pending.finish_primary_run(run_id) {
                    Some(id) => {
                        actions.push(Action::Respond { id, end: prompt_end(outcome) });
                    },
                    None => {},
                }
            },
            AgentEvent::ControlComplete => {
                self.tool_inputs.clear();
                match pending.finish_primary_run(run_id) {
                    Some(id) => {
                        actions.push(
                            Action::Respond { id, end: PromptEnd::Stopped(StopReason::EndTurn) },
                        );
                    },
                    None => {},
                }
            },
            AgentEvent::ControlError { message } => {
                self.tool_inputs.clear();
                match pending.finish_primary_run(run_id) {
                    Some(id) => {
                        actions.push(Action::Respond { id, end: failed_prompt(message) });
                    },
                    None => {},
                }
            },
            AgentEvent::Silent => {},
        }
        actions
    }

    /// Asks the client for a permission, or denies it where the operation is being cancelled.
    fn ask_permission(
        &self,
        pending: &mut Pending,
        ids: &mut RequestIds,
        id: String,
        tool: String,
        scopes: Vec<String>,
        raw_input: Option<String>,
        channel: u64,
    ) -> (result: Action)
        ensures
            final(ids).next == following(old(ids).next),
            ({
                let ask = PermissionAsk {
                    request_id: old(ids).next,
                    permission_id: id,
                    channel,
                };
                if pending::cancelling(old(pending)@) {
                    final(pending)@ == old(pending)@ && result == Action::Reply(
                        pending::denial(ask),
                    )
                } else {
                    &&& final(pending)@ == (PendingModel {
                        permissions: asked(old(pending)@.permissions, ask),
                        ..old(pending)@
                    })
                    &&& asks_permission(
                        result,
                        old(ids).next,
                        id,
                        tool,
                        scopes@,
                        raw_input,
                        self.project_trusted,
                    )
                }
            }),
    {
        let mut title = tool.clone();
        title.append(": ");
        let line = list_scopes(&scopes);
        title.append(line.as_str());
        let request_id: i64 = ids.take();
        let cancelling = match &pending.operation {
            Some(operation) => operation.cancelling,
            None => false,
        };
        if cancelling {
            return Action::Reply(
                Answer {
                    channel,
                    reply: Reply::Permission { permission_id: id, answer: PermissionAnswer::Deny },
                },
            );
        }
        let ask = PermissionAsk { request_id, permission_id: id.clone(), channel };
        pending.remember_ask(ask);
        Action::AskPermission {
            request_id,
            tool_call_id: id,
            title,
            tool,
            raw_input,
            project_trusted: self.project_trusted,
        }
    }

    /// Asks the client a question, or dismisses it where the client cannot be asked.
    fn ask_question(&self, pending: &mut Pending, ids: &mut RequestIds, form: Option<String>)
        -> (result: Action)
        ensures
            if self.elicitation && form is Some {
                &&& final(ids).next == following(old(ids).next)
                &&& if pending::cancelling(old(pending)@) {
                    final(pending)@ == old(pending)@ && dismisses_question(result, self.channel)
                } else {
                    &&& final(pending)@ == (PendingModel {
                        elicitation: Some(old(ids).next),
                        ..old(pending)@
                    })
                    &&& result == (Action::AskElicitation {
                        request_id: old(ids).next,
                        form: form->0,
                    })
                }
            } else {
                &&& final(ids).next == old(ids).next
                &&& final(pending)@ == old(pending)@
                &&& dismisses_question(result, self.channel)
            },
    {
        if !self.elicitation {
            return Action::Reply(
                Answer { channel: self.channel, reply: Reply::Text(dismissed_text()) },
            );
        }
        let form: String = match form {
            Some(form) => form,
            None => {
                return Action::Reply(
                    Answer { channel: self.channel, reply: Reply::Text(dismissed_text()) },
                );
            },
        };
        let request_id: i64 = ids.take();
        let cancelling = match &pending.operation {
            Some(operation) => operation.cancelling,
            None => false,
        };
        if cancelling {
            return Action::Reply(
                Answer { channel: self.channel, reply: Reply::Text(dismissed_text()) },
            );
        }
        pending.elicitation = Some(request_id);
        assert(pending@ =~= PendingModel { elicitation: Some(request_id), ..old(pending)@ });
        Action::AskElicitation { request_id, form }
    }

    /// Ends the active primary turn because the agent reports nothing any more.
    pub fn on_end(pending: &mut Pending) -> (result: Option<Action>)
        ensures
            if old(pending)@.operation matches Some(operation) && operation.kind
                == OperationKind::PrimaryTurn {
                &&& final(pending)@ == pending::ended(old(pending)@)
                &&& result is Some
                &&& updates::answers_prompt(
                    result->0,
                    old(pending)@.operation->0.request_id,
                    EndView::Failed(error::internal_error_because("session event stream ended"@)),
                )
            } else {
                final(pending)@ == old(pending)@ && result is None
            },
    {
        match pending.finish_active_operation(OperationKind::PrimaryTurn) {
            Some(id) => Some(
                Action::Respond { id, end: failed_prompt("session event stream ended".to_owned()) },
            ),
            None => None,
        }
    }
}

impl Pending {
    /// Remembers that a permission has been asked for.
    fn remember_ask(&mut self, ask: PermissionAsk)
        ensures
            final(self)@ == (PendingModel {
                permissions: asked(old(self)@.permissions, ask),
                ..old(self)@
            }),
    {
        let mut at: usize = 0;
        while at < self.permissions.len() && self.permissions[at].request_id != ask.request_id
            invariant
                self == old(self),
                at <= self.permissions@.len(),
                pending::ask_position(self.permissions@, ask.request_id as int, 0)
                    == pending::ask_position(
                    self.permissions@,
                    ask.request_id as int,
                    at as int,
                ),
            decreases self.permissions@.len() - at,
        {
            at += 1;
        }
        if at < self.permissions.len() {
            self.permissions.set(at, ask);
        } else {
            self.permissions.push(ask);
        }
        assert(self@ =~= PendingModel {
            permissions: asked(old(self)@.permissions, ask),
            ..old(self)@
        });
    }
}

} // verus!
