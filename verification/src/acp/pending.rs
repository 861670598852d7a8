//! What a session and its client still owe each other.
use vstd::prelude::*;

use crate::acp::error;
use crate::acp::error::{AcpError, ErrorData};

verus! {

/// The code of the error that a cancellation is under way.
pub const CANCELLATION_IN_PROGRESS_CODE: i32 = -32001;

/// The identity under which the client sent a request.
#[derive(Debug, PartialEq, Eq)]
pub enum RequestId {
    Null,
    Number(i64),
    Str(String),
}

impl Clone for RequestId {
    fn clone(&self) -> (result: Self)
        ensures
            result == *self,
    {
        match self {
            RequestId::Null => RequestId::Null,
            RequestId::Number(number) => RequestId::Number(*number),
            RequestId::Str(text) => RequestId::Str(text.clone()),
        }
    }
}

/// What kind of work a prompt has started.
#[derive(Debug, Clone, Copy, PartialEq, Eq, Structural)]
pub enum OperationKind {
    PrimaryTurn,
    IsolatedTurn,
    ManualCompaction,
}

/// The work that the active prompt has started. `cancel` names the trigger that cancels it, until
/// it has been pulled; `lease` names the lease on the session's history that it holds.
#[derive(Debug)]
pub struct PendingOperation {
    pub id: u64,
    pub request_id: RequestId,
    pub kind: OperationKind,
    pub run_id: Option<u64>,
    pub cancelling: bool,
    pub cancel: Option<u64>,
    pub lease: Option<u64>,
}

/// A permission that the client has been asked for: the request it was asked under, the question
/// that waits for the answer, and the channel the answer goes to.
#[derive(Debug)]
pub struct PermissionAsk {
    pub request_id: i64,
    pub permission_id: String,
    pub channel: u64,
}

/// What is outstanding between a session and its client. Subagents have channels of their own, so
/// more than one permission can be outstanding.
#[derive(Debug)]
pub struct Pending {
    pub operation: Option<PendingOperation>,
    pub retired_primary_run: Option<u64>,
    pub permissions: Vec<PermissionAsk>,
    pub elicitation: Option<i64>,
}

/// What is outstanding, as a mathematical value.
#[verifier::ext_equal]
pub struct PendingModel {
    pub operation: Option<PendingOperation>,
    pub retired_primary_run: Option<u64>,
    pub permissions: Seq<PermissionAsk>,
    pub elicitation: Option<i64>,
}

impl View for Pending {
    type V = PendingModel;

    open spec fn view(&self) -> PendingModel {
        PendingModel {
            operation: self.operation,
            retired_primary_run: self.retired_primary_run,
            permissions: self.permissions@,
            elicitation: self.elicitation,
        }
    }
}

/// Nothing is outstanding.
pub open spec fn nothing_pending() -> PendingModel {
    PendingModel {
        operation: None,
        retired_primary_run: None,
        permissions: Seq::empty(),
        elicitation: None,
    }
}

/// What is outstanding once the active operation has ended: its questions are void with it.
pub open spec fn ended(pending: PendingModel) -> PendingModel {
    PendingModel {
        operation: None,
        permissions: Seq::empty(),
        elicitation: None,
        ..pending
    }
}

/// The active operation is the one with that identity and kind.
pub open spec fn is_active(pending: PendingModel, operation_id: u64, kind: OperationKind) -> bool {
    pending.operation matches Some(operation) && operation.id == operation_id && operation.kind
        == kind
}

/// A run that ends may end the active operation: the run is not one that ended before, and the
/// operation is a primary turn that no other run executes.
pub open spec fn run_ends(pending: PendingModel, run_id: u64) -> bool {
    &&& pending.retired_primary_run matches Some(retired) ==> run_id > retired
    &&& pending.operation matches Some(operation) && operation.kind == OperationKind::PrimaryTurn
        && (operation.run_id matches Some(own) ==> own == run_id)
}

/// The active operation is being cancelled.
pub open spec fn cancelling(pending: PendingModel) -> bool {
    pending.operation matches Some(operation) && operation.cancelling
}

impl Pending {
    pub fn new() -> (result: Self)
        ensures
            result@ == nothing_pending(),
    {
        let result = Pending {
            operation: None,
            retired_primary_run: None,
            permissions: Vec::new(),
            elicitation: None,
        };
        assert(result@ =~= nothing_pending());
        result
    }

    /// Ends the active operation and gives the request that started it.
    fn end(&mut self) -> (result: Option<RequestId>)
        ensures
            final(self)@ == ended(old(self)@),
            match old(self)@.operation {
                Some(operation) => result == Some(operation.request_id),
                None => result is None,
            },
    {
        self.permissions.clear();
        self.elicitation = None;
        let operation = self.operation.take();
        assert(self@ =~= ended(old(self)@));
        match operation {
            Some(operation) => Some(operation.request_id),
            None => None,
        }
    }

    /// Ends the operation with that identity and kind, if it is the active one, and gives the
    /// request that it must answer.
    pub fn finish_operation(&mut self, operation_id: u64, kind: OperationKind) -> (result: Option<
        RequestId,
    >)
        ensures
            if is_active(old(self)@, operation_id, kind) {
                &&& final(self)@ == ended(old(self)@)
                &&& result == Some(old(self)@.operation->0.request_id)
            } else {
                final(self)@ == old(self)@ && result is None
            },
    {
        let active = match &self.operation {
            Some(operation) => operation.id == operation_id && operation.kind == kind,
            None => false,
        };
        if active {
            self.end()
        } else {
            None
        }
    }

    /// Ends the active primary turn because its run has ended, and gives the request that it must
    /// answer. The run is retired: neither it nor an earlier one ends anything later.
    pub fn finish_primary_run(&mut self, run_id: u64) -> (result: Option<RequestId>)
        ensures
            if run_ends(old(self)@, run_id) {
                &&& final(self)@ == (PendingModel {
                    retired_primary_run: Some(run_id),
                    ..ended(old(self)@)
                })
                &&& result == Some(old(self)@.operation->0.request_id)
            } else {
                final(self)@ == old(self)@ && result is None
            },
    {
        let retired = match self.retired_primary_run {
            Some(retired) => run_id <= retired,
            None => false,
        };
        if retired {
            return None;
        }
        let ends = match &self.operation {
            Some(operation) => operation.kind == OperationKind::PrimaryTurn
                && match operation.run_id {
                Some(own) => own == run_id,
                None => true,
            },
            None => false,
        };
        if !ends {
            return None;
        }
        self.retired_primary_run = Some(run_id);
        let answered = self.end();
        assert(self@ =~= PendingModel {
            retired_primary_run: Some(run_id),
            ..ended(old(self)@)
        });
        answered
    }

    /// Ends the active operation if it is of that kind, and gives the request that it must answer.
    pub fn finish_active_operation(&mut self, kind: OperationKind) -> (result: Option<RequestId>)
        ensures
            if old(self)@.operation matches Some(operation) && operation.kind == kind {
                &&& final(self)@ == ended(old(self)@)
                &&& result == Some(old(self)@.operation->0.request_id)
            } else {
                final(self)@ == old(self)@ && result is None
            },
    {
        let active: Option<u64> = match &self.operation {
            Some(operation) => if operation.kind == kind {
                Some(operation.id)
            } else {
                None
            },
            None => None,
        };
        match active {
            Some(id) => self.finish_operation(id, kind),
            None => None,
        }
    }

    /// Ends the operation with that identity and kind without an answer.
    pub fn release_operation(&mut self, operation_id: u64, kind: OperationKind)
        ensures
            final(self)@ == (if is_active(old(self)@, operation_id, kind) {
                ended(old(self)@)
            } else {
                old(self)@
            }),
    {
        let _ = self.finish_operation(operation_id, kind);
    }

    /// Whether a prompt may start. One that arrives while another is being cancelled may be sent
    /// again.
    pub fn admit_prompt(&self) -> (result: Result<(), AcpError>)
        ensures
            match admission_error(self@) {
                None => result is Ok,
                Some(error) => result is Err && result->Err_0@ == error,
            },
    {
        match &self.operation {
            None => Ok(()),
            Some(operation) => if operation.cancelling {
                Err(
                    AcpError::new(
                        CANCELLATION_IN_PROGRESS_CODE,
                        "session cancellation is still in progress; retry the prompt",
                    ).data(ErrorData::Retryable),
                )
            } else {
                Err(AcpError::new(-32600, "session already has an active operation"))
            },
        }
    }

    /// Refuses an operation while another is active.
    pub fn check_free(&self) -> (result: Result<(), AcpError>)
        ensures
            match self@.operation {
                None => result is Ok,
                Some(_) => result is Err && result->Err_0@ == busy_error(),
            },
    {
        match &self.operation {
            None => Ok(()),
            Some(_) => Err(AcpError::new(-32600, "session already has an active operation")),
        }
    }

    /// Makes an operation the active one, unless another is.
    pub fn begin_operation(
        &mut self,
        id: u64,
        request_id: RequestId,
        kind: OperationKind,
        cancel: u64,
        lease: u64,
    ) -> (result: Result<(), AcpError>)
        ensures
            match old(self)@.operation {
                None => {
                    &&& result is Ok
                    &&& final(self)@ == begun(old(self)@, id, request_id, kind, cancel, lease)
                },
                Some(_) => {
                    &&& result is Err
                    &&& result->Err_0@ == busy_error()
                    &&& final(self)@ == old(self)@
                },
            },
    {
        self.check_free()?;
        self.operation = Some(
            PendingOperation {
                id,
                request_id,
                kind,
                run_id: None,
                cancelling: false,
                cancel: Some(cancel),
                lease: Some(lease),
            },
        );
        assert(self@ =~= begun(old(self)@, id, request_id, kind, cancel, lease));
        Ok(())
    }
}

/// The error that another operation is active.
pub open spec fn busy_error() -> error::ErrorView {
    error::plain_error(-32600, "session already has an active operation"@)
}

/// The error with which a prompt is refused, if it is.
pub open spec fn admission_error(pending: PendingModel) -> Option<error::ErrorView> {
    match pending.operation {
        None => None,
        Some(operation) => if operation.cancelling {
            Some(
                error::ErrorView {
                    data: error::DataView::Retryable,
                    ..error::plain_error(
                        -32001,
                        "session cancellation is still in progress; retry the prompt"@,
                    )
                },
            )
        } else {
            Some(busy_error())
        },
    }
}

/// What is outstanding once an operation has become the active one.
pub open spec fn begun(
    pending: PendingModel,
    id: u64,
    request_id: RequestId,
    kind: OperationKind,
    cancel: u64,
    lease: u64,
) -> PendingModel {
    PendingModel {
        operation: Some(
            PendingOperation {
                id,
                request_id,
                kind,
                run_id: None,
                cancelling: false,
                cancel: Some(cancel),
                lease: Some(lease),
            },
        ),
        ..pending
    }
}

/// How the user decided on a permission.
#[derive(Debug, Clone, Copy, PartialEq, Eq, Structural)]
pub enum PermissionAnswer {
    AllowOnce,
    AllowAlways,
    Deny,
    DenyAlways,
}

/// What goes back over an answer channel: the decision on a permission, or the text that answers
/// a question.
#[derive(Debug, PartialEq, Eq)]
pub enum Reply {
    Permission { permission_id: String, answer: PermissionAnswer },
    Text(String),
}

/// A reply and the channel it goes to.
#[derive(Debug, PartialEq, Eq)]
pub struct Answer {
    pub channel: u64,
    pub reply: Reply,
}

/// The text that dismisses a question.
pub open spec fn dismissal() -> Seq<char> {
    "{\"dismissed\":true}"@
}

/// The text that dismisses a question.
pub fn dismissed_text() -> (result: String)
    ensures
        result@ == dismissal(),
{
    "{\"dismissed\":true}".to_owned()
}

/// The reply that denies a permission.
pub open spec fn denial(ask: PermissionAsk) -> Answer {
    Answer {
        channel: ask.channel,
        reply: Reply::Permission {
            permission_id: ask.permission_id,
            answer: PermissionAnswer::Deny,
        },
    }
}

/// An answer dismisses the question that waits on a channel.
pub open spec fn dismisses(answer: Answer, channel: u64) -> bool {
    &&& answer.channel == channel
    &&& answer.reply matches Reply::Text(text) && text@ == dismissal()
}

/// The answers that void outstanding questions: each permission is denied, in the order in which
/// they were asked, and an open elicitation is dismissed last.
pub open spec fn voids(
    answers: Seq<Answer>,
    permissions: Seq<PermissionAsk>,
    elicitation: Option<i64>,
    channel: u64,
) -> bool {
    &&& answers.len() == permissions.len() + (if elicitation is Some {
        1int
    } else {
        0int
    })
    &&& forall|i: int|
        0 <= i < permissions.len() ==> #[trigger] answers[i] == denial(permissions[i])
    &&& elicitation is Some ==> dismisses(answers[permissions.len() as int], channel)
}

/// The answers that void outstanding questions.
pub fn answer_cancelled_requests(
    permissions: &Vec<PermissionAsk>,
    elicitation: Option<i64>,
    channel: u64,
) -> (result: Vec<Answer>)
    ensures
        voids(result@, permissions@, elicitation, channel),
{
    let mut answers: Vec<Answer> = Vec::new();
    let mut i: usize = 0;
    while i < permissions.len()
        invariant
            i <= permissions@.len(),
            answers@.len() == i,
            forall|j: int| 0 <= j < i ==> #[trigger] answers@[j] == denial(permissions@[j]),
        decreases permissions@.len() - i,
    {
        answers.push(
            Answer {
                channel: permissions[i].channel,
                reply: Reply::Permission {
                    permission_id: permissions[i].permission_id.clone(),
                    answer: PermissionAnswer::Deny,
                },
            },
        );
        i += 1;
    }
    if elicitation.is_some() {
        answers.push(Answer { channel, reply: Reply::Text(dismissed_text()) });
    }
    answers
}


/// What a cancellation of the active operation asks for: the trigger that cancels it, or where
/// there is none the cancellation of the session's run, and the answers that void its questions.
#[derive(Debug)]
pub struct Cancellation {
    pub trigger: Option<u64>,
    pub answers: Vec<Answer>,
}

/// What is outstanding once the active operation is being cancelled.
pub open spec fn cancelled(pending: PendingModel) -> PendingModel {
    PendingModel {
        operation: match pending.operation {
            Some(operation) => Some(
                PendingOperation { cancelling: true, cancel: None, ..operation },
            ),
            None => None,
        },
        permissions: Seq::empty(),
        elicitation: None,
        ..pending
    }
}

/// The identity of a response, as it was sent.
#[derive(Debug, PartialEq, Eq)]
pub enum SentId {
    Number(i64),
    Text(String),
    Other,
}

/// The request that an identity answers, if it is a number or a text that stands for one.
pub open spec fn asked_id(id: SentId) -> Option<int> {
    match id {
        SentId::Number(number) => Some(number as int),
        SentId::Text(text) => crate::text::integer_value(text@),
        SentId::Other => None,
    }
}

/// The request that an identity answers.
pub fn ask_id(id: &SentId) -> (result: Option<i64>)
    ensures
        match asked_id(*id) {
            Some(number) => result is Some && result->0 == number,
            None => result is None,
        },
{
    match id {
        SentId::Number(number) => Some(*number),
        SentId::Text(text) => crate::text::parse_integer(text.as_str()),
        SentId::Other => None,
    }
}

/// A client's response, as much of it as is read: the identity it carries, if it has one, the
/// payload of an elicitation if its result can be read as one, and the decision on a permission if
/// its result can be read as one.
#[derive(Debug)]
pub struct ClientResponse {
    pub id: Option<SentId>,
    pub elicitation: Option<String>,
    pub permission: Option<PermissionAnswer>,
}

/// The text that answers a question: the payload, or the dismissal where the response cannot be
/// read.
pub open spec fn elicitation_reply(payload: Option<String>) -> Seq<char> {
    match payload {
        Some(text) => text@,
        None => dismissal(),
    }
}

/// The text that answers a question.
pub fn elicitation_answer(payload: Option<String>) -> (result: String)
    ensures
        result@ == elicitation_reply(payload),
{
    match payload {
        Some(text) => text,
        None => dismissed_text(),
    }
}

/// The decision on a permission: denial where the response cannot be read.
pub open spec fn permission_decision(permission: Option<PermissionAnswer>) -> PermissionAnswer {
    match permission {
        Some(answer) => answer,
        None => PermissionAnswer::Deny,
    }
}

/// The decision on a permission.
pub fn permission_answer(permission: Option<PermissionAnswer>) -> (result: PermissionAnswer)
    ensures
        result == permission_decision(permission),
{
    match permission {
        Some(answer) => answer,
        None => PermissionAnswer::Deny,
    }
}

/// The position of the permission that was asked under a request, looked for from `from` on.
pub open spec fn ask_position(asks: Seq<PermissionAsk>, id: int, from: int) -> Option<int>
    decreases asks.len() - from,
{
    if from < 0 || from >= asks.len() {
        None
    } else if asks[from].request_id == id {
        Some(from)
    } else {
        ask_position(asks, id, from + 1)
    }
}

/// What a client's response leaves outstanding, and the answer that it brings.
pub open spec fn responded(
    pending: PendingModel,
    response: ClientResponse,
    channel: u64,
    answer: Option<Answer>,
    after: PendingModel,
) -> bool {
    let id = match response.id {
        Some(id) => asked_id(id),
        None => None,
    };
    if id is Some && pending.elicitation is Some && pending.elicitation->0 == id->0 {
        &&& after == (PendingModel { elicitation: None, ..pending })
        &&& answer is Some
        &&& answer->0.channel == channel
        &&& answer->0.reply matches Reply::Text(text) && text@ == elicitation_reply(
            response.elicitation,
        )
    } else if id is Some && ask_position(pending.permissions, id->0, 0) is Some {
        let at = ask_position(pending.permissions, id->0, 0)->0;
        let ask = pending.permissions[at];
        &&& 0 <= at < pending.permissions.len()
        &&& after == (PendingModel { permissions: pending.permissions.remove(at), ..pending })
        &&& answer == Some(
            Answer {
                channel: ask.channel,
                reply: Reply::Permission {
                    permission_id: ask.permission_id,
                    answer: permission_decision(response.permission),
                },
            },
        )
    } else {
        after == pending && answer is None
    }
}

impl Pending {
    /// Cancels the active operation, unless it is being cancelled already. Its questions are void.
    pub fn cancel(&mut self, channel: u64) -> (result: Option<Cancellation>)
        ensures
            if old(self)@.operation is Some && !cancelling(old(self)@) {
                &&& final(self)@ == cancelled(old(self)@)
                &&& result is Some
                &&& result->0.trigger == old(self)@.operation->0.cancel
                &&& voids(
                    result->0.answers@,
                    old(self)@.permissions,
                    old(self)@.elicitation,
                    channel,
                )
            } else {
                final(self)@ == old(self)@ && result is None
            },
    {
        match self.operation.take() {
            None => {
                assert(self@ =~= old(self)@);
                None
            },
            Some(operation) => {
                let mut operation = operation;
                if operation.cancelling {
                    self.operation = Some(operation);
                    assert(self@ =~= old(self)@);
                    return None;
                }
                operation.cancelling = true;
                let trigger = operation.cancel.take();
                self.operation = Some(operation);
                let answers = answer_cancelled_requests(
                    &self.permissions,
                    self.elicitation,
                    channel,
                );
                self.permissions.clear();
                self.elicitation = None;
                assert(self@ =~= cancelled(old(self)@));
                Some(Cancellation { trigger, answers })
            },
        }
    }

    /// Ends everything because the session closes: gives the request that is answered as
    /// cancelled, if one is active, and the answers that void open questions.
    pub fn close(&mut self, channel: u64) -> (result: (Option<RequestId>, Vec<Answer>))
        ensures
            final(self)@ == ended(old(self)@),
            match old(self)@.operation {
                Some(operation) => result.0 == Some(operation.request_id),
                None => result.0 is None,
            },
            voids(result.1@, old(self)@.permissions, old(self)@.elicitation, channel),
    {
        let answers = answer_cancelled_requests(&self.permissions, self.elicitation, channel);
        let request_id = self.end();
        (request_id, answers)
    }

    /// Takes a client's response: the question it answers is settled, and any other response is
    /// dropped.
    pub fn take_response(&mut self, response: ClientResponse, channel: u64) -> (result: Option<
        Answer,
    >)
        ensures
            responded(old(self)@, response, channel, result, final(self)@),
    {
        let id: i64 = match &response.id {
            Some(sent) => match ask_id(sent) {
                Some(id) => id,
                None => {
                    return None;
                },
            },
            None => {
                return None;
            },
        };
        let asked = match self.elicitation {
            Some(outstanding) => outstanding == id,
            None => false,
        };
        if asked {
            self.elicitation = None;
            assert(self@ =~= PendingModel { elicitation: None, ..old(self)@ });
            return Some(
                Answer { channel, reply: Reply::Text(elicitation_answer(response.elicitation)) },
            );
        }
        let mut at: usize = 0;
        while at < self.permissions.len() && self.permissions[at].request_id != id
            invariant
                self == old(self),
                at <= self.permissions@.len(),
                ask_position(self.permissions@, id as int, 0) == ask_position(
                    self.permissions@,
                    id as int,
                    at as int,
                ),
            decreases self.permissions@.len() - at,
        {
            at += 1;
        }
        if at < self.permissions.len() {
            let ask = self.permissions.remove(at);
            assert(self@ =~= PendingModel {
                permissions: old(self)@.permissions.remove(at as int),
                ..old(self)@
            });
            let answer = permission_answer(response.permission);
            return Some(
                Answer {
                    channel: ask.channel,
                    reply: Reply::Permission { permission_id: ask.permission_id, answer },
                },
            );
        }
        None
    }
}

} // verus!
