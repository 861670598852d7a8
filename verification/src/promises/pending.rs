//! What a session and its client owe each other: operations, permissions and questions.
use vstd::prelude::*;

use crate::acp::error::AcpError;
use crate::acp::pending;
use crate::acp::pending::{
    answer_cancelled_requests, ask_id, elicitation_answer, permission_answer, Answer, Cancellation,
    ClientResponse, OperationKind, Pending, PendingModel, PermissionAnswer, PermissionAsk, Reply,
    RequestId, SentId,
};
use crate::promises::pump;
use crate::text::parse_integer;

verus! {

/// What is seen of what is outstanding is what there is.
pub proof fn law_what_is_outstanding_is_seen(outstanding: Pending, fresh: Pending)
    requires
        call_ensures(Pending::new, (), fresh),
    ensures
        outstanding@.operation == outstanding.operation,
        outstanding@.retired_primary_run == outstanding.retired_primary_run,
        outstanding@.permissions == outstanding.permissions@,
        outstanding@.elicitation == outstanding.elicitation,
        fresh.operation is None,
        fresh.retired_primary_run is None,
        fresh.permissions@.len() == 0,
        fresh.elicitation is None,
{
}

/// Nothing is outstanding of an operation that has ended, and its questions are void.
pub open spec fn is_over(before: PendingModel, after: PendingModel) -> bool {
    &&& after.operation is None
    &&& after.permissions.len() == 0
    &&& after.elicitation is None
    &&& after.retired_primary_run == before.retired_primary_run
}

/// An operation is ended by its own identity and kind, and by no other: then its request is
/// answered.
pub proof fn law_operations_end_by_identity(
    outstanding: &mut Pending,
    id: u64,
    kind: OperationKind,
    answered: Option<RequestId>,
)
    requires
        call_ensures(Pending::finish_operation, (outstanding, id, kind), answered),
    ensures
        ({
            let before = old(outstanding)@;
            let own = before.operation is Some && before.operation->0.id == id
                && before.operation->0.kind == kind;
            &&& own ==> answered == Some(before.operation->0.request_id) && is_over(
                before,
                final(outstanding)@,
            )
            &&& !own ==> answered is None && final(outstanding)@ == before
        }),
{
}

/// The active operation is ended by its kind, and by no other: then its request is answered.
pub proof fn law_operations_end_by_kind(
    outstanding: &mut Pending,
    kind: OperationKind,
    answered: Option<RequestId>,
)
    requires
        call_ensures(Pending::finish_active_operation, (outstanding, kind), answered),
    ensures
        ({
            let before = old(outstanding)@;
            let own = before.operation is Some && before.operation->0.kind == kind;
            &&& own ==> answered == Some(before.operation->0.request_id) && is_over(
                before,
                final(outstanding)@,
            )
            &&& !own ==> answered is None && final(outstanding)@ == before
        }),
{
}

/// A run ends the primary turn that it is the run of, and no run ends anything once it, or a later
/// one, has.
pub proof fn law_runs_end_their_own_turn(
    outstanding: &mut Pending,
    run_id: u64,
    answered: Option<RequestId>,
)
    requires
        call_ensures(Pending::finish_primary_run, (outstanding, run_id), answered),
    ensures
        ({
            let before = old(outstanding)@;
            let after = final(outstanding)@;
            let own = pump::is_run_of(*old(outstanding), run_id);
            &&& own ==> {
                &&& answered == Some(before.operation->0.request_id)
                &&& after.operation is None
                &&& after.permissions.len() == 0
                &&& after.elicitation is None
                &&& after.retired_primary_run == Some(run_id)
            }
            &&& !own ==> answered is None && after == before
        }),
{
}

/// An operation is released by its own identity and kind, and by no other.
pub proof fn law_operations_are_released_by_identity(
    outstanding: &mut Pending,
    id: u64,
    kind: OperationKind,
)
    requires
        call_ensures(Pending::release_operation, (outstanding, id, kind), ()),
    ensures
        ({
            let before = old(outstanding)@;
            let own = before.operation is Some && before.operation->0.id == id
                && before.operation->0.kind == kind;
            &&& own ==> is_over(before, final(outstanding)@)
            &&& !own ==> final(outstanding)@ == before
        }),
{
}

/// A prompt may start exactly where nothing is active. One that comes while another is being
/// cancelled may be sent again; any other may not.
pub proof fn law_prompts_start_alone(outstanding: Pending, admitted: Result<(), AcpError>)
    requires
        call_ensures(Pending::admit_prompt, (&outstanding,), admitted),
    ensures
        admitted is Ok <==> outstanding.operation is None,
        outstanding.operation is Some && outstanding.operation->0.cancelling ==> (admitted matches Err(
            error,
        ) && error.code == -32001 && error.message@
            == "session cancellation is still in progress; retry the prompt"@ && error.data
            is Retryable),
        outstanding.operation is Some && !outstanding.operation->0.cancelling ==> (
        admitted matches Err(error) && pump::bare(
            error,
            -32600,
            "session already has an active operation"@,
        )),
{
}

/// One operation is active at a time.
pub proof fn law_operations_exclude_each_other(
    outstanding: &mut Pending,
    id: u64,
    request_id: RequestId,
    kind: OperationKind,
    cancel: u64,
    lease: u64,
    begun: Result<(), AcpError>,
    free: Result<(), AcpError>,
)
    requires
        call_ensures(
            Pending::begin_operation,
            (outstanding, id, request_id, kind, cancel, lease),
            begun,
        ),
        call_ensures(Pending::check_free, (&*old(outstanding),), free),
    ensures
        free is Ok <==> old(outstanding)@.operation is None,
        begun is Ok <==> old(outstanding)@.operation is None,
        free matches Err(error) ==> pump::bare(
            error,
            -32600,
            "session already has an active operation"@,
        ),
        begun matches Err(error) ==> pump::bare(
            error,
            -32600,
            "session already has an active operation"@,
        ),
        begun is Err ==> final(outstanding)@ == old(outstanding)@,
        begun is Ok ==> {
            &&& final(outstanding)@.operation matches Some(operation) && {
                &&& operation.id == id
                &&& operation.request_id == request_id
                &&& operation.kind == kind
                &&& operation.run_id is None
                &&& !operation.cancelling
                &&& operation.cancel == Some(cancel)
                &&& operation.lease == Some(lease)
            }
            &&& final(outstanding)@.retired_primary_run == old(outstanding)@.retired_primary_run
            &&& final(outstanding)@.permissions == old(outstanding)@.permissions
            &&& final(outstanding)@.elicitation == old(outstanding)@.elicitation
        },
{
}

/// The answers deny every permission, each where it was asked and under the question that waits,
/// and dismiss an open question on the session's channel.
pub open spec fn all_denied(
    answers: Seq<Answer>,
    permissions: Seq<PermissionAsk>,
    elicitation: Option<i64>,
    channel: u64,
) -> bool {
    &&& elicitation is None ==> answers.len() == permissions.len()
    &&& elicitation is Some ==> answers.len() == permissions.len() + 1 && pump::dismissed(
        answers.last(),
        channel,
    )
    &&& forall|i: int|
        0 <= i < permissions.len() ==> {
            &&& (#[trigger] answers[i]).channel == permissions[i].channel
            &&& answers[i].reply matches Reply::Permission { permission_id, answer }
                && permission_id@ == permissions[i].permission_id@ && answer
                == PermissionAnswer::Deny
        }
}

/// Voiding what is open denies every permission and dismisses the question.
pub proof fn law_void_questions_are_denied(
    permissions: Vec<PermissionAsk>,
    elicitation: Option<i64>,
    channel: u64,
    answers: Vec<Answer>,
)
    requires
        call_ensures(answer_cancelled_requests, (&permissions, elicitation, channel), answers),
    ensures
        all_denied(answers@, permissions@, elicitation, channel),
{
}

/// A cancellation pulls the trigger of the active operation, once, and answers what is open; the
/// operation stays until it has ended.
pub proof fn law_cancelling_denies_what_is_open(
    outstanding: &mut Pending,
    channel: u64,
    cancellation: Option<Cancellation>,
)
    requires
        call_ensures(Pending::cancel, (outstanding, channel), cancellation),
    ensures
        ({
            let before = old(outstanding)@;
            let after = final(outstanding)@;
            let first = before.operation is Some && !before.operation->0.cancelling;
            &&& !first ==> cancellation is None && after == before
            &&& first ==> {
                &&& cancellation is Some
                &&& cancellation->0.trigger == before.operation->0.cancel
                &&& all_denied(
                    cancellation->0.answers@,
                    before.permissions,
                    before.elicitation,
                    channel,
                )
                &&& after.permissions.len() == 0
                &&& after.elicitation is None
                &&& after.retired_primary_run == before.retired_primary_run
                &&& after.operation matches Some(operation) && {
                    &&& operation.cancelling
                    &&& operation.cancel is None
                    &&& operation.id == before.operation->0.id
                    &&& operation.request_id == before.operation->0.request_id
                    &&& operation.kind == before.operation->0.kind
                    &&& operation.run_id == before.operation->0.run_id
                    &&& operation.lease == before.operation->0.lease
                }
            }
        }),
{
}

/// Closing ends the active operation, whose request is answered, and answers what is open.
pub proof fn law_closing_ends_everything(
    outstanding: &mut Pending,
    channel: u64,
    closed: (Option<RequestId>, Vec<Answer>),
)
    requires
        call_ensures(Pending::close, (outstanding, channel), closed),
    ensures
        is_over(old(outstanding)@, final(outstanding)@),
        closed.0 is Some <==> old(outstanding)@.operation is Some,
        closed.0 matches Some(id) ==> id == old(outstanding)@.operation->0.request_id,
        all_denied(
            closed.1@,
            old(outstanding)@.permissions,
            old(outstanding)@.elicitation,
            channel,
        ),
{
}

/// Of two different answers to a permission that can be read, neither is taken for the other, and
/// what cannot be read is a denial.
pub proof fn law_decisions_are_taken_as_they_are(
    permission: Option<PermissionAnswer>,
    decision: PermissionAnswer,
    payload: Option<String>,
    text: String,
)
    requires
        call_ensures(permission_answer, (permission,), decision),
        call_ensures(elicitation_answer, (payload,), text),
    ensures
        permission matches Some(given) ==> decision == given,
        permission is None ==> decision == PermissionAnswer::Deny,
        payload matches Some(given) ==> text@ == given@,
        payload is None ==> text@ == "{\"dismissed\":true}"@,
{
}

/// A response answers the request whose number it carries, as a number or written out.
pub proof fn law_responses_are_matched_by_number(
    sent: SentId,
    id: Option<i64>,
    text: &str,
    number: Option<i64>,
)
    requires
        call_ensures(ask_id, (&sent,), id),
        sent is Text ==> text@ == sent->Text_0@,
        call_ensures(parse_integer, (text,), number),
    ensures
        sent matches SentId::Number(number) ==> id == Some(number),
        sent is Text ==> id == number,
        sent is Other ==> id is None,
{
}

/// A response settles the question that it answers, and nothing else: the form that is open gets
/// its text on the session's channel, and a permission gets its decision where it was asked. A
/// response that answers nothing changes nothing.
pub proof fn law_responses_settle_their_question(
    outstanding: &mut Pending,
    response: ClientResponse,
    channel: u64,
    answer: Option<Answer>,
    id: Option<i64>,
)
    requires
        call_ensures(Pending::take_response, (outstanding, response, channel), answer),
        match response.id {
            Some(sent) => call_ensures(ask_id, (&sent,), id),
            None => id is None,
        },
    ensures
        ({
            let before = old(outstanding)@;
            let after = final(outstanding)@;
            let form = id is Some && before.elicitation == id;
            &&& after.operation == before.operation
            &&& after.retired_primary_run == before.retired_primary_run
            &&& form ==> {
                &&& after.elicitation is None
                &&& after.permissions == before.permissions
                &&& answer is Some
                &&& answer->0.channel == channel
                &&& answer->0.reply matches Reply::Text(text) && match response.elicitation {
                    Some(given) => text@ == given@,
                    None => text@ == "{\"dismissed\":true}"@,
                }
            }
            &&& !form ==> after.elicitation == before.elicitation
            &&& !form && answer is Some ==> exists|at: int|
                {
                    &&& 0 <= at < before.permissions.len()
                    &&& id is Some
                    &&& (#[trigger] before.permissions[at]).request_id == id->0
                    &&& after.permissions == before.permissions.remove(at)
                    &&& answer->0.channel == before.permissions[at].channel
                    &&& answer->0.reply matches Reply::Permission { permission_id, answer: given }
                    &&& permission_id@ == before.permissions[at].permission_id@
                    &&& given == (match response.permission {
                        Some(decision) => decision,
                        None => PermissionAnswer::Deny,
                    })
                }
            &&& answer is None ==> {
                &&& after == before
                &&& id is Some ==> forall|k: int|
                    0 <= k < before.permissions.len() ==> (#[trigger] before.permissions[k]).request_id
                        != id->0
            }
        }),
{
    let before = old(outstanding)@;
    if id is Some {
        pump::lemma_ask_position(before.permissions, id->0 as int, 0);
        if answer is Some && before.elicitation != id {
            let at = pending::ask_position(before.permissions, id->0 as int, 0)->0;
            assert(before.permissions[at].request_id == id->0);
        }
    }
}

} // verus!
