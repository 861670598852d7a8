//! What holds between a session and its client, whatever they do.
use vstd::prelude::*;

use crate::acp::event_pump;
use crate::acp::event_pump::{EventPump, Envelope};
use crate::acp::operations;
use crate::acp::pending;
use crate::acp::pending::{
    Answer, ClientResponse, OperationKind, PendingModel, PermissionAsk, RequestId,
};
use crate::acp::updates::{Action, EndView};

verus! {

/// An operation ends once: when it has ended, neither its identity nor a run nor another way to
/// end an operation ends anything.
pub proof fn law_operations_end_once(
    before: PendingModel,
    operation_id: u64,
    kind: OperationKind,
    run_id: u64,
)
    ensures
        !pending::is_active(pending::ended(before), operation_id, kind),
        !pending::run_ends(pending::ended(before), run_id),
        pending::ended(pending::ended(before)) == pending::ended(before),
{
}

/// The end of a run leaves an operation alone that is no primary turn, or is another run's; a side
/// question and a compaction end only under their own identity and kind.
pub proof fn law_ends_are_targeted(
    pump: EventPump,
    before: PendingModel,
    next: i64,
    envelope: Envelope,
    actions: Seq<Action>,
    after: PendingModel,
    next_after: i64,
)
    requires
        event_pump::pumped(pump, before, next, envelope, actions, after, next_after),
        event_pump::run_end(envelope.event) is Some,
        before.operation is Some,
        before.operation->0.kind != OperationKind::PrimaryTurn || (before.operation->0.run_id
            is Some && before.operation->0.run_id != Some(envelope.run_id)),
    ensures
        after == before,
        actions.len() == 0,
{
}

/// An end that is meant for another side question than the active one does nothing.
pub proof fn law_questions_end_under_their_identity(
    before: PendingModel,
    operation_id: u64,
    end: EndView,
    actions: Seq<Action>,
    after: PendingModel,
)
    requires
        operations::question_ended(before, operation_id, end, actions, after),
        before.operation is Some,
        before.operation->0.id != operation_id || before.operation->0.kind
            != OperationKind::IsolatedTurn,
    ensures
        after == before,
        actions.len() == 0,
{
}

/// An end that is meant for another compaction than the active one does nothing.
pub proof fn law_compactions_end_under_their_identity(
    before: PendingModel,
    operation_id: u64,
    tool_id: Seq<char>,
    failure: Option<Seq<char>>,
    end: EndView,
    actions: Seq<Action>,
    after: PendingModel,
)
    requires
        operations::compaction_ended(
            before,
            operation_id,
            tool_id,
            failure,
            end,
            actions,
            after,
        ),
        before.operation is Some,
        before.operation->0.id != operation_id || before.operation->0.kind
            != OperationKind::ManualCompaction,
    ensures
        after == before,
        actions.len() == 0,
{
}

/// A run that has ended a prompt, and every run before it, never ends a later one.
pub proof fn law_retired_runs_end_nothing(later: PendingModel, retired: u64, run_id: u64)
    requires
        later.retired_primary_run == Some(retired),
        run_id <= retired,
    ensures
        !pending::run_ends(later, run_id),
{
}

/// What events, starts and ends leave as the retired run never goes back.
pub proof fn law_runs_stay_retired(
    pump: EventPump,
    before: PendingModel,
    next: i64,
    envelope: Envelope,
    actions: Seq<Action>,
    after: PendingModel,
    next_after: i64,
    retired: u64,
)
    requires
        event_pump::pumped(pump, before, next, envelope, actions, after, next_after),
        before.retired_primary_run == Some(retired),
    ensures
        after.retired_primary_run is Some,
        after.retired_primary_run->0 >= retired,
        pending::ended(before).retired_primary_run == Some(retired),
        pending::cancelled(before).retired_primary_run == Some(retired),
{
}

/// So many of the actions answer a prompt.
pub open spec fn responses(actions: Seq<Action>) -> nat
    decreases actions.len(),
{
    if actions.len() == 0 {
        0
    } else {
        responses(actions.drop_last()) + (if actions.last() is Respond {
            1nat
        } else {
            0nat
        })
    }
}

/// An event answers a prompt exactly where it ends the operation that the prompt has started, and
/// then once, under the request of that prompt.
pub proof fn law_answers_follow_the_operation(
    pump: EventPump,
    before: PendingModel,
    next: i64,
    envelope: Envelope,
    actions: Seq<Action>,
    after: PendingModel,
    next_after: i64,
)
    requires
        event_pump::pumped(pump, before, next, envelope, actions, after, next_after),
    ensures
        responses(actions) == (if before.operation is Some && after.operation is None {
            1nat
        } else {
            0nat
        }),
        forall|i: int|
            0 <= i < actions.len() && (#[trigger] actions[i]) is Respond ==> before.operation
                is Some && actions[i]->Respond_id == before.operation->0.request_id,
        after.operation is Some ==> after.operation == before.operation,
{
    reveal_with_fuel(responses, 3);
}

/// Cancelling twice does what cancelling once does, and there is nothing to cancel where no
/// operation is active: a second cancellation finds the operation being cancelled.
pub proof fn law_cancelling_again_changes_nothing(before: PendingModel)
    ensures
        before.operation is Some ==> pending::cancelling(pending::cancelled(before)),
        pending::cancelled(pending::cancelled(before)) == pending::cancelled(before),
        before.operation is None ==> pending::cancelled(before).operation is None,
        pending::cancelled(before).permissions.len() == 0,
        pending::cancelled(before).elicitation is None,
{
    assert(pending::cancelled(pending::cancelled(before)) =~= pending::cancelled(before));
}

/// While an operation is being cancelled the client is asked nothing, and no question is left
/// without an answer: what would be asked is answered at once.
pub proof fn law_cancelled_operations_ask_nothing(
    pump: EventPump,
    before: PendingModel,
    next: i64,
    envelope: Envelope,
    actions: Seq<Action>,
    after: PendingModel,
    next_after: i64,
)
    requires
        event_pump::pumped(pump, before, next, envelope, actions, after, next_after),
        pending::cancelling(before),
    ensures
        forall|i: int|
            0 <= i < actions.len() ==> (#[trigger] actions[i]) !is AskPermission && actions[i]
                !is AskElicitation,
        envelope.event is PermissionRequest || envelope.event is Question ==> actions.len() == 1
            && actions[0] is Reply && after == before,
{
}

/// Every outstanding question was asked under a request of its own, and under one before `next`.
pub open spec fn asked_before(asks: PendingModel, next: i64) -> bool {
    &&& forall|i: int| 0 <= i < asks.permissions.len() ==> (#[trigger] asks.permissions[i]).request_id < next
    &&& asks.elicitation is Some ==> asks.elicitation->0 < next
    &&& forall|i: int, j: int|
        0 <= i < j < asks.permissions.len() ==> (#[trigger] asks.permissions[i]).request_id
            != (#[trigger] asks.permissions[j]).request_id
    &&& asks.elicitation is Some ==> forall|i: int|
        0 <= i < asks.permissions.len() ==> (#[trigger] asks.permissions[i]).request_id
            != asks.elicitation->0
}

/// Where a position is found, the request stands there.
proof fn lemma_ask_position(asks: Seq<PermissionAsk>, id: int, from: int)
    requires
        0 <= from,
    ensures
        match pending::ask_position(asks, id, from) {
            Some(at) => from <= at < asks.len() && asks[at].request_id == id,
            None => forall|i: int|
                from <= i < asks.len() ==> (#[trigger] asks[i]).request_id != id,
        },
    decreases asks.len() - from,
{
    if from < asks.len() && asks[from].request_id != id {
        lemma_ask_position(asks, id, from + 1);
    }
}

/// No request is used for two questions, as long as the identities last.
pub proof fn law_requests_are_used_once(
    pump: EventPump,
    before: PendingModel,
    next: i64,
    envelope: Envelope,
    actions: Seq<Action>,
    after: PendingModel,
    next_after: i64,
)
    requires
        event_pump::pumped(pump, before, next, envelope, actions, after, next_after),
        asked_before(before, next),
        next < i64::MAX,
    ensures
        asked_before(after, next_after),
        next <= next_after,
{
    lemma_ask_position(before.permissions, next as int, 0);
}

/// Every outstanding question was asked under `first` or a later request.
pub open spec fn asked_since(asks: PendingModel, first: i64) -> bool {
    &&& forall|i: int|
        0 <= i < asks.permissions.len() ==> first <= (#[trigger] asks.permissions[i]).request_id
    &&& asks.elicitation is Some ==> first <= asks.elicitation->0
}

/// A late answer for a session that has closed settles nothing in the session that replaced it: the
/// new session asks only under requests that were not used before, and a response to an earlier one
/// is dropped.
pub proof fn law_late_answers_settle_nothing(
    pump: EventPump,
    before: PendingModel,
    first: i64,
    next: i64,
    envelope: Envelope,
    actions: Seq<Action>,
    after: PendingModel,
    next_after: i64,
    late: ClientResponse,
    channel: u64,
    answer: Option<Answer>,
    last: PendingModel,
)
    requires
        asked_since(before, first),
        first <= next < i64::MAX,
        event_pump::pumped(pump, before, next, envelope, actions, after, next_after),
        late.id is Some && pending::asked_id(late.id->0) is Some ==> pending::asked_id(late.id->0)->0
            < first,
        pending::responded(after, late, channel, answer, last),
    ensures
        asked_since(pending::nothing_pending(), first),
        asked_since(after, first),
        first <= next_after,
        answer is None,
        last == after,
{
    lemma_ask_position(before.permissions, next as int, 0);
    match late.id {
        Some(id) => match pending::asked_id(id) {
            Some(number) => {
                lemma_ask_position(after.permissions, number, 0);
            },
            None => {},
        },
        None => {},
    }
}

/// A question is answered once: the response that settles it, sent again, is dropped, and so is
/// every other response to the same request. Other questions stay.
pub proof fn law_questions_are_answered_once(
    before: PendingModel,
    next: i64,
    response: ClientResponse,
    channel: u64,
    answer: Option<Answer>,
    after: PendingModel,
    again: ClientResponse,
    second: Option<Answer>,
    last: PendingModel,
)
    requires
        asked_before(before, next),
        pending::responded(before, response, channel, answer, after),
        again.id == response.id,
        pending::responded(after, again, channel, second, last),
    ensures
        second is None,
        last == after,
        after.operation == before.operation,
        asked_before(after, next),
{
    match response.id {
        Some(id) => match pending::asked_id(id) {
            Some(number) => {
                lemma_ask_position(before.permissions, number, 0);
                lemma_ask_position(after.permissions, number, 0);
                if answer is Some && before.permissions.len() == after.permissions.len() {
                    assert(after.elicitation is None);
                }
            },
            None => {},
        },
        None => {},
    }
}

/// When a session closes, no operation and no question is left.
pub proof fn law_closing_leaves_nothing(before: PendingModel)
    ensures
        pending::ended(before).operation is None,
        pending::ended(before).permissions.len() == 0,
        pending::ended(before).elicitation is None,
{
}

/// A session has one operation at a time: while one is active none begins, and the one that begins
/// is the active one.
pub proof fn law_one_operation_at_a_time(
    before: PendingModel,
    lease: operations::LeaseReply,
    next: u64,
    request_id: RequestId,
    kind: OperationKind,
    cancel: u64,
)
    ensures
        before.operation is Some ==> operations::start_error(before, lease) is Some
            && pending::admission_error(before) is Some,
        pending::is_active(
            operations::started(before, next, request_id, kind, cancel, lease),
            next,
            kind,
        ),
{
}

} // verus!
