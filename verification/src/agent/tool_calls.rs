//! The tool calls of one reply: which are run, which are refused because the model repeats itself,
//! and how their results go back.
use std::collections::hash_map::DefaultHasher;
use std::hash::{BuildHasher, BuildHasherDefault};

use vstd::prelude::*;

use crate::agent::events;
use crate::agent::events::{ToolDone, ToolLabel};
use crate::text::{joined, same_text};
use crate::text_map::reversed;
use crate::types::{Message, MessageBlock, Role};

verus! {

/// So many calls in a row of one tool with one input are taken for a loop.
pub const DOOM_LOOP_THRESHOLD: usize = 3;

/// What a text is hashed to.
pub uninterp spec fn text_hash(text: Seq<char>) -> u64;

/// Calls `BuildHasher::hash_one` on a text, with the hasher that `DefaultHasher::default` gives.
/// Such hashers are all the same, so the hash depends on the text alone; it is given the name
/// [`text_hash`] because std does not say how it is computed. That different texts have different
/// hashes is not claimed.
#[verifier::external_body]
fn hash_text(text: &str) -> (result: u64)
    ensures
        result == text_hash(text@),
{
    BuildHasherDefault::<DefaultHasher>::default().hash_one(text)
}

/// A call that was made: its tool, and the hash of its input.
#[derive(Debug, PartialEq, Eq)]
struct RecordedCall {
    name: String,
    hash: u64,
}

/// The last calls that were made, the latest last.
#[derive(Debug)]
pub struct RecentCalls {
    calls: Vec<RecordedCall>,
}

impl View for RecentCalls {
    type V = Seq<(Seq<char>, u64)>;

    closed spec fn view(&self) -> Seq<(Seq<char>, u64)> {
        self.calls@.map_values(|call: RecordedCall| (call.name@, call.hash))
    }
}

/// A call would be the third in a row of one tool with one input.
pub open spec fn repeats(calls: Seq<(Seq<char>, u64)>, name: Seq<char>, hash: u64) -> bool {
    &&& calls.len() >= 2
    &&& calls[calls.len() - 1] == (name, hash)
    &&& calls[calls.len() - 2] == (name, hash)
}

/// Calls after one more has been made: the last three of them.
pub open spec fn recorded(calls: Seq<(Seq<char>, u64)>, name: Seq<char>, hash: u64) -> Seq<
    (Seq<char>, u64),
> {
    let longer = calls.push((name, hash));
    if longer.len() > 3 {
        longer.skip(1)
    } else {
        longer
    }
}

impl RecentCalls {
    /// No calls.
    pub fn new() -> (result: Self)
        ensures
            result@ == Seq::<(Seq<char>, u64)>::empty(),
    {
        let result = RecentCalls { calls: Vec::new() };
        assert(result@ =~= Seq::empty());
        result
    }

    /// Whether a call would be the third in a row of one tool with one input.
    pub fn is_repeat(&self, name: &str, hash: u64) -> (result: bool)
        ensures
            result == repeats(self@, name@, hash),
    {
        let count: usize = self.calls.len();
        if count < DOOM_LOOP_THRESHOLD - 1 {
            return false;
        }
        assert(self@[count - 1] == (self.calls@[count - 1].name@, self.calls@[count - 1].hash));
        assert(self@[count - 2] == (self.calls@[count - 2].name@, self.calls@[count - 2].hash));
        self.calls[count - 1].hash == hash && self.calls[count - 2].hash == hash && same_text(
            self.calls[count - 1].name.as_str(),
            name,
        ) && same_text(self.calls[count - 2].name.as_str(), name)
    }

    /// Whether a call would be the third in a row of one tool with one input. The input is its JSON
    /// text.
    pub fn is_doom_loop(&self, name: &str, input: &str) -> (result: bool)
        ensures
            result == repeats(self@, name@, text_hash(input@)),
    {
        self.is_repeat(name, hash_text(input))
    }

    /// Records a call by the hash of its input.
    pub fn record_hash(&mut self, name: &str, hash: u64)
        ensures
            final(self)@ == recorded(old(self)@, name@, hash),
    {
        self.calls.push(RecordedCall { name: name.to_owned(), hash });
        assert(self@ =~= old(self)@.push((name@, hash)));
        if self.calls.len() > DOOM_LOOP_THRESHOLD {
            self.calls.remove(0);
            assert(self@ =~= old(self)@.push((name@, hash)).skip(1));
        }
    }

    /// Records a call.
    pub fn record(&mut self, name: &str, input: &str)
        ensures
            final(self)@ == recorded(old(self)@, name@, text_hash(input@)),
    {
        self.record_hash(name, hash_text(input))
    }
}

/// A tool call of the model. The input is its JSON text.
#[derive(Debug, PartialEq, Eq)]
pub struct ToolCall {
    pub id: String,
    pub name: String,
    pub input: String,
}

impl Clone for ToolCall {
    fn clone(&self) -> (result: Self)
        ensures
            result == *self,
    {
        ToolCall { id: self.id.clone(), name: self.name.clone(), input: self.input.clone() }
    }
}

/// The tool calls of a message, in order.
pub open spec fn calls_of(content: Seq<MessageBlock>) -> Seq<ToolCall>
    decreases content.len(),
{
    if content.len() == 0 {
        Seq::empty()
    } else {
        let before = calls_of(content.drop_last());
        match content.last() {
            MessageBlock::ToolUse { id, name, input } => before.push(ToolCall { id, name, input }),
            _ => before,
        }
    }
}

/// The tool calls of a message, in order.
pub fn tool_uses(message: &Message) -> (result: Vec<ToolCall>)
    ensures
        result@ == calls_of(message.content@),
{
    let mut calls: Vec<ToolCall> = Vec::new();
    let mut i: usize = 0;
    assert(message.content@.take(0) =~= Seq::empty());
    while i < message.content.len()
        invariant
            i <= message.content@.len(),
            calls@ == calls_of(message.content@.take(i as int)),
        decreases message.content@.len() - i,
    {
        let ghost longer = message.content@.take(i + 1);
        assert(longer.drop_last() =~= message.content@.take(i as int));
        assert(longer.last() == message.content@[i as int]);
        match &message.content[i] {
            MessageBlock::ToolUse { id, name, input } => {
                calls.push(
                    ToolCall { id: id.clone(), name: name.clone(), input: input.clone() },
                );
            },
            _ => {},
        }
        i += 1;
    }
    assert(message.content@.take(i as int) =~= message.content@);
    calls
}

/// What becomes of calls: the calls that were made last, those that are run, and those that are
/// refused.
#[verifier::ext_equal]
pub struct PlanModel {
    pub recent: Seq<(Seq<char>, u64)>,
    pub runnable: Seq<ToolCall>,
    pub refused: Seq<ToolCall>,
}

/// What becomes of calls, given the hashes of their inputs. One that repeats is refused; it counts
/// as made all the same.
pub open spec fn planned(
    recent: Seq<(Seq<char>, u64)>,
    calls: Seq<ToolCall>,
    hashes: Seq<u64>,
) -> PlanModel
    decreases calls.len(),
{
    if calls.len() == 0 {
        PlanModel { recent, runnable: Seq::empty(), refused: Seq::empty() }
    } else {
        let before = planned(recent, calls.drop_last(), hashes);
        let call = calls.last();
        let hash = hashes[calls.len() - 1];
        let made = recorded(before.recent, call.name@, hash);
        if repeats(before.recent, call.name@, hash) {
            PlanModel { recent: made, refused: before.refused.push(call), ..before }
        } else {
            PlanModel { recent: made, runnable: before.runnable.push(call), ..before }
        }
    }
}

/// What is said to a model that repeats itself.
pub open spec fn doom_message() -> Seq<char> {
    "You have called this tool with identical input 3 times in a row. You are stuck in a loop. Break out and try a different approach."@
}

/// Calls are refused, each under its own identity.
pub open spec fn refuses_all(errors: Seq<ToolDone>, refused: Seq<ToolCall>) -> bool {
    &&& errors.len() == refused.len()
    &&& forall|i: int|
        0 <= i < errors.len() ==> events::fails_with(
            #[trigger] errors[i],
            refused[i].id@,
            ToolLabel::Unnamed,
            doom_message(),
        )
}

/// The calls that are run, and the errors of those that are refused.
#[derive(Debug)]
pub struct CallPlan {
    pub runnable: Vec<ToolCall>,
    pub errors: Vec<ToolDone>,
}

/// Plans calls, given the hashes of their inputs.
pub fn plan_hashed(recent: &mut RecentCalls, calls: &Vec<ToolCall>, hashes: &Vec<u64>)
    -> (result: CallPlan)
    requires
        hashes@.len() == calls@.len(),
    ensures
        ({
            let plan = planned(old(recent)@, calls@, hashes@);
            &&& final(recent)@ == plan.recent
            &&& result.runnable@ == plan.runnable
            &&& refuses_all(result.errors@, plan.refused)
        }),
{
    let mut runnable: Vec<ToolCall> = Vec::new();
    let mut errors: Vec<ToolDone> = Vec::new();
    let mut i: usize = 0;
    assert(calls@.take(0) =~= Seq::empty());
    while i < calls.len()
        invariant
            i <= calls@.len(),
            hashes@.len() == calls@.len(),
            recent@ == planned(old(recent)@, calls@.take(i as int), hashes@).recent,
            runnable@ == planned(old(recent)@, calls@.take(i as int), hashes@).runnable,
            refuses_all(
                errors@,
                planned(old(recent)@, calls@.take(i as int), hashes@).refused,
            ),
        decreases calls@.len() - i,
    {
        let call = &calls[i];
        let hash: u64 = hashes[i];
        let ghost longer = calls@.take(i + 1);
        assert(longer.drop_last() =~= calls@.take(i as int));
        assert(longer.last() == *call);
        if recent.is_repeat(call.name.as_str(), hash) {
            errors.push(
                ToolDone::error(
                    call.id.clone(),
                    "You have called this tool with identical input 3 times in a row. You are stuck in a loop. Break out and try a different approach.".to_owned(),
                ),
            );
        } else {
            runnable.push(call.clone());
        }
        recent.record_hash(call.name.as_str(), hash);
        i += 1;
    }
    assert(calls@.take(i as int) =~= calls@);
    CallPlan { runnable, errors }
}

/// The hashes of the inputs of calls.
pub open spec fn input_hashes(calls: Seq<ToolCall>) -> Seq<u64> {
    calls.map_values(|call: ToolCall| text_hash(call.input@))
}

/// Plans the tool calls of a reply.
pub fn plan_calls(recent: &mut RecentCalls, message: &Message) -> (result: CallPlan)
    ensures
        ({
            let calls = calls_of(message.content@);
            let plan = planned(old(recent)@, calls, input_hashes(calls));
            &&& final(recent)@ == plan.recent
            &&& result.runnable@ == plan.runnable
            &&& refuses_all(result.errors@, plan.refused)
        }),
{
    let calls = tool_uses(message);
    let mut hashes: Vec<u64> = Vec::new();
    let mut i: usize = 0;
    while i < calls.len()
        invariant
            i <= calls@.len(),
            hashes@ == input_hashes(calls@).take(i as int),
        decreases calls@.len() - i,
    {
        hashes.push(hash_text(calls[i].input.as_str()));
        i += 1;
        assert(hashes@ =~= input_hashes(calls@).take(i as int));
    }
    assert(hashes@ =~= input_hashes(calls@));
    plan_hashed(recent, &calls, &hashes)
}

/// How a call that was run ended: as it says, or with an error where it broke down.
pub open spec fn run_ended(ended: Result<ToolDone, String>, call: ToolCall, done: ToolDone) -> bool {
    match ended {
        Ok(own) => done == own,
        Err(error) => events::fails_with(
            done,
            call.id@,
            ToolLabel::Unnamed,
            "internal error: tool panicked: "@ + error@,
        ),
    }
}

/// How all calls ended: those that were run, in order, and then those that were refused.
pub open spec fn all_ended(
    plan: CallPlan,
    ended: Seq<Result<ToolDone, String>>,
    results: Seq<ToolDone>,
) -> bool {
    &&& results.len() == plan.runnable@.len() + plan.errors@.len()
    &&& forall|i: int|
        0 <= i < plan.runnable@.len() ==> run_ended(
            ended[i],
            plan.runnable@[i],
            #[trigger] results[i],
        )
    &&& results.skip(plan.runnable@.len() as int) == plan.errors@
}

/// The identities of calls.
pub open spec fn call_ids(calls: Seq<ToolCall>) -> Seq<Seq<char>> {
    calls.map_values(|call: ToolCall| call.id@)
}

/// The identities of the calls that ended.
pub open spec fn ended_ids(results: Seq<ToolDone>) -> Seq<Seq<char>> {
    results.map_values(|done: ToolDone| done.id@)
}

/// Each call that was run ended under its own identity, unless it broke down.
pub open spec fn own_ids(runnable: Seq<ToolCall>, ended: Seq<Result<ToolDone, String>>) -> bool {
    forall|i: int|
        0 <= i < runnable.len() ==> (#[trigger] ended[i] matches Ok(done) ==> done.id@
            == runnable[i].id@)
}

/// How all calls ended, given how those ended that were run.
pub fn collect_results(plan: CallPlan, ended: Vec<Result<ToolDone, String>>) -> (result: Vec<
    ToolDone,
>)
    requires
        ended@.len() == plan.runnable@.len(),
    ensures
        all_ended(plan, ended@, result@),
        own_ids(plan.runnable@, ended@) ==> ended_ids(result@) == call_ids(plan.runnable@)
            + ended_ids(plan.errors@),
{
    let ghost all = ended@;
    let mut rest = reversed(ended);
    let mut results: Vec<ToolDone> = Vec::new();
    while rest.len() > 0
        invariant
            all.len() == plan.runnable@.len(),
            results@.len() <= all.len(),
            rest@.len() == all.len() - results@.len(),
            forall|j: int| 0 <= j < rest@.len() ==> rest@[j] == all[all.len() - 1 - j],
            forall|i: int|
                0 <= i < results@.len() ==> run_ended(
                    all[i],
                    plan.runnable@[i],
                    #[trigger] results@[i],
                ),
        decreases rest@.len(),
    {
        match rest.pop() {
            Some(end) => {
                let at: usize = results.len();
                assert(end == all[at as int]);
                match end {
                    Ok(done) => {
                        results.push(done);
                    },
                    Err(error) => {
                        results.push(
                            ToolDone::error(
                                plan.runnable[at].id.clone(),
                                joined("internal error: tool panicked: ", error.as_str()),
                            ),
                        );
                    },
                }
            },
            None => {},
        }
    }
    let ghost ran = results@;
    let mut k: usize = 0;
    assert(results@ =~= ran + plan.errors@.take(0));
    while k < plan.errors.len()
        invariant
            k <= plan.errors@.len(),
            results@ == ran + plan.errors@.take(k as int),
        decreases plan.errors@.len() - k,
    {
        results.push(plan.errors[k].clone());
        k += 1;
        assert(results@ =~= ran + plan.errors@.take(k as int));
    }
    assert(plan.errors@.take(k as int) =~= plan.errors@);
    assert(results@.skip(plan.runnable@.len() as int) =~= plan.errors@);
    assert forall|i: int| 0 <= i < plan.runnable@.len() implies run_ended(
        all[i],
        plan.runnable@[i],
        #[trigger] results@[i],
    ) by {
        assert(results@[i] == ran[i]);
    }
    proof {
        if own_ids(plan.runnable@, all) {
            lemma_ended_ids(plan, all, results@);
        }
    }
    results
}

/// Calls that end under their own identities leave exactly the identities of all calls.
proof fn lemma_ended_ids(
    plan: CallPlan,
    ended: Seq<Result<ToolDone, String>>,
    results: Seq<ToolDone>,
)
    requires
        all_ended(plan, ended, results),
        own_ids(plan.runnable@, ended),
    ensures
        ended_ids(results) == call_ids(plan.runnable@) + ended_ids(plan.errors@),
{
    let runnable = plan.runnable@;
    let ids = call_ids(runnable) + ended_ids(plan.errors@);
    assert forall|i: int| 0 <= i < results.len() implies ended_ids(results)[i] == ids[i] by {
        if i < runnable.len() {
            assert(run_ended(ended[i], runnable[i], results[i]));
        } else {
            assert(results.skip(runnable.len() as int)[i - runnable.len()] == results[i]);
        }
    }
    assert(ended_ids(results) =~= ids);
}

/// Planning loses no call and makes none up: each is run or refused, as often as it was made.
proof fn lemma_planned_ids(recent: Seq<(Seq<char>, u64)>, calls: Seq<ToolCall>, hashes: Seq<u64>)
    ensures
        ({
            let plan = planned(recent, calls, hashes);
            call_ids(plan.runnable).to_multiset().add(call_ids(plan.refused).to_multiset())
                == call_ids(calls).to_multiset()
        }),
    decreases calls.len(),
{
    broadcast use vstd::seq_lib::group_to_multiset_ensures;

    let plan = planned(recent, calls, hashes);
    if calls.len() == 0 {
        assert(call_ids(plan.runnable) =~= Seq::<Seq<char>>::empty());
        assert(call_ids(plan.refused) =~= Seq::<Seq<char>>::empty());
        assert(call_ids(calls) =~= Seq::<Seq<char>>::empty());
        assert(call_ids(plan.runnable).to_multiset().add(call_ids(plan.refused).to_multiset())
            =~= call_ids(calls).to_multiset());
    } else {
        let shorter = calls.drop_last();
        let before = planned(recent, shorter, hashes);
        let call = calls.last();
        lemma_planned_ids(recent, shorter, hashes);
        assert(call_ids(calls) =~= call_ids(shorter).push(call.id@));
        assert(call_ids(before.runnable.push(call)) =~= call_ids(before.runnable).push(call.id@));
        assert(call_ids(before.refused.push(call)) =~= call_ids(before.refused).push(call.id@));
        assert(call_ids(plan.runnable).to_multiset().add(call_ids(plan.refused).to_multiset())
            =~= call_ids(calls).to_multiset());
    }
}

/// Each call of a reply is answered once: where those that are run end under their own identities,
/// the message with the results holds one result for each call, refused or not, under its identity.
pub proof fn law_each_call_is_answered_once(
    recent: Seq<(Seq<char>, u64)>,
    calls: Seq<ToolCall>,
    hashes: Seq<u64>,
    plan: CallPlan,
    ended: Seq<Result<ToolDone, String>>,
    results: Seq<ToolDone>,
    message: Message,
)
    requires
        plan.runnable@ == planned(recent, calls, hashes).runnable,
        refuses_all(plan.errors@, planned(recent, calls, hashes).refused),
        all_ended(plan, ended, results),
        own_ids(plan.runnable@, ended),
        carries_results(message, results),
    ensures
        message.content@.len() == calls.len(),
        result_ids(message.content@) == ended_ids(results),
        result_ids(message.content@).to_multiset() == call_ids(calls).to_multiset(),
{
    let made = planned(recent, calls, hashes);
    lemma_ended_ids(plan, ended, results);
    lemma_planned_ids(recent, calls, hashes);
    assert forall|i: int| 0 <= i < plan.errors@.len() implies ended_ids(plan.errors@)[i]
        == call_ids(made.refused)[i] by {
        assert(events::fails_with(
            plan.errors@[i],
            made.refused[i].id@,
            ToolLabel::Unnamed,
            doom_message(),
        ));
    }
    assert(ended_ids(plan.errors@) =~= call_ids(made.refused));
    vstd::seq_lib::lemma_multiset_commutative(call_ids(made.runnable), call_ids(made.refused));
    assert forall|i: int| 0 <= i < results.len() implies result_ids(message.content@)[i]
        == ended_ids(results)[i] by {
        assert(is_result_of(message.content@[i], results[i]));
    }
    assert(result_ids(message.content@) =~= ended_ids(results));
    lemma_planned_count(recent, calls, hashes);
}

/// Each call is run or refused.
proof fn lemma_planned_count(recent: Seq<(Seq<char>, u64)>, calls: Seq<ToolCall>, hashes: Seq<u64>)
    ensures
        planned(recent, calls, hashes).runnable.len() + planned(
            recent,
            calls,
            hashes,
        ).refused.len() == calls.len(),
    decreases calls.len(),
{
    if calls.len() > 0 {
        lemma_planned_count(recent, calls.drop_last(), hashes);
    }
}

/// The identities under which the pieces of a message answer calls.
pub open spec fn result_ids(content: Seq<MessageBlock>) -> Seq<Seq<char>> {
    content.map_values(
        |block: MessageBlock|
            match block {
                MessageBlock::ToolResult { tool_use_id, .. } => tool_use_id@,
                _ => Seq::empty(),
            },
    )
}

/// A piece of a message is what the model reads of a call's end.
pub open spec fn is_result_of(block: MessageBlock, done: ToolDone) -> bool {
    block == (MessageBlock::ToolResult {
        tool_use_id: done.id,
        content: done.output.text,
        is_error: done.is_error,
    })
}

/// The message that the results of calls go back in.
pub open spec fn carries_results(message: Message, results: Seq<ToolDone>) -> bool {
    &&& message.role == Role::User
    &&& message.display_text is None
    &&& message.content@.len() == results.len()
    &&& forall|i: int|
        0 <= i < results.len() ==> is_result_of(#[trigger] message.content@[i], results[i])
}

/// The message that the results of calls go back in.
pub fn tool_results(results: &Vec<ToolDone>) -> (result: Message)
    ensures
        carries_results(result, results@),
{
    let mut content: Vec<MessageBlock> = Vec::new();
    let mut i: usize = 0;
    while i < results.len()
        invariant
            i <= results@.len(),
            content@.len() == i,
            forall|j: int| 0 <= j < i ==> is_result_of(#[trigger] content@[j], results@[j]),
        decreases results@.len() - i,
    {
        content.push(
            MessageBlock::ToolResult {
                tool_use_id: results[i].id.clone(),
                content: results[i].output.text.clone(),
                is_error: results[i].is_error,
            },
        );
        i += 1;
    }
    Message { role: Role::User, content, display_text: None }
}

/// Every call is either run or refused, and none is both.
pub proof fn law_every_call_is_planned_once(
    recent: Seq<(Seq<char>, u64)>,
    calls: Seq<ToolCall>,
    hashes: Seq<u64>,
)
    ensures
        ({
            let plan = planned(recent, calls, hashes);
            plan.runnable.to_multiset().add(plan.refused.to_multiset()) == calls.to_multiset()
        }),
    decreases calls.len(),
{
    broadcast use vstd::multiset::group_multiset_axioms;

    let plan = planned(recent, calls, hashes);
    if calls.len() == 0 {
        assert(calls =~= Seq::empty());
        assert(plan.runnable.to_multiset().add(plan.refused.to_multiset()) =~= calls.to_multiset())
            by {
            assert(plan.runnable =~= calls);
            assert(plan.refused =~= calls);
            vstd::seq_lib::to_multiset_len(calls);
        }
    } else {
        let before = planned(recent, calls.drop_last(), hashes);
        law_every_call_is_planned_once(recent, calls.drop_last(), hashes);
        assert(calls =~= calls.drop_last().push(calls.last()));
        vstd::seq_lib::to_multiset_build(calls.drop_last(), calls.last());
        vstd::seq_lib::to_multiset_build(before.runnable, calls.last());
        vstd::seq_lib::to_multiset_build(before.refused, calls.last());
        assert(plan.runnable.to_multiset().add(plan.refused.to_multiset()) =~= calls.to_multiset());
    }
}

/// The third call in a row of one tool with one input is refused, and any other call breaks the
/// row.
pub proof fn law_three_in_a_row_are_a_loop(
    recent: Seq<(Seq<char>, u64)>,
    name: Seq<char>,
    hash: u64,
    other: Seq<char>,
    other_hash: u64,
)
    requires
        recent.len() <= 3,
    ensures
        repeats(recorded(recorded(recent, name, hash), name, hash), name, hash),
        (other, other_hash) != (name, hash) ==> !repeats(
            recorded(recorded(recent, name, hash), other, other_hash),
            name,
            hash,
        ),
        !repeats(recorded(Seq::empty(), name, hash), name, hash),
        recorded(recent, name, hash).len() <= 3,
{
}

} // verus!
