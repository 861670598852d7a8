//! Tool calls: which of them run, and what the model reads of how they ended.
use vstd::prelude::*;

use crate::agent::events::{OutputKind, ToolDone, ToolLabel};
use crate::agent::native::{finish_native, ExecutingCall, FinishedCall, ToolResult};
use crate::agent::tool_calls;
use crate::agent::tool_calls::{
    collect_results, plan_calls, plan_hashed, tool_results, tool_uses, CallPlan, RecentCalls,
    ToolCall,
};
use crate::types::{Message, MessageBlock, Role};

verus! {

/// What the model reads of each call is how that call ended: its own identity, what its tool gave
/// back, and whether that is an error. The results come in order, and nothing else goes with them.
pub proof fn law_results_go_back_as_they_are(results: &Vec<ToolDone>, message: Message, i: int)
    requires
        call_ensures(tool_results, (results,), message),
    ensures
        message.role == Role::User,
        message.display_text is None,
        message.content@.len() == results@.len(),
        0 <= i < results@.len() ==> (message.content@[i] matches MessageBlock::ToolResult {
            tool_use_id,
            content,
            is_error,
        } && tool_use_id@ == results@[i].id@ && content@ == results@[i].output.text@ && is_error
            == results@[i].is_error),
{
    if 0 <= i < results@.len() {
        assert(tool_calls::is_result_of(message.content@[i], results@[i]));
    }
}

/// A call whose tool gave something back is read as no error, with what the tool gave back; one
/// whose tool failed is read as an error, with the tool's message.
pub proof fn law_the_model_reads_what_tools_give(
    executing: ExecutingCall,
    given: ToolResult,
    finished: FinishedCall,
    results: &Vec<ToolDone>,
    message: Message,
    i: int,
)
    requires
        call_ensures(finish_native, (executing, given), finished),
        call_ensures(tool_results, (results,), message),
        0 <= i < results@.len(),
        results@[i] == finished.done,
    ensures
        message.content@[i] matches MessageBlock::ToolResult { tool_use_id, content, is_error } && {
            &&& tool_use_id@ == executing.call.id@
            &&& is_error <==> given.output is Err
            &&& match given.output {
                Ok(output) => content@ == output.text@,
                Err(reason) => content@ == reason@,
            }
        },
{
    law_results_go_back_as_they_are(results, message, i);
}

/// A finished call is shown under its tool's name, with everything that the tool gave back. The
/// file that it has written counts as read exactly where it held the lock and succeeded.
pub proof fn law_finished_calls_show_everything(
    executing: ExecutingCall,
    given: ToolResult,
    finished: FinishedCall,
)
    requires
        call_ensures(finish_native, (executing, given), finished),
    ensures
        finished.done.id@ == executing.call.id@,
        finished.done.tool matches ToolLabel::Named(name) && name@ == executing.call.tool@,
        finished.done.is_error <==> given.output is Err,
        given.output matches Ok(output) ==> {
            &&& finished.done.output == output
            &&& finished.done.annotation == given.annotation
            &&& finished.done.written_path == given.written_path
        },
        given.output matches Err(reason) ==> {
            &&& finished.done.output.kind == OutputKind::Plain
            &&& finished.done.output.text@ == reason@
            &&& finished.done.annotation is None
            &&& finished.done.written_path is None
        },
        finished.records_read <==> executing.locked && given.output is Ok,
{
}

/// A call that ends in prose holds that prose and nothing else.
pub proof fn law_prose_is_kept(
    id: String,
    tool: ToolLabel,
    kind: OutputKind,
    text: String,
    is_error: bool,
    done: ToolDone,
)
    requires
        call_ensures(ToolDone::prose, (id, tool, kind, text, is_error), done),
    ensures
        done.id@ == id@,
        done.tool == tool,
        done.output.kind == kind,
        done.output.text@ == text@,
        done.is_error == is_error,
        done.annotation is None,
        done.written_path is None,
{
}

/// A call that failed is an error, and holds the message.
pub proof fn law_failures_are_errors(id: String, message: String, done: ToolDone)
    requires
        call_ensures(ToolDone::error, (id, message), done),
    ensures
        done.id@ == id@,
        done.tool is Unnamed,
        done.output.kind == OutputKind::Plain,
        done.output.text@ == message@,
        done.is_error,
        done.annotation is None,
        done.written_path is None,
{
}

/// So many of the first `i` pieces of a message are tool calls.
pub open spec fn calls_before(content: Seq<MessageBlock>, i: int) -> int
    decreases i,
{
    if i <= 0 {
        0
    } else if content[i - 1] is ToolUse {
        calls_before(content, i - 1) + 1
    } else {
        calls_before(content, i - 1)
    }
}

/// The calls are those of a message: each in its place among them, as it was made.
pub open spec fn are_calls_of(calls: Seq<ToolCall>, content: Seq<MessageBlock>) -> bool {
    &&& calls.len() == calls_before(content, content.len() as int)
    &&& forall|i: int|
        0 <= i < content.len() && #[trigger] content[i] is ToolUse ==> {
            let at = calls_before(content, i);
            &&& 0 <= at < calls.len()
            &&& content[i] matches MessageBlock::ToolUse { id, name, input } && calls[at].id@ == id@
                && calls[at].name@ == name@ && calls[at].input@ == input@
        }
}

/// Fewer pieces hold no more calls, and the first pieces alone hold as many.
proof fn lemma_calls_before(content: Seq<MessageBlock>, shorter: Seq<MessageBlock>, i: int, j: int)
    requires
        0 <= i <= j <= content.len(),
        shorter.len() <= content.len(),
        forall|k: int| 0 <= k < shorter.len() ==> shorter[k] == content[k],
    ensures
        0 <= calls_before(content, i) <= calls_before(content, j),
        i < j && content[i] is ToolUse ==> calls_before(content, i) < calls_before(content, j),
        i <= shorter.len() ==> calls_before(shorter, i) == calls_before(content, i),
    decreases i + j,
{
    if i > 0 {
        lemma_calls_before(content, shorter, i - 1, i - 1);
    }
    if i < j {
        lemma_calls_before(content, shorter, i, j - 1);
    }
}

/// The calls that are gathered from a message are its calls.
proof fn lemma_calls_of(content: Seq<MessageBlock>)
    ensures
        are_calls_of(tool_calls::calls_of(content), content),
    decreases content.len(),
{
    if content.len() > 0 {
        let shorter = content.drop_last();
        let calls = tool_calls::calls_of(content);
        lemma_calls_of(shorter);
        lemma_calls_before(content, shorter, shorter.len() as int, shorter.len() as int);
        assert forall|i: int| 0 <= i < content.len() && #[trigger] content[i] is ToolUse implies {
            let at = calls_before(content, i);
            &&& 0 <= at < calls.len()
            &&& content[i] matches MessageBlock::ToolUse { id, name, input } && calls[at].id@ == id@
                && calls[at].name@ == name@ && calls[at].input@ == input@
        } by {
            lemma_calls_before(content, shorter, i, shorter.len() as int);
            if i < shorter.len() {
                assert(shorter[i] is ToolUse);
            }
        }
    }
}

/// The calls of a message are all seen, in order, as they were made, and nothing else is.
pub proof fn law_calls_are_seen_as_made(message: Message, calls: Vec<ToolCall>)
    requires
        call_ensures(tool_uses, (&message,), calls),
    ensures
        are_calls_of(calls@, message.content@),
{
    lemma_calls_of(message.content@);
}

/// The calls that were made before the call at `i`: those that were known, and those before it in
/// the same reply, run or not. A call is its tool and the hash of its input.
pub open spec fn made_before(
    known: Seq<(Seq<char>, u64)>,
    calls: Seq<ToolCall>,
    hashes: Seq<u64>,
    i: int,
) -> Seq<(Seq<char>, u64)> {
    known + Seq::new(i as nat, |k: int| (calls[k].name@, hashes[k]))
}

/// The call at `i` is the third in a row of one tool with one input.
pub open spec fn is_third(
    known: Seq<(Seq<char>, u64)>,
    calls: Seq<ToolCall>,
    hashes: Seq<u64>,
    i: int,
) -> bool {
    let made = made_before(known, calls, hashes, i);
    &&& made.len() >= 2
    &&& made[made.len() - 1] == (calls[i].name@, hashes[i])
    &&& made[made.len() - 2] == (calls[i].name@, hashes[i])
}

/// So many of the first `i` calls are the third in a row.
pub open spec fn thirds_before(
    known: Seq<(Seq<char>, u64)>,
    calls: Seq<ToolCall>,
    hashes: Seq<u64>,
    i: int,
) -> int
    decreases i,
{
    if i <= 0 {
        0
    } else if is_third(known, calls, hashes, i - 1) {
        thirds_before(known, calls, hashes, i - 1) + 1
    } else {
        thirds_before(known, calls, hashes, i - 1)
    }
}

/// The done call tells the model that it is stuck.
pub open spec fn tells_of_loop(done: ToolDone) -> bool {
    &&& done.is_error
    &&& done.output.text@
        == "You have called this tool with identical input 3 times in a row. You are stuck in a loop. Break out and try a different approach."@
}

/// The call at `i` is where it belongs: among those that are refused where it is the third in a
/// row, and otherwise among those that run, each behind as many as there are before it.
pub open spec fn is_placed(
    known: Seq<(Seq<char>, u64)>,
    calls: Seq<ToolCall>,
    hashes: Seq<u64>,
    runnable: Seq<ToolCall>,
    refused: Seq<Seq<char>>,
    i: int,
) -> bool {
    let thirds = thirds_before(known, calls, hashes, i);
    &&& 0 <= thirds <= i
    &&& if is_third(known, calls, hashes, i) {
        thirds < refused.len() && refused[thirds] == calls[i].id@
    } else {
        i - thirds < runnable.len() && runnable[i - thirds] == calls[i]
    }
}

/// What becomes of calls: each that is the third in a row is refused and the others run, all in
/// order.
pub open spec fn breaks_loops(
    known: Seq<(Seq<char>, u64)>,
    calls: Seq<ToolCall>,
    hashes: Seq<u64>,
    runnable: Seq<ToolCall>,
    errors: Seq<ToolDone>,
) -> bool {
    let refused = errors.map_values(|done: ToolDone| done.id@);
    &&& errors.len() == thirds_before(known, calls, hashes, calls.len() as int)
    &&& runnable.len() + errors.len() == calls.len()
    &&& forall|i: int|
        0 <= i < calls.len() ==> #[trigger] is_placed(known, calls, hashes, runnable, refused, i)
    &&& forall|k: int| 0 <= k < errors.len() ==> tells_of_loop(#[trigger] errors[k])
}

/// The calls that are remembered are the last ones of those that were made, and at least two of
/// them if there are two.
pub open spec fn remembers(recent: Seq<(Seq<char>, u64)>, made: Seq<(Seq<char>, u64)>) -> bool {
    &&& recent.len() <= made.len()
    &&& recent == made.skip(made.len() - recent.len())
    &&& recent.len() >= 3 || recent.len() == made.len()
}

/// The last calls are remembered while calls are planned.
proof fn lemma_remembered(
    known: Seq<(Seq<char>, u64)>,
    calls: Seq<ToolCall>,
    hashes: Seq<u64>,
    i: int,
)
    requires
        0 <= i <= calls.len(),
    ensures
        remembers(
            tool_calls::planned(known, calls.take(i), hashes).recent,
            made_before(known, calls, hashes, i),
        ),
    decreases i,
{
    let made = made_before(known, calls, hashes, i);
    if i == 0 {
        assert(made =~= known);
        assert(made.skip(0) =~= made);
    } else {
        lemma_remembered(known, calls, hashes, i - 1);
        assert(calls.take(i).drop_last() =~= calls.take(i - 1));
        let recent = tool_calls::planned(known, calls.take(i - 1), hashes).recent;
        let made_less = made_before(known, calls, hashes, i - 1);
        let own = (calls[i - 1].name@, hashes[i - 1]);
        let gap = made_less.len() - recent.len();
        assert(made =~= made_less.push(own));
        assert(recent.push(own) =~= made.skip(gap)) by {
            assert forall|k: int| 0 <= k < recent.len() implies recent[k] == made_less[gap + k] by {
                assert(recent[k] == made_less.skip(gap)[k]);
            }
        }
        assert(recent.push(own).skip(1) =~= made.skip(gap + 1));
    }
}

/// A call that is about to be planned repeats what is remembered exactly where it is the third.
proof fn lemma_repeats_as_third(
    known: Seq<(Seq<char>, u64)>,
    calls: Seq<ToolCall>,
    hashes: Seq<u64>,
    i: int,
)
    requires
        0 <= i < calls.len(),
    ensures
        tool_calls::repeats(
            tool_calls::planned(known, calls.take(i), hashes).recent,
            calls[i].name@,
            hashes[i],
        ) == is_third(known, calls, hashes, i),
{
    lemma_remembered(known, calls, hashes, i);
    let recent = tool_calls::planned(known, calls.take(i), hashes).recent;
    let made = made_before(known, calls, hashes, i);
    if recent.len() >= 2 {
        let gap = made.len() - recent.len();
        assert(recent[recent.len() - 1] == made.skip(gap)[recent.len() - 1]);
        assert(recent[recent.len() - 2] == made.skip(gap)[recent.len() - 2]);
    }
}

/// What the plan does with the first `i` calls.
proof fn lemma_placed(
    known: Seq<(Seq<char>, u64)>,
    calls: Seq<ToolCall>,
    hashes: Seq<u64>,
    i: int,
)
    requires
        0 <= i <= calls.len(),
    ensures
        ({
            let plan = tool_calls::planned(known, calls.take(i), hashes);
            let refused = tool_calls::call_ids(plan.refused);
            &&& plan.refused.len() == thirds_before(known, calls, hashes, i)
            &&& plan.runnable.len() + plan.refused.len() == i
            &&& forall|k: int|
                0 <= k < i ==> #[trigger] is_placed(
                    known,
                    calls,
                    hashes,
                    plan.runnable,
                    refused,
                    k,
                )
        }),
    decreases i,
{
    if i > 0 {
        lemma_placed(known, calls, hashes, i - 1);
        lemma_repeats_as_third(known, calls, hashes, i - 1);
        assert(calls.take(i).drop_last() =~= calls.take(i - 1));
        assert(calls.take(i).last() == calls[i - 1]);
        let before = tool_calls::planned(known, calls.take(i - 1), hashes);
        let plan = tool_calls::planned(known, calls.take(i), hashes);
        let refused = tool_calls::call_ids(plan.refused);
        assert forall|k: int| 0 <= k < i implies #[trigger] is_placed(
            known,
            calls,
            hashes,
            plan.runnable,
            refused,
            k,
        ) by {
            if k < i - 1 {
                assert(is_placed(
                    known,
                    calls,
                    hashes,
                    before.runnable,
                    tool_calls::call_ids(before.refused),
                    k,
                ));
            }
        }
    }
}

/// What the plan does with all calls.
proof fn lemma_plan(
    known: Seq<(Seq<char>, u64)>,
    calls: Seq<ToolCall>,
    hashes: Seq<u64>,
    runnable: Seq<ToolCall>,
    errors: Seq<ToolDone>,
)
    requires
        runnable == tool_calls::planned(known, calls, hashes).runnable,
        tool_calls::refuses_all(errors, tool_calls::planned(known, calls, hashes).refused),
    ensures
        breaks_loops(known, calls, hashes, runnable, errors),
        remembers(
            tool_calls::planned(known, calls, hashes).recent,
            made_before(known, calls, hashes, calls.len() as int),
        ),
{
    assert(calls.take(calls.len() as int) =~= calls);
    lemma_placed(known, calls, hashes, calls.len() as int);
    lemma_remembered(known, calls, hashes, calls.len() as int);
    let ids = errors.map_values(|done: ToolDone| done.id@);
    let refused = tool_calls::planned(known, calls, hashes).refused;
    assert forall|k: int| 0 <= k < errors.len() implies tells_of_loop(#[trigger] errors[k])
        && errors[k].id@ == refused[k].id@ by {
        assert(crate::agent::events::fails_with(
            errors[k],
            refused[k].id@,
            ToolLabel::Unnamed,
            tool_calls::doom_message(),
        ));
    }
    assert(ids =~= tool_calls::call_ids(refused));
}

/// Exactly the calls that are the third in a row of one tool with one input are refused, whoever
/// made the two before; all others run. Each call counts as made, and the last ones are remembered.
pub proof fn law_loops_are_broken(
    recent: &mut RecentCalls,
    calls: &Vec<ToolCall>,
    hashes: &Vec<u64>,
    plan: CallPlan,
)
    requires
        call_ensures(plan_hashed, (recent, calls, hashes), plan),
    ensures
        breaks_loops(old(recent)@, calls@, hashes@, plan.runnable@, plan.errors@),
        remembers(
            final(recent)@,
            made_before(old(recent)@, calls@, hashes@, calls@.len() as int),
        ),
{
    lemma_plan(old(recent)@, calls@, hashes@, plan.runnable@, plan.errors@);
}

/// The calls of a reply are planned by what they say: two calls of one tool are alike where the
/// texts of their inputs hash alike, and nothing else of them is looked at.
pub proof fn law_calls_are_planned_by_what_they_say(
    recent: &mut RecentCalls,
    message: Message,
    plan: CallPlan,
    calls: Vec<ToolCall>,
)
    requires
        call_ensures(plan_calls, (recent, &message), plan),
        call_ensures(tool_uses, (&message,), calls),
    ensures
        ({
            let hashes = Seq::new(
                calls@.len(),
                |i: int| tool_calls::text_hash(calls@[i].input@),
            );
            &&& are_calls_of(calls@, message.content@)
            &&& breaks_loops(old(recent)@, calls@, hashes, plan.runnable@, plan.errors@)
            &&& remembers(
                final(recent)@,
                made_before(old(recent)@, calls@, hashes, calls@.len() as int),
            )
        }),
{
    let hashes = Seq::new(calls@.len(), |i: int| tool_calls::text_hash(calls@[i].input@));
    assert(tool_calls::input_hashes(calls@) =~= hashes);
    lemma_calls_of(message.content@);
    lemma_plan(old(recent)@, calls@, hashes, plan.runnable@, plan.errors@);
}

/// Nothing is remembered at first.
pub proof fn law_no_calls_at_first(recent: RecentCalls)
    requires
        call_ensures(RecentCalls::new, (), recent),
    ensures
        recent@.len() == 0,
{
}

/// A call is remembered as it was made, after those before it.
pub proof fn law_calls_are_remembered(recent: &mut RecentCalls, name: &str, input: &str)
    requires
        call_ensures(RecentCalls::record, (recent, name, input), ()),
    ensures
        final(recent)@.len() > 0,
        final(recent)@.last() == (name@, tool_calls::text_hash(input@)),
        old(recent)@.len() < 3 ==> final(recent)@.drop_last() == old(recent)@,
        old(recent)@.len() >= 3 ==> final(recent)@.drop_last() == old(recent)@.skip(1),
{
    let longer = old(recent)@.push((name@, tool_calls::text_hash(input@)));
    assert(longer.drop_last() =~= old(recent)@);
    if longer.len() > 3 {
        assert(longer.skip(1).drop_last() =~= old(recent)@.skip(1));
    }
}

/// A call is taken for a loop exactly where the last two calls were the same.
pub proof fn law_a_loop_is_three_in_a_row(
    recent: RecentCalls,
    name: &str,
    input: &str,
    stuck: bool,
)
    requires
        call_ensures(RecentCalls::is_doom_loop, (&recent, name, input), stuck),
    ensures
        stuck <==> {
            let own = (name@, tool_calls::text_hash(input@));
            &&& recent@.len() >= 2
            &&& recent@[recent@.len() - 1] == own
            &&& recent@[recent@.len() - 2] == own
        },
{
}

/// How each call ended is told: as it says itself where it ran, as an error with the reason where
/// it broke down, and as it was refused where it was.
pub proof fn law_every_end_is_told(
    plan: CallPlan,
    ended: Vec<Result<ToolDone, String>>,
    results: Vec<ToolDone>,
    i: int,
)
    requires
        ended@.len() == plan.runnable@.len(),
        call_ensures(collect_results, (plan, ended), results),
    ensures
        results@.len() == plan.runnable@.len() + plan.errors@.len(),
        0 <= i < plan.runnable@.len() ==> match ended@[i] {
            Ok(own) => results@[i] == own,
            Err(reason) => {
                &&& results@[i].id@ == plan.runnable@[i].id@
                &&& results@[i].is_error
                &&& results@[i].output.text@ == "internal error: tool panicked: "@ + reason@
            },
        },
        plan.runnable@.len() <= i < results@.len() ==> results@[i] == plan.errors@[i
            - plan.runnable@.len()],
{
    if 0 <= i < plan.runnable@.len() {
        assert(tool_calls::run_ended(ended@[i], plan.runnable@[i], results@[i]));
    } else if i < results@.len() && 0 <= i {
        assert(results@.skip(plan.runnable@.len() as int)[i - plan.runnable@.len()] == results@[i]);
    }
}

} // verus!
