//! The queue: what it gives out, in which order, and what it keeps.
use vstd::prelude::*;

use crate::actor::queue;
use crate::actor::queue::{merge_inputs, run_correlation, ActorQueue};
use crate::actor::work::{ActorWork, ExtractedCommand, QueueProjection, RootWork, TurnAdmission};
use crate::promises::messages;
use crate::types::{AgentInput, Message, TurnId};

verus! {

/// Where, among the messages that inputs amount to, the message of the input `i` stands: behind
/// what goes before it, and behind everything of the inputs before it.
pub open spec fn said_at(inputs: Seq<AgentInput>, i: int) -> int
    decreases i + 1,
{
    if i < 0 {
        -1
    } else {
        said_at(inputs, i - 1) + inputs[i].preamble@.len() + 1
    }
}

/// Where the inputs' messages stand does not depend on later inputs.
proof fn lemma_said_at_prefix(inputs: Seq<AgentInput>, count: int, i: int)
    requires
        0 <= count <= inputs.len(),
        i < count,
    ensures
        said_at(inputs.take(count), i) == said_at(inputs, i),
    decreases i + 1,
{
    if i >= 0 {
        lemma_said_at_prefix(inputs, count, i - 1);
    }
}

/// Every message of every input is in its place.
proof fn lemma_told_places(inputs: Seq<AgentInput>, said: Seq<Message>)
    requires
        queue::told(inputs, said),
    ensures
        said.len() == said_at(inputs, inputs.len() - 1) + 1,
        forall|i: int|
            #![trigger inputs[i]]
            0 <= i < inputs.len() ==> {
                let at = said_at(inputs, i);
                &&& inputs[i].preamble@.len() <= at < said.len()
                &&& messages::says(said[at], inputs[i].message@, inputs[i].images@)
                &&& said.subrange(at - inputs[i].preamble@.len(), at) == inputs[i].preamble@
            },
    decreases inputs.len(),
{
    if inputs.len() > 0 {
        let last = inputs.last();
        let start = said.len() - 1 - last.preamble@.len();
        let shorter = inputs.drop_last();
        let before = said.take(start);
        lemma_told_places(shorter, before);
        assert(shorter =~= inputs.take(inputs.len() - 1));
        lemma_said_at_prefix(inputs, inputs.len() - 1, inputs.len() - 2);
        assert forall|i: int|
            #![trigger inputs[i]]
            0 <= i < inputs.len() implies {
            let at = said_at(inputs, i);
            &&& inputs[i].preamble@.len() <= at < said.len()
            &&& messages::says(said[at], inputs[i].message@, inputs[i].images@)
            &&& said.subrange(at - inputs[i].preamble@.len(), at) == inputs[i].preamble@
        } by {
            if i < inputs.len() - 1 {
                assert(shorter[i] == inputs[i]);
                lemma_said_at_prefix(inputs, inputs.len() - 1, i);
                let at = said_at(inputs, i);
                assert(said[at] == before[at]);
                assert(said.subrange(at - inputs[i].preamble@.len(), at) =~= before.subrange(
                    at - inputs[i].preamble@.len(),
                    at,
                ));
            } else {
                assert(said.last() == said[said_at(inputs, i)]);
            }
        }
    }
}

/// The merged input is the last one, with all that it says and runs under; what the others said
/// goes before it in order, each with its images and with what went before it.
pub open spec fn stands_for(inputs: Seq<AgentInput>, merged: AgentInput) -> bool {
    let last = inputs.last();
    let count = inputs.len() - 1;
    let told = said_at(inputs, count - 1) + 1;
    &&& merged.message@ == last.message@
    &&& merged.images@ == last.images@
    &&& merged.mode == last.mode
    &&& merged.thinking == last.thinking
    &&& merged.fast == last.fast
    &&& merged.workflow == last.workflow
    &&& merged.prompt == last.prompt
    &&& merged.batch_key == last.batch_key
    &&& merged.preamble@.len() == told + last.preamble@.len()
    &&& merged.preamble@.skip(told) == last.preamble@
    &&& forall|i: int|
        #![trigger inputs[i]]
        0 <= i < count ==> {
            let at = said_at(inputs, i);
            &&& inputs[i].preamble@.len() <= at < told
            &&& messages::says(merged.preamble@[at], inputs[i].message@, inputs[i].images@)
            &&& merged.preamble@.subrange(at - inputs[i].preamble@.len(), at)
                == inputs[i].preamble@
        }
}

/// What merging makes of inputs.
proof fn lemma_merged_stands(inputs: Seq<AgentInput>, merged: AgentInput)
    requires
        inputs.len() > 0,
        queue::is_merged(inputs, merged),
    ensures
        stands_for(inputs, merged),
{
    let count = inputs.len() - 1;
    let shorter = inputs.drop_last();
    let start = merged.preamble@.len() - inputs.last().preamble@.len();
    let told = merged.preamble@.take(start);
    lemma_told_places(shorter, told);
    assert(shorter =~= inputs.take(count));
    lemma_said_at_prefix(inputs, count, count - 1);
    assert forall|i: int|
        #![trigger inputs[i]]
        0 <= i < count implies {
        let at = said_at(inputs, i);
        &&& inputs[i].preamble@.len() <= at < start
        &&& messages::says(merged.preamble@[at], inputs[i].message@, inputs[i].images@)
        &&& merged.preamble@.subrange(at - inputs[i].preamble@.len(), at) == inputs[i].preamble@
    } by {
        assert(shorter[i] == inputs[i]);
        lemma_said_at_prefix(inputs, count, i);
        let at = said_at(inputs, i);
        assert(merged.preamble@[at] == told[at]);
        assert(merged.preamble@.subrange(at - inputs[i].preamble@.len(), at) =~= told.subrange(
            at - inputs[i].preamble@.len(),
            at,
        ));
    }
}

/// Merging loses nothing that was said: no message, no image, of the last input as of the others.
/// Nothing comes of nothing, and one input stands for itself.
pub proof fn law_merging_loses_nothing(inputs: Vec<AgentInput>, merged: Option<AgentInput>)
    requires
        call_ensures(merge_inputs, (inputs,), merged),
    ensures
        inputs@.len() == 0 ==> merged is None,
        inputs@.len() > 0 ==> merged is Some && stands_for(inputs@, merged->0),
        inputs@.len() == 1 ==> merged->0.preamble@ == inputs@[0].preamble@,
{
    if inputs@.len() > 0 {
        lemma_merged_stands(inputs@, merged->0);
        if inputs@.len() == 1 {
            assert(merged->0.preamble@.skip(0) =~= merged->0.preamble@);
        }
    }
}

/// Two pieces of work belong to one burst: roots of one generation whose inputs have one batch key.
pub open spec fn of_one_burst(first: ActorWork, other: ActorWork) -> bool {
    &&& first is Root && other is Root
    &&& first->Root_0.input.batch_key is Some
    &&& other->Root_0.input.batch_key == first->Root_0.input.batch_key
    &&& other->Root_0.generation == first->Root_0.generation
}

/// The burst at the front of a queue.
pub proof fn lemma_burst(items: Seq<ActorWork>, i: int)
    requires
        items.len() > 0,
    ensures
        1 <= queue::batch_length(items) <= items.len(),
        0 < i < queue::batch_length(items) ==> of_one_burst(items[0], items[i]),
        queue::batch_length(items) < items.len() ==> !of_one_burst(
            items[0],
            items[queue::batch_length(items) as int],
        ),
{
    if items[0] is Root && items[0]->Root_0.input.batch_key is Some {
        let root = items[0]->Root_0;
        let key = root.input.batch_key->0;
        if 0 < i < queue::batch_length(items) {
            queue::lemma_run_members(items, key, root.generation, 1, i);
        }
        lemma_run_ends(items, key, root.generation, 1);
    }
}

/// A run ends where it is broken.
proof fn lemma_run_ends(items: Seq<ActorWork>, key: u64, generation: u64, from: int)
    requires
        0 <= from <= items.len(),
    ensures
        ({
            let end = from + queue::run_length(items, key, generation, from);
            &&& end <= items.len()
            &&& end < items.len() ==> !queue::joins(items[end], key, generation)
        }),
    decreases items.len() - from,
{
    if from < items.len() && queue::joins(items[from], key, generation) {
        lemma_run_ends(items, key, generation, from + 1);
    }
}

/// What is taken off the queue is its front: the burst that stands there, to its end and no
/// further, or one item. A burst comes out as its last root, with the input that stands for all of
/// them, and a record of each of the others; anything else comes out as it went in.
pub proof fn law_pop_takes_the_front(queue: &mut ActorQueue, taken: Option<ActorWork>, i: int)
    requires
        call_ensures(ActorQueue::pop, (queue,), taken),
    ensures
        final(queue).pending_notice() == old(queue).pending_notice(),
        old(queue)@.len() == 0 ==> taken is None && final(queue)@.len() == 0,
        old(queue)@.len() > 0 ==> {
            let items = old(queue)@;
            let count = items.len() - final(queue)@.len();
            &&& taken is Some
            &&& 1 <= count <= items.len()
            &&& final(queue)@ == items.skip(count)
            &&& 0 < i < count ==> of_one_burst(items[0], items[i])
            &&& count < items.len() ==> !of_one_burst(items[0], items[count])
            &&& count == 1 ==> taken->0 == items[0]
            &&& count > 1 ==> {
                &&& taken->0 is Root
                &&& stands_for_roots(items.take(count), taken->0->Root_0)
            }
        },
{
    if old(queue)@.len() > 0 {
        let items = old(queue)@;
        let count = queue::batch_length(items) as int;
        lemma_burst(items, i);
        lemma_burst(items, 0);
        if items[0] is Root {
            if count == 1 {
                assert(items.take(count).last() == items[0]);
            } else {
                lemma_condensed_stands(items.take(count), taken->0->Root_0);
            }
        }
    }
}

/// A root is the last of several, with the input that stands for all of them and a record of each
/// of the others: what was shown for it, and the key that cancels it.
pub open spec fn stands_for_roots(items: Seq<ActorWork>, merged: RootWork) -> bool {
    let last = items.last()->Root_0;
    &&& stands_for(Seq::new(items.len(), |i: int| items[i]->Root_0.input), merged.input)
    &&& merged.run_id == last.run_id
    &&& merged.displayed == last.displayed
    &&& merged.text@ == last.text@
    &&& merged.images@ == last.images@
    &&& merged.correlation@ == last.correlation@
    &&& merged.generation == last.generation
    &&& merged.earlier@.len() == items.len() - 1
    &&& forall|i: int|
        0 <= i < items.len() - 1 ==> {
            let root = items[i]->Root_0;
            &&& (#[trigger] merged.earlier@[i]).run_id == root.run_id
            &&& merged.earlier@[i].displayed == root.displayed
            &&& merged.earlier@[i].text@ == root.text@
            &&& merged.earlier@[i].images@ == root.images@
            &&& merged.earlier@[i].correlation@ == root.correlation@
        }
}

/// What condensing makes of roots.
pub proof fn lemma_condensed_stands(items: Seq<ActorWork>, merged: RootWork)
    requires
        items.len() > 1,
        queue::is_condensed(items, merged),
    ensures
        stands_for_roots(items, merged),
{
    let inputs = Seq::new(items.len(), |i: int| items[i]->Root_0.input);
    assert(queue::root_inputs(items) =~= inputs);
    lemma_merged_stands(inputs, merged.input);
    assert forall|i: int| 0 <= i < items.len() - 1 implies queue::remains(
        items[i]->Root_0,
        #[trigger] merged.earlier@[i],
    ) by {}
}

/// A running turn takes only what it may fold into itself: the burst at the front, if it is of the
/// turn's own generation, every input of it in order and none twice, or one compaction with its
/// instructions. Anything else stays.
pub proof fn law_interrupts_fold_the_front(
    queue: &mut ActorQueue,
    generation: u64,
    taken: Option<ExtractedCommand>,
    i: int,
)
    requires
        call_ensures(ActorQueue::pop_interrupt, (queue, generation), taken),
    ensures
        final(queue).pending_notice() == old(queue).pending_notice(),
        ({
            let items = old(queue)@;
            let count = items.len() - final(queue)@.len();
            let folds = items.len() > 0 && items[0] is Root && items[0]->Root_0.generation
                == generation;
            let compacts = items.len() > 0 && items[0] is Compact;
            &&& final(queue)@ == items.skip(count)
            &&& 0 <= count <= items.len()
            &&& !folds && !compacts ==> taken is None && count == 0
            &&& compacts ==> count == 1 && taken == Some(
                ExtractedCommand::Compact(items[0]->Compact_instructions),
            )
            &&& folds ==> {
                &&& taken matches Some(ExtractedCommand::Interrupt(inputs)) && {
                    &&& inputs@.len() == count
                    &&& 0 <= i < count ==> inputs@[i] == items[i]->Root_0.input
                }
                &&& count >= 1
                &&& 0 < i < count ==> of_one_burst(items[0], items[i])
                &&& count < items.len() ==> !of_one_burst(items[0], items[count])
            }
        }),
{
    let items = old(queue)@;
    if items.len() > 0 {
        lemma_burst(items, i);
        lemma_burst(items, 0);
    }
    assert(items.skip(0) =~= items);
}

/// Work goes to the back of the queue, and the runner is told.
pub proof fn law_work_goes_to_the_back(queue: &mut ActorQueue, work: ActorWork)
    requires
        call_ensures(ActorQueue::push, (queue, work), ()),
    ensures
        final(queue)@.len() == old(queue)@.len() + 1,
        final(queue)@.last() == work,
        final(queue)@.drop_last() == old(queue)@,
        final(queue).pending_notice(),
{
    assert(final(queue)@.drop_last() =~= old(queue)@);
}

/// A turn is taken out by its identity: the first that has it, and nothing else.
pub proof fn law_turns_are_removed_by_identity(
    queue: &mut ActorQueue,
    turn_id: TurnId,
    removed: Option<TurnAdmission>,
)
    requires
        call_ensures(ActorQueue::remove_turn, (queue, turn_id), removed),
    ensures
        final(queue).pending_notice() == old(queue).pending_notice(),
        match removed {
            None => {
                &&& final(queue)@ == old(queue)@
                &&& forall|i: int|
                    0 <= i < old(queue)@.len() && #[trigger] old(queue)@[i] is Turn
                        ==> old(queue)@[i]->Turn_0.turn_id != turn_id
            },
            Some(admission) => {
                &&& admission.turn_id == turn_id
                &&& exists|at: int|
                    {
                        &&& 0 <= at < old(queue)@.len()
                        &&& #[trigger] old(queue)@[at] == ActorWork::Turn(admission)
                        &&& final(queue)@ == old(queue)@.remove(at)
                    }
            },
        },
{
    lemma_turn_position(old(queue)@, turn_id, 0);
}

/// Where a turn is found.
proof fn lemma_turn_position(items: Seq<ActorWork>, turn_id: TurnId, from: int)
    requires
        0 <= from,
    ensures
        match queue::turn_position(items, turn_id, from) {
            None => forall|i: int|
                from <= i < items.len() && #[trigger] items[i] is Turn ==> items[i]->Turn_0.turn_id
                    != turn_id,
            Some(at) => from <= at < items.len() && items[at] is Turn && items[at]->Turn_0.turn_id
                == turn_id,
        },
    decreases items.len() - from,
{
    if from < items.len() {
        lemma_turn_position(items, turn_id, from + 1);
    }
}

/// An item is taken out by its position, and a policy barrier is not.
pub proof fn law_items_are_removed_by_position(
    queue: &mut ActorQueue,
    index: usize,
    removed: Option<ActorWork>,
)
    requires
        call_ensures(ActorQueue::remove_at, (queue, index), removed),
    ensures
        final(queue).pending_notice() == old(queue).pending_notice(),
        removed is Some <==> index < old(queue)@.len() && !(old(queue)@[index as int]
            is PolicyBarrier),
        removed is Some ==> removed->0 == old(queue)@[index as int] && final(queue)@
            == old(queue)@.remove(index as int),
        removed is None ==> final(queue)@ == old(queue)@,
{
}

/// Work stands in the order of other work: each piece is found there, behind the one before it.
pub open spec fn keeps_order(
    items: Seq<ActorWork>,
    some: Seq<ActorWork>,
    places: Seq<int>,
) -> bool {
    &&& places.len() == some.len()
    &&& forall|i: int|
        0 <= i < some.len() ==> 0 <= #[trigger] places[i] < items.len() && items[places[i]]
            == some[i]
    &&& forall|i: int, j: int|
        0 <= i < j < places.len() ==> #[trigger] places[i] < #[trigger] places[j]
}

/// What is kept of work stands in its order.
pub proof fn lemma_filter_keeps_order(items: Seq<ActorWork>, keep: spec_fn(ActorWork) -> bool)
    ensures
        exists|places: Seq<int>| #[trigger] keeps_order(items, items.filter(keep), places),
    decreases items.len(),
{
    reveal(Seq::filter);
    if items.len() == 0 {
        assert(keeps_order(items, items.filter(keep), Seq::empty()));
    } else {
        let shorter = items.drop_last();
        lemma_filter_keeps_order(shorter, keep);
        let places = choose|places: Seq<int>| #[trigger]
            keeps_order(shorter, shorter.filter(keep), places);
        if keep(items.last()) {
            assert(keeps_order(items, items.filter(keep), places.push(items.len() - 1)));
        } else {
            assert(keeps_order(items, items.filter(keep), places));
        }
    }
}

/// What a key cancels leaves the queue, in order, and nothing else does: a turn or a root under its
/// own key, a compaction under its run's, and no control.
pub proof fn law_keys_take_their_work(
    queue: &mut ActorQueue,
    correlation: &str,
    removed: Vec<ActorWork>,
    work: ActorWork,
)
    requires
        call_ensures(ActorQueue::remove_correlation, (queue, correlation), removed),
    ensures
        final(queue).pending_notice() == old(queue).pending_notice(),
        ({
            let hit = match work {
                ActorWork::Turn(admission) => admission.correlation@ == correlation@,
                ActorWork::Root(root) => root.correlation@ == correlation@,
                ActorWork::Compact { run_id, .. } => queue::run_key(run_id) == correlation@,
                ActorWork::Control(_) => false,
                ActorWork::PolicyBarrier { .. } => false,
            };
            &&& removed@.contains(work) <==> old(queue)@.contains(work) && hit
            &&& final(queue)@.contains(work) <==> old(queue)@.contains(work) && !hit
            &&& removed@.len() + final(queue)@.len() == old(queue)@.len()
            &&& exists|places: Seq<int>| #[trigger] keeps_order(old(queue)@, removed@, places)
            &&& exists|places: Seq<int>| #[trigger]
                keeps_order(old(queue)@, final(queue)@, places)
        }),
{
    let hit = |w: ActorWork| queue::carries(w, correlation@);
    let miss = |w: ActorWork| !queue::carries(w, correlation@);
    lemma_filter_keeps_order(old(queue)@, hit);
    lemma_filter_keeps_order(old(queue)@, miss);
    lemma_filter(old(queue)@, hit, miss, work);
}

/// What is filtered out and what is left make up the whole.
pub proof fn lemma_filter(
    items: Seq<ActorWork>,
    hit: spec_fn(ActorWork) -> bool,
    miss: spec_fn(ActorWork) -> bool,
    work: ActorWork,
)
    requires
        forall|w: ActorWork| #[trigger] miss(w) == !hit(w),
    ensures
        items.filter(hit).contains(work) <==> items.contains(work) && hit(work),
        items.filter(miss).contains(work) <==> items.contains(work) && !hit(work),
        items.filter(hit).len() + items.filter(miss).len() == items.len(),
    decreases items.len(),
{
    reveal(Seq::filter);
    if items.len() > 0 {
        let shorter = items.drop_last();
        let last = items.last();
        lemma_filter(shorter, hit, miss, work);
        assert(miss(last) == !hit(last));
        assert(items =~= shorter.push(last));
        lemma_push_contains(shorter, last, work);
        lemma_push_contains(shorter.filter(hit), last, work);
        lemma_push_contains(shorter.filter(miss), last, work);
    }
}

/// What a longer sequence holds.
proof fn lemma_push_contains(items: Seq<ActorWork>, last: ActorWork, work: ActorWork)
    ensures
        items.push(last).contains(work) <==> items.contains(work) || work == last,
{
    if items.contains(work) {
        let i = choose|i: int| 0 <= i < items.len() && items[i] == work;
        assert(items.push(last)[i] == work);
    }
    if work == last {
        assert(items.push(last)[items.len() as int] == work);
    }
}

/// The key of a run is the letter `r` and the run's number.
pub proof fn law_run_keys_name_their_run(run_id: u64, key: String)
    requires
        call_ensures(run_correlation, (run_id,), key),
    ensures
        key@.len() > 1,
        key@[0] == 'r',
        key@.skip(1) == crate::text::decimal(run_id as nat),
        key@ == queue::run_key(run_id),
{
    reveal_strlit("r");
    assert(key@.skip(1) =~= crate::text::decimal(run_id as nat));
    assert(crate::text::decimal(run_id as nat).len() > 0);
}

/// The panel shows what waits and has not been drawn, and compactions; a turn, a control, a barrier
/// and a root that has been drawn are no rows.
pub proof fn law_rows_are_what_waits_unseen(work: ActorWork, shown: bool)
    requires
        call_ensures(ActorQueue::is_visible, (&work,), shown),
    ensures
        shown == match work {
            ActorWork::Turn(_) => false,
            ActorWork::Root(root) => !root.displayed,
            ActorWork::PolicyBarrier { .. } => false,
            ActorWork::Control(_) => false,
            ActorWork::Compact { .. } => true,
        },
{
}

/// A row shows its own work: a root's text and how many images it has, a compaction's instructions,
/// a control's name, a turn's key.
pub proof fn law_rows_show_their_work(work: ActorWork, row: QueueProjection)
    requires
        call_ensures(QueueProjection::of, (&work,), row),
    ensures
        match work {
            ActorWork::Turn(admission) => row matches QueueProjection::Turn(key) && key@
                == admission.correlation@,
            ActorWork::Root(root) => row matches QueueProjection::Message {
                text,
                image_count,
                displayed,
            } && text@ == root.text@ && image_count == root.images@.len() && displayed
                == root.displayed,
            ActorWork::PolicyBarrier { .. } => row is PolicyBarrier,
            ActorWork::Control(control) => row matches QueueProjection::Control(name) && name@
                == control.name@,
            ActorWork::Compact { instructions, .. } => row == QueueProjection::Compact(
                instructions,
            ),
        },
{
}

/// A row of the panel is taken out by its number among the rows: what is taken is a row, so many
/// rows stand before it, and where there are not so many, nothing is taken.
pub proof fn law_rows_are_removed_by_number(
    queue: &mut ActorQueue,
    row: usize,
    removed: Option<(ActorWork, QueueProjection)>,
)
    requires
        call_ensures(ActorQueue::remove_visible_at, (queue, row), removed),
    ensures
        final(queue).pending_notice() == old(queue).pending_notice(),
        match removed {
            None => final(queue)@ == old(queue)@ && rows_among(old(queue)@) <= row,
            Some((work, shown)) => exists|at: int|
                {
                    &&& 0 <= at < old(queue)@.len()
                    &&& #[trigger] old(queue)@[at] == work
                    &&& (work is Compact || (work is Root && !work->Root_0.displayed))
                    &&& rows_among(old(queue)@.take(at)) == row
                    &&& final(queue)@ == old(queue)@.remove(at)
                    &&& shown == queue::projection(work)
                },
        },
{
    let items = old(queue)@;
    assert(items.skip(0) =~= items);
    lemma_row_position(items, row as nat, 0);
    assert(rows_among(items.take(0)) == 0);
}

/// How many rows the panel has for work.
pub open spec fn rows_among(items: Seq<ActorWork>) -> nat
    decreases items.len(),
{
    if items.len() == 0 {
        0
    } else {
        let before = rows_among(items.drop_last());
        match items.last() {
            ActorWork::Root(root) if !root.displayed => before + 1,
            ActorWork::Compact { .. } => before + 1,
            _ => before,
        }
    }
}

/// More work has no fewer rows.
pub proof fn lemma_rows_grow(items: Seq<ActorWork>, from: int, to: int)
    requires
        0 <= from <= to <= items.len(),
    ensures
        rows_among(items.take(from)) <= rows_among(items.take(to)),
    decreases to - from,
{
    if from < to {
        lemma_rows_grow(items, from, to - 1);
        assert(items.take(to).drop_last() =~= items.take(to - 1));
    }
}

/// Where a row is found.
pub proof fn lemma_row_position(items: Seq<ActorWork>, row: nat, from: int)
    requires
        0 <= from <= items.len(),
    ensures
        match queue::row_position(items, row, from) {
            None => rows_among(items) <= row + rows_among(items.take(from)),
            Some(at) => {
                &&& from <= at < items.len()
                &&& items[at] is Compact || (items[at] is Root && !items[at]->Root_0.displayed)
                &&& rows_among(items.take(at)) == row + rows_among(items.take(from))
            },
        },
    decreases items.len() - from,
{
    if from < items.len() {
        assert(items.take(from + 1).drop_last() =~= items.take(from));
        assert(items.take(from + 1).last() == items[from]);
        if queue::visible(items[from]) {
            if row > 0 {
                lemma_row_position(items, (row - 1) as nat, from + 1);
            }
        } else {
            lemma_row_position(items, row, from + 1);
        }
    } else {
        assert(items.take(from) =~= items);
    }
}

/// The panel has one row for each piece of work that is a row, in order.
pub proof fn law_panel_lists_the_rows(queue: ActorQueue, rows: Vec<QueueProjection>)
    requires
        call_ensures(ActorQueue::panel, (&queue,), rows),
    ensures
        rows@.len() == rows_among(queue@),
        forall|i: int|
            0 <= i < rows@.len() ==> (#[trigger] rows@[i] is Compact || (rows@[i] is Message
                && !rows@[i]->displayed)),
        exists|shown: Seq<ActorWork>| #[trigger] are_drawn(queue@, shown, rows@),
{
    lemma_panel(queue@);
    lemma_drawn(queue@);
}

/// Rows are drawn for work, one for each piece, in the order of the queue.
pub open spec fn are_drawn(
    items: Seq<ActorWork>,
    shown: Seq<ActorWork>,
    rows: Seq<QueueProjection>,
) -> bool {
    &&& exists|places: Seq<int>| #[trigger] keeps_order(items, shown, places)
    &&& rows.len() == shown.len()
    &&& forall|i: int|
        0 <= i < rows.len() ==> match shown[i] {
            ActorWork::Root(root) => {
                &&& !root.displayed
                &&& #[trigger] rows[i] matches QueueProjection::Message {
                    text,
                    image_count,
                    displayed,
                } && text@ == root.text@ && image_count == root.images@.len() && !displayed
            },
            ActorWork::Compact { instructions, .. } => rows[i] == QueueProjection::Compact(
                instructions,
            ),
            _ => false,
        }
}

/// How the rows of the panel are drawn.
pub proof fn lemma_drawn(items: Seq<ActorWork>)
    ensures
        exists|shown: Seq<ActorWork>| #[trigger]
            are_drawn(items, shown, queue::panel_rows(items)),
{
    let seen = |work: ActorWork| queue::visible(work);
    let shown = items.filter(seen);
    lemma_filter_keeps_order(items, seen);
    assert forall|i: int| 0 <= i < shown.len() implies queue::visible(#[trigger] shown[i]) by {
        lemma_filter_holds(items, seen, i);
    }
    assert(are_drawn(items, shown, queue::panel_rows(items)));
}

/// What is kept is what is to be kept.
proof fn lemma_filter_holds(items: Seq<ActorWork>, keep: spec_fn(ActorWork) -> bool, i: int)
    ensures
        0 <= i < items.filter(keep).len() ==> keep(items.filter(keep)[i]),
    decreases items.len(),
{
    reveal(Seq::filter);
    if items.len() > 0 {
        lemma_filter_holds(items.drop_last(), keep, i);
    }
}

/// How many rows are drawn.
pub proof fn lemma_panel(items: Seq<ActorWork>)
    ensures
        queue::panel_rows(items).len() == rows_among(items),
        forall|i: int|
            0 <= i < queue::panel_rows(items).len() ==> (#[trigger] queue::panel_rows(items)[i]
                is Compact || (queue::panel_rows(items)[i] is Message && !queue::panel_rows(
                items,
            )[i]->displayed)),
    decreases items.len(),
{
    reveal(Seq::filter);
    if items.len() > 0 {
        let shorter = items.drop_last();
        lemma_panel(shorter);
        let shown = |work: ActorWork| queue::visible(work);
        let drawn = |work: ActorWork| queue::projection(work);
        assert forall|i: int| 0 <= i < queue::panel_rows(items).len() implies (
        #[trigger] queue::panel_rows(items)[i] is Compact || (queue::panel_rows(items)[i]
            is Message && !queue::panel_rows(items)[i]->displayed)) by {
            if i < queue::panel_rows(shorter).len() {
                assert(queue::panel_rows(items)[i] == queue::panel_rows(shorter)[i]);
            }
        }
    }
}

/// Everything that is queued is counted and can be taken out at once, in order.
pub proof fn law_draining_takes_everything(
    queue: &mut ActorQueue,
    count: usize,
    drained: Vec<ActorWork>,
    rows: Vec<QueueProjection>,
    i: int,
)
    requires
        call_ensures(ActorQueue::len, (&*old(queue),), count),
        call_ensures(ActorQueue::snapshot, (&*old(queue),), rows),
        call_ensures(ActorQueue::drain_all, (queue,), drained),
    ensures
        final(queue).pending_notice() == old(queue).pending_notice(),
        drained@ == old(queue)@,
        final(queue)@.len() == 0,
        count == old(queue)@.len(),
        rows@.len() == old(queue)@.len(),
        0 <= i < rows@.len() ==> rows@[i] == queue::projection(old(queue)@[i]),
{
}

/// A queue is empty exactly where it holds nothing but policy barriers.
pub proof fn law_barriers_do_not_count(queue: ActorQueue, empty: bool, i: int)
    requires
        call_ensures(ActorQueue::is_empty, (&queue,), empty),
    ensures
        empty && 0 <= i < queue@.len() ==> queue@[i] is PolicyBarrier,
        !empty ==> exists|j: int|
            0 <= j < queue@.len() && !(#[trigger] queue@[j] is PolicyBarrier),
{
}

} // verus!
