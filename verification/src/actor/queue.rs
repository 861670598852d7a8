//! The actor's queue: one sequence of work, taken from the front.
use std::collections::VecDeque;

use vstd::prelude::*;

use crate::actor::work::{
    ActorWork, EarlierRoot, ExtractedCommand, QueueProjection, RootWork, TurnAdmission,
};
use crate::text;
use crate::text::decimal_text;
use crate::text_map::reversed;
use crate::types;
use crate::types::{AgentInput, Message, TurnId};

verus! {

/// The key by which the run `run_id` is cancelled: the letter `r` and the number.
pub open spec fn run_key(run_id: u64) -> Seq<char> {
    "r"@ + text::decimal(run_id as nat)
}

/// The key by which the run `run_id` is cancelled.
pub fn run_correlation(run_id: u64) -> (result: String)
    ensures
        result@ == run_key(run_id),
{
    let mut result = "r".to_owned();
    let number = decimal_text(run_id);
    result.append(number.as_str());
    result
}

/// The key by which queued work is cancelled, where it has one.
pub open spec fn correlation_key(work: ActorWork) -> Option<Seq<char>> {
    match work {
        ActorWork::Turn(admission) => Some(admission.correlation@),
        ActorWork::Root(root) => Some(root.correlation@),
        ActorWork::Compact { run_id, .. } => Some(run_key(run_id)),
        ActorWork::Control(_) => None,
        ActorWork::PolicyBarrier { .. } => None,
    }
}

/// Work is cancelled by the key `correlation`.
pub open spec fn carries(work: ActorWork, correlation: Seq<char>) -> bool {
    correlation_key(work) == Some(correlation)
}

/// What a host draws for queued work.
pub open spec fn projection(work: ActorWork) -> QueueProjection {
    match work {
        ActorWork::Turn(admission) => QueueProjection::Turn(admission.correlation),
        ActorWork::Root(root) => QueueProjection::Message {
            text: root.text,
            image_count: root.images.len(),
            displayed: root.displayed,
        },
        ActorWork::PolicyBarrier { .. } => QueueProjection::PolicyBarrier,
        ActorWork::Control(control) => QueueProjection::Control(control.name),
        ActorWork::Compact { instructions, .. } => QueueProjection::Compact(instructions),
    }
}

/// A host shows the work as a row of its queue panel: a root that has not been drawn, or a
/// compaction.
pub open spec fn visible(work: ActorWork) -> bool {
    match work {
        ActorWork::Root(root) => !root.displayed,
        ActorWork::Compact { .. } => true,
        _ => false,
    }
}

/// What a host draws in its queue panel: the visible items, in order.
pub open spec fn panel_rows(items: Seq<ActorWork>) -> Seq<QueueProjection> {
    items.filter(|work: ActorWork| visible(work)).map_values(|work: ActorWork| projection(work))
}

/// The position of the row `row` of the queue panel, counted from `from`.
pub open spec fn row_position(items: Seq<ActorWork>, row: nat, from: int) -> Option<int>
    decreases items.len() - from,
{
    if from < 0 || from >= items.len() {
        None
    } else if visible(items[from]) {
        if row == 0 {
            Some(from)
        } else {
            row_position(items, (row - 1) as nat, from + 1)
        }
    } else {
        row_position(items, row, from + 1)
    }
}

/// The work is the admitted turn `turn_id`.
pub open spec fn is_turn(work: ActorWork, turn_id: TurnId) -> bool {
    work matches ActorWork::Turn(admission) && admission.turn_id == turn_id
}

/// The position of the admitted turn `turn_id`, looked for from `from` on.
pub open spec fn turn_position(items: Seq<ActorWork>, turn_id: TurnId, from: int) -> Option<int>
    decreases items.len() - from,
{
    if from < 0 || from >= items.len() {
        None
    } else if is_turn(items[from], turn_id) {
        Some(from)
    } else {
        turn_position(items, turn_id, from + 1)
    }
}

/// The work is a root of the policy generation `generation` whose input has the batch key `key`.
pub open spec fn joins(work: ActorWork, key: u64, generation: u64) -> bool {
    work matches ActorWork::Root(root) && root.generation == generation && root.input.batch_key
        == Some(key)
}

/// How many items, from the position `from` on, follow one another as roots of one generation
/// and one batch key.
pub open spec fn run_length(items: Seq<ActorWork>, key: u64, generation: u64, from: int) -> nat
    decreases items.len() - from,
{
    if 0 <= from < items.len() && joins(items[from], key, generation) {
        1 + run_length(items, key, generation, from + 1)
    } else {
        0
    }
}

/// How many items at the front of the queue belong together: a root and those that continue its
/// batch, or a single item.
pub open spec fn batch_length(items: Seq<ActorWork>) -> nat {
    match items[0] {
        ActorWork::Root(root) => match root.input.batch_key {
            Some(key) => 1 + run_length(items, key, root.generation, 1),
            None => 1,
        },
        _ => 1,
    }
}

/// `messages` tells what the inputs said: for each, what went before it and then itself.
pub open spec fn told(inputs: Seq<AgentInput>, messages: Seq<Message>) -> bool
    decreases inputs.len(),
{
    if inputs.len() == 0 {
        messages.len() == 0
    } else {
        let last = inputs.last();
        let start = messages.len() - 1 - last.preamble@.len();
        &&& start >= 0
        &&& types::is_user_message(messages.last(), last.message@, last.images@)
        &&& messages.subrange(start, messages.len() - 1) == last.preamble@
        &&& told(inputs.drop_last(), messages.take(start))
    }
}

/// `merged` is the last of the inputs, preceded by what the others said.
pub open spec fn is_merged(inputs: Seq<AgentInput>, merged: AgentInput) -> bool {
    let last = inputs.last();
    let start = merged.preamble@.len() - last.preamble@.len();
    &&& merged.message == last.message
    &&& merged.mode == last.mode
    &&& merged.images == last.images
    &&& merged.thinking == last.thinking
    &&& merged.fast == last.fast
    &&& merged.workflow == last.workflow
    &&& merged.prompt == last.prompt
    &&& merged.batch_key == last.batch_key
    &&& start >= 0
    &&& merged.preamble@.skip(start) == last.preamble@
    &&& told(inputs.drop_last(), merged.preamble@.take(start))
}

/// One input that stands for several.
pub fn merge_inputs(inputs: Vec<AgentInput>) -> (result: Option<AgentInput>)
    ensures
        inputs@.len() == 0 <==> result is None,
        result matches Some(merged) ==> is_merged(inputs@, merged),
{
    let ghost all = inputs@;
    let mut rest = reversed(inputs);
    let mut messages: Vec<Message> = Vec::new();
    let ghost mut done: int = 0;
    if rest.len() == 0 {
        return None;
    }
    while rest.len() > 1
        invariant
            0 <= done < all.len(),
            rest@.len() == all.len() - done,
            forall|j: int| 0 <= j < rest@.len() ==> rest@[j] == all[all.len() - 1 - j],
            told(all.take(done), messages@),
        decreases rest@.len(),
    {
        match rest.pop() {
            Some(input) => {
                let ghost before = messages@;
                assert(input == all[done]);
                let AgentInput { message, images, preamble, .. } = input;
                let mut preamble = preamble;
                let ghost told_before = preamble@;
                messages.append(&mut preamble);
                messages.push(Message::user_with_images(message, images));
                assert(all.take(done + 1).drop_last() =~= all.take(done));
                assert(messages@.take(before.len() as int) =~= before);
                assert(messages@.subrange(before.len() as int, messages@.len() - 1)
                    =~= told_before);
                proof {
                    done = done + 1;
                }
            },
            None => {},
        }
    }
    match rest.pop() {
        Some(last) => {
            let mut last = last;
            let ghost before = messages@;
            let ghost own = last.preamble@;
            messages.append(&mut last.preamble);
            last.preamble = messages;
            assert(all.drop_last() =~= all.take(done));
            assert(last.preamble@.take(before.len() as int) =~= before);
            assert(last.preamble@.skip(before.len() as int) =~= own);
            Some(last)
        },
        None => None,
    }
}

/// `earlier` is what remains of a root that was condensed into a later one.
pub open spec fn remains(root: RootWork, earlier: EarlierRoot) -> bool {
    &&& earlier.run_id == root.run_id
    &&& earlier.displayed == root.displayed
    &&& earlier.text == root.text
    &&& earlier.images == root.images
    &&& earlier.correlation == root.correlation
}

/// The inputs of roots that stand one after another.
pub open spec fn root_inputs(items: Seq<ActorWork>) -> Seq<AgentInput> {
    items.map_values(|work: ActorWork| work->Root_0.input)
}

/// `merged` is one root that stands for all the roots in `items`: the last, with the input that
/// stands for all, and a record of each of the others in order. A single root stands for itself.
pub open spec fn is_condensed(items: Seq<ActorWork>, merged: RootWork) -> bool {
    let last = items.last()->Root_0;
    if items.len() == 1 {
        merged == last
    } else {
        &&& merged.run_id == last.run_id
        &&& merged.displayed == last.displayed
        &&& merged.text == last.text
        &&& merged.images == last.images
        &&& merged.correlation == last.correlation
        &&& merged.generation == last.generation
        &&& merged.earlier@.len() == items.len() - 1
        &&& forall|i: int|
            0 <= i < items.len() - 1 ==> remains(items[i]->Root_0, #[trigger] merged.earlier@[i])
        &&& is_merged(root_inputs(items), merged.input)
    }
}

/// The batch at the front of the queue is made of roots, all of the first one's generation.
pub proof fn lemma_run_members(items: Seq<ActorWork>, key: u64, generation: u64, from: int, i: int)
    requires
        0 <= from <= i < from + run_length(items, key, generation, from),
    ensures
        i < items.len(),
        joins(items[i], key, generation),
    decreases items.len() - from,
{
    if i > from {
        lemma_run_members(items, key, generation, from + 1, i);
    }
}

/// A batch ends inside the queue.
proof fn lemma_run_bound(items: Seq<ActorWork>, key: u64, generation: u64, from: int)
    requires
        0 <= from <= items.len(),
    ensures
        from + run_length(items, key, generation, from) <= items.len(),
    decreases items.len() - from,
{
    if from < items.len() {
        lemma_run_bound(items, key, generation, from + 1);
    }
}

/// Whether the work is a root of that generation and batch key.
fn continues(work: &ActorWork, key: u64, generation: u64) -> (result: bool)
    ensures
        result == joins(*work, key, generation),
{
    match work {
        ActorWork::Root(root) => root.generation == generation && match root.input.batch_key {
            Some(other) => other == key,
            None => false,
        },
        _ => false,
    }
}

/// One root that stands for all of a batch.
fn condense(roots: Vec<RootWork>, items: Ghost<Seq<ActorWork>>) -> (result: RootWork)
    requires
        roots@.len() > 0,
        items@.len() == roots@.len(),
        forall|i: int|
            0 <= i < roots@.len() ==> #[trigger] items@[i] == ActorWork::Root(roots@[i]),
    ensures
        is_condensed(items@, result),
{
    let count: usize = roots.len();
    let ghost all = roots@;
    let mut rest = reversed(roots);
    let mut inputs: Vec<AgentInput> = Vec::new();
    let mut earlier: Vec<EarlierRoot> = Vec::new();
    if count == 1 {
        return match rest.pop() {
            Some(root) => root,
            None => {
                assert(false);
                vstd::pervasive::unreached()
            },
        };
    }
    let ghost mut done: int = 0;
    while rest.len() > 1
        invariant
            0 <= done < all.len(),
            rest@.len() == all.len() - done,
            forall|j: int| 0 <= j < rest@.len() ==> rest@[j] == all[all.len() - 1 - j],
            inputs@.len() == done,
            earlier@.len() == done,
            forall|j: int| 0 <= j < done ==> #[trigger] inputs@[j] == all[j].input,
            forall|j: int| 0 <= j < done ==> remains(all[j], #[trigger] earlier@[j]),
        decreases rest@.len(),
    {
        match rest.pop() {
            Some(root) => {
                assert(root == all[done]);
                inputs.push(root.input);
                earlier.push(
                    EarlierRoot {
                        run_id: root.run_id,
                        displayed: root.displayed,
                        text: root.text,
                        images: root.images,
                        correlation: root.correlation,
                    },
                );
                proof {
                    done = done + 1;
                }
            },
            None => {},
        }
    }
    match rest.pop() {
        Some(last) => {
            let RootWork { input, run_id, displayed, text, images, correlation, generation, .. } =
                last;
            inputs.push(input);
            assert(inputs@ =~= root_inputs(items@));
            let merged = merge_inputs(inputs);
            match merged {
                Some(input) => RootWork {
                    input,
                    run_id,
                    displayed,
                    text,
                    images,
                    correlation,
                    generation,
                    earlier,
                },
                None => {
                    assert(false);
                    vstd::pervasive::unreached()
                },
            }
        },
        None => {
            assert(false);
            vstd::pervasive::unreached()
        },
    }
}


/// The queue of an actor's work. A push, and whatever else the runner must notice, raises its
/// notice, of which at most one is pending.
#[derive(Debug)]
pub struct ActorQueue {
    items: VecDeque<ActorWork>,
    notified: bool,
}

impl View for ActorQueue {
    type V = Seq<ActorWork>;

    closed spec fn view(&self) -> Seq<ActorWork> {
        self.items@
    }
}

impl ActorQueue {
    /// A notice is pending.
    pub closed spec fn pending_notice(self) -> bool {
        self.notified
    }

    pub fn new() -> (result: Self)
        ensures
            result@ == Seq::<ActorWork>::empty(),
            !result.pending_notice(),
    {
        ActorQueue { items: VecDeque::new(), notified: false }
    }

    /// Puts work at the back of the queue and raises the notice.
    pub fn push(&mut self, work: ActorWork)
        ensures
            final(self)@ == old(self)@.push(work),
            final(self).pending_notice(),
    {
        self.items.push_back(work);
        self.notify();
    }

    /// Takes the batch at the front of the queue: a root together with those that continue its
    /// batch, condensed into one, or a single item.
    pub fn pop(&mut self) -> (result: Option<ActorWork>)
        ensures
            final(self).pending_notice() == old(self).pending_notice(),
            match result {
                None => old(self)@.len() == 0 && final(self)@ == old(self)@,
                Some(work) => {
                    let count = batch_length(old(self)@) as int;
                    &&& 0 < count <= old(self)@.len()
                    &&& final(self)@ == old(self)@.skip(count)
                    &&& match old(self)@[0] {
                        ActorWork::Root(_) => work matches ActorWork::Root(merged) && is_condensed(
                            old(self)@.take(count),
                            merged,
                        ),
                        other => work == other,
                    }
                },
            },
    {
        let ghost all = self.items@;
        match self.items.pop_front() {
            None => None,
            Some(ActorWork::Root(root)) => {
                let generation: u64 = root.generation;
                let key: u64 = match root.input.batch_key {
                    None => {
                        assert(all.take(1) =~= seq![ActorWork::Root(root)]);
                        assert(self.items@ =~= all.skip(1));
                        return Some(ActorWork::Root(root));
                    },
                    Some(key) => key,
                };
                let mut roots: Vec<RootWork> = Vec::new();
                roots.push(root);
                let ghost mut count: int = 1;
                proof {
                    lemma_run_bound(all, key, generation, 1);
                }
                assert(self.items@ =~= all.skip(1));
                while self.items.len() > 0 && continues(&self.items[0], key, generation)
                    invariant
                        1 <= count <= all.len(),
                        self.items@ == all.skip(count),
                        self.notified == old(self).notified,
                        roots@.len() == count,
                        1 + run_length(all, key, generation, 1) == count + run_length(
                            all,
                            key,
                            generation,
                            count,
                        ),
                        forall|i: int|
                            0 <= i < count ==> #[trigger] all[i] == ActorWork::Root(roots@[i]),
                    decreases self.items@.len(),
                {
                    let ghost before = self.items@;
                    assert(before[0] == all[count]);
                    match self.items.pop_front() {
                        Some(ActorWork::Root(next)) => {
                            roots.push(next);
                            assert(self.items@ =~= all.skip(count + 1));
                            proof {
                                count = count + 1;
                            }
                        },
                        _ => {
                            assert(false);
                        },
                    }
                }
                assert(run_length(all, key, generation, count) == 0) by {
                    if count < all.len() {
                        assert(self.items@[0] == all[count]);
                    }
                }
                let merged = condense(roots, Ghost(all.take(count)));
                Some(ActorWork::Root(merged))
            },
            Some(other) => {
                assert(self.items@ =~= all.skip(1));
                Some(other)
            },
        }
    }

    /// Takes an admitted turn out of the queue, wherever it stands.
    pub fn remove_turn(&mut self, turn_id: TurnId) -> (result: Option<TurnAdmission>)
        ensures
            final(self).pending_notice() == old(self).pending_notice(),
            match turn_position(old(self)@, turn_id, 0) {
                None => result is None && final(self)@ == old(self)@,
                Some(at) => {
                    &&& 0 <= at < old(self)@.len()
                    &&& result is Some
                    &&& old(self)@[at] == ActorWork::Turn(result->0)
                    &&& final(self)@ == old(self)@.remove(at)
                },
            },
    {
        let mut at: usize = 0;
        while at < self.items.len()
            invariant
                self == old(self),
                at <= self.items@.len(),
                turn_position(self.items@, turn_id, 0) == turn_position(
                    self.items@,
                    turn_id,
                    at as int,
                ),
            decreases self.items@.len() - at,
        {
            let found = match &self.items[at] {
                ActorWork::Turn(admission) => admission.turn_id == turn_id,
                _ => false,
            };
            if found {
                return match self.items.remove(at) {
                    Some(ActorWork::Turn(admission)) => Some(admission),
                    _ => {
                        assert(false);
                        None
                    },
                };
            }
            at += 1;
        }
        None
    }

    /// Takes the item at a position out of the queue. A policy barrier cannot be taken.
    pub fn remove_at(&mut self, index: usize) -> (result: Option<ActorWork>)
        ensures
            final(self).pending_notice() == old(self).pending_notice(),
            if index < old(self)@.len() && !(old(self)@[index as int] is PolicyBarrier) {
                &&& result == Some(old(self)@[index as int])
                &&& final(self)@ == old(self)@.remove(index as int)
            } else {
                &&& result is None
                &&& final(self)@ == old(self)@
            },
    {
        if index >= self.items.len() {
            return None;
        }
        let barrier = match &self.items[index] {
            ActorWork::PolicyBarrier { .. } => true,
            _ => false,
        };
        if barrier {
            return None;
        }
        self.items.remove(index)
    }

    /// The key by which queued work is cancelled.
    fn correlation_of(work: &ActorWork) -> (result: Option<String>)
        ensures
            match correlation_key(*work) {
                Some(key) => result is Some && result->0@ == key,
                None => result is None,
            },
    {
        match work {
            ActorWork::Turn(admission) => Some(admission.correlation.clone()),
            ActorWork::Root(root) => Some(root.correlation.clone()),
            ActorWork::Compact { run_id, .. } => Some(run_correlation(*run_id)),
            ActorWork::Control(_) => None,
            ActorWork::PolicyBarrier { .. } => None,
        }
    }

    /// Takes every item that is cancelled by `correlation` out of the queue, in order. The other
    /// items stay, in order.
    pub fn remove_correlation(&mut self, correlation: &str) -> (result: Vec<ActorWork>)
        ensures
            final(self).pending_notice() == old(self).pending_notice(),
            result@ == old(self)@.filter(|work: ActorWork| carries(work, correlation@)),
            final(self)@ == old(self)@.filter(|work: ActorWork| !carries(work, correlation@)),
    {
        let ghost all = self.items@;
        let ghost hit = |work: ActorWork| carries(work, correlation@);
        let ghost miss = |work: ActorWork| !carries(work, correlation@);
        let wanted = correlation.to_owned();
        let mut removed: Vec<ActorWork> = Vec::new();
        let mut kept: VecDeque<ActorWork> = VecDeque::new();
        let ghost mut done: int = 0;
        proof {
            reveal(Seq::filter);
            assert(all.take(0) =~= Seq::empty());
            assert(all.skip(0) =~= all);
        }
        while self.items.len() > 0
            invariant
                0 <= done <= all.len(),
                wanted@ == correlation@,
                self.notified == old(self).notified,
                self.items@ == all.skip(done),
                removed@ == all.take(done).filter(hit),
                kept@ == all.take(done).filter(miss),
                hit == (|work: ActorWork| carries(work, correlation@)),
                miss == (|work: ActorWork| !carries(work, correlation@)),
            decreases self.items@.len(),
        {
            match self.items.pop_front() {
                Some(work) => {
                    proof {
                        reveal(Seq::filter);
                        assert(work == all[done]);
                        assert(self.items@ =~= all.skip(done + 1));
                        assert(all.take(done + 1).drop_last() =~= all.take(done));
                        assert(all.take(done + 1).last() == work);
                        done = done + 1;
                    }
                    let matching = match Self::correlation_of(&work) {
                        Some(key) => key == wanted,
                        None => false,
                    };
                    if matching {
                        removed.push(work);
                    } else {
                        kept.push_back(work);
                    }
                },
                None => {},
            }
        }
        assert(all.take(done) =~= all);
        self.items = kept;
        removed
    }

    /// Whether the work is a row of the queue panel.
    pub fn is_visible(work: &ActorWork) -> (result: bool)
        ensures
            result == visible(*work),
    {
        match work {
            ActorWork::Root(root) => !root.displayed,
            ActorWork::Compact { .. } => true,
            _ => false,
        }
    }

    /// Takes a row of the queue panel out of the queue.
    pub fn remove_visible_at(&mut self, visible_index: usize) -> (result: Option<
        (ActorWork, QueueProjection),
    >)
        ensures
            final(self).pending_notice() == old(self).pending_notice(),
            match row_position(old(self)@, visible_index as nat, 0) {
                None => result is None && final(self)@ == old(self)@,
                Some(at) => {
                    &&& 0 <= at < old(self)@.len()
                    &&& result == Some((old(self)@[at], projection(old(self)@[at])))
                    &&& final(self)@ == old(self)@.remove(at)
                },
            },
    {
        let mut seen: usize = 0;
        let mut at: usize = 0;
        while at < self.items.len()
            invariant
                self == old(self),
                at <= self.items@.len(),
                seen <= visible_index,
                row_position(self.items@, visible_index as nat, 0) == row_position(
                    self.items@,
                    (visible_index - seen) as nat,
                    at as int,
                ),
            decreases self.items@.len() - at,
        {
            if Self::is_visible(&self.items[at]) {
                if seen == visible_index {
                    return match self.items.remove(at) {
                        Some(work) => {
                            let shown = QueueProjection::of(&work);
                            Some((work, shown))
                        },
                        None => None,
                    };
                }
                seen += 1;
            }
            at += 1;
        }
        None
    }

    /// How many items are queued.
    pub fn len(&self) -> (result: usize)
        ensures
            result == self@.len(),
    {
        self.items.len()
    }

    /// Whether nothing is left to execute: policy barriers do not count.
    pub fn is_empty(&self) -> (result: bool)
        ensures
            result == idle(self@),
    {
        let mut at: usize = 0;
        while at < self.items.len()
            invariant
                at <= self.items@.len(),
                forall|i: int| 0 <= i < at ==> #[trigger] self.items@[i] is PolicyBarrier,
            decreases self.items@.len() - at,
        {
            match &self.items[at] {
                ActorWork::PolicyBarrier { .. } => {},
                _ => {
                    assert(!(self.items@[at as int] is PolicyBarrier));
                    return false;
                },
            }
            at += 1;
        }
        true
    }

    /// Takes everything out of the queue, in order.
    pub fn drain_all(&mut self) -> (result: Vec<ActorWork>)
        ensures
            final(self).pending_notice() == old(self).pending_notice(),
            result@ == old(self)@,
            final(self)@ == Seq::<ActorWork>::empty(),
    {
        let ghost all = self.items@;
        let mut drained: Vec<ActorWork> = Vec::new();
        assert(all.skip(0) =~= all);
        while self.items.len() > 0
            invariant
                self.notified == old(self).notified,
                drained@.len() <= all.len(),
                drained@ == all.take(drained@.len() as int),
                self.items@ == all.skip(drained@.len() as int),
            decreases self.items@.len(),
        {
            let ghost done = drained@.len() as int;
            match self.items.pop_front() {
                Some(work) => {
                    drained.push(work);
                    assert(drained@ =~= all.take(done + 1));
                    assert(self.items@ =~= all.skip(done + 1));
                },
                None => {},
            }
        }
        assert(drained@ =~= all);
        drained
    }

    /// What a host draws for the queue.
    pub fn snapshot(&self) -> (result: Vec<QueueProjection>)
        ensures
            result@ == self@.map_values(|work: ActorWork| projection(work)),
    {
        let mut result: Vec<QueueProjection> = Vec::new();
        let mut at: usize = 0;
        while at < self.items.len()
            invariant
                at <= self.items@.len(),
                result@.len() == at,
                forall|i: int| 0 <= i < at ==> #[trigger] result@[i] == projection(self.items@[i]),
            decreases self.items@.len() - at,
        {
            result.push(QueueProjection::of(&self.items[at]));
            at += 1;
        }
        assert(result@ =~= self@.map_values(|work: ActorWork| projection(work)));
        result
    }

    /// What a host draws in its queue panel: the visible items, in order.
    pub fn panel(&self) -> (result: Vec<QueueProjection>)
        ensures
            result@ == panel_rows(self@),
    {
        let ghost shown = |work: ActorWork| visible(work);
        let mut result: Vec<QueueProjection> = Vec::new();
        let mut at: usize = 0;
        proof {
            reveal(Seq::filter);
            assert(self.items@.take(0).filter(shown) =~= Seq::empty());
        }
        while at < self.items.len()
            invariant
                at <= self.items@.len(),
                shown == (|work: ActorWork| visible(work)),
                result@.len() == self.items@.take(at as int).filter(shown).len(),
                forall|i: int|
                    0 <= i < result@.len() ==> #[trigger] result@[i] == projection(
                        self.items@.take(at as int).filter(shown)[i],
                    ),
            decreases self.items@.len() - at,
        {
            proof {
                reveal(Seq::filter);
                assert(self.items@.take(at + 1).drop_last() =~= self.items@.take(at as int));
                assert(self.items@.take(at + 1).last() == self.items@[at as int]);
            }
            if Self::is_visible(&self.items[at]) {
                result.push(QueueProjection::of(&self.items[at]));
            }
            at += 1;
        }
        assert(self.items@.take(at as int) =~= self.items@);
        assert(result@ =~= panel_rows(self@));
        result
    }

    /// Publishes that the queue is drained, if nothing is left to execute; says whether it did.
    pub fn publish_if_empty<F: FnOnce()>(&self, publish: F) -> (result: bool)
        requires
            idle(self@) ==> publish.requires(()),
        ensures
            result == idle(self@),
            result ==> publish.ensures((), ()),
    {
        if self.is_empty() {
            publish();
            true
        } else {
            false
        }
    }

    /// Raises the notice.
    pub fn notify(&mut self)
        ensures
            final(self)@ == old(self)@,
            final(self).pending_notice(),
    {
        self.notified = true;
    }

    /// Takes the notice; says whether one was pending.
    pub fn take_notice(&mut self) -> (result: bool)
        ensures
            final(self)@ == old(self)@,
            !final(self).pending_notice(),
            result == old(self).pending_notice(),
    {
        let pending = self.notified;
        self.notified = false;
        pending
    }

    /// Takes what a running turn may fold into itself off the front of the queue: the roots of a
    /// batch of its own policy generation, or a compaction. Anything else stays where it is.
    pub fn pop_interrupt(&mut self, generation: u64) -> (result: Option<ExtractedCommand>)
        ensures
            final(self).pending_notice() == old(self).pending_notice(),
            interrupted(old(self)@, generation, result, final(self)@),
    {
        let ghost all = self.items@;
        if self.items.len() == 0 {
            return None;
        }
        let compatible = match &self.items[0] {
            ActorWork::Root(root) => root.generation == generation,
            ActorWork::Compact { .. } => true,
            _ => false,
        };
        if !compatible {
            return None;
        }
        match self.items.pop_front() {
            Some(ActorWork::Root(first)) => {
                let batch_key = first.input.batch_key;
                let mut inputs: Vec<AgentInput> = Vec::new();
                inputs.push(first.input);
                let ghost mut count: int = 1;
                assert(self.items@ =~= all.skip(1));
                let key: u64 = match batch_key {
                    None => {
                        assert(inputs@ =~= root_inputs(all.take(1)));
                        return Some(ExtractedCommand::Interrupt(inputs));
                    },
                    Some(key) => key,
                };
                proof {
                    lemma_run_bound(all, key, generation, 1);
                }
                while self.items.len() > 0 && continues(&self.items[0], key, generation)
                    invariant
                        1 <= count <= all.len(),
                        self.items@ == all.skip(count),
                        self.notified == old(self).notified,
                        inputs@.len() == count,
                        1 + run_length(all, key, generation, 1) == count + run_length(
                            all,
                            key,
                            generation,
                            count,
                        ),
                        forall|i: int|
                            0 <= i < count ==> #[trigger] inputs@[i] == all[i]->Root_0.input,
                    decreases self.items@.len(),
                {
                    assert(self.items@[0] == all[count]);
                    match self.items.pop_front() {
                        Some(ActorWork::Root(next)) => {
                            inputs.push(next.input);
                            assert(self.items@ =~= all.skip(count + 1));
                            proof {
                                count = count + 1;
                            }
                        },
                        _ => {
                            assert(false);
                        },
                    }
                }
                assert(run_length(all, key, generation, count) == 0) by {
                    if count < all.len() {
                        assert(self.items@[0] == all[count]);
                    }
                }
                assert(inputs@ =~= root_inputs(all.take(count)));
                Some(ExtractedCommand::Interrupt(inputs))
            },
            Some(ActorWork::Compact { instructions, .. }) => {
                assert(self.items@ =~= all.skip(1));
                Some(ExtractedCommand::Compact(instructions))
            },
            _ => {
                assert(false);
                None
            },
        }
    }
}

impl Default for ActorQueue {
    fn default() -> (result: Self)
        ensures
            result@ == Seq::<ActorWork>::empty(),
            !result.pending_notice(),
    {
        ActorQueue::new()
    }
}

/// Nothing is left to execute.
pub open spec fn idle(items: Seq<ActorWork>) -> bool {
    forall|i: int| 0 <= i < items.len() ==> #[trigger] items[i] is PolicyBarrier
}

/// What a running turn of a policy generation takes off the front of the queue, and what it
/// leaves.
pub open spec fn interrupted(
    items: Seq<ActorWork>,
    generation: u64,
    taken: Option<ExtractedCommand>,
    left: Seq<ActorWork>,
) -> bool {
    if items.len() > 0 && items[0] is Root && items[0]->Root_0.generation == generation {
        let count = batch_length(items) as int;
        &&& 0 < count <= items.len()
        &&& taken matches Some(ExtractedCommand::Interrupt(inputs)) && inputs@ == root_inputs(
            items.take(count),
        )
        &&& left == items.skip(count)
    } else if items.len() > 0 && items[0] is Compact {
        &&& taken == Some(ExtractedCommand::Compact(items[0]->Compact_instructions))
        &&& left == items.skip(1)
    } else {
        taken is None && left == items
    }
}

impl QueueProjection {
    /// What a host draws for queued work.
    pub fn of(work: &ActorWork) -> (result: QueueProjection)
        ensures
            result == projection(*work),
    {
        match work {
            ActorWork::Turn(admission) => QueueProjection::Turn(admission.correlation.clone()),
            ActorWork::Root(root) => QueueProjection::Message {
                text: root.text.clone(),
                image_count: root.images.len(),
                displayed: root.displayed,
            },
            ActorWork::PolicyBarrier { .. } => QueueProjection::PolicyBarrier,
            ActorWork::Control(control) => QueueProjection::Control(control.name.clone()),
            ActorWork::Compact { instructions, .. } => QueueProjection::Compact(
                match instructions {
                    Some(text) => Some(text.clone()),
                    None => None,
                },
            ),
        }
    }
}

} // verus!
