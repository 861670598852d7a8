//! The order in which an actor's work waits.
use makima::actor::queue::{merge_inputs, run_correlation, ActorQueue};
use makima::actor::tickets::TurnTicket;
use makima::actor::work::{
    ActorWork, ControlWork, ExtractedCommand, QueueProjection, RootWork, TurnAdmission,
};
use makima::types::{
    AgentInput, AgentMode, ImageMediaType, ImageSource, Message, MessageBlock, SessionDefaults,
    TurnId,
};

fn test_image() -> ImageSource {
    ImageSource { media_type: ImageMediaType::Png, data: "dGVzdA==".to_owned() }
}

fn test_input(message: &str) -> AgentInput {
    AgentInput::from_defaults(
        message.to_owned(),
        AgentMode::Build,
        Vec::new(),
        SessionDefaults::default(),
    )
}

fn test_root(message: &str, run_id: u64, images: Vec<ImageSource>) -> RootWork {
    let mut input = test_input(message);
    input.images = images.clone();
    RootWork::new(input, run_id, true, message.to_owned(), images, format!("r{run_id}"))
}

fn image_count(message: &Message) -> usize {
    message.content.iter().filter(|block| matches!(block, MessageBlock::Image { .. })).count()
}

#[test]
fn test_actor_condenses_consecutive_plain_user_messages() {
    let mut queue = ActorQueue::new();
    queue.push(ActorWork::Root(test_root("first", 1, Vec::new())));
    queue.push(ActorWork::Root(test_root("second", 2, Vec::new())));
    queue.push(ActorWork::Root(test_root("third", 3, Vec::new())));

    let ActorWork::Root(merged) = queue.pop().expect("must pop work") else {
        panic!("expected Root work");
    };
    assert_eq!(merged.input.message, "third");
    assert_eq!(merged.run_id, 3);
    assert_eq!(merged.earlier.len(), 2);
    assert_eq!(merged.earlier[0].text, "first");
    assert_eq!(merged.earlier[0].run_id, 1);
    assert_eq!(merged.earlier[1].text, "second");
    assert_eq!(merged.earlier[1].run_id, 2);

    assert_eq!(merged.input.preamble.len(), 2);
    assert_eq!(merged.input.preamble[0].user_text(), Some("first"));
    assert_eq!(merged.input.preamble[1].user_text(), Some("second"));

    assert!(queue.pop().is_none());
}

#[test]
fn root_batch_stops_at_generation_boundary() {
    let mut queue = ActorQueue::new();
    let mut old = test_root("old", 1, Vec::new());
    old.generation = 1;
    let mut new = test_root("new", 2, Vec::new());
    new.generation = 2;
    queue.push(ActorWork::Root(old));
    queue.push(ActorWork::Root(new));

    let Some(ActorWork::Root(first)) = queue.pop() else {
        panic!("expected first root");
    };
    assert_eq!(first.input.message, "old");
    assert!(first.earlier.is_empty());
    let Some(ActorWork::Root(second)) = queue.pop() else {
        panic!("expected second root");
    };
    assert_eq!(second.input.message, "new");
    assert!(second.earlier.is_empty());
}

#[test]
fn interrupt_batch_stops_at_generation_boundary() {
    let mut queue = ActorQueue::new();
    let mut old = test_root("old", 1, Vec::new());
    old.generation = 1;
    let mut new = test_root("new", 2, Vec::new());
    new.generation = 2;
    queue.push(ActorWork::Root(old));
    queue.push(ActorWork::Root(new));

    assert!(queue.pop_interrupt(2).is_none());
    assert_eq!(queue.len(), 2);
    let Some(ExtractedCommand::Interrupt(inputs)) = queue.pop_interrupt(1) else {
        panic!("expected interrupt");
    };
    assert_eq!(inputs.len(), 1);
    assert_eq!(inputs[0].message, "old");
    let Some(ExtractedCommand::Interrupt(inputs)) = queue.pop_interrupt(2) else {
        panic!("expected next interrupt");
    };
    assert_eq!(inputs.len(), 1);
    assert_eq!(inputs[0].message, "new");
}

#[test]
fn policy_barrier_separates_root_batches_and_interrupts() {
    let mut queue = ActorQueue::new();
    queue.push(ActorWork::Root(test_root("old", 1, Vec::new())));
    queue.push(ActorWork::PolicyBarrier { generation: 1 });
    let mut next = test_root("new", 2, Vec::new());
    next.generation = 1;
    queue.push(ActorWork::Root(next));

    let Some(ExtractedCommand::Interrupt(inputs)) = queue.pop_interrupt(0) else {
        panic!("expected first interrupt");
    };
    assert_eq!(inputs.len(), 1);
    assert_eq!(inputs[0].message, "old");
    assert!(queue.pop_interrupt(0).is_none());
    assert!(matches!(queue.pop(), Some(ActorWork::PolicyBarrier { generation: 1 })));
    let Some(ActorWork::Root(next)) = queue.pop() else {
        panic!("expected next root");
    };
    assert_eq!(next.input.message, "new");
}

#[test]
fn policy_barriers_do_not_block_empty_publication() {
    let mut queue = ActorQueue::new();
    queue.push(ActorWork::PolicyBarrier { generation: 1 });
    assert!(queue.is_empty());
    let mut published = false;
    queue.publish_if_empty(|| published = true);
    assert!(published);
    queue.push(ActorWork::Root(test_root("pending", 2, Vec::new())));
    assert!(!queue.is_empty());
    published = false;
    queue.publish_if_empty(|| published = true);
    assert!(!published);
}

#[test]
fn policy_barrier_cannot_be_removed_at_raw_index() {
    let mut queue = ActorQueue::new();
    queue.push(ActorWork::Root(test_root("before", 1, Vec::new())));
    queue.push(ActorWork::PolicyBarrier { generation: 1 });
    queue.push(ActorWork::Root(test_root("after", 2, Vec::new())));

    assert!(queue.remove_at(1).is_none());
    assert_eq!(queue.snapshot().len(), 3);
    assert!(matches!(queue.remove_at(0), Some(ActorWork::Root(_))));
    assert!(matches!(
        queue.snapshot().as_slice(),
        [QueueProjection::PolicyBarrier, QueueProjection::Message { .. }]
    ));
}

#[test]
fn test_actor_preserves_images_in_condensed_burst() {
    let mut queue = ActorQueue::new();
    queue.push(ActorWork::Root(test_root("first", 1, vec![test_image()])));
    queue.push(ActorWork::Root(test_root("second", 2, vec![test_image()])));
    queue.push(ActorWork::Root(test_root("third", 3, Vec::new())));

    let ActorWork::Root(merged) = queue.pop().expect("must pop work") else {
        panic!("expected Root work");
    };
    assert_eq!(merged.earlier[0].images.len(), 1);
    assert_eq!(merged.earlier[1].images.len(), 1);
    assert_eq!(merged.input.preamble.len(), 2);
    assert_eq!(image_count(&merged.input.preamble[0]), 1);
    assert_eq!(image_count(&merged.input.preamble[1]), 1);
}

#[test]
fn test_actor_does_not_condense_tool_results_or_slash_commands() {
    let mut queue = ActorQueue::new();
    queue.push(ActorWork::Root(test_root("first", 1, Vec::new())));
    queue.push(ActorWork::Compact { run_id: 2, instructions: None, generation: 0 });
    queue.push(ActorWork::Root(test_root("second", 3, Vec::new())));

    let ActorWork::Root(r1) = queue.pop().expect("first item") else {
        panic!("expected Root");
    };
    assert_eq!(r1.input.message, "first");
    assert_eq!(r1.earlier.len(), 0);
    assert!(matches!(queue.pop().expect("second item"), ActorWork::Compact { run_id: 2, .. }));
    let ActorWork::Root(r2) = queue.pop().expect("third item") else {
        panic!("expected Root");
    };
    assert_eq!(r2.input.message, "second");
    assert_eq!(r2.earlier.len(), 0);
}

#[test]
fn queue_pop_interrupt_keeps_incompatible_entries() {
    let mut queue = ActorQueue::new();
    queue.push(ActorWork::Compact { run_id: 1, instructions: None, generation: 0 });
    queue.push(ActorWork::Control(ControlWork {
        name: "c".to_owned(),
        correlation: "c".to_owned(),
    }));
    assert!(matches!(queue.pop_interrupt(0), Some(ExtractedCommand::Compact(None))));
    assert!(queue.pop_interrupt(0).is_none());
    assert_eq!(queue.len(), 1);
    queue.push(ActorWork::Turn(TurnAdmission {
        turn_id: TurnId { value: 1 },
        input: Some(test_input("t")),
        event_sender: None,
        correlation: "t".to_owned(),
        root: false,
        generation: 0,
        ticket: TurnTicket::new(TurnId { value: 2 }),
    }));
    queue.push(ActorWork::Root(test_root("r", 2, Vec::new())));
    assert!(queue.pop_interrupt(0).is_none());
    assert_eq!(queue.len(), 3, "incompatible FIFO entries must not be discarded");
}

#[test]
fn queue_drain_publication_is_ordered() {
    let mut queue = ActorQueue::new();
    let mut published = 0;
    queue.publish_if_empty(|| published += 1);
    assert_eq!(published, 1, "empty queue publishes");
    queue.push(ActorWork::Compact { run_id: 1, instructions: None, generation: 0 });
    queue.publish_if_empty(|| published += 1);
    assert_eq!(published, 1, "non-empty queue must not publish");
    assert_eq!(queue.drain_all().len(), 1);
    queue.publish_if_empty(|| published += 1);
    assert_eq!(published, 2);
}

#[test]
fn run_keys_are_decimal() {
    assert_eq!(run_correlation(0), "r0");
    assert_eq!(run_correlation(7), "r7");
    assert_eq!(run_correlation(1234567890), "r1234567890");
    assert_eq!(run_correlation(u64::MAX), "r18446744073709551615");
}

#[test]
fn merging_keeps_the_last_message_and_makes_the_others_preamble() {
    assert!(merge_inputs(Vec::new()).is_none());
    let merged = merge_inputs(vec![test_input("a"), test_input("b")]).expect("merged");
    assert_eq!(merged.message, "b");
    assert_eq!(merged.preamble.len(), 1);
    assert_eq!(merged.preamble[0].user_text(), Some("a"));
}

#[test]
fn an_input_without_a_batch_key_is_answered_alone() {
    let mut queue = ActorQueue::new();
    let mut alone = test_root("alone", 1, Vec::new());
    alone.input.batch_key = None;
    queue.push(ActorWork::Root(alone));
    queue.push(ActorWork::Root(test_root("next", 2, Vec::new())));
    let Some(ActorWork::Root(first)) = queue.pop() else {
        panic!("expected Root");
    };
    assert_eq!(first.input.message, "alone");
    assert_eq!(queue.len(), 1);
}

#[test]
fn a_pushed_item_leaves_one_notice() {
    let mut queue = ActorQueue::new();
    assert!(!queue.take_notice());
    queue.push(ActorWork::Root(test_root("a", 1, Vec::new())));
    queue.push(ActorWork::Root(test_root("b", 2, Vec::new())));
    assert!(queue.take_notice());
    assert!(!queue.take_notice());
    queue.notify();
    assert!(queue.take_notice());
}

#[test]
fn removing_by_correlation_takes_every_match_and_nothing_else() {
    let mut queue = ActorQueue::new();
    queue.push(ActorWork::Root(test_root("a", 1, Vec::new())));
    queue.push(ActorWork::Compact { run_id: 1, instructions: None, generation: 0 });
    queue.push(ActorWork::Root(test_root("b", 2, Vec::new())));
    let removed = queue.remove_correlation("r1");
    assert_eq!(removed.len(), 2);
    assert_eq!(queue.len(), 1);
    assert!(queue.remove_correlation("r9").is_empty());
}
