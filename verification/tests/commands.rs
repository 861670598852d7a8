//! Commands on their way to their sessions.
use makima::acp::commands::{
    available_commands, builtin_route, complete, CommandClassification, CommandDispatcher,
    CommandRoute, PresentedCommand,
};
use makima::command::custom::{CommandScope, CustomCommand};
use makima::command::host::CommandError;

#[test]
fn concurrent_targets_receive_only_their_commands_and_stale_target_fails() {
    let mut dispatcher = CommandDispatcher::new();
    let (first, second) = (1, 2);
    dispatcher.create_mailbox(first);
    dispatcher.create_mailbox(second);
    assert_eq!(
        dispatcher.route_command(first, 10, builtin_route("/model", "first")),
        Ok(())
    );
    assert_eq!(
        dispatcher.route_command(second, 20, builtin_route("/model", "second")),
        Ok(())
    );
    let first_command = dispatcher.receive(first).unwrap();
    let second_command = dispatcher.receive(second).unwrap();
    assert_eq!(first_command.route, CommandRoute::Model("first".to_owned()));
    assert_eq!(second_command.route, CommandRoute::Model("second".to_owned()));
    assert!(dispatcher.receive(first).is_none());
    assert!(dispatcher.receive(second).is_none());
    let done = complete(&first_command, CommandClassification::Completed);
    assert_eq!((done.lifecycle, done.classification), (10, CommandClassification::Completed));
    let done = complete(&second_command, CommandClassification::Completed);
    assert_eq!((done.lifecycle, done.classification), (20, CommandClassification::Completed));

    dispatcher.close_mailbox(first);
    assert_eq!(
        dispatcher.route_command(first, 30, builtin_route("/model", "stale")),
        Err(CommandError::StaleTarget)
    );
    assert!(dispatcher.receive(second).is_none());
}

#[test]
fn prompt_submit_classifies_agent_turn_before_the_handler_finishes() {
    let mut dispatcher = CommandDispatcher::new();
    dispatcher.create_mailbox(5);
    let command = CustomCommand {
        name: "greet".to_owned(),
        description: "greets".to_owned(),
        content: "hello $ARGUMENTS".to_owned(),
        scope: CommandScope::Project,
        accepts_args: true,
        argument_hint: None,
    };
    assert_eq!(
        dispatcher.route_agent_turn(5, 50, CommandRoute::Prompt(command.render("world"))),
        Ok(CommandClassification::AgentTurnAccepted)
    );
    let routed = dispatcher.receive(5).unwrap();
    assert_eq!(routed.target, 5);
    assert_eq!(routed.lifecycle, 50);
    assert_eq!(routed.route, CommandRoute::Prompt("hello world".to_owned()));
    assert_eq!(
        dispatcher.route_agent_turn(6, 60, CommandRoute::Prompt(String::new())),
        Err(CommandError::StaleTarget)
    );
}

#[test]
fn other_builtins_keep_their_names() {
    assert_eq!(
        builtin_route("/compact", "now"),
        CommandRoute::Builtin { name: "/compact".to_owned(), arguments: "now".to_owned() }
    );
}

#[test]
fn a_mailbox_is_first_in_first_out() {
    let mut dispatcher = CommandDispatcher::new();
    dispatcher.create_mailbox(1);
    for word in ["a", "b", "c"] {
        dispatcher.route_command(1, 1, CommandRoute::Prompt(word.to_owned())).unwrap();
    }
    for word in ["a", "b", "c"] {
        assert_eq!(
            dispatcher.receive(1).unwrap().route,
            CommandRoute::Prompt(word.to_owned())
        );
    }
}

#[test]
fn clients_are_told_names_without_slashes() {
    let told = available_commands(&vec![
        PresentedCommand {
            name: "/review".to_owned(),
            description: "Code review".to_owned(),
            argument_hint: Some("<file>".to_owned()),
        },
        PresentedCommand {
            name: "//x/y".to_owned(),
            description: String::new(),
            argument_hint: None,
        },
    ]);
    assert_eq!(told[0].name, "review");
    assert_eq!(told[0].description, "Code review");
    assert_eq!(told[0].argument_hint.as_deref(), Some("<file>"));
    assert_eq!(told[1].name, "x/y");
}
