//! Commands: what their files say, what the built-in ones do, and what a session answers.
use makima::command::builtin::{
    builtin_outcome, candidate_fields, host_context, informed, interpret, parse_thinking,
    read_model, resolve_model, BuiltinId, BuiltinStep, CommandOutcome, DirectoryPlace, Resolution,
};
use makima::command::custom::{
    command_dirs, discover_commands, find_project_ancestor_dirs, is_command_file, parse_command,
    AncestorDir, CommandScope, CustomCommand,
};
use makima::command::frontmatter::{parse_frontmatter, split_content, Frontmatter};
use makima::command::host::{
    portable_capabilities, supports, BuiltinOperation, CommandError, HostContextRequest,
    HostContextResponse, HostRequest, HostResponse, HostStep, InteractiveControl,
    SessionCommandHost, SessionCommandState, TargetCapability,
};
use makima::command::registration::{
    register_commands, CompletionKey, StandardCommands, StandardCompletions, StandardRegistry,
};
use makima::text::trim_text;
use makima::types::{
    AgentTurn, CommandAttachment, CommandContent, McpPromptRef, ThinkingConfig,
};

const OFFLINE_MODEL: &str = "openai/gpt-5";
const SHARED: &str = ".shared/commands";

/// Reads a heading as its file's own format has it.
fn read_heading(heading: &str) -> Option<Frontmatter> {
    let value: serde_yaml::Value = serde_yaml::from_str(heading).ok()?;
    let mapping = value.as_mapping()?;
    let field = |name: &str| {
        mapping
            .get(serde_yaml::Value::String(name.to_owned()))
            .and_then(|value| value.as_str())
            .map(str::to_owned)
    };
    Some(Frontmatter {
        name: field("name"),
        description: field("description"),
        argument_hint: field("argument-hint"),
    })
}

fn parsed(content: &str, stem: &str, scope: CommandScope) -> Option<CustomCommand> {
    let read = split_content(content).heading.and_then(|heading| read_heading(&heading));
    parse_command(content, Some(stem), scope, read)
}

fn custom_command(content: &str) -> CustomCommand {
    CustomCommand {
        name: "review".to_owned(),
        description: "Code review".to_owned(),
        content: content.to_owned(),
        scope: CommandScope::Project,
        accepts_args: true,
        argument_hint: None,
    }
}

fn fails_with<T: std::fmt::Debug>(result: Result<T, CommandError>, message: &str) {
    match result {
        Err(CommandError::Producer(text)) => assert_eq!(text, message),
        other => panic!("expected an error, got {other:?}"),
    }
}

#[test]
fn parse_command_fields() {
    for (content, name, description, has_args) in [
        (
            "---\nname: review\ndescription: Code review\nargument-hint: <file>\n---\nReview $ARGUMENTS",
            "review",
            "Code review",
            true,
        ),
        ("Review $ARGUMENTS", "test-cmd", "", true),
        ("Just do things", "test-cmd", "", false),
        ("---\ndescription: Quick fix\n---\nFix the code", "test-cmd", "Quick fix", false),
    ] {
        let command = parsed(content, "test-cmd", CommandScope::Project).unwrap();
        assert_eq!(command.name, name);
        assert_eq!(command.description, description);
        assert_eq!(command.has_args(), has_args);
        assert_eq!(
            command.argument_hint.as_deref(),
            content.contains("argument-hint").then_some("<file>")
        );
    }
}

#[test]
fn frontmatter_argument_hint_is_published() {
    let command = parsed(
        "---\nargument-hint: <file>\n---\nReview $ARGUMENTS",
        "review",
        CommandScope::Project,
    )
    .unwrap();
    let specs = register_commands(&vec![command]);
    let spec = specs.iter().find(|spec| spec.name == "/project:review").unwrap();
    assert_eq!(spec.argument_hint.as_deref(), Some("<file>"));
    assert!(spec.takes_arguments);
}

#[test]
fn custom_command_dispatch_preserves_markdown_attachments() {
    let attachments = vec![CommandAttachment {
        media_type: "text/markdown".to_owned(),
        data: "# Context".to_owned(),
    }];
    let turn = custom_command("Review $ARGUMENTS").execute("src/lib.rs", attachments);
    assert_eq!(turn.content.text, "Review src/lib.rs");
    assert_eq!(turn.content.attachments.len(), 1);
    assert_eq!(turn.content.attachments[0].media_type, "text/markdown");
    assert_eq!(turn.content.attachments[0].data, "# Context");
    assert!(turn.prompt.is_none());
}

#[test]
fn builtin_arguments_are_centrally_interpreted() {
    assert_eq!(
        interpret(BuiltinId::Model, "", Vec::new(), true),
        Ok(BuiltinStep::Perform(BuiltinOperation::OpenModelPicker))
    );
    let Ok(BuiltinStep::ReadModel(spec)) =
        interpret(BuiltinId::Model, "openai/gpt-5", Vec::new(), true)
    else {
        panic!("expected a model to be read");
    };
    assert_eq!(
        read_model(spec, Ok(())),
        Ok(BuiltinOperation::SetModel { spec: "openai/gpt-5".to_owned() })
    );
    assert_eq!(
        interpret(BuiltinId::Theme, "", Vec::new(), true),
        Ok(BuiltinStep::Perform(BuiltinOperation::OpenThemePicker))
    );
    assert_eq!(
        interpret(BuiltinId::Theme, "dark", Vec::new(), true),
        Ok(BuiltinStep::Ask(HostContextRequest::ThemeNames))
    );
    assert_eq!(
        informed(
            HostContextRequest::ThemeNames,
            "dark",
            HostContextResponse::Values(vec!["dark".to_owned()]),
            Resolution::Unique(0),
            false,
        ),
        Ok(BuiltinStep::Perform(BuiltinOperation::SetTheme { name: "dark".to_owned() }))
    );
    assert_eq!(
        interpret(BuiltinId::Btw, "explain this", Vec::new(), true),
        Ok(BuiltinStep::Perform(BuiltinOperation::QuickQuestion {
            question: "explain this".to_owned(),
            attachments: Vec::new(),
        }))
    );
    let interactive = supports(&portable_capabilities(), TargetCapability::InteractiveUi);
    assert!(!interactive);
    fails_with(
        interpret(BuiltinId::Model, "", Vec::new(), interactive),
        "Usage: /model <model>",
    );
}

#[test]
fn session_host_dispatches_portable_state_operations() {
    let state = SessionCommandState::new(
        OFFLINE_MODEL.to_owned(),
        Vec::new(),
        "/project".to_owned(),
        false,
        false,
    );
    let mut host = SessionCommandHost::new(state, false);
    for operation in [
        BuiltinOperation::ToggleYolo,
        BuiltinOperation::ToggleFast,
        BuiltinOperation::ToggleWorkflow,
    ] {
        assert_eq!(
            host.request(HostRequest::Builtin(operation)),
            HostStep::Respond(Ok(HostResponse::Completed))
        );
    }
    assert!(host.yolo);
    assert!(host.state.fast());
    assert!(host.state.workflow());

    let HostStep::Respond(Ok(HostResponse::AgentTurn(turn))) =
        host.request(HostRequest::Builtin(BuiltinOperation::QuickQuestion {
            question: "explain this".to_owned(),
            attachments: Vec::new(),
        }))
    else {
        panic!("expected a turn");
    };
    assert_eq!(turn.content.text, "explain this");

    let HostStep::Control(control) =
        host.request(HostRequest::Builtin(BuiltinOperation::Compact))
    else {
        panic!("expected compact control");
    };
    assert_eq!(control, InteractiveControl::Compact);
    assert_eq!(host.controlled(control, Some(Ok(()))), Ok(HostResponse::Completed));

    let HostStep::Control(control) =
        host.request(HostRequest::Builtin(BuiltinOperation::ChangeDirectory {
            path: "/tmp".to_owned(),
        }))
    else {
        panic!("expected change-directory control");
    };
    assert_eq!(control, InteractiveControl::ChangeDirectory("/tmp".to_owned()));
    assert_eq!(host.state.cwd, "/project");
    assert_eq!(host.controlled(control, Some(Ok(()))), Ok(HostResponse::Completed));
    assert_eq!(host.state.cwd, "/tmp");

    let HostStep::SetModel(spec) =
        host.request(HostRequest::Builtin(BuiltinOperation::SetModel {
            spec: OFFLINE_MODEL.to_owned(),
        }))
    else {
        panic!("expected a model change");
    };
    assert_eq!(host.check_model(true, Ok(())), Ok(()));
    assert_eq!(host.model_sent(spec, true), Ok(HostResponse::Completed));
    assert_eq!(host.state.current_model, OFFLINE_MODEL);
}

#[test]
fn a_refused_control_changes_nothing() {
    let state = SessionCommandState::new(
        "a/b".to_owned(),
        Vec::new(),
        "/project".to_owned(),
        false,
        false,
    );
    let mut host = SessionCommandHost::new(state, false);
    let control = InteractiveControl::ChangeDirectory("/tmp".to_owned());
    fails_with(host.controlled(control, Some(Err("no such directory".to_owned()))), "no such directory");
    assert_eq!(
        host.controlled(InteractiveControl::Reset, None),
        Err(CommandError::StaleTarget)
    );
    assert_eq!(host.state.cwd, "/project");
    fails_with(host.check_model(false, Ok(())), "model is not allowed by policy");
    fails_with(host.check_model(true, Err("unknown provider".to_owned())), "unknown provider");
    fails_with(
        host.model_sent("c/d".to_owned(), false),
        "session ended before model change",
    );
    assert_eq!(host.state.current_model, "a/b");
}

#[test]
fn a_session_answers_what_it_knows_of_itself() {
    let mut state = SessionCommandState::new(
        "a/b".to_owned(),
        Vec::new(),
        "/project".to_owned(),
        false,
        false,
    );
    state.set_model_specs(vec!["x/y".to_owned()]);
    let mut host = SessionCommandHost::new(state, false);
    assert_eq!(
        host.request(HostRequest::Context(HostContextRequest::ModelSpecs)),
        HostStep::Respond(Ok(HostResponse::Context(HostContextResponse::Values(vec![
            "x/y".to_owned()
        ]))))
    );
    assert_eq!(
        host.request(HostRequest::Context(HostContextRequest::WorkingDirectory)),
        HostStep::Respond(Ok(HostResponse::Context(HostContextResponse::WorkingDirectory(
            "/project".to_owned()
        ))))
    );
    for request in [HostContextRequest::ThemeNames, HostContextRequest::ThinkingConfig] {
        assert_eq!(
            host.request(HostRequest::Context(request)),
            HostStep::Respond(Ok(HostResponse::Context(HostContextResponse::Unavailable)))
        );
    }
    assert_eq!(
        host.request(HostRequest::Builtin(BuiltinOperation::Exit)),
        HostStep::Respond(Err(CommandError::Producer(
            "unsupported builtin operation: Exit".to_owned()
        )))
    );
    let refused = [
        (
            BuiltinOperation::SetTheme { name: "a \"b\"\n".to_owned() },
            "unsupported builtin operation: SetTheme { name: \"a \\\"b\\\"\\n\" }",
        ),
        (
            BuiltinOperation::SetThinking { config: ThinkingConfig::XHigh },
            "unsupported builtin operation: SetThinking { config: XHigh }",
        ),
        (
            BuiltinOperation::SetThinking { config: ThinkingConfig::Budget(4096) },
            "unsupported builtin operation: SetThinking { config: Budget(4096) }",
        ),
    ];
    for (operation, message) in refused {
        assert_eq!(
            format!("unsupported builtin operation: {operation:?}"),
            message,
            "a message names the operation as it is written"
        );
        assert_eq!(
            host.request(HostRequest::Builtin(operation)),
            HostStep::Respond(Err(CommandError::Producer(message.to_owned())))
        );
    }
}

#[test]
fn local_builtin_rejects_attachments() {
    let attachments = vec![CommandAttachment {
        media_type: "image/png".to_owned(),
        data: "AAAA".to_owned(),
    }];
    fails_with(
        interpret(BuiltinId::Compact, "", attachments, false),
        "local commands cannot include non-text content",
    );
}

#[test]
fn standard_commands_register_only_once() {
    let mut registry = StandardRegistry::new();
    let first =
        StandardCommands::register(&mut registry, &Vec::new(), Ok(()), Ok(())).unwrap();
    fails_with(
        StandardCommands::register(&mut registry, &Vec::new(), Ok(()), Ok(())),
        "standard commands are already registered",
    );
    first.release(&mut registry);
    assert_eq!(registry, StandardRegistry::new());
    let third = StandardCommands::register(&mut registry, &Vec::new(), Ok(()), Ok(()));
    assert!(third.is_ok());
}

#[test]
fn a_failed_registration_leaves_nothing() {
    let mut registry = StandardRegistry::new();
    let commands = vec![custom_command("body")];
    fails_with(
        StandardCommands::register(&mut registry, &commands, Err("first".to_owned()), Ok(())),
        "first",
    );
    assert_eq!(registry, StandardRegistry::new());
    fails_with(
        StandardCommands::register(&mut registry, &commands, Ok(()), Err("second".to_owned())),
        "second",
    );
    assert_eq!(registry, StandardRegistry::new());
    let mut registered =
        StandardCommands::register(&mut registry, &commands, Ok(()), Ok(())).unwrap();
    assert_eq!(registered.application_producer()[0].name, "/project:review");
    assert_eq!(
        registered.register_custom_commands(&Vec::new(), Err("no".to_owned())),
        Err("no".to_owned())
    );
    assert_eq!(registered.application_producer().len(), 1);
    assert_eq!(registered.register_custom_commands(&Vec::new(), Ok(())), Ok(()));
    assert!(registered.application_producer().is_empty());
}

#[test]
fn completions_go_to_the_commands_that_name_them() {
    let completions = StandardCompletions { model: Some(1), theme: Some(2) };
    assert_eq!(completions.of(Some(CompletionKey::Model)), Some(1));
    assert_eq!(completions.of(Some(CompletionKey::Theme)), Some(2));
    assert_eq!(completions.of(None), None);
}

#[test]
fn parse_command_empty_body_returns_none() {
    assert!(parsed("---\nname: empty\n---\n   \n", "empty", CommandScope::User).is_none());
    assert!(parse_command("body", None, CommandScope::User, None).is_none());
}

#[test]
fn display_name_prefix() {
    for (scope, expected) in [
        (CommandScope::Project, "/project:review"),
        (CommandScope::User, "/user:review"),
    ] {
        let command = CustomCommand {
            name: "review".to_owned(),
            description: String::new(),
            content: "body".to_owned(),
            scope,
            accepts_args: false,
            argument_hint: None,
        };
        assert_eq!(command.display_name(), expected);
    }
}

#[test]
fn every_placeholder_is_filled() {
    assert_eq!(custom_command("$ARGUMENTS and $ARGUMENTS").render("x"), "x and x");
    assert_eq!(custom_command("no place").render("x"), "no place");
    assert_eq!(custom_command("[$ARGUMENTS]").render(""), "[]");
}

#[test]
fn discover_project_overrides_global() {
    let global = parsed(
        "---\ndescription: Global version\n---\nGlobal content",
        "overlap",
        CommandScope::User,
    )
    .unwrap();
    let project = parsed(
        "---\ndescription: Project version\n---\nProject content",
        "overlap",
        CommandScope::Project,
    )
    .unwrap();
    let commands = discover_commands(vec![global, project]);
    let overlap: Vec<_> = commands.iter().filter(|command| command.name == "overlap").collect();
    assert_eq!(overlap.len(), 1);
    assert_eq!(overlap[0].description, "Project version");
    assert_eq!(overlap[0].scope, CommandScope::Project);
}

#[test]
fn discover_supports_both_dir_sources() {
    let dirs = command_dirs(&Vec::new(), None, &vec!["/project".to_owned()], SHARED);
    let looked: Vec<_> =
        dirs.iter().map(|dir| (dir.base.as_str(), dir.below.as_str())).collect();
    assert_eq!(looked, [("/project", ".makima/commands"), ("/project", SHARED)]);
    let commands = discover_commands(vec![
        parsed("Content", "b-cmd", CommandScope::Project).unwrap(),
        parsed("Content", "a-cmd", CommandScope::Project).unwrap(),
    ]);
    let names: Vec<_> = commands.iter().map(|command| command.name.as_str()).collect();
    assert_eq!(names, ["a-cmd", "b-cmd"]);
}

#[test]
fn directories_are_looked_through_in_order() {
    let dirs = command_dirs(
        &vec!["/config/commands".to_owned()],
        Some("/home/me"),
        &vec!["/p/a".to_owned(), "/p".to_owned()],
        SHARED,
    );
    let looked: Vec<_> = dirs
        .iter()
        .map(|dir| (dir.base.as_str(), dir.below.as_str(), dir.scope))
        .collect();
    assert_eq!(
        looked,
        [
            ("/config/commands", "", CommandScope::User),
            ("/home/me", SHARED, CommandScope::User),
            ("/p/a", ".makima/commands", CommandScope::Project),
            ("/p/a", SHARED, CommandScope::Project),
            ("/p", ".makima/commands", CommandScope::Project),
            ("/p", SHARED, CommandScope::Project),
        ]
    );
}

#[test]
fn discover_ignores_non_md_files() {
    assert!(is_command_file(Some("md")));
    assert!(!is_command_file(Some("txt")));
    assert!(!is_command_file(None));
    let commands = discover_commands(vec![
        parsed("Content", "valid", CommandScope::Project).unwrap(),
    ]);
    assert_eq!(commands.len(), 1);
    assert_eq!(commands[0].name, "valid");
}

#[test]
fn parse_frontmatter_edge_cases() {
    for (input, name, body) in [
        ("---\n: invalid: yaml: [[\n---\nBody", None, "Body"),
        (
            "---\nname: oops\nThis never closes",
            None,
            "---\nname: oops\nThis never closes",
        ),
        ("  \n---\nname: trimmed\n---\nBody", Some("trimmed"), "Body"),
    ] {
        let read = split_content(input).heading.and_then(|heading| read_heading(&heading));
        let content = parse_frontmatter(input, read);
        assert_eq!(content.frontmatter.name.as_deref(), name);
        assert_eq!(content.body, body);
    }
    assert_eq!(
        split_content("---\nname: x\n---\nBody").heading.as_deref(),
        Some("name: x\n")
    );
    assert_eq!(split_content("---\n---\n").heading.as_deref(), Some(""));
}

#[test]
fn a_file_without_a_heading_says_nothing() {
    let read = Some(Frontmatter {
        name: Some("ignored".to_owned()),
        description: None,
        argument_hint: None,
    });
    assert_eq!(parse_frontmatter("Body", read).frontmatter.name, None);
}

#[test]
fn find_project_ancestor_dirs_stops_at_git() {
    let chain = vec![
        AncestorDir { path: "/tmp/t/a/b/c".to_owned(), has_git: false },
        AncestorDir { path: "/tmp/t/a/b".to_owned(), has_git: false },
        AncestorDir { path: "/tmp/t/a".to_owned(), has_git: true },
        AncestorDir { path: "/tmp/t".to_owned(), has_git: false },
    ];
    let dirs = find_project_ancestor_dirs(&chain);
    assert_eq!(dirs, ["/tmp/t/a/b/c", "/tmp/t/a/b", "/tmp/t/a"]);
    assert!(!dirs.contains(&"/tmp/t".to_owned()), "should not traverse past .git");
    let open = vec![AncestorDir { path: "/a".to_owned(), has_git: false }];
    assert_eq!(find_project_ancestor_dirs(&open), ["/a"]);
}

#[test]
fn models_are_resolved_by_name() {
    let specs = vec!["openai/gpt-5".to_owned(), "local".to_owned()];
    assert_eq!(
        resolve_model("gpt", &specs, Resolution::Unique(0)),
        Ok("openai/gpt-5".to_owned())
    );
    fails_with(resolve_model("zzz", &specs, Resolution::NoMatch), "no model matches: zzz");
    fails_with(resolve_model("g", &specs, Resolution::Ambiguous), "ambiguous model: g");
    assert_eq!(
        candidate_fields("openai/gpt-5"),
        ("openai".to_owned(), "gpt-5".to_owned())
    );
    assert_eq!(candidate_fields("a/b/c"), ("a".to_owned(), "b/c".to_owned()));
    assert_eq!(candidate_fields("local"), (String::new(), "local".to_owned()));
    fails_with(read_model("x/y".to_owned(), Err("unknown".to_owned())), "unknown");
}

#[test]
fn thinking_words_are_understood() {
    let off = ThinkingConfig::Off;
    for (word, expected) in [
        ("", ThinkingConfig::Adaptive),
        ("toggle", ThinkingConfig::Adaptive),
        (" OFF ", ThinkingConfig::Off),
        ("false", ThinkingConfig::Off),
        ("on", ThinkingConfig::Adaptive),
        ("True", ThinkingConfig::Adaptive),
        ("adaptive", ThinkingConfig::Adaptive),
        ("minimal", ThinkingConfig::Minimal),
        ("low", ThinkingConfig::Low),
        ("Medium", ThinkingConfig::Medium),
        ("high", ThinkingConfig::High),
        ("xhigh", ThinkingConfig::XHigh),
        ("MAX", ThinkingConfig::Max),
        ("4096", ThinkingConfig::Budget(4096)),
        ("+7", ThinkingConfig::Budget(7)),
        ("4294967295", ThinkingConfig::Budget(u32::MAX)),
    ] {
        assert_eq!(parse_thinking(word, off), Ok(expected), "{word:?}");
    }
    assert_eq!(parse_thinking("", ThinkingConfig::High), Ok(ThinkingConfig::Off));
    for word in ["0", "-5", "4294967296", "12x", "+", "very"] {
        fails_with(parse_thinking(word, off), "invalid thinking mode");
    }
}

#[test]
fn directories_are_named() {
    let place = |words: &str, relative: bool| {
        informed(
            HostContextRequest::WorkingDirectory,
            words,
            HostContextResponse::WorkingDirectory("/project".to_owned()),
            Resolution::NoMatch,
            relative,
        )
    };
    let at = |place| Ok(BuiltinStep::ChangeDirectory(place));
    assert_eq!(place("", false), at(DirectoryPlace::Home));
    assert_eq!(place("~", true), at(DirectoryPlace::Home));
    assert_eq!(place("~//src/x", true), at(DirectoryPlace::BelowHome("src/x".to_owned())));
    assert_eq!(
        place(" sub ", true),
        at(DirectoryPlace::Below { cwd: "/project".to_owned(), path: "sub".to_owned() })
    );
    assert_eq!(place("/etc", false), at(DirectoryPlace::At("/etc".to_owned())));
}

#[test]
fn commands_say_what_they_could_not_learn() {
    for (request, message) in [
        (HostContextRequest::ModelSpecs, "model resolution is unavailable"),
        (HostContextRequest::ThemeNames, "theme resolution is unavailable"),
        (
            HostContextRequest::WorkingDirectory,
            "working-directory resolution is unavailable",
        ),
        (HostContextRequest::ThinkingConfig, "thinking configuration is unavailable"),
    ] {
        fails_with(
            informed(request, "x", HostContextResponse::Unavailable, Resolution::NoMatch, true),
            message,
        );
    }
    fails_with(
        informed(
            HostContextRequest::ThemeNames,
            "drk",
            HostContextResponse::Values(Vec::new()),
            Resolution::Ambiguous,
            false,
        ),
        "theme is unknown or ambiguous: drk",
    );
    assert_eq!(
        informed(
            HostContextRequest::ThinkingConfig,
            "low",
            HostContextResponse::ThinkingConfig(ThinkingConfig::Off),
            Resolution::NoMatch,
            false,
        ),
        Ok(BuiltinStep::Perform(BuiltinOperation::SetThinking { config: ThinkingConfig::Low }))
    );
}

#[test]
fn answers_become_outcomes() {
    assert_eq!(
        builtin_outcome(Ok(HostResponse::Completed)),
        Ok(CommandOutcome::Completed)
    );
    let turn = || AgentTurn {
        content: CommandContent { text: "hi".to_owned(), attachments: Vec::new() },
        prompt: None,
    };
    assert_eq!(
        builtin_outcome(Ok(HostResponse::AgentTurn(turn()))),
        Ok(CommandOutcome::AgentTurn(turn()))
    );
    fails_with(
        builtin_outcome(Ok(HostResponse::Context(HostContextResponse::Unavailable))),
        "invalid builtin host response",
    );
    assert_eq!(
        builtin_outcome(Err(CommandError::StaleTarget)),
        Err(CommandError::StaleTarget)
    );
    assert_eq!(
        host_context(Ok(HostResponse::Completed)),
        Err(CommandError::Producer("invalid host context response: Completed".to_owned()))
    );
    let answers = [
        HostResponse::AgentTurn(AgentTurn {
            content: CommandContent { text: "why?".to_owned(), attachments: vec![] },
            prompt: None,
        }),
        HostResponse::AgentTurn(AgentTurn {
            content: CommandContent {
                text: "a \"b\"".to_owned(),
                attachments: ["one", "two"]
                    .into_iter()
                    .map(|data| CommandAttachment {
                        media_type: "image/png".to_owned(),
                        data: data.to_owned(),
                    })
                    .collect(),
            },
            prompt: Some(McpPromptRef {
                qualified_name: "srv.ask".to_owned(),
                arguments: vec![
                    ("x".to_owned(), "1".to_owned()),
                    ("y".to_owned(), "\t".to_owned()),
                ],
            }),
        }),
    ];
    for answer in answers {
        let message = format!("invalid host context response: {answer:?}");
        assert_eq!(host_context(Ok(answer)), Err(CommandError::Producer(message)));
    }
    assert_eq!(
        host_context(Ok(HostResponse::Context(HostContextResponse::Unavailable))),
        Ok(HostContextResponse::Unavailable)
    );
}

#[test]
fn plain_builtins_need_no_arguments() {
    for (id, operation) in [
        (BuiltinId::Tasks, BuiltinOperation::OpenTasks),
        (BuiltinId::Compact, BuiltinOperation::Compact),
        (BuiltinId::New, BuiltinOperation::ResetSession),
        (BuiltinId::Help, BuiltinOperation::ToggleHelp),
        (BuiltinId::Usage, BuiltinOperation::ToggleUsage),
        (BuiltinId::Queue, BuiltinOperation::FocusQueue),
        (BuiltinId::Mcp, BuiltinOperation::OpenMcpPicker),
        (BuiltinId::Login, BuiltinOperation::OpenLoginPicker),
        (BuiltinId::Yolo, BuiltinOperation::ToggleYolo),
        (BuiltinId::Fast, BuiltinOperation::ToggleFast),
        (BuiltinId::Workflow, BuiltinOperation::ToggleWorkflow),
        (BuiltinId::Exit, BuiltinOperation::Exit),
        (BuiltinId::Reload, BuiltinOperation::Reload),
    ] {
        assert_eq!(
            interpret(id, "ignored", Vec::new(), false),
            Ok(BuiltinStep::Perform(operation))
        );
    }
    assert_eq!(
        interpret(BuiltinId::Model, "gpt", Vec::new(), false),
        Ok(BuiltinStep::Ask(HostContextRequest::ModelSpecs))
    );
    assert_eq!(
        interpret(BuiltinId::Cd, "", Vec::new(), false),
        Ok(BuiltinStep::Ask(HostContextRequest::WorkingDirectory))
    );
}

#[test]
fn white_space_is_what_the_property_says() {
    let ranges = [
        (0x0009, 0x000d),
        (0x0020, 0x0020),
        (0x0085, 0x0085),
        (0x00a0, 0x00a0),
        (0x1680, 0x1680),
        (0x2000, 0x200a),
        (0x2028, 0x2029),
        (0x202f, 0x202f),
        (0x205f, 0x205f),
        (0x3000, 0x3000),
    ];
    for c in '\0'..=char::MAX {
        let code = c as u32;
        let blank = ranges.iter().any(|(first, last)| *first <= code && code <= *last);
        assert_eq!(trim_text(&c.to_string()).is_empty(), blank, "U+{code:04X}");
    }
}
