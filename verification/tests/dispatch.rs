//! Tool calls, from a name to the end of the call.
use makima::agent::catalog::{
    assign_aliases, callable, identifier_alias, Callable, ToolSource,
};
use makima::agent::dispatch::{
    admit_input, begin_call, finish_local_tool, finish_mcp_tool, finish_tool_search, mcp_key,
    permit_mcp_tool, search_query, start_local_tool, start_mcp_tool, start_tool_search, CallOrigin,
    Progress,
};
use makima::agent::events::{OutputKind, RunEvent, ToolDone, ToolLabel, ToolOutput, ToolStart};
use makima::agent::hooks::{
    filter_input, filter_output, output_fires, read_replacement, Hook, HookCall, HookStage,
    OutputVerdict, Verdict, HOOK_CHAIN_MAX_MS,
};
use makima::agent::native::{
    ask_permission, begin_native, enforce_permission, finish_native, lock_native, permit_native,
    start_native, AfterPermission, ExecutingCall, NativeCall, ParsedCall, ToolResult,
};
use makima::agent::routes::{
    authorize_advertised, resolve, source, Authority, LocalEntry, LocalTool, McpCatalog, McpName,
    ModeTools, NativeEntry, NativeTool, Resolved, Route, ToolAudience, ToolWorld, TurnToolRoute,
};
use makima::text_map::TextMap;

const TEST_ID: &str = "t1";
const PROBE_WIRE: &str = "srv__probe";
const PROBE_QUALIFIED: &str = "srv.probe";
const OTHER_WIRE: &str = "srv__other";
const OTHER_QUALIFIED: &str = "srv.other";
const SHADOWED_NAME: &str = "batch";
const CLIENT_NAME: &str = "client_probe";
const TEST_PLUGIN_SOURCE: &str = "lua:test";
const HOOK_TOOL_NAME: &str = "hook_probe";
const HOOK_PLAIN: &str = "ls";
const HOOK_REWRITTEN_FROM: &str = "grep -r x .";
const HOOK_REWRITTEN_TO: &str = "rg x";
const HOOK_DENIED: &str = "sudo rm -rf /";
const HOOK_DENY_REASON: &str = "not on my watch";
const HOOK_OUTPUT_TEXT: &str = "trimmed";
const HOOK_PERMISSION: u32 = 4;
const HOOK_DIFF_COMMAND: &str = "apply";
const HOOK_DIFF_SUMMARY: &str = "1 file changed";
const HOOK_ESCAPED_PATH: &str = "/tmp/not-the-plan.md";
const START_PROBE_NAME: &str = "start_probe";
const GUARDED_TOOL_NAME: &str = "guarded";
const PLAN_PATH: &str = "/tmp/plan.md";
const HOOK_CALL_DEADLINE: u64 = 7_000;
const HOOK_SLOW_RUN: u64 = 20;
const TOOL_SEARCH_TOOL_NAME: &str = "tool_search";
const MODE_DENIED: &str = "tool not allowed in restricted mode";
const UNAVAILABLE_TOOL_PREFIX: &str = "tool not available for this agent";
const UNKNOWN_TOOL_PREFIX: &str = "unknown tool";
const PERMISSION_DENIED_PREFIX: &str = "permission denied";
const OUTPUT_TEXT: &str = "text";
const OUTPUT_IS_ERROR: &str = "is_error";
const SEARCH_EMPTY_QUERY: &str = "query must not be empty";
const PLAN_WRITE_RESTRICTED: &str = "writes are restricted";

const MAIN: ToolAudience = ToolAudience { bits: 1 };
const GENERAL_SUB: ToolAudience = ToolAudience { bits: 2 };

fn stub(restricted: bool) -> ToolWorld {
    ToolWorld {
        local: vec![],
        registry: vec![],
        mcp: None,
        bindings: TextMap::new(),
        routes: TextMap::new(),
        mode_def: Some(ModeTools { tools: None }),
        restricted,
        audience: MAIN,
        excluded: vec![],
    }
}

fn build() -> ToolWorld {
    stub(false)
}

fn plan() -> ToolWorld {
    stub(true)
}

/// Registered tools; tools of different generations are different tools.
fn registry_with(names: &[&str], generation: u64) -> Vec<NativeEntry> {
    let mut entries = Vec::new();
    for (i, name) in names.iter().enumerate() {
        entries.push(NativeEntry {
            name: (*name).to_owned(),
            tool: NativeTool {
                tool: generation * 100 + i as u64,
                audience: ToolAudience::all(),
                permission: None,
            },
            schema: "{}".to_owned(),
            source: TEST_PLUGIN_SOURCE.to_owned(),
        });
    }
    entries
}

fn hook_mock(permission: Option<u32>) -> Vec<NativeEntry> {
    let mut entries = registry_with(&[HOOK_TOOL_NAME], 1);
    entries[0].tool.permission = permission;
    entries
}

fn local(name: &str, audience: ToolAudience) -> Vec<LocalEntry> {
    vec![LocalEntry { name: name.to_owned(), tool: LocalTool { handler: 7, audience } }]
}

fn stub_mcp(qualified: &[&str]) -> McpCatalog {
    let mut names = Vec::new();
    let mut current = Vec::new();
    for (i, name) in qualified.iter().enumerate() {
        names.push(McpName { name: name.replace('.', "__"), qualified: (*name).to_owned() });
        current.push(i as u64);
    }
    McpCatalog { names, current }
}

fn both<V>(maps: (&mut TextMap<V>, &mut TextMap<V>), name: &str, route: fn(usize) -> V, i: usize) {
    maps.0.insert(name.to_owned(), route(i));
    maps.1.insert(name.to_owned(), route(i));
}

/// Binds every name to what it leads to now.
fn pin(world: &mut ToolWorld) {
    world.bindings.clear();
    world.routes.clear();
    if let Some(catalog) = &world.mcp {
        both(
            (&mut world.bindings, &mut world.routes),
            TOOL_SEARCH_TOOL_NAME,
            |_| TurnToolRoute::ToolSearch,
            0,
        );
        for (i, name) in catalog.names.iter().enumerate() {
            let bound = || TurnToolRoute::Mcp {
                qualified: name.qualified.clone(),
                binding: catalog.current[i],
            };
            world.bindings.insert(name.name.clone(), bound());
            world.routes.insert(name.name.clone(), bound());
            world.routes.insert(name.qualified.clone(), bound());
        }
    }
    for entry in &world.registry {
        let bound = || TurnToolRoute::Native { tool: entry.tool.tool };
        world.bindings.insert(entry.name.clone(), bound());
        world.routes.insert(entry.name.clone(), bound());
    }
    for entry in &world.local {
        let bound = || TurnToolRoute::Local {
            handler: entry.tool.handler,
            audience: entry.tool.audience,
        };
        world.bindings.insert(entry.name.clone(), bound());
        world.routes.insert(entry.name.clone(), bound());
    }
}

fn pinned(mut world: ToolWorld) -> ToolWorld {
    pin(&mut world);
    world
}

fn with_mcp(mut world: ToolWorld, catalog: McpCatalog) -> ToolWorld {
    world.mcp = Some(catalog);
    pinned(world)
}

fn local_ctx(name: &str) -> ToolWorld {
    let mut world = build();
    world.local = local(name, ToolAudience::all());
    pinned(world)
}

fn hooked(mut world: ToolWorld, permission: Option<u32>) -> ToolWorld {
    world.registry = hook_mock(permission);
    pinned(world)
}

/// What the tools, the hook and the user do.
struct Host {
    installed: bool,
    wraps: Vec<HookStage>,
    input: fn(&str) -> Verdict,
    output: fn(&str, bool) -> OutputVerdict,
    cancelled: bool,
    session: Option<String>,
    now: u64,
    deadline: Option<u64>,
    granted: Result<(), String>,
    acquired: Result<(), String>,
    stale: Option<String>,
    boundary: Option<String>,
    local: fn(&str) -> Result<String, String>,
    /// What the registry holds when the call has started.
    swapped: bool,
}

fn command_of(input: &str) -> Option<String> {
    let value: serde_json::Value = serde_json::from_str(input).unwrap();
    value["command"].as_str().map(str::to_owned)
}

fn call_input(command: &str) -> String {
    format!("{{\"command\":\"{command}\"}}")
}

/// Rewrites, denies or defers on the way in.
fn steer_the_call(input: &str) -> Verdict {
    match command_of(input).as_deref() {
        Some(HOOK_DENIED) => Verdict::Denied(HOOK_DENY_REASON.to_owned()),
        Some(HOOK_REWRITTEN_FROM) => Verdict::Replaced(call_input(HOOK_REWRITTEN_TO)),
        _ => Verdict::Unchanged,
    }
}

fn leave_the_output(_: &str, _: bool) -> OutputVerdict {
    OutputVerdict::Unchanged
}

fn leave_the_input(_: &str) -> Verdict {
    Verdict::Unchanged
}

fn host() -> Host {
    Host {
        installed: true,
        wraps: vec![HookStage::Input, HookStage::Output],
        input: steer_the_call,
        output: leave_the_output,
        cancelled: false,
        session: None,
        now: 1_000,
        deadline: None,
        granted: Ok(()),
        acquired: Ok(()),
        stale: None,
        boundary: None,
        local: |_| Ok(String::new()),
        swapped: false,
    }
}

fn denying() -> Host {
    Host { granted: Err(format!("{PERMISSION_DENIED_PREFIX}: {HOOK_REWRITTEN_TO}")), ..host() }
}

/// What a call did.
struct Ran {
    done: ToolDone,
    fired: Vec<HookCall>,
    outputs: Vec<(String, bool)>,
    events: Vec<RunEvent>,
    started: bool,
    executed: bool,
    locked: bool,
    loaded: Vec<String>,
}

fn ran(command: &str) -> String {
    format!("ran {command}")
}

fn missing_command() -> String {
    "missing field, expected string".to_owned()
}

fn parse(input: &str, host: &Host) -> Result<ParsedCall, String> {
    match command_of(input) {
        Some(command) => Ok(ParsedCall {
            summary: HOOK_TOOL_NAME.to_owned(),
            render_header: None,
            annotation: None,
            output: None,
            writes: command.starts_with('/'),
            boundary: host.boundary.clone(),
        }),
        None => Err(missing_command()),
    }
}

fn execute(input: &str) -> ToolResult {
    let command = command_of(input).unwrap();
    let output = if command == HOOK_DIFF_COMMAND {
        ToolOutput { kind: OutputKind::Rendered, text: HOOK_DIFF_SUMMARY.to_owned() }
    } else {
        ToolOutput { kind: OutputKind::Plain, text: ran(&command) }
    };
    ToolResult { output: Ok(output), annotation: None, written_path: None }
}

fn run_native(
    world: &mut ToolWorld,
    tool: NativeTool,
    name: &str,
    input: &str,
    host: &Host,
    origin: CallOrigin,
    ran: &mut Ran,
) -> ToolDone {
    let call = NativeCall {
        id: TEST_ID.to_owned(),
        name: name.to_owned(),
        tool: name.to_owned(),
        origin,
        raw_input: input.to_owned(),
    };
    let call = match begin_native(world, tool, call) {
        Progress::Next(call) => call,
        Progress::Done(done) => return done,
    };
    let parsed = parse(input, host);
    let writes = parsed.as_ref().is_ok_and(|parsed| parsed.writes);
    let (events, started) = start_native(world, call, parsed, PLAN_WRITE_RESTRICTED);
    ran.events.extend(events);
    let started = match started {
        Progress::Next(started) => started,
        Progress::Done(done) => return done,
    };
    ran.started = true;
    if host.swapped {
        world.registry = registry_with(&[HOOK_TOOL_NAME], 9);
    }
    let asking = match ask_permission(world, started) {
        Progress::Next(asking) => asking,
        Progress::Done(done) => return done,
    };
    let (events, after) = permit_native(world, asking, host.granted.clone(), writes);
    ran.events.extend(events);
    let executing: ExecutingCall = match after {
        AfterPermission::Done(done) => return done,
        AfterPermission::Execute(executing) => executing,
        AfterPermission::Lock(locking) => {
            let (events, progress) =
                lock_native(world, locking, host.acquired.clone(), host.stale.clone());
            ran.events.extend(events);
            match progress {
                Progress::Next(executing) => executing,
                Progress::Done(done) => return done,
            }
        }
    };
    ran.executed = true;
    ran.locked = executing.locked;
    finish_native(executing, execute(input)).done
}

fn run_mcp(
    world: &ToolWorld,
    tool: &str,
    input: &str,
    host: &Host,
    origin: CallOrigin,
    ran: &mut Ran,
) -> ToolDone {
    ran.events.extend(start_mcp_tool(origin, TEST_ID, tool, input));
    if let Progress::Done(done) = mcp_key(TEST_ID, tool, Ok(())) {
        return done;
    }
    let (events, progress) = permit_mcp_tool(world, origin, TEST_ID, tool, host.granted.clone());
    ran.events.extend(events);
    match progress {
        Progress::Next(call) => {
            if call.loads {
                ran.loaded.push(call.tool.clone());
            }
            ran.executed = true;
            finish_mcp_tool(call, Ok("answer".to_owned()))
        }
        Progress::Done(done) => done,
    }
}

fn run_search(world: &ToolWorld, input: &str, origin: CallOrigin, ran: &mut Ran) -> ToolDone {
    let value: serde_json::Value = serde_json::from_str(input).unwrap();
    let query = search_query(&value);
    ran.events.extend(start_tool_search(origin, TEST_ID, query.clone(), input));
    let found = if query.trim().is_empty() {
        Err(SEARCH_EMPTY_QUERY.to_owned())
    } else {
        let names = &world.mcp.as_ref().unwrap().names;
        Ok(names.iter().map(|n| n.name.clone()).collect::<Vec<_>>().join("\n"))
    };
    finish_tool_search(TEST_ID.to_owned(), found)
}

fn run(world: &mut ToolWorld, name: &str, input: &str, host: &Host, origin: CallOrigin) -> Ran {
    let mut ran = Ran {
        done: ToolDone::error(String::new(), String::new()),
        fired: vec![],
        outputs: vec![],
        events: vec![],
        started: false,
        executed: false,
        locked: false,
        loaded: vec![],
    };
    let resolved: Resolved = match begin_call(world, TEST_ID, name) {
        Progress::Next(resolved) => resolved,
        Progress::Done(done) => {
            ran.done = done;
            return ran;
        }
    };
    let hook = Hook::of(host.installed, &resolved, origin);
    let mut verdict = Verdict::Unchanged;
    if let Some(hook) = &hook {
        let wraps = host.wraps.contains(&HookStage::Input);
        if wraps {
            let session = host.session.clone();
            ran.fired.push(hook.call(HookStage::Input, TEST_ID, session, host.now, host.deadline));
        }
        let answer = if host.cancelled { None } else { Some((host.input)(input)) };
        verdict = filter_input(wraps, answer);
    }
    let input = match admit_input(world, TEST_ID, &resolved, input.to_owned(), verdict) {
        Progress::Next(input) => input,
        Progress::Done(done) => {
            ran.done = done;
            return ran;
        }
    };
    let mut done = match &resolved.route {
        Route::Local(_) => {
            let events = start_local_tool(origin, TEST_ID, &resolved.name, &input);
            ran.events.extend(events);
            ran.executed = true;
            finish_local_tool(TEST_ID.to_owned(), &resolved.name, (host.local)(&input))
        }
        Route::Native(tool) => {
            run_native(world, *tool, &resolved.name, &input, host, origin, &mut ran)
        }
        Route::ToolSearch => run_search(world, &input, origin, &mut ran),
        Route::Mcp(qualified) => run_mcp(world, qualified, &input, host, origin, &mut ran),
        Route::Unknown => unreachable!(),
    };
    if let Some(hook) = &hook {
        let wraps = host.wraps.contains(&HookStage::Output);
        let now = host.now + HOOK_SLOW_RUN;
        if output_fires(&done, wraps) {
            let session = host.session.clone();
            ran.fired.push(hook.call(HookStage::Output, TEST_ID, session, now, host.deadline));
            ran.outputs.push((done.output.text.clone(), done.is_error));
        }
        let answer = if host.cancelled {
            None
        } else {
            Some((host.output)(&done.output.text, done.is_error))
        };
        filter_output(&mut done, wraps, answer);
    }
    ran.done = done;
    ran
}

fn dispatch(mut world: ToolWorld, name: &str, input: &str, host: &Host) -> Ran {
    pin(&mut world);
    run(&mut world, name, input, host, CallOrigin::Model)
}

fn dispatch_pinned(mut world: ToolWorld, name: &str, input: &str, host: &Host) -> Ran {
    run(&mut world, name, input, host, CallOrigin::Model)
}

fn dispatch_nested(mut world: ToolWorld, name: &str, input: &str, host: &Host) -> Ran {
    pin(&mut world);
    run(&mut world, name, input, host, CallOrigin::Nested)
}

fn stages(ran: &Ran) -> Vec<(HookStage, Authority)> {
    ran.fired.iter().map(|call| (call.stage, call.authority)).collect()
}

fn both_stages(authority: Authority) -> Vec<(HookStage, Authority)> {
    vec![(HookStage::Input, authority), (HookStage::Output, authority)]
}

fn named(done: &ToolDone) -> &str {
    match &done.tool {
        ToolLabel::Named(name) => name,
        other => panic!("unexpected {other:?}"),
    }
}

fn callable_names(world: &ToolWorld) -> Vec<String> {
    callable(world).into_iter().map(|c| c.name).collect()
}

#[test]
fn an_input_rewrite_is_the_call_that_runs() {
    let cases: [(Host, bool); 2] = [(host(), false), (denying(), true)];
    for (host, is_error) in cases {
        let world = hooked(build(), None);
        let done = dispatch(world, HOOK_TOOL_NAME, &call_input(HOOK_REWRITTEN_FROM), &host).done;
        assert_eq!(done.is_error, is_error);
        let text = done.output.text;
        assert!(text.contains(HOOK_REWRITTEN_TO) && !text.contains(HOOK_REWRITTEN_FROM));
    }
}

#[test]
fn input_hook_denial_never_runs_the_tool() {
    let ran = dispatch(hooked(build(), None), HOOK_TOOL_NAME, &call_input(HOOK_DENIED), &host());
    assert!(ran.done.is_error);
    assert_eq!(ran.done.output.text, HOOK_DENY_REASON);
    assert!(!ran.executed);
    assert_eq!(stages(&ran), vec![(HookStage::Input, Authority::Unbounded)]);
}

#[test]
fn a_refused_call_still_reaches_the_output_stage() {
    let ran = dispatch(hooked(build(), None), HOOK_TOOL_NAME, &call_input(HOOK_PLAIN), &denying());
    assert!(ran.done.is_error);
    assert!(ran.done.output.text.contains(PERMISSION_DENIED_PREFIX));
    assert_eq!(stages(&ran), both_stages(Authority::Unbounded));
    assert!(ran.outputs[0].1);
    assert!(ran.outputs[0].0.contains(PERMISSION_DENIED_PREFIX));
}

#[test]
fn unknown_names_are_not_hooked() {
    let ran = dispatch(hooked(build(), None), "nope", &call_input(HOOK_DENIED), &host());
    assert!(ran.done.is_error);
    assert!(ran.done.output.text.contains(UNKNOWN_TOOL_PREFIX));
    assert!(ran.fired.is_empty());
}

#[test]
fn a_route_lends_the_authority_it_declares() {
    let mcp = || with_mcp(build(), stub_mcp(&[PROBE_QUALIFIED]));
    let cases = [
        (build(), HOOK_TOOL_NAME, Some(HOOK_PERMISSION), Authority::Capability(HOOK_PERMISSION)),
        (build(), HOOK_TOOL_NAME, None, Authority::Unbounded),
        (mcp(), TOOL_SEARCH_TOOL_NAME, None, Authority::Unbounded),
        (mcp(), PROBE_WIRE, None, Authority::Unbounded),
        (local_ctx(CLIENT_NAME), CLIENT_NAME, None, Authority::Unbounded),
    ];
    for (world, name, permission, expected) in cases {
        let ran = dispatch(hooked(world, permission), name, &call_input(HOOK_PLAIN), &host());
        assert_eq!(ran.fired[0].stage, HookStage::Input);
        assert_eq!(ran.fired[0].authority, expected);
        assert_eq!(ran.fired[0].tool, name);
    }
}

#[test]
fn a_stage_the_hook_declines_never_fires() {
    for wrapped in [HookStage::Input, HookStage::Output] {
        let host = Host { wraps: vec![wrapped], ..host() };
        let ran_call =
            dispatch(hooked(build(), None), HOOK_TOOL_NAME, &call_input(HOOK_PLAIN), &host);
        assert!(!ran_call.done.is_error);
        assert_eq!(ran_call.done.output.text, ran(HOOK_PLAIN));
        let fired: Vec<HookStage> = ran_call.fired.iter().map(|call| call.stage).collect();
        assert_eq!(fired, vec![wrapped]);
    }
}

#[test]
fn a_cancelled_call_does_not_wait_for_a_verdict() {
    let cases = [
        (HookStage::Input, true, "cancelled".to_owned()),
        (HookStage::Output, false, ran(HOOK_PLAIN)),
    ];
    for (wrapped, is_error, expected) in cases {
        let host = Host { wraps: vec![wrapped], cancelled: true, ..host() };
        let done =
            dispatch(hooked(build(), None), HOOK_TOOL_NAME, &call_input(HOOK_PLAIN), &host).done;
        assert_eq!(done.is_error, is_error);
        assert_eq!(done.output.text, expected);
    }
}

#[test]
fn a_firing_carries_the_calls_cancellation_and_deadline() {
    let at = 1_000 + HOOK_CALL_DEADLINE;
    let host = Host { deadline: Some(at), cancelled: true, ..host() };
    let ran = dispatch(hooked(build(), None), HOOK_TOOL_NAME, &call_input(HOOK_PLAIN), &host);
    assert_eq!(ran.fired[0].stage, HookStage::Input);
    assert_eq!(ran.fired[0].deadline, at);
}

#[test]
fn a_call_without_a_deadline_bounds_each_stage_from_where_it_starts() {
    let ran = dispatch(hooked(build(), None), HOOK_TOOL_NAME, &call_input("slow"), &host());
    let (input, output) = (ran.fired[0].deadline, ran.fired[1].deadline);
    assert_eq!(input, 1_000 + HOOK_CHAIN_MAX_MS);
    assert_eq!(HOOK_CHAIN_MAX_MS, 60_000);
    assert!(output - input >= HOOK_SLOW_RUN);
}

fn replaced(json: &str) -> OutputVerdict {
    let value: serde_json::Value = serde_json::from_str(json).unwrap();
    read_replacement(&value, OUTPUT_TEXT, OUTPUT_IS_ERROR)
}

fn replace_the_output(_: &str, _: bool) -> OutputVerdict {
    replaced("{\"text\":\"trimmed\",\"is_error\":true}")
}

fn replace_the_output_without_text(_: &str, _: bool) -> OutputVerdict {
    replaced("{\"is_error\":true}")
}

fn deny_the_output(_: &str, _: bool) -> OutputVerdict {
    OutputVerdict::Denied(HOOK_DENY_REASON.to_owned())
}

#[test]
fn the_output_stage_decides_what_the_model_reads() {
    let cases: [(fn(&str, bool) -> OutputVerdict, bool, String); 3] = [
        (replace_the_output, true, HOOK_OUTPUT_TEXT.to_owned()),
        (replace_the_output_without_text, false, ran(HOOK_PLAIN)),
        (deny_the_output, true, HOOK_DENY_REASON.to_owned()),
    ];
    for (output, is_error, expected) in cases {
        let host = Host { input: leave_the_input, output, ..host() };
        let done =
            dispatch(hooked(build(), None), HOOK_TOOL_NAME, &call_input(HOOK_PLAIN), &host).done;
        assert_eq!(done.is_error, is_error);
        assert_eq!(done.output.text, expected);
    }
}

#[test]
fn a_replacement_is_read_member_by_member() {
    assert_eq!(
        replaced("{\"text\":\"a\"}"),
        OutputVerdict::Replaced { text: Some("a".to_owned()), is_error: None }
    );
    assert_eq!(
        replaced("{\"text\":7,\"is_error\":\"true\"}"),
        OutputVerdict::Replaced { text: None, is_error: None }
    );
    assert_eq!(
        replaced("{\"text\":\"a\",\"is_error\":false}"),
        OutputVerdict::Replaced { text: Some("a".to_owned()), is_error: Some(false) }
    );
    assert_eq!(replaced("[]"), OutputVerdict::Replaced { text: None, is_error: None });
}

#[test]
fn a_rendered_output_skips_the_output_stage() {
    let host = Host { input: leave_the_input, output: deny_the_output, ..host() };
    let input = call_input(HOOK_DIFF_COMMAND);
    let ran = dispatch(hooked(build(), None), HOOK_TOOL_NAME, &input, &host);
    assert!(!ran.done.is_error);
    assert_eq!(ran.done.output.text, HOOK_DIFF_SUMMARY);
    assert_eq!(stages(&ran), vec![(HookStage::Input, Authority::Unbounded)]);
}

#[test]
fn a_rewrite_the_tool_cannot_parse_is_a_parse_error() {
    let host = Host { input: |_| Verdict::Replaced("{}".to_owned()), ..host() };
    let ran = dispatch(hooked(build(), None), HOOK_TOOL_NAME, &call_input(HOOK_PLAIN), &host);
    assert!(ran.done.is_error);
    assert_eq!(ran.done.output.text, missing_command());
    assert!(ran.events.is_empty());
}

#[test]
fn restricted_write_never_reaches_input_hooks_even_for_plan_path() {
    let host =
        Host { input: |_| Verdict::Replaced(call_input(HOOK_ESCAPED_PATH)), ..host() };
    let ran = dispatch(hooked(plan(), None), HOOK_TOOL_NAME, &call_input(PLAN_PATH), &host);
    assert!(ran.done.is_error);
    assert_eq!(ran.done.output.text, format!("{MODE_DENIED}: {HOOK_TOOL_NAME}"));
    assert!(ran.fired.is_empty());
}

#[test]
fn both_stages_carry_the_call_id_the_session_and_the_origin() {
    let host = Host { session: Some("session-1".to_owned()), ..host() };
    let ran =
        dispatch_nested(hooked(build(), None), HOOK_TOOL_NAME, &call_input(HOOK_PLAIN), &host);
    assert_eq!(ran.fired.len(), 2);
    for firing in ran.fired {
        assert_eq!(firing.tool_id, TEST_ID);
        assert_eq!(firing.session_id.as_deref(), Some("session-1"));
        assert_eq!(firing.origin, CallOrigin::Nested);
    }
}

#[test]
fn local_tool_shadows_registry_and_maps_errors() {
    let mut world = local_ctx(SHADOWED_NAME);
    world.registry = registry_with(&[SHADOWED_NAME], 1);
    let echo: fn(&str) -> Result<String, String> = |input| {
        let value: serde_json::Value = serde_json::from_str(input).unwrap();
        Ok(format!("local:{}", value["path"]))
    };
    let host_echo = Host { local: echo, ..host() };
    let done = dispatch(world, SHADOWED_NAME, "{\"path\":\"/a\"}", &host_echo).done;
    assert!(!done.is_error);
    assert_eq!(done.output.text, r#"local:"/a""#);

    let host = Host { local: |_| Err("nope".to_owned()), ..host() };
    let done = dispatch(local_ctx("boom"), "boom", "{}", &host).done;
    assert!(done.is_error);
    assert_eq!(done.output.text, "nope");
}

#[test]
fn functions_prefixed_name_dispatches_to_canonical_tool() {
    let host = Host { local: |_| Ok("ran".to_owned()), ..host() };
    let done = dispatch(local_ctx("ok"), "functions.ok", "{}", &host).done;
    assert!(!done.is_error);
    assert_eq!(done.output.text, "ran");
}

#[test]
fn local_tool_notify_emits_tool_start_with_raw_input() {
    let input = "{\"path\":\"/a\"}";
    let host = Host { local: |input| Ok(input.to_owned()), ..host() };
    let ran = dispatch(local_ctx("local_echo"), "local_echo", input, &host);
    assert!(!ran.done.is_error);
    assert_eq!(
        ran.events,
        vec![
            RunEvent::ToolStart(ToolStart {
                id: TEST_ID.to_owned(),
                tool: "local_echo".to_owned(),
                summary: "local_echo".to_owned(),
                render_header: None,
                annotation: None,
                input: None,
                raw_input: Some(input.to_owned()),
                output: None,
            }),
            RunEvent::ToolExecutionStart { id: TEST_ID.to_owned() },
        ]
    );
    let host = Host { local: |input| Ok(input.to_owned()), ..host };
    let nested = dispatch_nested(local_ctx("local_echo"), "local_echo", input, &host);
    assert!(nested.events.is_empty());
    assert_eq!(nested.done, ran.done);
}

#[test]
fn tool_search_routes_and_loads_matches() {
    let world = with_mcp(build(), stub_mcp(&[PROBE_QUALIFIED]));
    let ran = dispatch(world, TOOL_SEARCH_TOOL_NAME, "{\"query\":\"probe\"}", &host());
    assert!(!ran.done.is_error);
    assert_eq!(named(&ran.done), TOOL_SEARCH_TOOL_NAME);
    assert!(ran.done.output.text.contains(PROBE_WIRE));
    assert_eq!(ran.done.output.kind, OutputKind::Markdown);
    assert_eq!(
        ran.events,
        vec![RunEvent::ToolStart(ToolStart {
            id: TEST_ID.to_owned(),
            tool: TOOL_SEARCH_TOOL_NAME.to_owned(),
            summary: "probe".to_owned(),
            render_header: None,
            annotation: None,
            input: None,
            raw_input: Some("{\"query\":\"probe\"}".to_owned()),
            output: None,
        })]
    );
}

#[test]
fn stale_mcp_catalog_rejects_tool_search() {
    let message = "MCP tool catalog changed during this turn";
    let done = finish_tool_search(TEST_ID.to_owned(), Err(message.to_owned()));
    assert!(done.is_error);
    assert_eq!(done.output.text, "MCP tool catalog changed during this turn");
}

#[test]
fn plan_mode_denies_tool_search_before_hooks_and_loading() {
    let world = hooked(with_mcp(plan(), stub_mcp(&[PROBE_QUALIFIED])), None);
    let ran = dispatch(world, TOOL_SEARCH_TOOL_NAME, "{\"query\":\"probe\"}", &host());
    assert!(ran.done.is_error);
    assert_eq!(ran.done.output.text, format!("{MODE_DENIED}: {TOOL_SEARCH_TOOL_NAME}"));
    assert!(ran.fired.is_empty());
    assert!(ran.events.is_empty());
    assert!(ran.loaded.is_empty());
}

#[test]
fn tool_search_bad_query_is_error_event() {
    for input in ["{\"query\":\"  \"}", "{}", "{\"query\":3}"] {
        let world = with_mcp(build(), stub_mcp(&[PROBE_QUALIFIED]));
        let done = dispatch(world, TOOL_SEARCH_TOOL_NAME, input, &host()).done;
        assert!(done.is_error);
        assert_eq!(done.output.text, SEARCH_EMPTY_QUERY);
    }
}

#[test]
fn calling_deferred_mcp_tool_marks_it_loaded() {
    let world = with_mcp(build(), stub_mcp(&[PROBE_QUALIFIED]));
    let ran = dispatch(world, PROBE_WIRE, "{}", &host());
    assert_eq!(named(&ran.done), PROBE_QUALIFIED);
    assert_eq!(ran.loaded, vec![PROBE_QUALIFIED]);
    assert_eq!(
        ran.events,
        vec![
            RunEvent::ToolStart(ToolStart {
                id: TEST_ID.to_owned(),
                tool: PROBE_QUALIFIED.to_owned(),
                summary: "mcp: srv.probe".to_owned(),
                render_header: None,
                annotation: None,
                input: None,
                raw_input: Some("{}".to_owned()),
                output: None,
            }),
            RunEvent::ToolExecutionStart { id: TEST_ID.to_owned() },
        ]
    );
}

#[test]
fn nested_call_reaches_mcp_without_loading_anything() {
    let cases = [
        (PROBE_WIRE, "{}", PROBE_QUALIFIED),
        (TOOL_SEARCH_TOOL_NAME, "{\"query\":\"probe\"}", TOOL_SEARCH_TOOL_NAME),
    ];
    for (name, input, routed) in cases {
        let world = with_mcp(build(), stub_mcp(&[PROBE_QUALIFIED]));
        let ran = dispatch_nested(world, name, input, &host());
        assert_eq!(named(&ran.done), routed);
        assert!(ran.loaded.is_empty());
        assert!(ran.events.is_empty());
    }
}

#[test]
fn denied_mcp_call_does_not_load_definition() {
    let world = with_mcp(build(), stub_mcp(&[PROBE_QUALIFIED]));
    let ran = dispatch(world, PROBE_WIRE, "{}", &denying());
    assert!(ran.done.is_error);
    assert!(ran.done.output.text.starts_with(PERMISSION_DENIED_PREFIX));
    assert!(ran.loaded.is_empty());
    assert!(!ran.executed);
}

#[test]
fn outside_tools_have_a_name_that_can_be_permitted() {
    assert_eq!(mcp_key(TEST_ID, PROBE_QUALIFIED, Ok(())), Progress::Next(()));
    let Progress::Done(done) = mcp_key(TEST_ID, "srv.", Err("empty tool".to_owned())) else {
        panic!("the key is invalid");
    };
    assert_eq!(done.output.text, "invalid MCP tool key 'srv.': empty tool");
    assert!(done.is_error);
}

#[test]
fn an_outside_tool_that_is_gone_is_not_called() {
    let mut world = with_mcp(build(), stub_mcp(&[PROBE_QUALIFIED]));
    world.routes.remove(PROBE_QUALIFIED);
    let (events, progress) =
        permit_mcp_tool(&world, CallOrigin::Model, TEST_ID, PROBE_QUALIFIED, Ok(()));
    assert!(events.is_empty());
    let Progress::Done(done) = progress else { panic!("the tool is gone") };
    assert_eq!(done.output.text, format!("{UNAVAILABLE_TOOL_PREFIX}: {PROBE_QUALIFIED}"));

    world.routes.insert(PROBE_QUALIFIED.to_owned(), TurnToolRoute::ToolSearch);
    let (events, progress) =
        permit_mcp_tool(&world, CallOrigin::Model, TEST_ID, PROBE_QUALIFIED, Ok(()));
    assert_eq!(events, vec![RunEvent::ToolExecutionStart { id: TEST_ID.to_owned() }]);
    assert!(matches!(progress, Progress::Done(_)));
}

#[test]
fn local_tool_named_tool_search_shadows_mcp_search() {
    let world = with_mcp(local_ctx(TOOL_SEARCH_TOOL_NAME), stub_mcp(&[PROBE_QUALIFIED]));
    let host = Host { local: |_| Ok("local wins".to_owned()), ..host() };
    let ran = dispatch(world, TOOL_SEARCH_TOOL_NAME, "{\"query\":\"probe\"}", &host);
    assert_eq!(ran.done.output.text, "local wins");
}

#[test]
fn telemetry_source_names_the_plugin_for_registry_tools() {
    let mut world = with_mcp(build(), stub_mcp(&[PROBE_QUALIFIED, OTHER_QUALIFIED]));
    world.registry = registry_with(&[PROBE_WIRE], 1);
    assert_eq!(source(&world, &resolve(&world, PROBE_WIRE)), TEST_PLUGIN_SOURCE);
    assert_eq!(source(&world, &resolve(&world, OTHER_WIRE)), "mcp");
    assert_eq!(source(&world, &resolve(&world, TOOL_SEARCH_TOOL_NAME)), TOOL_SEARCH_TOOL_NAME);
    assert_eq!(source(&world, &resolve(&world, "nope")), "unknown");
    world.local = local(PROBE_WIRE, ToolAudience::all());
    assert_eq!(source(&world, &resolve(&world, PROBE_WIRE)), "local");
}

#[test]
fn resolve_prefers_local_over_registry_and_registry_over_mcp() {
    let mut world = with_mcp(local_ctx(PROBE_WIRE), stub_mcp(&[PROBE_QUALIFIED]));
    world.registry = registry_with(&[PROBE_WIRE], 1);
    assert!(matches!(resolve(&world, PROBE_WIRE).route, Route::Local(_)));
    world.local = vec![];
    assert!(matches!(resolve(&world, PROBE_WIRE).route, Route::Native(_)));
    world.registry = vec![];
    assert!(matches!(resolve(&world, PROBE_WIRE).route, Route::Mcp(_)));
    world.mcp = None;
    assert!(matches!(resolve(&world, PROBE_WIRE).route, Route::Unknown));
}

#[test]
fn callable_lists_host_and_deferred_mcp_names() {
    let world = with_mcp(local_ctx(CLIENT_NAME), stub_mcp(&[PROBE_QUALIFIED, OTHER_QUALIFIED]));
    assert_eq!(
        callable_names(&world),
        [CLIENT_NAME, OTHER_WIRE, PROBE_WIRE, TOOL_SEARCH_TOOL_NAME]
    );
}

#[test]
fn pinned_native_replacement_is_not_dispatchable() {
    let mut world = build();
    world.registry = registry_with(&[PROBE_WIRE], 1);
    pin(&mut world);
    world.registry = registry_with(&[PROBE_WIRE], 2);
    assert!(!authorize_advertised(&world, PROBE_WIRE));
    let done = dispatch_pinned(world, PROBE_WIRE, "{}", &host()).done;
    assert!(done.is_error);
    assert_eq!(done.output.text, format!("{UNAVAILABLE_TOOL_PREFIX}: {PROBE_WIRE}"));
}

#[test]
fn stale_binding_denied_before_hooks_and_permission_prompt() {
    let mut world = hooked(build(), Some(HOOK_PERMISSION));
    world.registry = registry_with(&[HOOK_TOOL_NAME], 2);
    let ran = dispatch_pinned(world, HOOK_TOOL_NAME, &call_input(HOOK_PLAIN), &host());
    assert!(ran.done.is_error);
    assert_eq!(ran.done.output.text, format!("{UNAVAILABLE_TOOL_PREFIX}: {HOOK_TOOL_NAME}"));
    assert!(ran.fired.is_empty());
}

#[test]
fn pinned_route_rejects_local_shadowing() {
    let mut world = build();
    world.registry = registry_with(&[PROBE_WIRE], 1);
    pin(&mut world);
    world.local = local(PROBE_WIRE, ToolAudience::all());
    assert!(!authorize_advertised(&world, PROBE_WIRE));
    assert!(dispatch_pinned(world, PROBE_WIRE, "{}", &host()).done.is_error);
}

#[test]
fn unpinned_native_name_is_not_dispatchable() {
    let mut world = build();
    world.registry = registry_with(&[PROBE_WIRE], 1);
    assert!(dispatch_pinned(world, PROBE_WIRE, "{}", &host()).done.is_error);
}

#[test]
fn plan_callable_excludes_unknown_effect_and_shell() {
    let mut world = with_mcp(plan(), stub_mcp(&[PROBE_QUALIFIED]));
    world.registry = hook_mock(Some(HOOK_PERMISSION));
    assert!(callable_names(&world).is_empty());
    assert!(!authorize_advertised(&world, TOOL_SEARCH_TOOL_NAME));
}

#[test]
fn restricted_mode_denies_spoofed_lua_read_or_search() {
    for name in ["read", "glob", "grep"] {
        let mut world = plan();
        world.registry = registry_with(&[name], 1);
        pin(&mut world);
        assert!(callable_names(&world).is_empty());
        let ran = dispatch_pinned(world, name, "{}", &host());
        assert!(ran.done.is_error);
        assert_eq!(ran.done.output.text, format!("{MODE_DENIED}: {name}"));
        assert!(!ran.executed);
    }
}

#[test]
fn plan_denies_unknown_effect_even_if_pinned_in_mode_toolset() {
    let mut world = plan();
    world.registry = registry_with(&[PROBE_WIRE, OTHER_WIRE], 1);
    world.mode_def = Some(ModeTools { tools: Some(vec![OTHER_WIRE.to_owned()]) });
    pin(&mut world);
    assert!(callable_names(&world).is_empty());
    let done = dispatch_pinned(world, OTHER_WIRE, "{}", &host()).done;
    assert!(done.is_error);
    assert_eq!(done.output.text, format!("{MODE_DENIED}: {OTHER_WIRE}"));
}

#[test]
fn mode_toolset_blocks_dispatch_and_catalog() {
    let mut world = build();
    world.registry = registry_with(&[PROBE_WIRE, OTHER_WIRE], 1);
    world.mode_def = Some(ModeTools { tools: Some(vec![OTHER_WIRE.to_owned()]) });
    pin(&mut world);
    assert!(!authorize_advertised(&world, PROBE_WIRE));
    assert!(authorize_advertised(&world, OTHER_WIRE));
    assert_eq!(callable_names(&world), [OTHER_WIRE]);
    let done = dispatch(world, PROBE_WIRE, "{}", &host()).done;
    assert_eq!(done.output.text, format!("{UNAVAILABLE_TOOL_PREFIX}: {PROBE_WIRE}"));
}

#[test]
fn dispatch_uses_pinned_mode_toolset_after_registry_changes() {
    let world = || {
        let mut world = build();
        world.registry = registry_with(&[PROBE_WIRE, OTHER_WIRE], 1);
        world.mode_def = Some(ModeTools { tools: Some(vec![OTHER_WIRE.to_owned()]) });
        pinned(world)
    };
    assert_eq!(callable_names(&world()), [OTHER_WIRE]);
    assert!(dispatch(world(), PROBE_WIRE, &call_input("x"), &host()).done.is_error);
    assert!(!dispatch(world(), OTHER_WIRE, &call_input("x"), &host()).done.is_error);
}

#[test]
fn missing_pinned_mode_def_denies_dispatch() {
    let mut world = build();
    world.registry = registry_with(&[PROBE_WIRE], 1);
    world.mode_def = None;
    assert!(callable_names(&world).is_empty());
    let done = dispatch(world, PROBE_WIRE, "{}", &host()).done;
    assert!(done.is_error);
    assert_eq!(done.output.text, format!("{UNAVAILABLE_TOOL_PREFIX}: {PROBE_WIRE}"));
}

#[test]
fn callable_describes_a_shadowed_name_by_what_dispatch_runs() {
    let mut world = with_mcp(local_ctx(PROBE_WIRE), stub_mcp(&[PROBE_QUALIFIED]));
    world.registry = registry_with(&[PROBE_WIRE], 1);
    pin(&mut world);
    let probe = |world: &ToolWorld| {
        let all = callable(world);
        assert_eq!(all.iter().filter(|c| c.name == PROBE_WIRE).count(), 1);
        all.into_iter().find(|c| c.name == PROBE_WIRE).expect("the name is dispatchable")
    };
    assert_eq!(probe(&world).source.word(), "local");

    world.local = vec![];
    pin(&mut world);
    let native = probe(&world);
    assert_eq!(native.source.word(), "native");
    assert!(native.schema.is_some());
}

#[test]
fn callable_drops_what_the_requests_filter_dropped() {
    let mut world = build();
    world.registry = registry_with(&[PROBE_WIRE, OTHER_WIRE], 1);
    world.excluded = vec![PROBE_WIRE.to_owned()];
    pin(&mut world);
    assert_eq!(callable_names(&world), [OTHER_WIRE]);
}

#[test]
fn disabled_native_call_is_blocked_before_hooks() {
    let mut world = hooked(build(), None);
    world.excluded = vec![HOOK_TOOL_NAME.to_owned()];
    let ran = dispatch(world, HOOK_TOOL_NAME, &call_input(HOOK_PLAIN), &host());
    assert_eq!(ran.done.output.text, format!("{UNAVAILABLE_TOOL_PREFIX}: {HOOK_TOOL_NAME}"));
    assert!(ran.fired.is_empty());
}

#[test]
fn callable_drops_a_name_the_published_array_left_out() {
    let mut world = build();
    world.registry = registry_with(&[PROBE_WIRE, OTHER_WIRE], 1);
    let published = [OTHER_WIRE];
    world.excluded = world
        .registry
        .iter()
        .map(|entry| entry.name.clone())
        .filter(|name| !published.contains(&name.as_str()))
        .collect();
    pin(&mut world);
    assert_eq!(callable_names(&world), [OTHER_WIRE]);
}

#[test]
fn mcp_cannot_republish_a_name_the_registry_gated() {
    let mut world = with_mcp(build(), stub_mcp(&[PROBE_QUALIFIED]));
    world.registry = registry_with(&[PROBE_WIRE], 1);
    world.registry[0].tool.audience = MAIN;
    world.audience = GENERAL_SUB;
    assert!(!callable_names(&world).contains(&PROBE_WIRE.to_owned()));
    pin(&mut world);
    assert!(!callable_names(&world).contains(&PROBE_WIRE.to_owned()));
}

#[test]
fn callable_drops_names_this_audience_cannot_reach() {
    let mut world = build();
    world.local = local(CLIENT_NAME, MAIN);
    pin(&mut world);
    assert_eq!(callable_names(&world), [CLIENT_NAME]);
    world.audience = GENERAL_SUB;
    assert!(callable_names(&world).is_empty());
}

#[test]
fn alias_is_set_only_when_the_name_is_not_an_identifier() {
    let cases = [
        ("srv.get_docs", "srv__get_docs", None),
        ("srv.get-docs", "srv__get-docs", Some("srv__get_docs")),
    ];
    for (qualified, wire, expected) in cases {
        let world = with_mcp(build(), stub_mcp(&[qualified]));
        let entry = callable(&world)
            .into_iter()
            .find(|c| c.name == wire)
            .expect("the published tool is callable");
        assert_eq!(entry.alias.as_deref(), expected);
    }
}

#[test]
fn aliases_replace_what_no_identifier_holds() {
    assert_eq!(identifier_alias("get-docs.v2"), Some("get_docs_v2".to_owned()));
    assert_eq!(identifier_alias("größe"), Some("gr__e".to_owned()));
    assert_eq!(identifier_alias("plain_1"), None);
    assert_eq!(identifier_alias("1-x"), None);
    assert_eq!(identifier_alias(""), None);
}

#[test]
fn colliding_aliases_are_dropped() {
    let world = with_mcp(build(), stub_mcp(&["srv.get-docs", "srv.get_docs"]));
    assert!(callable(&world).iter().all(|c| c.alias.is_none()));
}

#[test]
fn an_alias_that_two_names_give_belongs_to_neither() {
    let tool = |name: &str| Callable {
        name: name.to_owned(),
        alias: None,
        source: ToolSource::Mcp,
        audience: ToolAudience::all(),
        schema: None,
    };
    let named = assign_aliases(&vec![tool("a-b"), tool("a.b"), tool("c-d")]);
    let aliases: Vec<Option<String>> = named.into_iter().map(|c| c.alias).collect();
    assert_eq!(aliases, vec![None, None, Some("c_d".to_owned())]);
}

#[test]
fn unknown_tool_errors_and_echoes_the_name_verbatim() {
    let cases = [
        (build(), "nonexistent.tool"),
        (with_mcp(build(), stub_mcp(&[PROBE_QUALIFIED])), OTHER_WIRE),
    ];
    for (world, name) in cases {
        let done = dispatch(world, name, "{}", &host()).done;
        assert!(done.is_error);
        assert_eq!(done.tool, ToolLabel::Unknown);
        assert!(done.output.text.starts_with(UNKNOWN_TOOL_PREFIX));
        assert!(done.output.text.contains(name));
        assert_eq!(done.output.text, format!("unknown tool: {name}"));
    }
}

#[test]
fn restricted_mode_blocks_unknown_effect_before_hooks() {
    let ran = dispatch(hooked(plan(), None), HOOK_TOOL_NAME, &call_input(HOOK_PLAIN), &host());
    assert_eq!(ran.done.output.text, format!("{MODE_DENIED}: {HOOK_TOOL_NAME}"));
    assert!(ran.fired.is_empty());
}

#[test]
fn plan_mode_blocks_write_even_with_yolo() {
    let ran = dispatch(hooked(plan(), None), HOOK_TOOL_NAME, &call_input(PLAN_PATH), &host());
    assert!(ran.done.is_error);
    assert_eq!(ran.done.output.text, format!("{MODE_DENIED}: {HOOK_TOOL_NAME}"));
    assert!(ran.fired.is_empty());
}

#[test]
fn plan_mode_blocks_shell_before_hooks_even_with_allow_rule() {
    let world = hooked(plan(), Some(HOOK_PERMISSION));
    let ran = dispatch(world, HOOK_TOOL_NAME, &call_input(PLAN_PATH), &host());
    assert!(ran.done.is_error);
    assert_eq!(ran.done.output.text, format!("{MODE_DENIED}: {HOOK_TOOL_NAME}"));
    assert!(ran.fired.is_empty());
}

#[test]
fn mcp_tool_denied_even_with_allow_rule_in_plan_mode() {
    let world = with_mcp(plan(), stub_mcp(&[PROBE_QUALIFIED]));
    let ran = dispatch(world, PROBE_WIRE, "{}", &host());
    assert!(ran.done.is_error);
    assert_eq!(ran.done.output.text, format!("{MODE_DENIED}: {PROBE_WIRE}"));
    assert!(ran.loaded.is_empty());
}

#[test]
fn mcp_tool_in_plan_mode_is_never_auto_approved() {
    let world = with_mcp(plan(), stub_mcp(&[PROBE_QUALIFIED]));
    let ran = dispatch(world, PROBE_WIRE, "{}", &host());
    assert!(ran.done.is_error);
    assert_eq!(ran.done.output.text, format!("{MODE_DENIED}: {PROBE_WIRE}"));
    assert!(ran.loaded.is_empty());
}

#[test]
fn mcp_tool_denied_by_rule_in_plan_mode() {
    let world = with_mcp(plan(), stub_mcp(&[PROBE_QUALIFIED]));
    let ran = dispatch(world, PROBE_WIRE, "{}", &denying());
    assert!(ran.done.is_error);
    assert_eq!(ran.done.output.text, format!("{MODE_DENIED}: {PROBE_WIRE}"));
}

#[test]
fn permission_denial_short_circuits_execute() {
    let mut world = build();
    world.registry = registry_with(&[GUARDED_TOOL_NAME], 1);
    let ran = dispatch(world, GUARDED_TOOL_NAME, &call_input("x"), &denying());
    assert!(ran.done.is_error);
    assert!(ran.done.output.text.starts_with(PERMISSION_DENIED_PREFIX));
    assert!(!ran.executed);
}

#[test]
fn start_runs_before_permission_denial_blocks_execute() {
    let mut world = build();
    world.registry = registry_with(&[START_PROBE_NAME], 1);
    let ran = dispatch(world, START_PROBE_NAME, &call_input("x"), &denying());
    assert!(ran.done.is_error);
    assert!(ran.started);
    assert!(!ran.executed);
    assert_eq!(ran.events.len(), 1);
}

#[test]
fn a_tool_that_changes_while_its_call_starts_does_not_run() {
    let host = Host { swapped: true, ..host() };
    let ran = dispatch(hooked(build(), None), HOOK_TOOL_NAME, &call_input(HOOK_PLAIN), &host);
    assert!(ran.started);
    assert!(!ran.executed);
    assert_eq!(ran.done.output.text, format!("{UNAVAILABLE_TOOL_PREFIX}: {HOOK_TOOL_NAME}"));
}

#[test]
fn a_call_that_writes_runs_under_its_lock() {
    let input = call_input("/tmp/a.txt");
    let call = |host: Host| dispatch(hooked(build(), None), HOOK_TOOL_NAME, &input, &host);
    let ran_call = call(host());
    assert!(ran_call.executed && ran_call.locked);
    assert_eq!(ran_call.done.output.text, "ran /tmp/a.txt");

    let busy = call(Host { acquired: Err("busy".to_owned()), ..host() });
    assert!(!busy.executed);
    assert_eq!(busy.done.output.text, "busy");

    let stale = call(Host { stale: Some("read it again".to_owned()), ..host() });
    assert!(!stale.executed);
    assert_eq!(stale.done.output.text, "read it again");

    let outside = call(Host { boundary: Some("outside the project".to_owned()), ..host() });
    assert!(!outside.started);
    assert_eq!(outside.done.output.text, "outside the project");

    let unlocked = dispatch(hooked(build(), None), HOOK_TOOL_NAME, &call_input("ls"), &host());
    assert!(unlocked.executed && !unlocked.locked);
}

#[test]
fn a_registered_tool_is_not_run_for_other_callers() {
    let mut world = hooked(build(), None);
    world.audience = GENERAL_SUB;
    let call = NativeCall {
        id: TEST_ID.to_owned(),
        name: HOOK_TOOL_NAME.to_owned(),
        tool: HOOK_TOOL_NAME.to_owned(),
        origin: CallOrigin::Model,
        raw_input: "{}".to_owned(),
    };
    let tool = NativeTool { tool: 100, audience: MAIN, permission: None };
    let Progress::Done(done) = begin_native(&world, tool, call) else {
        panic!("the tool is not for this caller");
    };
    assert_eq!(done.output.text, format!("{UNAVAILABLE_TOOL_PREFIX}: {HOOK_TOOL_NAME}"));
}

fn parsed_call(writes: bool) -> ParsedCall {
    ParsedCall {
        summary: "s".to_owned(),
        render_header: Some("rendered".to_owned()),
        annotation: Some("120s".to_owned()),
        output: Some(ToolOutput { kind: OutputKind::Rendered, text: "+1".to_owned() }),
        writes,
        boundary: None,
    }
}

fn native_call(origin: CallOrigin) -> NativeCall {
    NativeCall {
        id: TEST_ID.to_owned(),
        name: HOOK_TOOL_NAME.to_owned(),
        tool: HOOK_TOOL_NAME.to_owned(),
        origin,
        raw_input: "{}".to_owned(),
    }
}

#[test]
fn the_start_of_a_registered_tool_is_shown_with_all_that_is_known() {
    let world = hooked(build(), None);
    let start = |origin| {
        start_native(&world, native_call(origin), Ok(parsed_call(true)), PLAN_WRITE_RESTRICTED)
    };
    let (events, progress) = start(CallOrigin::Model);
    assert!(matches!(progress, Progress::Next(_)));
    assert_eq!(
        events,
        vec![RunEvent::ToolStart(ToolStart {
            id: TEST_ID.to_owned(),
            tool: HOOK_TOOL_NAME.to_owned(),
            summary: "s".to_owned(),
            render_header: Some("rendered".to_owned()),
            annotation: Some("120s".to_owned()),
            input: None,
            raw_input: Some("{}".to_owned()),
            output: Some(ToolOutput { kind: OutputKind::Rendered, text: "+1".to_owned() }),
        })]
    );
    assert!(start(CallOrigin::Nested).0.is_empty());
}

#[test]
fn a_restricted_mode_writes_nothing() {
    let mut world = hooked(build(), None);
    world.restricted = true;
    let call = native_call(CallOrigin::Model);
    let parsed = parsed_call(true);
    let (events, progress) = start_native(&world, call, Ok(parsed), PLAN_WRITE_RESTRICTED);
    assert!(events.is_empty());
    let Progress::Done(done) = progress else { panic!("the write is refused") };
    assert_eq!(done.output.text, PLAN_WRITE_RESTRICTED);
}

#[test]
fn scopes_of_file_writers_are_resolved() {
    let scopes = || Some(vec!["a.txt".to_owned(), "b.txt".to_owned()]);
    let resolved = vec![Some("/w/a.txt".to_owned()), None];
    assert_eq!(
        enforce_permission("write", scopes(), &resolved, true),
        Ok(Some(vec!["/w/a.txt".to_owned(), "b.txt".to_owned()]))
    );
    assert_eq!(enforce_permission("bash", scopes(), &vec![], false), Ok(scopes()));
    assert_eq!(enforce_permission("read", None, &vec![], true), Ok(None));
    assert_eq!(
        enforce_permission("srv.probe", None, &vec![], false),
        Err("enforce_permission called with dotted name: srv.probe".to_owned())
    );
}
