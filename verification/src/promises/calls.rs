//! A tool call from its name to its end: who stops it, what is reported, and what it runs with.
use vstd::prelude::*;

use crate::agent::dispatch::{
    admit_input, begin_call, emit_raw_start, failed, finish_local_tool, finish_mcp_tool,
    finish_tool_search, mcp_key, permit_mcp_tool, search_query, start_local_tool, start_mcp_tool,
    start_tool_search, unknown_tool, BoundCall, CallOrigin, Progress,
};
use crate::agent::events::{OutputKind, RunEvent, ToolDone, ToolLabel};
use crate::agent::hooks::{
    apply_input_verdict, filter_input, filter_output, output_fires, read_replacement, window, Hook,
    HookCall, HookStage, OutputVerdict, Verdict,
};
use crate::agent::native::{
    ask_permission, begin_native, enforce_permission, is_still_bound, lock_native, permit_native,
    start_native, AfterPermission, AskingCall, ExecutingCall, LockingCall, NativeCall, ParsedCall,
    StartedCall,
};
use crate::agent::routes;
use crate::agent::routes::{
    authorize_mode, Authority, NativeTool, Resolved, Route, ToolWorld, TurnToolRoute,
};
use crate::json;
use crate::promises::replies;
use crate::promises::routing;
use crate::promises::texts;
use crate::text;

verus! {

/// A call ended in prose under a name, and nothing else is shown of it.
pub open spec fn ended_in(
    done: ToolDone,
    id: Seq<char>,
    name: Seq<char>,
    kind: OutputKind,
    said: Seq<char>,
    is_error: bool,
) -> bool {
    &&& done.id@ == id
    &&& done.tool matches ToolLabel::Named(own) && own@ == name
    &&& done.output.kind == kind
    &&& done.output.text@ == said
    &&& done.is_error == is_error
    &&& done.annotation is None
    &&& done.written_path is None
}

/// A call ended with an error under a name.
pub open spec fn failed_with(done: ToolDone, id: Seq<char>, name: Seq<char>, why: Seq<char>)
    -> bool {
    ended_in(done, id, name, OutputKind::Plain, why, true)
}

/// Calls that fail say so under their names; a name that leads nowhere is said to be unknown.
pub proof fn law_failed_calls_say_why(
    id: &str,
    name: &str,
    message: String,
    done: ToolDone,
    lost: ToolDone,
)
    requires
        call_ensures(failed, (id, name, message), done),
        call_ensures(unknown_tool, (id, name), lost),
    ensures
        failed_with(done, id@, name@, message@),
        lost.id@ == id@,
        lost.tool is Unknown,
        lost.is_error,
        lost.output.kind == OutputKind::Plain,
        lost.output.text@ == "unknown tool: "@ + name@,
{
}

/// A call goes on with the tool that its name leads to exactly where it leads somewhere and the
/// agent may call it; otherwise it ends with an error that says which of these fails.
pub proof fn law_calls_begin_where_they_may(
    world: ToolWorld,
    id: &str,
    name: &str,
    progress: Progress<Resolved>,
    plain: Seq<char>,
    route: Route,
)
    requires
        call_ensures(begin_call, (&world, id, name), progress),
        replies::is_plain_name(name@, plain),
        replies::is_plain_name(plain, plain),
        routing::leads_to(world, plain, route),
    ensures
        route is Unknown ==> (progress matches Progress::Done(done) && done.id@ == id@ && done.tool
            is Unknown && done.is_error && done.output.text@ == "unknown tool: "@ + plain),
        !(route is Unknown) && routing::may_call(world, plain, route) ==> (
        progress matches Progress::Next(resolved) && resolved.name@ == plain && resolved.route
            == route),
        !(route is Unknown) && !routing::may_call(world, plain, route) ==> (
        progress matches Progress::Done(done) && failed_with(
            done,
            id@,
            plain,
            if world.restricted {
                "tool not allowed in restricted mode: "@ + plain
            } else {
                "tool not available for this agent: "@ + plain
            },
        )),
{
    replies::lemma_one_plain_name(name@, plain);
    replies::lemma_one_plain_name(plain, plain);
    routing::lemma_leads(world, plain);
    lemma_one_route(world, plain, route, routes::route_of(world, plain));
    routing::lemma_may_call(world, plain);
}

/// A name leads to one place.
proof fn lemma_one_route(world: ToolWorld, name: Seq<char>, a: Route, b: Route)
    requires
        routing::leads_to(world, name, a),
        routing::leads_to(world, name, b),
    ensures
        a == b,
{
    match a {
        Route::Local(tool) => {
            let i = choose|i: int| #[trigger]
                routing::is_local(world, name, i) && world.local@[i].tool == tool;
            assert(world.local@[i].name@ == name);
            match b {
                Route::Local(other) => {
                    let j = choose|j: int| #[trigger]
                        routing::is_local(world, name, j) && world.local@[j].tool == other;
                    if i < j {
                        assert(world.local@[i].name@ != name);
                    }
                    if j < i {
                        assert(world.local@[j].name@ != name);
                    }
                },
                _ => {},
            }
        },
        Route::Native(tool) => {
            let i = choose|i: int| #[trigger]
                routing::is_native(world, name, i) && world.registry@[i].tool == tool;
            assert(world.registry@[i].name@ == name);
            match b {
                Route::Native(other) => {
                    let j = choose|j: int| #[trigger]
                        routing::is_native(world, name, j) && world.registry@[j].tool == other;
                    if i < j {
                        assert(world.registry@[i].name@ != name);
                    }
                    if j < i {
                        assert(world.registry@[j].name@ != name);
                    }
                },
                Route::Local(other) => {
                    let j = choose|j: int| #[trigger]
                        routing::is_local(world, name, j) && world.local@[j].tool == other;
                    assert(world.local@[j].name@ == name);
                },
                _ => {},
            }
        },
        Route::Mcp(qualified) => {
            let i = choose|i: int| #[trigger]
                routing::is_outside(world, name, i) && world.mcp->0.names@[i].qualified
                    == qualified;
            assert(world.mcp->0.names@[i].name@ == name);
            match b {
                Route::Mcp(other) => {
                    let j = choose|j: int| #[trigger]
                        routing::is_outside(world, name, j) && world.mcp->0.names@[j].qualified
                            == other;
                    if i < j {
                        assert(world.mcp->0.names@[i].name@ != name);
                    }
                    if j < i {
                        assert(world.mcp->0.names@[j].name@ != name);
                    }
                },
                Route::Local(other) => {
                    let j = choose|j: int| #[trigger]
                        routing::is_local(world, name, j) && world.local@[j].tool == other;
                    assert(world.local@[j].name@ == name);
                },
                Route::Native(other) => {
                    let j = choose|j: int| #[trigger]
                        routing::is_native(world, name, j) && world.registry@[j].tool == other;
                    assert(world.registry@[j].name@ == name);
                },
                _ => {},
            }
        },
        _ => match b {
            Route::Local(other) => {
                let j = choose|j: int| #[trigger]
                    routing::is_local(world, name, j) && world.local@[j].tool == other;
                assert(world.local@[j].name@ == name);
            },
            Route::Native(other) => {
                let j = choose|j: int| #[trigger]
                    routing::is_native(world, name, j) && world.registry@[j].tool == other;
                assert(world.registry@[j].name@ == name);
            },
            Route::Mcp(other) => {
                let j = choose|j: int| #[trigger]
                    routing::is_outside(world, name, j) && world.mcp->0.names@[j].qualified
                        == other;
                assert(world.mcp->0.names@[j].name@ == name);
            },
            _ => {},
        },
    }
}

/// After the hook before it a call runs with the input that the hook leaves, if the agent may still
/// make it; a call that the hook denies ends with the hook's reason.
pub proof fn law_hooks_decide_on_inputs(
    world: ToolWorld,
    id: &str,
    resolved: Resolved,
    input: String,
    verdict: Verdict,
    progress: Progress<String>,
    authorized: Result<(), String>,
)
    requires
        call_ensures(admit_input, (&world, id, &resolved, input, verdict), progress),
        call_ensures(authorize_mode, (&world, &resolved), authorized),
    ensures
        verdict matches Verdict::Denied(reason) ==> (progress matches Progress::Done(done)
            && failed_with(done, id@, resolved.name@, reason@)),
        !(verdict is Denied) && authorized is Err ==> (progress matches Progress::Done(done)
            && failed_with(done, id@, resolved.name@, authorized->Err_0@)),
        !(verdict is Denied) && authorized is Ok ==> (progress matches Progress::Next(left) && {
            &&& verdict is Unchanged ==> left@ == input@
            &&& verdict matches Verdict::Replaced(value) ==> left@ == value@
        }),
{
}

/// What a hook says of an input is done: unchanged it stays, replaced it is the hook's, and denied
/// the call ends with the reason. Where the hook takes no part nothing changes, and where the call
/// was cancelled before the hook answered it is denied.
pub proof fn law_verdicts_on_inputs_are_carried_out(
    id: &str,
    name: &str,
    input: String,
    verdict: Verdict,
    applied: Result<String, ToolDone>,
    wraps: bool,
    answer: Option<Verdict>,
    filtered: Verdict,
)
    requires
        call_ensures(apply_input_verdict, (id, name, input, verdict), applied),
        call_ensures(filter_input, (wraps, answer), filtered),
    ensures
        applied is Ok <==> !(verdict is Denied),
        verdict is Unchanged ==> applied->Ok_0@ == input@,
        verdict matches Verdict::Replaced(value) ==> applied->Ok_0@ == value@,
        verdict matches Verdict::Denied(reason) ==> failed_with(
            applied->Err_0,
            id@,
            name@,
            reason@,
        ),
        !wraps ==> filtered is Unchanged,
        wraps && answer is Some ==> filtered == answer->0,
        wraps && answer is None ==> (filtered matches Verdict::Denied(reason) && reason@
            == "cancelled"@),
{
}

/// A hook is asked about an output exactly where it takes part and there is prose; what it then
/// says replaces the text and the flag together, a denial is an error, and nothing else changes.
pub proof fn law_verdicts_on_outputs_are_carried_out(
    done: &mut ToolDone,
    wraps: bool,
    answer: Option<OutputVerdict>,
    fires: bool,
)
    requires
        call_ensures(filter_output, (done, wraps, answer), ()),
        call_ensures(output_fires, (&*old(done), wraps), fires),
    ensures
        fires <==> wraps && old(done).output.kind != OutputKind::Rendered,
        final(done).id == old(done).id,
        final(done).tool == old(done).tool,
        final(done).annotation == old(done).annotation,
        final(done).written_path == old(done).written_path,
        final(done).output.kind == old(done).output.kind,
        fires && answer is Some && answer->0 is Denied ==> final(done).output.text@
            == answer->0->Denied_0@ && final(done).is_error,
        fires && answer is Some && answer->0 is Replaced && answer->0->Replaced_text is Some ==> {
            &&& final(done).output.text@ == answer->0->Replaced_text->0@
            &&& answer->0->Replaced_is_error matches Some(flag) ==> final(done).is_error == flag
            &&& answer->0->Replaced_is_error is None ==> final(done).is_error == old(
                done).is_error
        },
        !fires || answer is None || answer->0 is Unchanged || (answer->0 is Replaced
            && answer->0->Replaced_text is None) ==> *final(done) == *old(done),
{
}

/// A replacement is read from the members of the given names; one of another kind is absent.
pub proof fn law_replacements_are_read_by_name(
    value: serde_json::Value,
    text_field: &str,
    error_field: &str,
    verdict: OutputVerdict,
)
    requires
        call_ensures(read_replacement, (&value, text_field, error_field), verdict),
    ensures
        ({
            let given = json::json_member(json::json_text(value), text_field@);
            let flag = json::json_member(json::json_text(value), error_field@);
            verdict matches OutputVerdict::Replaced { text, is_error } && {
                &&& text is Some <==> given is Some && json::json_string(given->0) is Some
                &&& text is Some ==> text->0@ == json::json_string(given->0)->0
                &&& is_error == Some(true) <==> flag is Some && flag->0 == "true"@
                &&& is_error == Some(false) <==> flag is Some && flag->0 == "false"@
            }
        }),
{
    reveal_strlit("true");
    reveal_strlit("false");
    assert("true"@.len() != "false"@.len());
}

/// A hook has answered before the call's own deadline and within a minute, whichever comes first.
pub proof fn law_hooks_answer_in_time(now: u64, deadline: Option<u64>, at: u64)
    requires
        now + 60_000 <= u64::MAX,
        call_ensures(window, (now, deadline), at),
    ensures
        at <= now + 60_000,
        deadline is Some ==> at <= deadline->0,
        at == now + 60_000 || deadline == Some(at),
{
}

/// There is a hook on a call exactly where one is installed and the name leads somewhere; it is
/// bound to the tool, to who calls and to what the tool lends.
pub proof fn law_hooks_are_bound_to_their_call(
    installed: bool,
    resolved: Resolved,
    origin: CallOrigin,
    hook: Option<Hook>,
    lent: Option<Authority>,
)
    requires
        call_ensures(Hook::of, (installed, &resolved, origin), hook),
        call_ensures(Route::authority, (&resolved.route,), lent),
    ensures
        hook is Some <==> installed && !(resolved.route is Unknown),
        hook matches Some(own) ==> own.tool@ == resolved.name@ && own.origin == origin && Some(
            own.authority,
        ) == lent,
{
}

/// A hook is told of the call that it is bound to.
pub proof fn law_hooks_are_told_of_their_call(
    hook: Hook,
    stage: HookStage,
    tool_id: &str,
    session_id: Option<String>,
    now: u64,
    deadline: Option<u64>,
    told: HookCall,
    at: u64,
)
    requires
        now + 60_000 <= u64::MAX,
        call_ensures(Hook::call, (&hook, stage, tool_id, session_id, now, deadline), told),
        call_ensures(window, (now, deadline), at),
    ensures
        told.stage == stage,
        told.tool@ == hook.tool@,
        told.tool_id@ == tool_id@,
        told.session_id == session_id,
        told.origin == hook.origin,
        told.authority == hook.authority,
        told.deadline == at,
{
}

/// The start of a call is reported: under its identity and tool, with a summary and its raw input,
/// and nothing else.
pub open spec fn tells_start(
    event: RunEvent,
    id: Seq<char>,
    tool: Seq<char>,
    summary: Seq<char>,
    input: Seq<char>,
) -> bool {
    event matches RunEvent::ToolStart(start) && {
        &&& start.id@ == id
        &&& start.tool@ == tool
        &&& start.summary@ == summary
        &&& start.raw_input matches Some(raw) && raw@ == input
        &&& start.render_header is None
        &&& start.annotation is None
        &&& start.input is None
        &&& start.output is None
    }
}

/// It is reported that a call runs.
pub open spec fn tells_execution(event: RunEvent, id: Seq<char>) -> bool {
    event matches RunEvent::ToolExecutionStart { id: own } && own@ == id
}

/// Only what the model calls is reported: each kind of tool by its name and with its own summary.
pub proof fn law_the_models_calls_are_reported(
    origin: CallOrigin,
    id: &str,
    tool: &str,
    summary: String,
    input: &str,
    raw: Vec<RunEvent>,
    search: Vec<RunEvent>,
    local: Vec<RunEvent>,
    outside: Vec<RunEvent>,
)
    requires
        call_ensures(emit_raw_start, (origin, id, tool, summary, input), raw),
        call_ensures(start_tool_search, (origin, id, summary, input), search),
        call_ensures(start_local_tool, (origin, id, tool, input), local),
        call_ensures(start_mcp_tool, (origin, id, tool, input), outside),
    ensures
        origin == CallOrigin::Nested ==> raw@.len() == 0 && search@.len() == 0 && local@.len() == 0
            && outside@.len() == 0,
        origin == CallOrigin::Model ==> {
            &&& raw@.len() == 1
            &&& tells_start(raw@[0], id@, tool@, summary@, input@)
            &&& search@.len() == 1
            &&& tells_start(search@[0], id@, "tool_search"@, summary@, input@)
            &&& local@.len() == 2
            &&& tells_start(local@[0], id@, tool@, tool@, input@)
            &&& tells_execution(local@[1], id@)
            &&& outside@.len() == 1
            &&& tells_start(outside@[0], id@, tool@, "mcp: "@ + tool@, input@)
        },
{
}

/// A search looks for the text of its query, and for nothing where there is none.
pub proof fn law_searches_look_for_their_query(input: serde_json::Value, query: String)
    requires
        call_ensures(search_query, (&input,), query),
    ensures
        ({
            let given = json::json_member(json::json_text(input), "query"@);
            &&& given is Some && json::json_string(given->0) is Some ==> query@
                == json::json_string(given->0)->0
            &&& given is None || json::json_string(given->0) is None ==> query@.len() == 0
        }),
{
}

/// A call ends with what its tool gave: what it found is no error, and what went wrong is one.
pub proof fn law_calls_end_with_what_was_given(
    id: String,
    name: &str,
    given: Result<String, String>,
    search: ToolDone,
    local: ToolDone,
    call: BoundCall,
    outside: ToolDone,
)
    requires
        call_ensures(finish_tool_search, (id, given), search),
        call_ensures(finish_local_tool, (id, name, given), local),
        call_ensures(finish_mcp_tool, (call, given), outside),
    ensures
        ({
            let said = match given {
                Ok(text) => text@,
                Err(text) => text@,
            };
            &&& ended_in(search, id@, "tool_search"@, OutputKind::Markdown, said, given is Err)
            &&& ended_in(local, id@, name@, OutputKind::Plain, said, given is Err)
            &&& ended_in(outside, call.id@, call.tool@, OutputKind::Plain, said, given is Err)
        }),
{
}

/// An outside tool runs exactly where it is permitted and the turn has a binding for it, by that
/// binding; only the model's call loads it. It is reported that it runs only where it was permitted
/// and can be reached, and only of the model's call.
pub proof fn law_outside_tools_run_where_permitted(
    world: ToolWorld,
    origin: CallOrigin,
    id: &str,
    tool: &str,
    granted: Result<(), String>,
    result: (Vec<RunEvent>, Progress<BoundCall>),
)
    requires
        call_ensures(permit_mcp_tool, (&world, origin, id, tool, granted), result),
    ensures
        granted matches Err(reason) ==> result.0@.len() == 0 && (result.1 matches Progress::Done(
            done,
        ) && failed_with(done, id@, tool@, reason@)),
        granted is Ok && !world.routes@.contains_key(tool@) ==> result.0@.len() == 0 && (
        result.1 matches Progress::Done(done) && failed_with(
            done,
            id@,
            tool@,
            "tool not available for this agent: "@ + tool@,
        )),
        granted is Ok && world.routes@.contains_key(tool@) ==> {
            &&& origin == CallOrigin::Model ==> result.0@.len() == 1 && tells_execution(
                result.0@[0],
                id@,
            )
            &&& origin == CallOrigin::Nested ==> result.0@.len() == 0
            &&& world.routes@[tool@] matches TurnToolRoute::Mcp { qualified, binding } ==> (
            result.1 matches Progress::Next(call) && call.id@ == id@ && call.tool@ == tool@
                && call.binding == binding && call.loads == (origin == CallOrigin::Model))
            &&& !(world.routes@[tool@] is Mcp) ==> (result.1 matches Progress::Done(done)
                && failed_with(
                done,
                id@,
                tool@,
                "tool not available for this agent: "@ + tool@,
            ))
        },
{
}

/// An outside tool's name that cannot be permitted ends the call with the reason.
pub proof fn law_bad_keys_end_the_call(
    id: &str,
    tool: &str,
    key: Result<(), String>,
    progress: Progress<()>,
)
    requires
        call_ensures(mcp_key, (id, tool, key), progress),
    ensures
        progress is Next <==> key is Ok,
        key matches Err(error) ==> (progress matches Progress::Done(done) && failed_with(
            done,
            id@,
            tool@,
            "invalid MCP tool key '"@ + tool@ + "': "@ + error@,
        )),
{
}

/// A registered tool begins for those who are among its callers.
pub proof fn law_native_calls_begin_for_their_callers(
    world: ToolWorld,
    tool: NativeTool,
    call: NativeCall,
    progress: Progress<NativeCall>,
)
    requires
        call_ensures(begin_native, (&world, tool, call), progress),
    ensures
        tool.audience.bits & world.audience.bits == world.audience.bits ==> (
        progress matches Progress::Next(next) && next == call),
        tool.audience.bits & world.audience.bits != world.audience.bits ==> (
        progress matches Progress::Done(done) && failed_with(
            done,
            call.id@,
            call.tool@,
            "tool not available for this agent: "@ + call.name@,
        )),
{
}

/// A call starts where its input could be parsed and it writes nothing that it may not: nothing at
/// all in a mode that forbids it, and no file behind the boundary. What starts is reported with all
/// that is known of it, where the model calls.
pub proof fn law_native_calls_start(
    world: ToolWorld,
    call: NativeCall,
    parsed: Result<ParsedCall, String>,
    restricted_text: &str,
    result: (Vec<RunEvent>, Progress<StartedCall>),
)
    requires
        call_ensures(start_native, (&world, call, parsed, restricted_text), result),
    ensures
        ({
            let writes = parsed is Ok && parsed->Ok_0.writes;
            let bounded = writes && parsed->Ok_0.boundary is Some;
            let starts = parsed is Ok && !(writes && world.restricted) && !bounded;
            &&& result.1 is Next <==> starts
            &&& !starts ==> result.0@.len() == 0
            &&& parsed matches Err(reason) ==> (result.1 matches Progress::Done(done)
                && failed_with(done, call.id@, call.tool@, reason@))
            &&& writes && world.restricted ==> (result.1 matches Progress::Done(done)
                && failed_with(done, call.id@, call.tool@, restricted_text@))
            &&& bounded && !world.restricted ==> (result.1 matches Progress::Done(done)
                && failed_with(done, call.id@, call.tool@, parsed->Ok_0.boundary->0@))
            &&& starts ==> {
                &&& result.1->Next_0.call == call
                &&& call.origin == CallOrigin::Nested ==> result.0@.len() == 0
                &&& call.origin == CallOrigin::Model ==> result.0@.len() == 1 && (
                result.0@[0] matches RunEvent::ToolStart(start) && {
                    &&& start.id@ == call.id@
                    &&& start.tool@ == call.tool@
                    &&& start.summary@ == parsed->Ok_0.summary@
                    &&& start.render_header == parsed->Ok_0.render_header
                    &&& start.annotation == parsed->Ok_0.annotation
                    &&& start.output == parsed->Ok_0.output
                    &&& start.input is None
                    &&& start.raw_input matches Some(raw) && raw@ == call.raw_input@
                })
            }
        }),
{
}

/// Permission is asked for where the name still leads where it led.
pub proof fn law_permission_is_asked_while_bound(
    world: ToolWorld,
    started: StartedCall,
    progress: Progress<AskingCall>,
    name: &str,
    bound: bool,
)
    requires
        call_ensures(ask_permission, (&world, started), progress),
        call_ensures(is_still_bound, (&world, name), bound),
        name@ == started.call.name@,
    ensures
        bound ==> (progress matches Progress::Next(asking) && asking.call == started.call),
        !bound ==> (progress matches Progress::Done(done) && failed_with(
            done,
            started.call.id@,
            started.call.tool@,
            "tool not available for this agent: "@ + started.call.name@,
        )),
{
}

/// What is asked for is what the tool needs: its scopes in order, each as it was resolved where the
/// tool writes files and it could be. A name with a dot is refused.
pub proof fn law_scopes_are_asked_for(
    name: &str,
    scopes: Option<Vec<String>>,
    resolved: Vec<Option<String>>,
    writes_files: bool,
    asked: Result<Option<Vec<String>>, String>,
    i: int,
)
    requires
        scopes is Some && writes_files ==> resolved@.len() == scopes->0@.len(),
        call_ensures(enforce_permission, (name, scopes, &resolved, writes_files), asked),
    ensures
        ({
            let dotted = exists|k: int| 0 <= k < name@.len() && #[trigger] name@[k] == '.';
            &&& asked is Err <==> dotted
            &&& asked matches Err(reason) ==> reason@
                == "enforce_permission called with dotted name: "@ + name@
            &&& !dotted ==> (asked->Ok_0 is Some <==> scopes is Some)
            &&& !dotted && scopes is Some ==> {
                let all = asked->Ok_0->0@;
                &&& all.len() == scopes->0@.len()
                &&& 0 <= i < all.len() ==> {
                    &&& writes_files && resolved@[i] is Some ==> all[i]@ == resolved@[i]->0@
                    &&& !writes_files || resolved@[i] is None ==> all[i]@ == scopes->0@[i]@
                }
            }
        }),
{
    reveal_strlit(".");
    texts::lemma_first_from(name@, "."@, 0);
    let dotted = exists|k: int| 0 <= k < name@.len() && #[trigger] name@[k] == '.';
    if dotted {
        let k = choose|k: int| 0 <= k < name@.len() && #[trigger] name@[k] == '.';
        assert(texts::stands_at(name@, "."@, k)) by {
            assert(name@[k + 0] == "."@[0]);
        }
    }
    if text::first_occurrence(name@, "."@) is Some {
        let at = text::first_occurrence(name@, "."@)->0;
        assert(name@[at + 0] == "."@[0]);
        assert(name@[at] == '.');
    }
}

/// A call that is ready runs where its name still leads where it led, and it is reported that it
/// runs where the model calls.
pub open spec fn is_run(
    call: NativeCall,
    bound: bool,
    locked: bool,
    reported: Seq<RunEvent>,
    progress: Progress<ExecutingCall>,
) -> bool {
    &&& call.origin == CallOrigin::Model ==> reported.len() == 1 && tells_execution(
        reported[0],
        call.id@,
    )
    &&& call.origin == CallOrigin::Nested ==> reported.len() == 0
    &&& bound ==> (progress matches Progress::Next(executing) && executing.call == call
        && executing.locked == locked)
    &&& !bound ==> (progress matches Progress::Done(done) && failed_with(
        done,
        call.id@,
        call.tool@,
        "tool not available for this agent: "@ + call.name@,
    ))
}

/// A call that is not permitted does not run; one that is and writes takes the lock first; any
/// other runs at once.
pub proof fn law_permitted_calls_go_on(
    world: ToolWorld,
    asking: AskingCall,
    granted: Result<(), String>,
    writes: bool,
    result: (Vec<RunEvent>, AfterPermission),
    name: &str,
    bound: bool,
)
    requires
        call_ensures(permit_native, (&world, asking, granted, writes), result),
        call_ensures(is_still_bound, (&world, name), bound),
        name@ == asking.call.name@,
    ensures
        granted matches Err(reason) ==> result.0@.len() == 0 && (
        result.1 matches AfterPermission::Done(done) && failed_with(
            done,
            asking.call.id@,
            asking.call.tool@,
            reason@,
        )),
        granted is Ok && !bound ==> result.0@.len() == 0 && (
        result.1 matches AfterPermission::Done(done) && failed_with(
            done,
            asking.call.id@,
            asking.call.tool@,
            "tool not available for this agent: "@ + asking.call.name@,
        )),
        granted is Ok && bound && writes ==> result.0@.len() == 0 && (
        result.1 matches AfterPermission::Lock(locking) && locking.call == asking.call),
        granted is Ok && bound && !writes ==> (result.1 matches AfterPermission::Execute(executing)
            && is_run(asking.call, true, false, result.0@, Progress::Next(executing))),
{
}

/// A call that writes runs only with the lock, and only where the file has not changed since it was
/// read.
pub proof fn law_writing_calls_hold_the_lock(
    world: ToolWorld,
    locking: LockingCall,
    acquired: Result<(), String>,
    stale: Option<String>,
    result: (Vec<RunEvent>, Progress<ExecutingCall>),
    name: &str,
    bound: bool,
)
    requires
        call_ensures(lock_native, (&world, locking, acquired, stale), result),
        call_ensures(is_still_bound, (&world, name), bound),
        name@ == locking.call.name@,
    ensures
        acquired matches Err(reason) ==> result.0@.len() == 0 && (result.1 matches Progress::Done(
            done,
        ) && failed_with(done, locking.call.id@, locking.call.tool@, reason@)),
        acquired is Ok && stale is Some ==> result.0@.len() == 0 && (
        result.1 matches Progress::Done(done) && failed_with(
            done,
            locking.call.id@,
            locking.call.tool@,
            stale->0@,
        )),
        acquired is Ok && stale is None ==> is_run(
            locking.call,
            bound,
            true,
            result.0@,
            result.1,
        ),
{
}

} // verus!
