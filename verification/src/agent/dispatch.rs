//! A tool call from its name to its end, for every kind of tool.
use vstd::prelude::*;

use crate::agent::events;
use crate::agent::events::{OutputKind, RunEvent, ToolDone, ToolLabel, ToolStart};
use crate::agent::hooks::{apply_input_verdict, Verdict};
use crate::agent::routes;
use crate::agent::routes::{
    authorize_mode, resolve, Resolved, Route, ToolWorld, TurnToolRoute,
};
use crate::agent::streaming;
use crate::json;
use crate::json::{as_text, member};
use crate::text::joined;

verus! {

/// Who makes a call: the model, or a tool that the model has called.
#[derive(Debug, Clone, Copy, PartialEq, Eq, Structural)]
pub enum CallOrigin {
    Model,
    Nested,
}

/// How a call goes on, or how it ended.
#[derive(Debug, PartialEq, Eq)]
pub enum Progress<T> {
    Next(T),
    Done(ToolDone),
}

/// A call ended with an error under the name that it was made by.
pub open spec fn fails_as<T>(
    progress: Progress<T>,
    id: Seq<char>,
    name: Seq<char>,
    message: Seq<char>,
) -> bool {
    match progress {
        Progress::Done(done) => {
            &&& done.tool is Named
            &&& done.tool->Named_0@ == name
            &&& events::fails_with(done, id, done.tool, message)
        },
        Progress::Next(_) => false,
    }
}

/// A call that ends with an error under the name that it was made by.
pub fn failed(id: &str, name: &str, message: String) -> (result: ToolDone)
    ensures
        result.tool is Named,
        result.tool->Named_0@ == name@,
        events::fails_with(result, id@, result.tool, message@),
{
    ToolDone::prose(
        id.to_owned(),
        ToolLabel::Named(name.to_owned()),
        OutputKind::Plain,
        message,
        true,
    )
}

/// A call of a name that leads nowhere.
pub fn unknown_tool(id: &str, name: &str) -> (result: ToolDone)
    ensures
        events::fails_with(result, id@, ToolLabel::Unknown, "unknown tool: "@ + name@),
{
    ToolDone::prose(
        id.to_owned(),
        ToolLabel::Unknown,
        OutputKind::Plain,
        joined("unknown tool: ", name),
        true,
    )
}

/// How a call begins: one of a name that leads nowhere ends, and one that the agent may not make is
/// refused, both before a hook looks at it.
pub open spec fn call_begins(
    world: ToolWorld,
    id: Seq<char>,
    name: Seq<char>,
    progress: Progress<Resolved>,
) -> bool {
    let canonical = streaming::canonical_name(name);
    let route = routes::route_of(world, canonical);
    if route is Unknown {
        progress is Done && events::fails_with(
            progress->Done_0,
            id,
            ToolLabel::Unknown,
            "unknown tool: "@ + canonical,
        )
    } else {
        match routes::refusal(world, canonical) {
            Some(reason) => fails_as(progress, id, canonical, reason),
            None => progress is Next && routes::resolves(world, name, progress->Next_0),
        }
    }
}

/// Begins a call.
pub fn begin_call(world: &ToolWorld, id: &str, name: &str) -> (result: Progress<Resolved>)
    ensures
        call_begins(*world, id@, name@, result),
{
    let resolved = resolve(world, name);
    let unknown = match &resolved.route {
        Route::Unknown => true,
        _ => false,
    };
    if unknown {
        return Progress::Done(unknown_tool(id, resolved.name.as_str()));
    }
    match authorize_mode(world, &resolved) {
        Ok(()) => Progress::Next(resolved),
        Err(reason) => Progress::Done(failed(id, resolved.name.as_str(), reason)),
    }
}

/// How a call goes on after the hook before it: with the input that the hook leaves, if the agent
/// may still make it.
pub open spec fn input_admitted(
    world: ToolWorld,
    id: Seq<char>,
    resolved: Resolved,
    input: String,
    verdict: Verdict,
    progress: Progress<String>,
) -> bool {
    match verdict {
        Verdict::Denied(reason) => fails_as(progress, id, resolved.name@, reason@),
        _ => match routes::refusal(world, resolved.name@) {
            Some(reason) => fails_as(progress, id, resolved.name@, reason),
            None => progress == Progress::Next(
                match verdict {
                    Verdict::Replaced(value) => value,
                    _ => input,
                },
            ),
        },
    }
}

/// Goes on with a call after the hook before it.
pub fn admit_input(
    world: &ToolWorld,
    id: &str,
    resolved: &Resolved,
    input: String,
    verdict: Verdict,
) -> (result: Progress<String>)
    ensures
        input_admitted(*world, id@, *resolved, input, verdict, result),
{
    let input = match apply_input_verdict(id, resolved.name.as_str(), input, verdict) {
        Ok(input) => input,
        Err(done) => {
            return Progress::Done(done);
        },
    };
    match authorize_mode(world, resolved) {
        Ok(()) => Progress::Next(input),
        Err(reason) => Progress::Done(failed(id, resolved.name.as_str(), reason)),
    }
}

/// A call is reported as started, with its raw input and nothing else to show.
pub open spec fn reports_start(
    event: RunEvent,
    id: Seq<char>,
    tool: Seq<char>,
    summary: Seq<char>,
    input: Seq<char>,
) -> bool {
    match event {
        RunEvent::ToolStart(start) => {
            &&& start.id@ == id
            &&& start.tool@ == tool
            &&& start.summary@ == summary
            &&& start.render_header is None
            &&& start.annotation is None
            &&& start.input is None
            &&& start.raw_input is Some
            &&& start.raw_input->0@ == input
            &&& start.output is None
        },
        _ => false,
    }
}

/// A call is reported as running.
pub open spec fn reports_execution(event: RunEvent, id: Seq<char>) -> bool {
    match event {
        RunEvent::ToolExecutionStart { id: own } => own@ == id,
        _ => false,
    }
}

/// What is reported when a call starts whose input is not parsed: only the model's calls are shown.
pub fn emit_raw_start(origin: CallOrigin, id: &str, tool: &str, summary: String, input: &str)
    -> (result: Vec<RunEvent>)
    ensures
        match origin {
            CallOrigin::Model => result@.len() == 1 && reports_start(
                result@[0],
                id@,
                tool@,
                summary@,
                input@,
            ),
            CallOrigin::Nested => result@.len() == 0,
        },
{
    let mut reported: Vec<RunEvent> = Vec::new();
    if origin == CallOrigin::Model {
        reported.push(
            RunEvent::ToolStart(
                ToolStart {
                    id: id.to_owned(),
                    tool: tool.to_owned(),
                    summary,
                    render_header: None,
                    annotation: None,
                    input: None,
                    raw_input: Some(input.to_owned()),
                    output: None,
                },
            ),
        );
    }
    reported
}

/// What a search looks for: the text of its input's query, or nothing.
pub open spec fn query_of(input: Seq<char>) -> Seq<char> {
    match json::json_member(input, "query"@) {
        Some(query) => match json::json_string(query) {
            Some(query) => query,
            None => Seq::empty(),
        },
        None => Seq::empty(),
    }
}

/// What a search looks for.
pub fn search_query(input: &serde_json::Value) -> (result: String)
    ensures
        result@ == query_of(json::json_text(*input)),
{
    match member(input, "query") {
        Some(query) => match as_text(query) {
            Some(query) => query.to_owned(),
            None => String::new(),
        },
        None => String::new(),
    }
}

/// What is reported when a search starts. It needs no permission: it shows only names that the
/// model has been shown.
pub fn start_tool_search(origin: CallOrigin, id: &str, query: String, input: &str)
    -> (result: Vec<RunEvent>)
    ensures
        match origin {
            CallOrigin::Model => result@.len() == 1 && reports_start(
                result@[0],
                id@,
                routes::search_name(),
                query@,
                input@,
            ),
            CallOrigin::Nested => result@.len() == 0,
        },
{
    emit_raw_start(origin, id, "tool_search", query, input)
}

/// How a search ended.
pub fn finish_tool_search(id: String, found: Result<String, String>) -> (result: ToolDone)
    ensures
        result.tool is Named,
        result.tool->Named_0@ == routes::search_name(),
        events::ends_with(
            result,
            id@,
            result.tool,
            OutputKind::Markdown,
            match found {
                Ok(text) => text@,
                Err(text) => text@,
            },
            found is Err,
        ),
{
    let tool = ToolLabel::Named("tool_search".to_owned());
    match found {
        Ok(text) => ToolDone::prose(id, tool, OutputKind::Markdown, text, false),
        Err(text) => ToolDone::prose(id, tool, OutputKind::Markdown, text, true),
    }
}

/// What is reported when a client's tool starts: that it starts, and at once that it runs.
pub fn start_local_tool(origin: CallOrigin, id: &str, name: &str, input: &str) -> (result: Vec<
    RunEvent,
>)
    ensures
        match origin {
            CallOrigin::Model => {
                &&& result@.len() == 2
                &&& reports_start(result@[0], id@, name@, name@, input@)
                &&& reports_execution(result@[1], id@)
            },
            CallOrigin::Nested => result@.len() == 0,
        },
{
    let mut reported = emit_raw_start(origin, id, name, name.to_owned(), input);
    if origin == CallOrigin::Model {
        reported.push(RunEvent::ToolExecutionStart { id: id.to_owned() });
    }
    reported
}

/// How a client's tool ended.
pub fn finish_local_tool(id: String, name: &str, output: Result<String, String>)
    -> (result: ToolDone)
    ensures
        result.tool is Named,
        result.tool->Named_0@ == name@,
        events::ends_with(
            result,
            id@,
            result.tool,
            OutputKind::Plain,
            match output {
                Ok(text) => text@,
                Err(text) => text@,
            },
            output is Err,
        ),
{
    let tool = ToolLabel::Named(name.to_owned());
    match output {
        Ok(text) => ToolDone::prose(id, tool, OutputKind::Plain, text, false),
        Err(text) => ToolDone::prose(id, tool, OutputKind::Plain, text, true),
    }
}

/// How many bytes of an outside tool's input are named when permission for it is asked.
pub const MCP_PERM_SCOPE_MAX_BYTES: usize = 200;

/// What is reported when an outside tool starts.
pub fn start_mcp_tool(origin: CallOrigin, id: &str, tool: &str, input: &str) -> (result: Vec<
    RunEvent,
>)
    ensures
        match origin {
            CallOrigin::Model => result@.len() == 1 && reports_start(
                result@[0],
                id@,
                tool@,
                "mcp: "@ + tool@,
                input@,
            ),
            CallOrigin::Nested => result@.len() == 0,
        },
{
    emit_raw_start(origin, id, tool, joined("mcp: ", tool), input)
}

/// An outside tool that has been permitted, and the binding that it is called by. `loads` says
/// that its definition joins the next request: a call of the model counts as loading the tool, a
/// nested one leaves no trace in the conversation and does not.
#[derive(Debug, PartialEq, Eq)]
pub struct BoundCall {
    pub id: String,
    pub tool: String,
    pub binding: u64,
    pub loads: bool,
}

/// Whether an outside tool's name can be permitted at all.
pub fn mcp_key(id: &str, tool: &str, key: Result<(), String>) -> (result: Progress<()>)
    ensures
        match key {
            Ok(()) => result is Next,
            Err(error) => fails_as(
                result,
                id@,
                tool@,
                "invalid MCP tool key '"@ + tool@ + "': "@ + error@,
            ),
        },
{
    match key {
        Ok(()) => Progress::Next(()),
        Err(error) => {
            let mut message = joined("invalid MCP tool key '", tool);
            message.append("': ");
            message.append(error.as_str());
            Progress::Done(failed(id, tool, message))
        },
    }
}

/// How a call of an outside tool goes on once it is known whether it is permitted. It runs only
/// where it is, and where the tool can still be reached.
pub open spec fn mcp_goes_on(
    world: ToolWorld,
    origin: CallOrigin,
    id: Seq<char>,
    tool: Seq<char>,
    granted: Result<(), String>,
    reported: Seq<RunEvent>,
    progress: Progress<BoundCall>,
) -> bool {
    let unavailable = "tool not available for this agent: "@ + tool;
    match granted {
        Err(reason) => reported.len() == 0 && fails_as(progress, id, tool, reason@),
        Ok(()) => if !world.routes@.contains_key(tool) {
            reported.len() == 0 && fails_as(progress, id, tool, unavailable)
        } else {
            &&& match origin {
                CallOrigin::Model => reported.len() == 1 && reports_execution(reported[0], id),
                CallOrigin::Nested => reported.len() == 0,
            }
            &&& match world.routes@[tool] {
                TurnToolRoute::Mcp { binding, .. } => match progress {
                    Progress::Next(call) => {
                        &&& call.id@ == id
                        &&& call.tool@ == tool
                        &&& call.binding == binding
                        &&& call.loads == (origin == CallOrigin::Model)
                    },
                    Progress::Done(_) => false,
                },
                _ => fails_as(progress, id, tool, unavailable),
            }
        },
    }
}

/// Goes on with a call of an outside tool once it is known whether it is permitted. One that is
/// denied loads nothing.
pub fn permit_mcp_tool(
    world: &ToolWorld,
    origin: CallOrigin,
    id: &str,
    tool: &str,
    granted: Result<(), String>,
) -> (result: (Vec<RunEvent>, Progress<BoundCall>))
    ensures
        mcp_goes_on(*world, origin, id@, tool@, granted, result.0@, result.1),
{
    let mut reported: Vec<RunEvent> = Vec::new();
    match granted {
        Err(reason) => {
            return (reported, Progress::Done(failed(id, tool, reason)));
        },
        Ok(()) => {},
    }
    let route = match world.routes.get(tool) {
        Some(route) => route,
        None => {
            let message = joined("tool not available for this agent: ", tool);
            return (reported, Progress::Done(failed(id, tool, message)));
        },
    };
    if origin == CallOrigin::Model {
        reported.push(RunEvent::ToolExecutionStart { id: id.to_owned() });
    }
    match route {
        TurnToolRoute::Mcp { binding, .. } => (
            reported,
            Progress::Next(
                BoundCall {
                    id: id.to_owned(),
                    tool: tool.to_owned(),
                    binding: *binding,
                    loads: origin == CallOrigin::Model,
                },
            ),
        ),
        _ => {
            let message = joined("tool not available for this agent: ", tool);
            (reported, Progress::Done(failed(id, tool, message)))
        },
    }
}

/// How an outside tool ended.
pub fn finish_mcp_tool(call: BoundCall, output: Result<String, String>) -> (result: ToolDone)
    ensures
        events::ends_with(
            result,
            call.id@,
            ToolLabel::Named(call.tool),
            OutputKind::Plain,
            match output {
                Ok(text) => text@,
                Err(text) => text@,
            },
            output is Err,
        ),
{
    let tool = ToolLabel::Named(call.tool);
    match output {
        Ok(text) => ToolDone::prose(call.id, tool, OutputKind::Plain, text, false),
        Err(text) => ToolDone::prose(call.id, tool, OutputKind::Plain, text, true),
    }
}

} // verus!
