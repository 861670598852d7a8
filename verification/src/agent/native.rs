//! A call of a registered tool, stage by stage. Each stage hands its call on to the next, so none
//! can be left out; after everything that can take long the name is looked up again, because what
//! it leads to may have changed.
use vstd::prelude::*;

use crate::agent::dispatch;
use crate::agent::dispatch::{failed, CallOrigin, Progress};
use crate::agent::events::{RunEvent, ToolDone, ToolLabel, ToolOutput, ToolStart};
use crate::agent::routes;
use crate::agent::routes::{binding_matches, resolve, NativeTool, ToolWorld};
use crate::agent::streaming;
use crate::text;
use crate::text::{find_text, joined};

verus! {

/// A call of a registered tool: the name that it is made by, the tool's own name, and its raw
/// input.
#[derive(Debug, PartialEq, Eq)]
pub struct NativeCall {
    pub id: String,
    pub name: String,
    pub tool: String,
    pub origin: CallOrigin,
    pub raw_input: String,
}

/// A call whose input has been parsed and which has been reported.
#[derive(Debug, PartialEq, Eq)]
pub struct StartedCall {
    pub call: NativeCall,
}

/// A call that waits for permission.
#[derive(Debug, PartialEq, Eq)]
pub struct AskingCall {
    pub call: NativeCall,
}

/// A call that waits for the lock on the file that it writes.
#[derive(Debug, PartialEq, Eq)]
pub struct LockingCall {
    pub call: NativeCall,
}

/// A call that runs; `locked` says that it holds the lock on the file that it writes.
#[derive(Debug, PartialEq, Eq)]
pub struct ExecutingCall {
    pub call: NativeCall,
    pub locked: bool,
}

/// What is known of a call once its input has been parsed: how it is shown, what there is of its
/// output from the beginning, whether it writes a file, and why that file may not be written, if it
/// may not.
#[derive(Debug, PartialEq, Eq)]
pub struct ParsedCall {
    pub summary: String,
    pub render_header: Option<String>,
    pub annotation: Option<String>,
    pub output: Option<ToolOutput>,
    pub writes: bool,
    pub boundary: Option<String>,
}

/// The name still leads where it led when the turn began.
pub open spec fn still_bound(world: ToolWorld, name: Seq<char>) -> bool {
    let canonical = streaming::canonical_name(name);
    routes::is_bound(world, canonical, routes::route_of(world, canonical))
}

/// Whether the name still leads where it led when the turn began.
pub fn is_still_bound(world: &ToolWorld, name: &str) -> (result: bool)
    ensures
        result == still_bound(*world, name@),
{
    binding_matches(&resolve(world, name), world)
}

/// The error that a tool is not there for the agent.
pub open spec fn unavailable(name: Seq<char>) -> Seq<char> {
    "tool not available for this agent: "@ + name
}

/// A call that ends with an error under its tool's own name.
fn fail(call: &NativeCall, message: String) -> (result: ToolDone)
    ensures
        dispatch::fails_as(
            Progress::<NativeCall>::Done(result),
            call.id@,
            call.tool@,
            message@,
        ),
{
    failed(call.id.as_str(), call.tool.as_str(), message)
}

/// Begins a call: the agent has to be among the tool's callers.
pub fn begin_native(world: &ToolWorld, tool: NativeTool, call: NativeCall) -> (result: Progress<
    NativeCall,
>)
    ensures
        if tool.audience.includes(world.audience) {
            result == Progress::Next(call)
        } else {
            dispatch::fails_as(result, call.id@, call.tool@, unavailable(call.name@))
        },
{
    if tool.audience.contains(world.audience) {
        Progress::Next(call)
    } else {
        let message = joined("tool not available for this agent: ", call.name.as_str());
        Progress::Done(fail(&call, message))
    }
}

/// Why a call does not start, if it does not: its input cannot be parsed, or it would write a file
/// that may not be written.
pub open spec fn start_refusal(
    world: ToolWorld,
    parsed: Result<ParsedCall, String>,
    restricted_text: Seq<char>,
) -> Option<Seq<char>> {
    match parsed {
        Err(error) => Some(error@),
        Ok(parsed) => if !parsed.writes {
            None
        } else if world.restricted {
            Some(restricted_text)
        } else {
            match parsed.boundary {
                Some(reason) => Some(reason@),
                None => None,
            }
        },
    }
}

/// How the start of a call is shown.
pub open spec fn shown_start(call: NativeCall, parsed: ParsedCall) -> ToolStart {
    ToolStart {
        id: call.id,
        tool: call.tool,
        summary: parsed.summary,
        render_header: parsed.render_header,
        annotation: parsed.annotation,
        input: None,
        raw_input: Some(call.raw_input),
        output: parsed.output,
    }
}

/// How a call starts: only one that starts is reported, and only where the model makes it.
pub open spec fn call_starts(
    world: ToolWorld,
    call: NativeCall,
    parsed: Result<ParsedCall, String>,
    restricted_text: Seq<char>,
    reported: Seq<RunEvent>,
    progress: Progress<StartedCall>,
) -> bool {
    match start_refusal(world, parsed, restricted_text) {
        Some(reason) => reported.len() == 0 && dispatch::fails_as(
            progress,
            call.id@,
            call.tool@,
            reason,
        ),
        None => {
            &&& progress == Progress::Next(StartedCall { call })
            &&& match call.origin {
                CallOrigin::Model => reported == seq![
                    RunEvent::ToolStart(shown_start(call, parsed->Ok_0)),
                ],
                CallOrigin::Nested => reported.len() == 0,
            }
        },
    }
}

/// Starts a call whose input has been parsed. `restricted_text` says that the mode forbids to
/// write.
pub fn start_native(
    world: &ToolWorld,
    call: NativeCall,
    parsed: Result<ParsedCall, String>,
    restricted_text: &str,
) -> (result: (Vec<RunEvent>, Progress<StartedCall>))
    ensures
        call_starts(*world, call, parsed, restricted_text@, result.0@, result.1),
{
    let mut reported: Vec<RunEvent> = Vec::new();
    let parsed = match parsed {
        Ok(parsed) => parsed,
        Err(error) => {
            return (reported, Progress::Done(fail(&call, error)));
        },
    };
    if parsed.writes {
        if world.restricted {
            return (reported, Progress::Done(fail(&call, restricted_text.to_owned())));
        }
        match parsed.boundary {
            Some(reason) => {
                return (reported, Progress::Done(fail(&call, reason)));
            },
            None => {},
        }
    }
    if call.origin == CallOrigin::Model {
        reported.push(
            RunEvent::ToolStart(
                ToolStart {
                    id: call.id.clone(),
                    tool: call.tool.clone(),
                    summary: parsed.summary,
                    render_header: parsed.render_header,
                    annotation: parsed.annotation,
                    input: None,
                    raw_input: Some(call.raw_input.clone()),
                    output: parsed.output,
                },
            ),
        );
    }
    (reported, Progress::Next(StartedCall { call }))
}

/// Asks for permission, once the call has been prepared.
pub fn ask_permission(world: &ToolWorld, started: StartedCall) -> (result: Progress<AskingCall>)
    ensures
        if still_bound(*world, started.call.name@) {
            result == Progress::Next(AskingCall { call: started.call })
        } else {
            dispatch::fails_as(
                result,
                started.call.id@,
                started.call.tool@,
                unavailable(started.call.name@),
            )
        },
{
    let call = started.call;
    if is_still_bound(world, call.name.as_str()) {
        Progress::Next(AskingCall { call })
    } else {
        let message = joined("tool not available for this agent: ", call.name.as_str());
        Progress::Done(fail(&call, message))
    }
}

/// What is asked for: nothing where the tool needs no permission. The scopes of a tool that writes
/// files are resolved, as far as they can be. A registered tool's name holds no dot.
pub open spec fn asked_scopes(
    name: Seq<char>,
    scopes: Option<Vec<String>>,
    resolved: Seq<Option<String>>,
    writes_files: bool,
    result: Result<Option<Vec<String>>, String>,
) -> bool {
    if text::first_occurrence(name, "."@) is Some {
        result is Err && result->Err_0@ == "enforce_permission called with dotted name: "@ + name
    } else {
        match scopes {
            None => result == Ok::<_, String>(None::<Vec<String>>),
            Some(scopes) => {
                &&& result is Ok
                &&& result->Ok_0 is Some
                &&& result->Ok_0->0@.len() == scopes@.len()
                &&& forall|i: int|
                    0 <= i < scopes@.len() ==> #[trigger] result->Ok_0->0@[i] == (if writes_files
                        && resolved[i] is Some {
                        resolved[i]->0
                    } else {
                        scopes@[i]
                    })
            },
        }
    }
}

/// What is asked for when a call needs permission.
pub fn enforce_permission(
    name: &str,
    scopes: Option<Vec<String>>,
    resolved: &Vec<Option<String>>,
    writes_files: bool,
) -> (result: Result<Option<Vec<String>>, String>)
    requires
        scopes is Some && writes_files ==> resolved@.len() == scopes->0@.len(),
    ensures
        asked_scopes(name@, scopes, resolved@, writes_files, result),
{
    if find_text(name, ".").is_some() {
        return Err(joined("enforce_permission called with dotted name: ", name));
    }
    let scopes = match scopes {
        Some(scopes) => scopes,
        None => {
            return Ok(None);
        },
    };
    let mut asked: Vec<String> = Vec::new();
    let mut i: usize = 0;
    while i < scopes.len()
        invariant
            i <= scopes@.len(),
            asked@.len() == i,
            writes_files ==> resolved@.len() == scopes@.len(),
            forall|j: int|
                0 <= j < i ==> #[trigger] asked@[j] == (if writes_files && resolved@[j] is Some {
                    resolved@[j]->0
                } else {
                    scopes@[j]
                }),
        decreases scopes@.len() - i,
    {
        if writes_files {
            match &resolved[i] {
                Some(path) => {
                    asked.push(path.clone());
                },
                None => {
                    asked.push(scopes[i].clone());
                },
            }
        } else {
            asked.push(scopes[i].clone());
        }
        i += 1;
    }
    Ok(Some(asked))
}

/// How a call goes on once it is known whether it is permitted.
#[derive(Debug, PartialEq, Eq)]
pub enum AfterPermission {
    Done(ToolDone),
    /// It takes the lock on the file that it writes.
    Lock(LockingCall),
    /// It runs.
    Execute(ExecutingCall),
}

/// A call that is ready runs, if its name still leads where it led; that it runs is reported
/// before, where the model makes it.
pub open spec fn call_runs(
    world: ToolWorld,
    call: NativeCall,
    locked: bool,
    reported: Seq<RunEvent>,
    progress: Progress<ExecutingCall>,
) -> bool {
    &&& match call.origin {
        CallOrigin::Model => reported.len() == 1 && dispatch::reports_execution(
            reported[0],
            call.id@,
        ),
        CallOrigin::Nested => reported.len() == 0,
    }
    &&& if still_bound(world, call.name@) {
        progress == Progress::Next(ExecutingCall { call, locked })
    } else {
        dispatch::fails_as(progress, call.id@, call.tool@, unavailable(call.name@))
    }
}

/// Runs a call that is ready.
fn run_call(world: &ToolWorld, call: NativeCall, locked: bool) -> (result: (
    Vec<RunEvent>,
    Progress<ExecutingCall>,
))
    ensures
        call_runs(*world, call, locked, result.0@, result.1),
{
    let mut reported: Vec<RunEvent> = Vec::new();
    if call.origin == CallOrigin::Model {
        reported.push(RunEvent::ToolExecutionStart { id: call.id.clone() });
    }
    if is_still_bound(world, call.name.as_str()) {
        (reported, Progress::Next(ExecutingCall { call, locked }))
    } else {
        let message = joined("tool not available for this agent: ", call.name.as_str());
        (reported, Progress::Done(fail(&call, message)))
    }
}

/// How a call goes on once it is known whether it is permitted.
pub open spec fn permission_known(
    world: ToolWorld,
    call: NativeCall,
    granted: Result<(), String>,
    writes: bool,
    reported: Seq<RunEvent>,
    after: AfterPermission,
) -> bool {
    match granted {
        Err(reason) => reported.len() == 0 && after is Done && dispatch::fails_as(
            Progress::<NativeCall>::Done(after->Done_0),
            call.id@,
            call.tool@,
            reason@,
        ),
        Ok(()) => if !still_bound(world, call.name@) {
            reported.len() == 0 && after is Done && dispatch::fails_as(
                Progress::<NativeCall>::Done(after->Done_0),
                call.id@,
                call.tool@,
                unavailable(call.name@),
            )
        } else if writes {
            reported.len() == 0 && after == AfterPermission::Lock(LockingCall { call })
        } else {
            match after {
                AfterPermission::Execute(executing) => call_runs(
                    world,
                    call,
                    false,
                    reported,
                    Progress::Next(executing),
                ),
                AfterPermission::Done(done) => call_runs(
                    world,
                    call,
                    false,
                    reported,
                    Progress::Done(done),
                ),
                AfterPermission::Lock(_) => false,
            }
        },
    }
}

/// Goes on with a call once it is known whether it is permitted and whether it writes a file.
pub fn permit_native(
    world: &ToolWorld,
    asking: AskingCall,
    granted: Result<(), String>,
    writes: bool,
) -> (result: (Vec<RunEvent>, AfterPermission))
    ensures
        permission_known(*world, asking.call, granted, writes, result.0@, result.1),
{
    let call = asking.call;
    match granted {
        Err(reason) => {
            return (Vec::new(), AfterPermission::Done(fail(&call, reason)));
        },
        Ok(()) => {},
    }
    if !is_still_bound(world, call.name.as_str()) {
        let message = joined("tool not available for this agent: ", call.name.as_str());
        return (Vec::new(), AfterPermission::Done(fail(&call, message)));
    }
    if writes {
        return (Vec::new(), AfterPermission::Lock(LockingCall { call }));
    }
    let (reported, progress) = run_call(world, call, false);
    match progress {
        Progress::Next(executing) => (reported, AfterPermission::Execute(executing)),
        Progress::Done(done) => (reported, AfterPermission::Done(done)),
    }
}

/// How a call goes on once it is known whether it has the lock on the file that it writes, and
/// whether the file has changed since it was read.
pub open spec fn lock_known(
    world: ToolWorld,
    call: NativeCall,
    acquired: Result<(), String>,
    stale: Option<String>,
    reported: Seq<RunEvent>,
    progress: Progress<ExecutingCall>,
) -> bool {
    match acquired {
        Err(reason) => reported.len() == 0 && dispatch::fails_as(
            progress,
            call.id@,
            call.tool@,
            reason@,
        ),
        Ok(()) => match stale {
            Some(reason) => reported.len() == 0 && dispatch::fails_as(
                progress,
                call.id@,
                call.tool@,
                reason@,
            ),
            None => call_runs(world, call, true, reported, progress),
        },
    }
}

/// Goes on with a call that writes a file.
pub fn lock_native(
    world: &ToolWorld,
    locking: LockingCall,
    acquired: Result<(), String>,
    stale: Option<String>,
) -> (result: (Vec<RunEvent>, Progress<ExecutingCall>))
    ensures
        lock_known(*world, locking.call, acquired, stale, result.0@, result.1),
{
    let call = locking.call;
    match acquired {
        Err(reason) => {
            return (Vec::new(), Progress::Done(fail(&call, reason)));
        },
        Ok(()) => {},
    }
    match stale {
        Some(reason) => {
            return (Vec::new(), Progress::Done(fail(&call, reason)));
        },
        None => {},
    }
    run_call(world, call, true)
}

/// What a tool gives back.
#[derive(Debug, PartialEq, Eq)]
pub struct ToolResult {
    pub output: Result<ToolOutput, String>,
    pub annotation: Option<String>,
    pub written_path: Option<String>,
}

/// How a call ended, and whether the file that it has written counts as read.
#[derive(Debug, PartialEq, Eq)]
pub struct FinishedCall {
    pub done: ToolDone,
    pub records_read: bool,
}

/// Ends a call with what its tool gives back.
pub fn finish_native(executing: ExecutingCall, result: ToolResult) -> (finished: FinishedCall)
    ensures
        finished.records_read == (executing.locked && result.output is Ok),
        match result.output {
            Ok(output) => {
                &&& finished.done == (ToolDone {
                    id: executing.call.id,
                    tool: ToolLabel::Named(executing.call.tool),
                    output,
                    is_error: false,
                    annotation: result.annotation,
                    written_path: result.written_path,
                })
            },
            Err(message) => dispatch::fails_as(
                Progress::<NativeCall>::Done(finished.done),
                executing.call.id@,
                executing.call.tool@,
                message@,
            ),
        },
{
    match result.output {
        Ok(output) => FinishedCall {
            records_read: executing.locked,
            done: ToolDone {
                id: executing.call.id,
                tool: ToolLabel::Named(executing.call.tool),
                output,
                is_error: false,
                annotation: result.annotation,
                written_path: result.written_path,
            },
        },
        Err(message) => FinishedCall {
            records_read: false,
            done: fail(&executing.call, message),
        },
    }
}

} // verus!
