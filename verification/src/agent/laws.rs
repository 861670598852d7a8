//! What holds of every turn and of every tool call.
use vstd::prelude::*;

use crate::agent::dispatch;
use crate::agent::dispatch::{BoundCall, CallOrigin, Progress};
use crate::agent::events::{OutputKind, RunEvent, ToolDone};
use crate::agent::hooks;
use crate::agent::hooks::OutputVerdict;
use crate::agent::native;
use crate::agent::native::{AfterPermission, ExecutingCall, NativeCall};
use crate::agent::routes;
use crate::agent::routes::{Resolved, Route, ToolWorld};
use crate::agent::run;
use crate::agent::run::{AgentModel, Entry, RunStep, StreamResponse};
use crate::agent::streaming;
use crate::agent::streaming::StreamError;
use crate::types;

verus! {

/// In a mode that forbids to write no tool is called, whatever its name, its kind and the
/// permissions: a call ends before a hook sees it.
pub proof fn law_restricted_modes_call_nothing(
    world: ToolWorld,
    id: Seq<char>,
    name: Seq<char>,
    progress: Progress<Resolved>,
)
    requires
        world.restricted,
        dispatch::call_begins(world, id, name, progress),
    ensures
        !routes::offers(world, name),
        progress is Done,
        progress->Done_0.is_error,
{
}

/// A turn without a mode, and a name that the mode does not have, lead to nothing.
pub proof fn law_modes_limit_calls(world: ToolWorld, name: Seq<char>)
    requires
        !routes::mode_has(world.mode_def, streaming::canonical_name(name)),
    ensures
        !routes::offers(world, name),
{
}

/// A name that was not there when the turn began is not called, nor one that leads elsewhere now.
pub proof fn law_calls_keep_to_the_turns_bindings(world: ToolWorld, name: Seq<char>)
    requires
        routes::offers(world, name),
    ensures
        ({
            let canonical = streaming::canonical_name(name);
            &&& world.bindings@.contains_key(canonical)
            &&& routes::same_route(
                world,
                world.bindings@[canonical],
                routes::route_of(world, canonical),
            )
            &&& routes::route_of(world, canonical) !is Unknown
        }),
{
}

/// A client's tool comes before a registered one of its name, and both before an outside one.
pub proof fn law_earlier_sources_win(world: ToolWorld, name: Seq<char>)
    ensures
        routes::local_from(world.local@, name, 0) is Some ==> routes::route_of(world, name)
            is Local,
        routes::local_from(world.local@, name, 0) is None && routes::native_from(
            world.registry@,
            name,
            0,
        ) is Some ==> routes::route_of(world, name) is Native,
{
}

/// A name that leads nowhere is not hooked: a hook cannot make it exist.
pub proof fn law_unknown_names_lend_nothing(route: Route)
    ensures
        route.lends() is None <==> route is Unknown,
{
}

/// What a hook does to an output leaves the call, its tool and the way it is shown alone. One that
/// is rendered from fields of its own is not changed at all, and an error flag changes only with
/// the text.
pub proof fn law_hooks_change_prose_alone(
    before: ToolDone,
    wraps: bool,
    answer: Option<OutputVerdict>,
)
    ensures
        ({
            let after = hooks::rewritten(before, wraps, answer);
            &&& after.id == before.id
            &&& after.tool == before.tool
            &&& after.output.kind == before.output.kind
            &&& after.annotation == before.annotation
            &&& after.written_path == before.written_path
            &&& !wraps || before.output.kind == OutputKind::Rendered || answer is None ==> after
                == before
            &&& answer is Some && answer->0 is Replaced && answer->0->text is None ==> after
                == before
        }),
{
}

/// A call that is denied does not run, and takes no lock.
pub proof fn law_denied_calls_do_not_run(
    world: ToolWorld,
    call: NativeCall,
    granted: Result<(), String>,
    writes: bool,
    reported: Seq<RunEvent>,
    after: AfterPermission,
)
    requires
        native::permission_known(world, call, granted, writes, reported, after),
        granted is Err,
    ensures
        after is Done,
        after->Done_0.is_error,
        reported.len() == 0,
{
}

/// A call that writes a file runs only with the lock on it, and only where the file has not changed
/// since it was read.
pub proof fn law_writers_hold_their_lock(
    world: ToolWorld,
    call: NativeCall,
    granted: Result<(), String>,
    reported: Seq<RunEvent>,
    after: AfterPermission,
    acquired: Result<(), String>,
    stale: Option<String>,
    later_reported: Seq<RunEvent>,
    progress: Progress<ExecutingCall>,
)
    requires
        native::permission_known(world, call, granted, true, reported, after),
        native::lock_known(world, call, acquired, stale, later_reported, progress),
    ensures
        after !is Execute,
        progress is Next ==> progress->Next_0.locked && acquired is Ok && stale is None,
{
}

/// What runs is what the name led to when the turn began: a name that has been given to something
/// else meanwhile is not run.
pub proof fn law_replaced_tools_do_not_run(
    world: ToolWorld,
    call: NativeCall,
    locked: bool,
    reported: Seq<RunEvent>,
    progress: Progress<ExecutingCall>,
)
    requires
        native::call_runs(world, call, locked, reported, progress),
        !native::still_bound(world, call.name@),
    ensures
        progress is Done,
        progress->Done_0.is_error,
{
}

/// An outside tool that is denied, or that can no longer be reached, is not called and not loaded.
pub proof fn law_denied_outside_tools_are_not_loaded(
    world: ToolWorld,
    origin: CallOrigin,
    id: Seq<char>,
    tool: Seq<char>,
    granted: Result<(), String>,
    reported: Seq<RunEvent>,
    progress: Progress<BoundCall>,
)
    requires
        dispatch::mcp_goes_on(world, origin, id, tool, granted, reported, progress),
        granted is Err || !world.routes@.contains_key(tool),
    ensures
        progress is Done,
        progress->Done_0.is_error,
        reported.len() == 0,
{
}

/// A turn never asks the model more often than it may: it asks only while there are requests left,
/// and an answer counts as one.
pub proof fn law_turn_limits_hold(
    before: AgentModel,
    cancelled: bool,
    response: StreamResponse,
    delivered: bool,
    nudges: u32,
    had_tools: bool,
    step: RunStep,
    after: AgentModel,
    max: u32,
)
    requires
        before.config.max_turns == Some(max),
        run::next_step(before, cancelled) is Stream,
        run::replied(before, response, delivered, nudges, had_tools, step, after),
    ensures
        before.num_turns < max,
        after.num_turns == before.num_turns + 1,
        after.num_turns <= max,
        after.config == before.config,
{
}

/// The user is asked to authenticate a few times in a row at most.
pub proof fn law_authentication_is_asked_for_a_few_times(
    before: AgentModel,
    error: StreamError,
    can_ask: bool,
    step: RunStep,
    after: AgentModel,
)
    requires
        run::stream_failure(before, error, can_ask, step, after),
        before.reauth_attempts <= run::MAX_REAUTH_ATTEMPTS,
    ensures
        after.reauth_attempts <= run::MAX_REAUTH_ATTEMPTS,
        step is ReportAuth ==> after.reauth_attempts == before.reauth_attempts + 1,
        before.reauth_attempts == run::MAX_REAUTH_ATTEMPTS ==> step is Finished,
{
}

/// A model is nudged only where it said nothing, had tool results to speak of and has not been
/// nudged too often, and what it said nothing in is marked.
pub proof fn law_nudges_are_bounded(
    before: AgentModel,
    response: StreamResponse,
    delivered: bool,
    nudges: u32,
    had_tools: bool,
    step: RunStep,
    after: AgentModel,
)
    requires
        run::replied(before, response, delivered, nudges, had_tools, step, after),
        step is ReportNudge,
    ensures
        nudges < run::MAX_NUDGES,
        had_tools,
        after.history.last() == Entry::EmptyMarker,
        types::text_from(response.message.content@, 0) is None,
{
}

/// A reply that calls no tool leaves exactly one entry, and none that a model would not take: a
/// message with text, or the marker.
pub proof fn law_no_empty_reply_is_kept(
    before: AgentModel,
    response: StreamResponse,
    nudges: u32,
    had_tools: bool,
    step: RunStep,
    after: AgentModel,
)
    requires
        run::replied(before, response, true, nudges, had_tools, step, after),
        !types::calls_tool(response.message.content@),
    ensures
        after.history.drop_last() == before.history,
        after.history.last() is Message ==> types::text_from(
            after.history.last()->Message_0.content@,
            0,
        ) is Some,
        after.history.last() is Message || after.history.last() is EmptyMarker,
{
    assert(after.history.drop_last() =~= before.history);
}

} // verus!
