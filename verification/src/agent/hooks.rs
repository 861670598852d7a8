//! Hooks: what may look at a tool call before it runs, and at its output afterwards.
use vstd::prelude::*;

use crate::agent::dispatch::CallOrigin;
use crate::agent::events;
use crate::agent::events::{OutputKind, ToolDone, ToolLabel};
use crate::agent::routes::{Authority, Resolved};
use crate::json;
use crate::json::{as_flag, as_text, member};

verus! {

/// How long the hooks of one stage may take, in milliseconds, where the call has no deadline.
pub const HOOK_CHAIN_MAX_MS: u64 = 60_000;

/// When a hook looks at a call.
#[derive(Debug, Clone, Copy, PartialEq, Eq, Structural)]
pub enum HookStage {
    Input,
    Output,
}

/// A hook that is installed, bound to one call.
#[derive(Debug, PartialEq, Eq)]
pub struct Hook {
    pub tool: String,
    pub origin: CallOrigin,
    pub authority: Authority,
}

/// What a hook is told of the call. `deadline` is when it has to have answered, in milliseconds.
#[derive(Debug, PartialEq, Eq)]
pub struct HookCall {
    pub stage: HookStage,
    pub tool: String,
    pub tool_id: String,
    pub session_id: Option<String>,
    pub origin: CallOrigin,
    pub authority: Authority,
    pub deadline: u64,
}

/// When a hook has to have answered: before the call's own deadline, and within the time that a
/// stage may take.
pub open spec fn answer_by(now: u64, deadline: Option<u64>) -> int {
    match deadline {
        Some(at) if at < now + HOOK_CHAIN_MAX_MS => at as int,
        _ => now + HOOK_CHAIN_MAX_MS,
    }
}

/// When a hook has to have answered that is asked now.
pub fn window(now: u64, deadline: Option<u64>) -> (result: u64)
    requires
        now + HOOK_CHAIN_MAX_MS <= u64::MAX,
    ensures
        result == answer_by(now, deadline),
{
    let cap: u64 = now + HOOK_CHAIN_MAX_MS;
    match deadline {
        Some(at) => if at < cap {
            at
        } else {
            cap
        },
        None => cap,
    }
}

impl Hook {
    /// The hook on a call: there is none where none is installed, and none on a name that leads
    /// nowhere.
    pub fn of(installed: bool, resolved: &Resolved, origin: CallOrigin) -> (result: Option<Self>)
        ensures
            match resolved.route.lends() {
                Some(authority) if installed => result == Some(
                    Hook { tool: resolved.name, origin, authority },
                ),
                _ => result is None,
            },
    {
        if !installed {
            return None;
        }
        match resolved.route.authority() {
            Some(authority) => Some(Hook { tool: resolved.name.clone(), origin, authority }),
            None => None,
        }
    }

    /// What the hook is told at a stage. The time that it has is counted from where the stage
    /// begins.
    pub fn call(
        &self,
        stage: HookStage,
        tool_id: &str,
        session_id: Option<String>,
        now: u64,
        deadline: Option<u64>,
    ) -> (result: HookCall)
        requires
            now + HOOK_CHAIN_MAX_MS <= u64::MAX,
        ensures
            result.stage == stage,
            result.tool == self.tool,
            result.tool_id@ == tool_id@,
            result.session_id == session_id,
            result.origin == self.origin,
            result.authority == self.authority,
            result.deadline == answer_by(now, deadline),
    {
        HookCall {
            stage,
            tool: self.tool.clone(),
            tool_id: tool_id.to_owned(),
            session_id,
            origin: self.origin,
            authority: self.authority,
            deadline: window(now, deadline),
        }
    }
}

/// What a hook says of a call before it runs. An input is its JSON text.
#[derive(Debug, PartialEq, Eq)]
pub enum Verdict {
    Unchanged,
    Replaced(String),
    Denied(String),
}

/// What comes of the hook before a call: nothing where it declines the stage, and a call that is
/// cancelled before the hook has answered is denied.
pub open spec fn input_verdict(wraps: bool, answer: Option<Verdict>, verdict: Verdict) -> bool {
    if !wraps {
        verdict is Unchanged
    } else {
        match answer {
            Some(answer) => verdict == answer,
            None => verdict is Denied && verdict->Denied_0@ == "cancelled"@,
        }
    }
}

/// What comes of the hook before a call. There is no answer where the call was cancelled first.
pub fn filter_input(wraps: bool, answer: Option<Verdict>) -> (result: Verdict)
    ensures
        input_verdict(wraps, answer, result),
{
    if !wraps {
        return Verdict::Unchanged;
    }
    match answer {
        Some(verdict) => verdict,
        None => Verdict::Denied("cancelled".to_owned()),
    }
}

/// The input that a call runs with after the hook before it, or how the call ends.
pub fn apply_input_verdict(id: &str, name: &str, input: String, verdict: Verdict)
    -> (result: Result<String, ToolDone>)
    ensures
        match verdict {
            Verdict::Unchanged => result == Ok::<_, ToolDone>(input),
            Verdict::Replaced(value) => result == Ok::<_, ToolDone>(value),
            Verdict::Denied(reason) => {
                &&& result is Err
                &&& result->Err_0.tool is Named
                &&& result->Err_0.tool->Named_0@ == name@
                &&& events::fails_with(result->Err_0, id@, result->Err_0.tool, reason@)
            },
        },
{
    match verdict {
        Verdict::Unchanged => Ok(input),
        Verdict::Replaced(value) => Ok(value),
        Verdict::Denied(reason) => Err(
            ToolDone::prose(
                id.to_owned(),
                ToolLabel::Named(name.to_owned()),
                OutputKind::Plain,
                reason,
                true,
            ),
        ),
    }
}

/// What a hook says of an output: the text and whether it is an error, each where the hook gives
/// it.
#[derive(Debug, PartialEq, Eq)]
pub enum OutputVerdict {
    Unchanged,
    Denied(String),
    Replaced { text: Option<String>, is_error: Option<bool> },
}

/// The text and the flag that a hook puts in an output's place.
pub open spec fn reads_replacement(
    value: Seq<char>,
    text_field: Seq<char>,
    error_field: Seq<char>,
    verdict: OutputVerdict,
) -> bool {
    match verdict {
        OutputVerdict::Replaced { text, is_error } => {
            &&& match json::json_member(value, text_field) {
                Some(member) => match json::json_string(member) {
                    Some(string) => text is Some && text->0@ == string,
                    None => text is None,
                },
                None => text is None,
            }
            &&& is_error == match json::json_member(value, error_field) {
                Some(member) => json::json_flag(member),
                None => None,
            }
        },
        _ => false,
    }
}

/// Reads what a hook puts in an output's place: an object with the text and the error flag under
/// the given names. A member of another kind counts as absent.
pub fn read_replacement(value: &serde_json::Value, text_field: &str, error_field: &str)
    -> (result: OutputVerdict)
    ensures
        reads_replacement(json::json_text(*value), text_field@, error_field@, result),
{
    let text = match member(value, text_field) {
        Some(found) => match as_text(found) {
            Some(text) => Some(text.to_owned()),
            None => None,
        },
        None => None,
    };
    let is_error = match member(value, error_field) {
        Some(found) => as_flag(found),
        None => None,
    };
    OutputVerdict::Replaced { text, is_error }
}

/// What a hook makes of an output. One that is rendered from fields of its own is left alone, and
/// so is one that the hook replaces without a text; the text and the error flag change together.
pub open spec fn rewritten(before: ToolDone, wraps: bool, answer: Option<OutputVerdict>)
    -> ToolDone {
    if !wraps || before.output.kind == OutputKind::Rendered {
        before
    } else {
        match answer {
            Some(OutputVerdict::Denied(reason)) => ToolDone {
                output: events::ToolOutput { text: reason, ..before.output },
                is_error: true,
                ..before
            },
            Some(OutputVerdict::Replaced { text: Some(text), is_error }) => ToolDone {
                output: events::ToolOutput { text, ..before.output },
                is_error: match is_error {
                    Some(flag) => flag,
                    None => before.is_error,
                },
                ..before
            },
            _ => before,
        }
    }
}

/// Whether a hook is asked about an output: it has to take part in the stage, and there has to be
/// prose for it to look at.
pub fn output_fires(done: &ToolDone, wraps: bool) -> (result: bool)
    ensures
        result == (wraps && done.output.kind != OutputKind::Rendered),
{
    wraps && done.output.kind != OutputKind::Rendered
}

/// Lets a hook look at an output. There is no answer where the call was cancelled first.
pub fn filter_output(done: &mut ToolDone, wraps: bool, answer: Option<OutputVerdict>)
    ensures
        *final(done) == rewritten(*old(done), wraps, answer),
{
    if !output_fires(done, wraps) {
        return;
    }
    match answer {
        Some(OutputVerdict::Denied(reason)) => {
            done.output.text = reason;
            done.is_error = true;
        },
        Some(OutputVerdict::Replaced { text: Some(text), is_error }) => {
            done.output.text = text;
            match is_error {
                Some(flag) => {
                    done.is_error = flag;
                },
                None => {},
            }
        },
        _ => {},
    }
}

} // verus!
