//! The modes that an agent can work in.
use vstd::prelude::*;

use crate::text::same_text;
use crate::types::AgentMode;

verus! {

/// The identity of a mode.
#[derive(Debug, PartialEq, Eq)]
pub enum ModeId {
    Build,
    Plan,
    Custom(String),
}

/// A mode the agent can work in: its name for people, and the tools it is limited to, if it is.
#[derive(Debug, PartialEq, Eq)]
pub struct ModeDef {
    pub id: ModeId,
    pub label: String,
    pub tools: Option<Vec<String>>,
}

/// The key of a mode.
pub open spec fn mode_key(id: ModeId) -> Seq<char> {
    match id {
        ModeId::Build => "build"@,
        ModeId::Plan => "plan"@,
        ModeId::Custom(name) => name@,
    }
}

impl ModeId {
    /// The key of the mode.
    pub fn key(&self) -> (result: String)
        ensures
            result@ == mode_key(*self),
    {
        match self {
            ModeId::Build => "build".to_owned(),
            ModeId::Plan => "plan".to_owned(),
            ModeId::Custom(name) => name.clone(),
        }
    }
}

/// The key of the mode that an agent works in.
pub open spec fn working_key(mode: AgentMode) -> Seq<char> {
    match mode {
        AgentMode::Build => "build"@,
        AgentMode::Plan(_) => "plan"@,
        AgentMode::Custom(name) => name@,
    }
}

/// The key of the mode that an agent works in.
fn key_of(mode: &AgentMode) -> (result: String)
    ensures
        result@ == working_key(*mode),
{
    match mode {
        AgentMode::Build => "build".to_owned(),
        AgentMode::Plan(_) => "plan".to_owned(),
        AgentMode::Custom(name) => name.clone(),
    }
}

/// The first mode of a key, from a position on.
pub open spec fn mode_from(modes: Seq<ModeDef>, key: Seq<char>, from: int) -> Option<ModeDef>
    decreases modes.len() - from,
{
    if from < 0 || from >= modes.len() {
        None
    } else if mode_key(modes[from].id) == key {
        Some(modes[from])
    } else {
        mode_from(modes, key, from + 1)
    }
}

/// The mode that an agent works in, where it is defined.
pub fn current_mode<'a>(modes: &'a Vec<ModeDef>, mode: &AgentMode) -> (result: Option<&'a ModeDef>)
    ensures
        match mode_from(modes@, working_key(*mode), 0) {
            Some(def) => result is Some && *result->0 == def,
            None => result is None,
        },
{
    let key = key_of(mode);
    let mut i: usize = 0;
    while i < modes.len() && !same_text(modes[i].id.key().as_str(), key.as_str())
        invariant
            i <= modes@.len(),
            mode_from(modes@, key@, 0) == mode_from(modes@, key@, i as int),
        decreases modes@.len() - i,
    {
        i += 1;
    }
    if i < modes.len() {
        Some(&modes[i])
    } else {
        None
    }
}

/// The one file that an agent may write in its mode, where the mode forbids to write others: the
/// plan, while it plans.
pub fn restrict_write_to(mode: &AgentMode) -> (result: Option<&String>)
    ensures
        match mode {
            AgentMode::Plan(path) => result is Some && *result->0 == *path,
            _ => result is None,
        },
{
    match mode {
        AgentMode::Plan(path) => Some(path),
        _ => None,
    }
}

} // verus!
