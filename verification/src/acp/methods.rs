//! What a client is told about the server and its modes.
use vstd::prelude::*;

use crate::agent::modes;
use crate::agent::modes::{ModeDef, ModeId};
use crate::text::same_text;
use crate::types::AgentMode;

verus! {

/// What the server can do.
#[derive(Debug, PartialEq, Eq)]
pub struct InitializeResponse {
    pub protocol_version: u16,
    pub load_session: bool,
    pub prompt_image: bool,
    pub prompt_embedded_context: bool,
    pub mcp_http: bool,
    pub agent_name: String,
    pub agent_version: String,
}

/// What the server tells a client that connects.
pub fn initialize_response(version: &str) -> (result: InitializeResponse)
    ensures
        result.protocol_version == 1,
        result.load_session,
        result.prompt_image,
        result.prompt_embedded_context,
        result.mcp_http,
        result.agent_name@ == "makima"@,
        result.agent_version@ == version@,
{
    InitializeResponse {
        protocol_version: 1,
        load_session: true,
        prompt_image: true,
        prompt_embedded_context: true,
        mcp_http: true,
        agent_name: "makima".to_owned(),
        agent_version: version.to_owned(),
    }
}

/// A mode as a client sees it.
#[derive(Debug, PartialEq, Eq)]
pub struct SessionMode {
    pub id: String,
    pub name: String,
}

/// The current mode and those there are.
#[derive(Debug, PartialEq, Eq)]
pub struct SessionModeState {
    pub current: String,
    pub modes: Vec<SessionMode>,
}

/// A mode the user defined.
pub open spec fn is_custom(def: ModeDef) -> bool {
    def.id is Custom
}

/// What a client sees of a mode: key and label.
pub open spec fn mode_entry(def: ModeDef) -> (Seq<char>, Seq<char>) {
    (modes::mode_key(def.id), def.label@)
}

/// What a client sees of modes: those of the server first, then those the user defined, each in
/// order.
pub open spec fn mode_entries(modes: Seq<ModeDef>) -> Seq<(Seq<char>, Seq<char>)> {
    modes.filter(|def: ModeDef| !is_custom(def)).map_values(|def: ModeDef| mode_entry(def))
        + modes.filter(|def: ModeDef| is_custom(def)).map_values(|def: ModeDef| mode_entry(def))
}

/// A list of modes as text.
pub open spec fn shown_modes(modes: Seq<SessionMode>) -> Seq<(Seq<char>, Seq<char>)> {
    modes.map_values(|mode: SessionMode| (mode.id@, mode.name@))
}

/// The modes that are, or are not, the user's, as a client sees them.
fn listed_modes(modes: &Vec<ModeDef>, custom: bool) -> (result: Vec<SessionMode>)
    ensures
        shown_modes(result@) == modes@.filter(
            |def: ModeDef| is_custom(def) == custom,
        ).map_values(|def: ModeDef| mode_entry(def)),
{
    let ghost keep = |def: ModeDef| is_custom(def) == custom;
    let ghost entry = |def: ModeDef| mode_entry(def);
    let mut result: Vec<SessionMode> = Vec::new();
    let mut i: usize = 0;
    proof {
        reveal(Seq::filter);
        assert(modes@.take(0) =~= Seq::empty());
        assert(shown_modes(result@) =~= modes@.take(0).filter(keep).map_values(entry));
    }
    while i < modes.len()
        invariant
            i <= modes@.len(),
            keep == (|def: ModeDef| is_custom(def) == custom),
            entry == (|def: ModeDef| mode_entry(def)),
            shown_modes(result@) == modes@.take(i as int).filter(keep).map_values(entry),
        decreases modes@.len() - i,
    {
        let ghost before = modes@.take(i as int).filter(keep);
        let ghost shown = result@;
        proof {
            reveal(Seq::filter);
            assert(modes@.take(i + 1).drop_last() =~= modes@.take(i as int));
            assert(modes@.take(i + 1).last() == modes@[i as int]);
        }
        let is_custom_mode = match &modes[i].id {
            ModeId::Custom(_) => true,
            _ => false,
        };
        if is_custom_mode == custom {
            result.push(SessionMode { id: modes[i].id.key(), name: modes[i].label.clone() });
            assert(shown_modes(result@) =~= shown_modes(shown).push(mode_entry(modes@[i as int])));
            assert(before.push(modes@[i as int]).map_values(entry) =~= before.map_values(
                entry,
            ).push(mode_entry(modes@[i as int])));
        }
        i += 1;
    }
    assert(modes@.take(i as int) =~= modes@);
    result
}

/// The current mode and those there are.
pub fn mode_state(current: &str, modes: &Vec<ModeDef>) -> (result: SessionModeState)
    ensures
        result.current@ == current@,
        shown_modes(result.modes@) == mode_entries(modes@),
{
    let mut list = listed_modes(modes, false);
    let ghost own = list@;
    let mut custom = listed_modes(modes, true);
    let ghost users = custom@;
    list.append(&mut custom);
    proof {
        assert(shown_modes(list@) =~= shown_modes(own) + shown_modes(users));
        let plain = |def: ModeDef| is_custom(def) == false;
        let negated = |def: ModeDef| !is_custom(def);
        assert(plain =~= negated);
        let marked = |def: ModeDef| is_custom(def) == true;
        let bare = |def: ModeDef| is_custom(def);
        assert(marked =~= bare);
    }
    SessionModeState { current: current.to_owned(), modes: list }
}

/// What a client is told about a new session.
#[derive(Debug, PartialEq, Eq)]
pub struct NewSessionResponse {
    pub session_id: String,
    pub modes: SessionModeState,
}

/// What a client is told about a new session, which begins in the building mode.
pub fn new_session_response(session_id: &str, modes: &Vec<ModeDef>) -> (result: NewSessionResponse)
    ensures
        result.session_id@ == session_id@,
        result.modes.current@ == "build"@,
        shown_modes(result.modes.modes@) == mode_entries(modes@),
{
    NewSessionResponse { session_id: session_id.to_owned(), modes: mode_state("build", modes) }
}

/// What a client is told about a loaded session, which begins in the building mode.
pub fn load_session_response(modes: &Vec<ModeDef>) -> (result: SessionModeState)
    ensures
        result.current@ == "build"@,
        shown_modes(result.modes@) == mode_entries(modes@),
{
    mode_state("build", modes)
}

/// Some mode has that key.
pub open spec fn has_mode(modes: Seq<ModeDef>, key: Seq<char>) -> bool {
    exists|i: int| 0 <= i < modes.len() && modes::mode_key((#[trigger] modes[i]).id) == key
}

/// Whether some mode has that key.
pub fn contains_mode(modes: &Vec<ModeDef>, key: &str) -> (result: bool)
    ensures
        result == has_mode(modes@, key@),
{
    let mut i: usize = 0;
    while i < modes.len()
        invariant
            i <= modes@.len(),
            forall|j: int| 0 <= j < i ==> modes::mode_key((#[trigger] modes@[j]).id) != key@,
        decreases modes@.len() - i,
    {
        let own = modes[i].id.key();
        if same_text(own.as_str(), key) {
            assert(modes::mode_key(modes@[i as int].id) == key@);
            return true;
        }
        i += 1;
    }
    false
}

/// The mode that a client's key stands for. Planning needs a path for the plan, which the host
/// gives where it can.
pub open spec fn chosen_mode(
    key: Seq<char>,
    modes: Seq<ModeDef>,
    plan_path: Option<String>,
    mode: Option<AgentMode>,
) -> bool {
    if key == "build"@ {
        mode == Some(AgentMode::Build)
    } else if key == "plan"@ {
        match plan_path {
            Some(path) => mode == Some(AgentMode::Plan(path)),
            None => mode is None,
        }
    } else if has_mode(modes, key) {
        mode matches Some(AgentMode::Custom(name)) && name@ == key
    } else {
        mode is None
    }
}

/// The mode that a client's key stands for.
pub fn mode_id_to_agent_mode(mode_id: &str, modes: &Vec<ModeDef>, plan_path: Option<String>)
    -> (result: Option<AgentMode>)
    ensures
        chosen_mode(mode_id@, modes@, plan_path, result),
{
    if same_text(mode_id, "build") {
        Some(AgentMode::Build)
    } else if same_text(mode_id, "plan") {
        match plan_path {
            Some(path) => Some(AgentMode::Plan(path)),
            None => None,
        }
    } else if contains_mode(modes, mode_id) {
        Some(AgentMode::Custom(mode_id.to_owned()))
    } else {
        None
    }
}

} // verus!
