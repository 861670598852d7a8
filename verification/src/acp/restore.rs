//! How the session that is served gives way to a new one or to a saved one: one step after another,
//! each owed only once the one before it has succeeded.
use vstd::prelude::*;

use crate::acp::error;
use crate::acp::error::{session_registration_error, AcpError};
use crate::acp::requests;
use crate::acp::requests::{
    load_session_request, new_session_request, LoadSessionParams, NewSessionParams,
};
use crate::acp::server;
use crate::acp::server::Server;
use crate::acp::session;
use crate::acp::session::{
    load_history_from, load_session, unknown_session, CloseAction, InstallStep, Installation,
    ModelFacts, RestorePlan, Restored, RollbackAction, StoredSession,
};
use crate::json;
use crate::types::SessionDefaults;

verus! {

/// What storage holds of a session: the session itself, whether there is a directory for sessions,
/// and what is said where the session is open elsewhere.
#[derive(Debug)]
pub struct Found {
    pub loaded: Result<StoredSession, String>,
    pub directory: Result<(), String>,
    pub elsewhere: Option<String>,
}

/// What the host does next for a session that a client loads.
#[derive(Debug)]
pub enum RestoreStep {
    /// Looks the session up in storage.
    LookUp(LoadSessionParams),
    /// Finishes closing the session that was served before, and asks what is known of the model.
    Close { restored: Restored, actions: Vec<CloseAction> },
    /// Starts the agent.
    Start(RestorePlan),
    /// Carries out a stage of the installation.
    Install { plan: RestorePlan, installation: Installation },
    /// Shows the client the conversation, and answers the request.
    Replay(RestorePlan),
    /// Takes back what was done, if anything, and answers the request with the error.
    Refused { error: AcpError, rollback: Vec<RollbackAction> },
}

/// The error with which a session is refused that was looked up: its name is none of a session, or
/// it cannot be read. Nothing where it can be loaded.
pub open spec fn load_refusal(session_id: Seq<char>, found: Option<Found>) -> Option<
    error::ErrorView,
> {
    match found {
        None => Some(error::not_found_view(session_id)),
        Some(found) => session::read_refusal(
            session_id,
            found.loaded,
            found.directory,
            found.elsewhere,
        ),
    }
}

/// The step refuses the request, and there is nothing to take back.
pub open spec fn refuses(step: RestoreStep, view: error::ErrorView) -> bool {
    step matches RestoreStep::Refused { error, rollback } && error@ == view && rollback@.len() == 0
}

/// What is owed for the session that was served, where there was one.
pub open spec fn owed(before: Server, actions: Seq<CloseAction>) -> bool {
    match before.session {
        None => actions.len() == 0,
        Some(served) => session::closes(served, actions),
    }
}

impl Server {
    /// Begins a new session: the session that was served closes first. Where the request cannot be
    /// read it is refused, and that session stays as it is.
    pub fn session_requested(&mut self, raw: &serde_json::Value) -> (result: Result<
        (NewSessionParams, Vec<CloseAction>),
        AcpError,
    >)
        ensures
            match requests::new_session_params(requests::params_text(json::json_text(*raw))) {
                Ok((cwd, servers)) => {
                    &&& result matches Ok((params, actions)) && {
                        &&& params.cwd@ == cwd
                        &&& params.servers@ == requests::sent_servers(servers)
                        &&& owed(*old(self), actions@)
                    }
                    &&& server::same_server(*final(self), *old(self))
                    &&& final(self).session is None
                },
                Err(reason) => {
                    &&& result is Err
                    &&& result->Err_0@ == error::invalid_params_because(reason)
                    &&& *final(self) == *old(self)
                },
            },
    {
        match new_session_request(raw) {
            Ok(params) => {
                let actions = self.close_session();
                Ok((params, actions))
            },
            Err(error) => Err(error),
        }
    }
}

/// Begins to load a session: a request that cannot be read is refused.
pub fn restore_requested(raw: &serde_json::Value) -> (step: RestoreStep)
    ensures
        match requests::load_session_params(requests::params_text(json::json_text(*raw))) {
            Ok((session_id, cwd, servers)) => step matches RestoreStep::LookUp(params) && {
                &&& params.session_id@ == session_id
                &&& params.cwd@ == cwd
                &&& params.servers@ == requests::sent_servers(servers)
            },
            Err(reason) => refuses(step, error::invalid_params_because(reason)),
        },
{
    match load_session_request(raw) {
        Ok(params) => RestoreStep::LookUp(params),
        Err(error) => RestoreStep::Refused { error, rollback: Vec::new() },
    }
}

impl Server {
    /// Goes on once a session has been looked up. Where it can be loaded, the session that was
    /// served closes; where it cannot, the request is refused and that session stays as it is.
    pub fn restore_found(&mut self, session_id: &str, found: Option<Found>) -> (step: RestoreStep)
        ensures
            step is Close || step is Refused,
            step is Close <==> (found matches Some(found) && found.loaded is Ok
                && found.directory is Ok && found.elsewhere is None),
            match load_refusal(session_id@, found) {
                Some(view) => refuses(step, view) && *final(self) == *old(self),
                None => {
                    &&& step matches RestoreStep::Close { restored, actions } && {
                        &&& session::read_from(found->0.loaded->Ok_0, restored)
                        &&& owed(*old(self), actions@)
                    }
                    &&& server::same_server(*final(self), *old(self))
                    &&& final(self).session is None
                },
            },
    {
        match found {
            None => RestoreStep::Refused {
                error: unknown_session(session_id.to_owned()),
                rollback: Vec::new(),
            },
            Some(Found { loaded, directory, elsewhere }) => {
                match load_history_from(session_id, loaded, directory, elsewhere) {
                    Err(error) => RestoreStep::Refused { error, rollback: Vec::new() },
                    Ok(restored) => {
                        let actions = self.close_session();
                        RestoreStep::Close { restored, actions }
                    },
                }
            },
        }
    }
}

/// Goes on once the session that was served has closed: says how the loaded one starts.
pub fn restore_closed(
    restored: Restored,
    recorded: Option<ModelFacts>,
    allowed: bool,
    fallback: ModelFacts,
    client_cwd: &str,
    yolo: bool,
    defaults: SessionDefaults,
) -> (step: RestoreStep)
    ensures
        step matches RestoreStep::Start(plan) && session::restores(
            restored,
            session::restored_model(recorded, allowed, fallback),
            client_cwd@,
            yolo,
            defaults,
            plan,
        ),
{
    RestoreStep::Start(
        load_session(restored, recorded, allowed, fallback, client_cwd, yolo, defaults),
    )
}

/// What comes of the end of a stage.
pub open spec fn restored_by(plan: RestorePlan, end: InstallStep, step: RestoreStep) -> bool {
    match end {
        InstallStep::Next(installation) => step == (RestoreStep::Install { plan, installation }),
        InstallStep::Failed { error: reason, rollback: back } => {
            step matches RestoreStep::Refused { error, rollback } && error@
                == error::internal_error_because(reason@) && rollback == back
        },
        InstallStep::Ready { .. } => step == RestoreStep::Replay(plan),
    }
}

/// Goes on once a stage of the installation has been carried out. The conversation is shown only
/// where everything is in place.
pub fn restore_installed(plan: RestorePlan, end: InstallStep) -> (step: RestoreStep)
    ensures
        restored_by(plan, end, step),
        step is Replay <==> end is Ready,
{
    match end {
        InstallStep::Next(installation) => RestoreStep::Install { plan, installation },
        InstallStep::Failed { error, rollback } => RestoreStep::Refused {
            error: session_registration_error(error),
            rollback,
        },
        InstallStep::Ready { .. } => RestoreStep::Replay(plan),
    }
}

/// A load that fails at a stage of the installation shows nothing of the conversation: the request
/// is refused for the stage's reason, and the agent's task is cancelled first.
pub proof fn law_failed_load_shows_nothing(
    plan: RestorePlan,
    installation: Installation,
    reason: String,
    end: InstallStep,
    step: RestoreStep,
)
    requires
        session::advanced(installation, Err(reason), end),
        restored_by(plan, end, step),
    ensures
        step matches RestoreStep::Refused { error, rollback } && error@
            == error::internal_error_because(reason@) && rollback@
            == session::rollback_actions(installation.stage, installation.mcp)
            && rollback@[0] == RollbackAction::CancelTask,
{
}

/// A loaded session is shown exactly where the last stage of its installation has succeeded: an
/// earlier stage that succeeds leads to the next, and a stage that fails refuses the load.
pub proof fn law_shown_after_the_last_stage(
    plan: RestorePlan,
    installation: Installation,
    outcome: Result<(), String>,
    end: InstallStep,
    step: RestoreStep,
)
    requires
        session::advanced(installation, outcome, end),
        restored_by(plan, end, step),
    ensures
        step is Replay <==> outcome is Ok && installation.stage == session::InstallStage::Register,
        step is Install <==> outcome is Ok && installation.stage != session::InstallStage::Register,
        step is Refused <==> outcome is Err,
{
}

} // verus!
