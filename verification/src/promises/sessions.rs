//! How sessions come into being, are restored and close.
use vstd::prelude::*;

use crate::acp::error::{AcpError, ErrorData};
use crate::acp::pending;
use crate::acp::pending::Answer;
use crate::acp::restore::{restore_closed, restore_installed, Found, RestoreStep};
use crate::acp::server::{Server, SessionRecord};
use crate::acp::session;
use crate::acp::session::{
    effective_session_cwd, keeps_beating, load_history_from, load_session, new_session,
    policy_trusts, question_mode, unknown_session, CloseAction, InstallStage, InstallStep,
    Installation, LockBeat, ModelFacts, QuestionMode, RestorePlan, Restored, RollbackAction,
    StoredSession, TrustRecord,
};
use crate::acp::updates::{Action, PromptEnd, StopReason};
use crate::promises::pending as outstanding;
use crate::promises::pump;
use crate::types::{SessionDefaults, ThinkingConfig};

verus! {

/// Two servers differ in nothing but their session.
pub open spec fn only_session_differs(before: Server, after: Server) -> bool {
    &&& after.model_specs == before.model_specs
    &&& after.modes == before.modes
    &&& after.elicitation == before.elicitation
    &&& after.supports_boolean == before.supports_boolean
    &&& after.defaults == before.defaults
}

/// An installation begins with the directory for sessions.
pub proof fn law_installations_begin_with_the_directory(
    session_id: String,
    channel: u64,
    mcp: bool,
    installation: Installation,
)
    requires
        call_ensures(Installation::begin, (session_id, channel, mcp), installation),
    ensures
        installation.stage == InstallStage::SessionsDirectory,
        installation.session_id == session_id,
        installation.channel == channel,
        installation.mcp == mcp,
{
}

/// A stage that succeeds leads to the next, from the directory over the lock and the log to the
/// registration, and the last leads to a session that is ready. One that fails is taken back: the
/// task is cancelled first, the servers are shut down where there are some, and the lock is given
/// back where it had been claimed.
pub proof fn law_stages_follow_one_another(
    installation: Installation,
    outcome: Result<(), String>,
    step: InstallStep,
)
    requires
        call_ensures(Installation::advance, (installation, outcome), step),
    ensures
        outcome matches Err(reason) ==> (step matches InstallStep::Failed { error, rollback } && {
            let locked = installation.stage == InstallStage::Checkpoint || installation.stage
                == InstallStage::Register;
            let count: int = 1 + (if installation.mcp {
                1int
            } else {
                0int
            }) + (if locked {
                1int
            } else {
                0int
            });
            &&& error@ == reason@
            &&& rollback@.len() == count
            &&& rollback@[0] == RollbackAction::CancelTask
            &&& installation.mcp ==> rollback@[1] == RollbackAction::ShutdownMcp
            &&& locked ==> rollback@[count - 1] == RollbackAction::ReleaseLock
        }),
        outcome is Ok && installation.stage == InstallStage::Register ==> (
        step matches InstallStep::Ready { session_id, channel, mcp } && session_id
            == installation.session_id && channel == installation.channel && mcp
            == installation.mcp),
        outcome is Ok && installation.stage != InstallStage::Register ==> (
        step matches InstallStep::Next(next) && {
            &&& next.session_id == installation.session_id
            &&& next.channel == installation.channel
            &&& next.mcp == installation.mcp
            &&& installation.stage == InstallStage::SessionsDirectory ==> next.stage
                == InstallStage::Lock
            &&& installation.stage == InstallStage::Lock ==> next.stage
                == InstallStage::Checkpoint
            &&& installation.stage == InstallStage::Checkpoint ==> next.stage
                == InstallStage::Register
        }),
{
}

/// An installed session is served: under its identity, in the building mode, with nothing
/// outstanding, and holding all that it has to give back.
pub proof fn law_installed_sessions_are_served(
    server: &mut Server,
    session_id: String,
    channel: u64,
    mcp: bool,
    version: u64,
)
    requires
        call_ensures(Server::install_session, (server, session_id, channel, mcp, version), ()),
    ensures
        only_session_differs(*old(server), *final(server)),
        final(server).session matches Some(session) && {
            &&& session.session_id == session_id
            &&& session.channel == channel
            &&& session.mode is Build
            &&& session.pending@.operation is None
            &&& session.pending@.retired_primary_run is None
            &&& session.pending@.permissions.len() == 0
            &&& session.pending@.elicitation is None
            &&& session.projection matches Some(seen) && seen.supports_boolean == old(
                server).supports_boolean && seen.emitted_version == version
            &&& session.coordinator
            &&& session.checkpoint
            &&& session.mcp == mcp
            &&& session.lock
        },
{
}

/// One action, where it is owed.
pub open spec fn if_owed(owed: bool, action: CloseAction) -> Seq<CloseAction> {
    if owed {
        seq![action]
    } else {
        seq![]
    }
}

/// What is given back of a session, in order: its task, its coordinator, its log, what watches it,
/// its servers, and its lock last.
pub open spec fn back_of(session: SessionRecord) -> Seq<CloseAction> {
    seq![CloseAction::CancelTask] + if_owed(session.coordinator, CloseAction::CloseCoordinator)
        + if_owed(session.checkpoint, CloseAction::DrainCheckpoint)
        + seq![CloseAction::CancelProjections] + if_owed(session.mcp, CloseAction::ShutdownMcp)
        + if_owed(session.lock, CloseAction::ReleaseLock)
}

/// So many prompts of a session are answered when it closes.
pub open spec fn prompts_of(session: SessionRecord) -> int {
    if session.pending@.operation is Some {
        1
    } else {
        0
    }
}

/// A session closes: its prompt is answered as cancelled, then every open question is denied or
/// dismissed, and then all that it holds is given back.
pub open spec fn is_closed_by(session: SessionRecord, actions: Seq<CloseAction>) -> bool {
    let prompts = prompts_of(session);
    exists|answers: Seq<Answer>|
        {
            &&& #[trigger] outstanding::all_denied(
                answers,
                session.pending@.permissions,
                session.pending@.elicitation,
                session.channel,
            )
            &&& actions.len() == prompts + answers.len() + back_of(session).len()
            &&& forall|i: int|
                0 <= i < answers.len() ==> #[trigger] actions[prompts + i] == CloseAction::Act(
                    Action::Reply(answers[i]),
                )
            &&& actions.skip(prompts + answers.len()) == back_of(session)
            &&& session.pending@.operation is Some ==> (actions[0] matches CloseAction::Act(
                Action::Respond { id, end },
            ) && id == session.pending@.operation->0.request_id && end == PromptEnd::Stopped(
                StopReason::Cancelled,
            ))
        }
}

/// What a session that closes owes.
pub proof fn lemma_closes(served: SessionRecord, actions: Seq<CloseAction>)
    requires
        session::closes(served, actions),
    ensures
        is_closed_by(served, actions),
{
    let prompts = prompts_of(served);
    let back = session::given_back(served);
    assert(back =~= back_of(served));
    let answers = choose|answers: Seq<Answer>|
        {
            &&& #[trigger] pending::voids(
                answers,
                served.pending@.permissions,
                served.pending@.elicitation,
                served.channel,
            )
            &&& answers.len() == actions.len() - back.len() - prompts
            &&& forall|i: int|
                0 <= i < answers.len() ==> #[trigger] actions[prompts + i] == CloseAction::Act(
                    Action::Reply(answers[i]),
                )
        };
    assert(outstanding::all_denied(
        answers,
        served.pending@.permissions,
        served.pending@.elicitation,
        served.channel,
    ));
}

/// Closing leaves no session, and owes what a session owes; where there was none it owes nothing.
pub proof fn law_closing_owes_everything(server: &mut Server, actions: Vec<CloseAction>)
    requires
        call_ensures(Server::close_session, (server,), actions),
    ensures
        only_session_differs(*old(server), *final(server)),
        final(server).session is None,
        old(server).session is None ==> actions@.len() == 0,
        old(server).session matches Some(served) ==> is_closed_by(served, actions@),
{
    if old(server).session is Some {
        lemma_closes(old(server).session->0, actions@);
    }
}

/// A stored session is read exactly where it can be loaded, sessions have a directory and it is not
/// open elsewhere; then everything is as it was recorded, and only an absolute directory is taken
/// over. Each refusal says what stood against it.
pub open spec fn is_read(
    session_id: Seq<char>,
    loaded: Result<StoredSession, String>,
    directory: Result<(), String>,
    elsewhere: Option<String>,
    read: Result<Restored, AcpError>,
) -> bool {
    &&& read is Ok <==> loaded is Ok && directory is Ok && elsewhere is None
    &&& read matches Ok(restored) ==> {
        let stored = loaded->Ok_0;
        &&& restored.history@ == stored.history@
        &&& restored.model@ == stored.model@
        &&& restored.meta == stored.meta
        &&& stored.cwd_is_absolute ==> (restored.cwd matches Some(cwd) && cwd@ == stored.cwd@)
        &&& !stored.cwd_is_absolute ==> restored.cwd is None
    }
    &&& read matches Err(error) ==> {
        &&& loaded matches Err(reason) ==> error.code == -32002 && error.message@
            == "Resource not found"@ && (error.data matches ErrorData::Text(text) && text@
            == reason@)
        &&& loaded is Ok && directory is Err ==> pump::explained(
            error,
            -32603,
            "Internal error"@,
            directory->Err_0@,
        )
        &&& loaded is Ok && directory is Ok && elsewhere is Some ==> pump::explained(
            error,
            -32603,
            "Internal error"@,
            elsewhere->0@,
        )
    }
}

/// A stored session is read as it was recorded, or refused.
pub proof fn law_stored_sessions_are_read(
    session_id: &str,
    loaded: Result<StoredSession, String>,
    directory: Result<(), String>,
    elsewhere: Option<String>,
    read: Result<Restored, AcpError>,
)
    requires
        call_ensures(load_history_from, (session_id, loaded, directory, elsewhere), read),
    ensures
        is_read(session_id@, loaded, directory, elsewhere, read),
{
}

/// A session that does not exist is named in the error, and a loaded one works in the directory
/// that it was recorded in, or else in the client's.
pub proof fn law_unknown_sessions_are_named(
    session_id: String,
    error: AcpError,
    recorded: Option<&str>,
    client: &str,
    cwd: String,
)
    requires
        call_ensures(unknown_session, (session_id,), error),
        call_ensures(effective_session_cwd, (recorded, client), cwd),
    ensures
        error.code == -32002,
        error.message@ == "Resource not found"@,
        error.data matches ErrorData::Uri(uri) && uri@ == session_id@,
        recorded is Some ==> cwd@ == recorded->0@,
        recorded is None ==> cwd@ == client@,
{
}

/// How a loaded session starts: as it was recorded, with the recorded model where it is known and
/// allowed, and without what that model cannot do.
pub open spec fn starts_as_recorded(
    restored: Restored,
    recorded: Option<ModelFacts>,
    allowed: bool,
    fallback: ModelFacts,
    client_cwd: Seq<char>,
    yolo: bool,
    defaults: SessionDefaults,
    plan: RestorePlan,
) -> bool {
    &&& plan.history@ == restored.history@
    &&& plan.options@ == restored.meta.options@
    &&& recorded is Some && allowed ==> plan.model == recorded->0
    &&& recorded is None || !allowed ==> plan.model == fallback
    &&& restored.cwd is Some ==> plan.cwd@ == restored.cwd->0@
    &&& restored.cwd is None ==> plan.cwd@ == client_cwd
    &&& restored.meta.yolo is Some ==> plan.yolo == restored.meta.yolo->0
    &&& restored.meta.yolo is None ==> plan.yolo == yolo
    &&& plan.fast <==> restored.meta.fast && plan.model.supports_fast
    &&& plan.workflow == restored.meta.workflow
    &&& restored.meta.thinking is Some && plan.model.supports_thinking ==> plan.thinking
        == restored.meta.thinking->0
    &&& restored.meta.thinking is None || !plan.model.supports_thinking ==> plan.thinking
        == ThinkingConfig::Off
    &&& plan.defaults.thinking == defaults.thinking
    &&& plan.defaults.fast <==> defaults.fast || plan.fast
    &&& plan.defaults.workflow <==> defaults.workflow || plan.workflow
}

/// A loaded session starts as it was recorded.
pub proof fn law_loaded_sessions_start_as_recorded(
    restored: Restored,
    recorded: Option<ModelFacts>,
    allowed: bool,
    fallback: ModelFacts,
    client_cwd: &str,
    yolo: bool,
    defaults: SessionDefaults,
    plan: RestorePlan,
    step: RestoreStep,
)
    requires
        call_ensures(
            load_session,
            (restored, recorded, allowed, fallback, client_cwd, yolo, defaults),
            plan,
        ),
        call_ensures(
            restore_closed,
            (restored, recorded, allowed, fallback, client_cwd, yolo, defaults),
            step,
        ),
    ensures
        starts_as_recorded(
            restored,
            recorded,
            allowed,
            fallback,
            client_cwd@,
            yolo,
            defaults,
            plan,
        ),
        step matches RestoreStep::Start(started) && starts_as_recorded(
            restored,
            recorded,
            allowed,
            fallback,
            client_cwd@,
            yolo,
            defaults,
            started,
        ),
{
}

/// A new session starts with the server's model and settings, without a conversation, and with
/// every option off.
pub proof fn law_new_sessions_start_empty(
    model: ModelFacts,
    client_cwd: &str,
    yolo: bool,
    defaults: SessionDefaults,
    plan: RestorePlan,
)
    requires
        call_ensures(new_session, (model, client_cwd, yolo, defaults), plan),
    ensures
        plan.history@.len() == 0,
        plan.options@.len() == 0,
        plan.model == model,
        plan.cwd@ == client_cwd@,
        plan.yolo == yolo,
        !plan.fast,
        !plan.workflow,
        plan.thinking is Off,
        plan.defaults == defaults,
{
}

/// Questions are put as forms exactly to clients that fill in forms; a lock is renewed until it has
/// been given back or lost; and policy trusts a directory only where nobody has decided on it.
pub proof fn law_what_a_session_may_do(
    elicitation: bool,
    mode: QuestionMode,
    stopped: bool,
    beat: LockBeat,
    beats: bool,
    recorded: TrustRecord,
    granted: bool,
    trusts: bool,
)
    requires
        call_ensures(question_mode, (elicitation,), mode),
        call_ensures(keeps_beating, (stopped, beat), beats),
        call_ensures(policy_trusts, (recorded, granted), trusts),
    ensures
        mode == QuestionMode::Elicitation <==> elicitation,
        mode == QuestionMode::Headless <==> !elicitation,
        beats <==> !stopped && beat != LockBeat::Lost,
        trusts <==> recorded == TrustRecord::Unanswered && granted,
{
}

/// A session that was looked up and can be read takes the place of the one that was served, which
/// closes first; where it cannot be read the request is refused, nothing is taken back and the one
/// that was served stays.
pub proof fn law_found_sessions_replace_the_served_one(
    server: &mut Server,
    session_id: &str,
    found: Option<Found>,
    step: RestoreStep,
)
    requires
        call_ensures(Server::restore_found, (server, session_id, found), step),
    ensures
        match step {
            RestoreStep::Close { restored, actions } => {
                &&& found is Some
                &&& is_read(
                    session_id@,
                    found->0.loaded,
                    found->0.directory,
                    found->0.elsewhere,
                    Ok(restored),
                )
                &&& only_session_differs(*old(server), *final(server))
                &&& final(server).session is None
                &&& old(server).session is None ==> actions@.len() == 0
                &&& old(server).session matches Some(served) ==> is_closed_by(served, actions@)
            },
            RestoreStep::Refused { error, rollback } => {
                &&& rollback@.len() == 0
                &&& *final(server) == *old(server)
                &&& found is None ==> error.code == -32002 && (error.data matches ErrorData::Uri(uri)
                    && uri@ == session_id@)
                &&& found is Some ==> is_read(
                    session_id@,
                    found->0.loaded,
                    found->0.directory,
                    found->0.elsewhere,
                    Err(error),
                )
            },
            _ => false,
        },
{
    if step is Close && old(server).session is Some {
        lemma_closes(old(server).session->0, step->Close_actions@);
    }
}

/// A load goes on stage by stage, is refused for the reason of the stage that failed, and shows the
/// conversation only once everything is in place.
pub proof fn law_loads_go_on_stage_by_stage(
    plan: RestorePlan,
    end: InstallStep,
    step: RestoreStep,
)
    requires
        call_ensures(restore_installed, (plan, end), step),
    ensures
        match end {
            InstallStep::Next(next) => step matches RestoreStep::Install {
                plan: kept,
                installation,
            } && kept == plan && installation == next,
            InstallStep::Failed { error: reason, rollback: back } => {
                step matches RestoreStep::Refused { error, rollback } && rollback@ == back@
                    && pump::explained(error, -32603, "Internal error"@, reason@)
            },
            InstallStep::Ready { .. } => step matches RestoreStep::Replay(kept) && kept == plan,
        },
{
}

} // verus!
