//! How a session comes into being, is restored, and closes.
use vstd::prelude::*;

use crate::acp::error;
use crate::acp::error::{AcpError, ErrorData};
use crate::acp::options::OptionProjection;
use crate::acp::pending;
use crate::acp::pending::Pending;
use crate::acp::server;
use crate::acp::server::{Server, SessionRecord};
use crate::acp::updates;
use crate::acp::updates::{Action, EndView, PromptEnd, StopReason};
use crate::text::joined;
use crate::types::{AgentMode, Message, SessionDefaults, ThinkingConfig};

verus! {

/// What the host does for a session that comes into being, in this order.
#[derive(Debug, Clone, Copy, PartialEq, Eq, Structural)]
pub enum InstallStage {
    /// Makes sure that there is a directory for sessions.
    SessionsDirectory,
    /// Claims the session's lock.
    Lock,
    /// Opens the session's log.
    Checkpoint,
    /// Registers the session's coordinator.
    Register,
}

/// What the host does to take an installation back.
#[derive(Debug, Clone, Copy, PartialEq, Eq, Structural)]
pub enum RollbackAction {
    CancelTask,
    ShutdownMcp,
    ReleaseLock,
}

/// A session that is being installed.
#[derive(Debug)]
pub struct Installation {
    pub stage: InstallStage,
    pub session_id: String,
    pub channel: u64,
    pub mcp: bool,
}

/// What comes of a stage.
#[derive(Debug)]
pub enum InstallStep {
    /// The next stage begins.
    Next(Installation),
    /// The installation has failed and is taken back.
    Failed { error: String, rollback: Vec<RollbackAction> },
    /// Everything is in place.
    Ready { session_id: String, channel: u64, mcp: bool },
}

/// The stage that follows another.
pub open spec fn next_stage(stage: InstallStage) -> Option<InstallStage> {
    match stage {
        InstallStage::SessionsDirectory => Some(InstallStage::Lock),
        InstallStage::Lock => Some(InstallStage::Checkpoint),
        InstallStage::Checkpoint => Some(InstallStage::Register),
        InstallStage::Register => None,
    }
}

/// The session's lock has been claimed before a stage.
pub open spec fn locked_before(stage: InstallStage) -> bool {
    stage == InstallStage::Checkpoint || stage == InstallStage::Register
}

/// What takes an installation back that fails at a stage: the agent's task is cancelled, outside
/// servers are shut down if there are any, and the lock is given back if it was claimed.
pub open spec fn rollback_actions(stage: InstallStage, mcp: bool) -> Seq<RollbackAction> {
    let stopped = if mcp {
        seq![RollbackAction::CancelTask, RollbackAction::ShutdownMcp]
    } else {
        seq![RollbackAction::CancelTask]
    };
    if locked_before(stage) {
        stopped.push(RollbackAction::ReleaseLock)
    } else {
        stopped
    }
}

/// What takes an installation back.
fn rollback_install(stage: InstallStage, mcp: bool) -> (result: Vec<RollbackAction>)
    ensures
        result@ == rollback_actions(stage, mcp),
{
    let mut actions: Vec<RollbackAction> = Vec::new();
    actions.push(RollbackAction::CancelTask);
    if mcp {
        actions.push(RollbackAction::ShutdownMcp);
    }
    match stage {
        InstallStage::SessionsDirectory => {},
        InstallStage::Lock => {},
        InstallStage::Checkpoint => {
            actions.push(RollbackAction::ReleaseLock);
        },
        InstallStage::Register => {
            actions.push(RollbackAction::ReleaseLock);
        },
    }
    assert(actions@ =~= rollback_actions(stage, mcp));
    actions
}

/// What comes of a stage.
pub open spec fn advanced(
    installation: Installation,
    outcome: Result<(), String>,
    step: InstallStep,
) -> bool {
    match outcome {
        Err(reason) => step matches InstallStep::Failed { error, rollback } && error == reason
            && rollback@ == rollback_actions(installation.stage, installation.mcp),
        Ok(_) => match next_stage(installation.stage) {
            Some(stage) => step == InstallStep::Next(Installation { stage, ..installation }),
            None => step == (InstallStep::Ready {
                session_id: installation.session_id,
                channel: installation.channel,
                mcp: installation.mcp,
            }),
        },
    }
}

impl Installation {
    /// A session that begins to be installed.
    pub fn begin(session_id: String, channel: u64, mcp: bool) -> (result: Self)
        ensures
            result.stage == InstallStage::SessionsDirectory,
            result.session_id == session_id,
            result.channel == channel,
            result.mcp == mcp,
    {
        Installation { stage: InstallStage::SessionsDirectory, session_id, channel, mcp }
    }

    /// Goes on with the installation once a stage has been carried out.
    pub fn advance(self, outcome: Result<(), String>) -> (result: InstallStep)
        ensures
            advanced(self, outcome, result),
    {
        let Installation { stage, session_id, channel, mcp } = self;
        match outcome {
            Err(error) => InstallStep::Failed { error, rollback: rollback_install(stage, mcp) },
            Ok(()) => match stage {
                InstallStage::SessionsDirectory => InstallStep::Next(
                    Installation { stage: InstallStage::Lock, session_id, channel, mcp },
                ),
                InstallStage::Lock => InstallStep::Next(
                    Installation { stage: InstallStage::Checkpoint, session_id, channel, mcp },
                ),
                InstallStage::Checkpoint => InstallStep::Next(
                    Installation { stage: InstallStage::Register, session_id, channel, mcp },
                ),
                InstallStage::Register => InstallStep::Ready { session_id, channel, mcp },
            },
        }
    }
}

/// A session as it is when it has just been installed.
pub open spec fn fresh_session(
    session: SessionRecord,
    session_id: String,
    channel: u64,
    mcp: bool,
    supports_boolean: bool,
    version: u64,
) -> bool {
    &&& session.session_id == session_id
    &&& session.pending@ == pending::nothing_pending()
    &&& session.channel == channel
    &&& session.mode == AgentMode::Build
    &&& session.projection == Some(
        OptionProjection { supports_boolean, emitted_version: version },
    )
    &&& session.coordinator
    &&& session.checkpoint
    &&& session.mcp == mcp
    &&& session.lock
}

/// What the host does for a session that closes.
#[derive(Debug)]
pub enum CloseAction {
    /// Answers the prompt and the questions that were open.
    Act(Action),
    CancelTask,
    CloseCoordinator,
    DrainCheckpoint,
    CancelProjections,
    ShutdownMcp,
    ReleaseLock,
}

/// The last of what the host does for a session that closes: it gives back what the session holds,
/// in order, each thing once.
pub open spec fn given_back(session: SessionRecord) -> Seq<CloseAction> {
    let cancelled = seq![CloseAction::CancelTask];
    let closed = if session.coordinator {
        cancelled.push(CloseAction::CloseCoordinator)
    } else {
        cancelled
    };
    let drained = if session.checkpoint {
        closed.push(CloseAction::DrainCheckpoint)
    } else {
        closed
    };
    let unwatched = drained.push(CloseAction::CancelProjections);
    let shut = if session.mcp {
        unwatched.push(CloseAction::ShutdownMcp)
    } else {
        unwatched
    };
    if session.lock {
        shut.push(CloseAction::ReleaseLock)
    } else {
        shut
    }
}

/// How many prompts are answered when a session closes: the active one, if there is one.
pub open spec fn prompts_answered(session: SessionRecord) -> int {
    if session.pending@.operation is Some {
        1
    } else {
        0
    }
}

/// What the host does for a session that closes: the active prompt is answered as cancelled, open
/// questions are voided, and what the session holds is given back.
pub open spec fn closes(session: SessionRecord, actions: Seq<CloseAction>) -> bool {
    let prompts = prompts_answered(session);
    let back = given_back(session);
    let first = actions.len() - back.len();
    &&& first >= prompts
    &&& actions.skip(first) == back
    &&& session.pending@.operation is Some ==> (actions[0] matches CloseAction::Act(action)
        && updates::answers_prompt(
        action,
        session.pending@.operation->0.request_id,
        EndView::Stopped(StopReason::Cancelled),
    ))
    &&& exists|answers: Seq<pending::Answer>|
        {
            &&& #[trigger] pending::voids(
                answers,
                session.pending@.permissions,
                session.pending@.elicitation,
                session.channel,
            )
            &&& answers.len() == first - prompts
            &&& forall|i: int|
                0 <= i < answers.len() ==> #[trigger] actions[prompts + i] == CloseAction::Act(
                    Action::Reply(answers[i]),
                )
        }
}

/// What gives back what a session holds.
fn give_back(coordinator: bool, checkpoint: bool, mcp: bool, lock: bool) -> (result: Vec<
    CloseAction,
>)
    ensures
        forall|session: SessionRecord|
            session.coordinator == coordinator && session.checkpoint == checkpoint && session.mcp
                == mcp && session.lock == lock ==> result@ == #[trigger] given_back(session),
{
    let mut actions: Vec<CloseAction> = Vec::new();
    actions.push(CloseAction::CancelTask);
    if coordinator {
        actions.push(CloseAction::CloseCoordinator);
    }
    if checkpoint {
        actions.push(CloseAction::DrainCheckpoint);
    }
    actions.push(CloseAction::CancelProjections);
    if mcp {
        actions.push(CloseAction::ShutdownMcp);
    }
    if lock {
        actions.push(CloseAction::ReleaseLock);
    }
    assert forall|session: SessionRecord|
        session.coordinator == coordinator && session.checkpoint == checkpoint && session.mcp
            == mcp && session.lock == lock implies actions@ == #[trigger] given_back(session) by {
        assert(actions@ =~= given_back(session));
    }
    actions
}

impl Server {
    /// Makes an installed session the one that is served. It begins in the building mode, with
    /// nothing outstanding, and its client has seen the options of the given version.
    pub fn install_session(&mut self, session_id: String, channel: u64, mcp: bool, version: u64)
        ensures
            server::same_server(*final(self), *old(self)),
            final(self).session is Some,
            fresh_session(
                final(self).session->0,
                session_id,
                channel,
                mcp,
                old(self).supports_boolean,
                version,
            ),
    {
        self.session = Some(
            SessionRecord {
                session_id,
                pending: Pending::new(),
                channel,
                mode: AgentMode::Build,
                projection: Some(
                    OptionProjection {
                        supports_boolean: self.supports_boolean,
                        emitted_version: version,
                    },
                ),
                coordinator: true,
                checkpoint: true,
                mcp,
                lock: true,
            },
        );
    }

    /// Closes the session that is served, if there is one.
    pub fn close_session(&mut self) -> (result: Vec<CloseAction>)
        ensures
            server::same_server(*final(self), *old(self)),
            final(self).session is None,
            match old(self).session {
                None => result@.len() == 0,
                Some(session) => closes(session, result@),
            },
    {
        let mut actions: Vec<CloseAction> = Vec::new();
        let session = match self.session.take() {
            None => {
                return actions;
            },
            Some(session) => session,
        };
        let ghost before = session;
        let mut session = session;
        let channel: u64 = session.channel;
        let (request_id, answers) = session.pending.close(channel);
        let ghost voided = answers@;
        let ghost prompts: int = if before.pending@.operation is Some {
            1
        } else {
            0
        };
        match request_id {
            Some(id) => {
                actions.push(
                    CloseAction::Act(
                        Action::Respond { id, end: PromptEnd::Stopped(StopReason::Cancelled) },
                    ),
                );
            },
            None => {},
        }
        let ghost head = actions@;
        let mut rest = crate::text_map::reversed(answers);
        let ghost mut done: int = 0;
        while rest.len() > 0
            invariant
                0 <= done <= voided.len(),
                head.len() == prompts,
                rest@.len() == voided.len() - done,
                forall|j: int|
                    0 <= j < rest@.len() ==> rest@[j] == voided[voided.len() - 1 - j],
                actions@.len() == prompts + done,
                actions@.take(prompts) == head,
                forall|i: int|
                    0 <= i < done ==> #[trigger] actions@[prompts + i] == CloseAction::Act(
                        Action::Reply(voided[i]),
                    ),
            decreases rest@.len(),
        {
            match rest.pop() {
                Some(answer) => {
                    assert(answer == voided[done]);
                    let ghost shorter = actions@;
                    actions.push(CloseAction::Act(Action::Reply(answer)));
                    assert(actions@.take(prompts) =~= shorter.take(prompts));
                    proof {
                        done = done + 1;
                    }
                },
                None => {},
            }
        }
        let ghost answered = actions@;
        let mut back = give_back(session.coordinator, session.checkpoint, session.mcp, session.lock);
        proof {
            assert(back@ == given_back(before));
        }
        actions.append(&mut back);
        proof {
            assert(actions@.skip(answered.len() as int) =~= given_back(before));
            assert(actions@.take(prompts) =~= head) by {
                assert(answered.take(prompts) == head);
                assert forall|i: int| 0 <= i < prompts implies actions@[i] == head[i] by {
                    assert(answered.take(prompts)[i] == answered[i]);
                }
            }
            if prompts == 1 {
                assert(actions@.take(prompts)[0] == actions@[0]);
            }
            assert(pending::voids(
                voided,
                before.pending@.permissions,
                before.pending@.elicitation,
                before.channel,
            ));
            assert forall|i: int| 0 <= i < voided.len() implies #[trigger] actions@[prompts + i]
                == CloseAction::Act(Action::Reply(voided[i])) by {
                assert(answered[prompts + i] == CloseAction::Act(Action::Reply(voided[i])));
            }
        }
        actions
    }
}

/// What a stored session remembers of its options.
#[derive(Debug)]
pub struct StoredMeta {
    pub yolo: Option<bool>,
    pub fast: bool,
    pub workflow: bool,
    pub thinking: Option<ThinkingConfig>,
    pub options: Vec<(String, String)>,
}

/// A stored session: its conversation, the model it was recorded with, the directory it was
/// recorded in, and its options.
#[derive(Debug)]
pub struct StoredSession {
    pub history: Vec<Message>,
    pub model: String,
    pub cwd: String,
    pub cwd_is_absolute: bool,
    pub meta: StoredMeta,
}

/// A session that has been read from storage.
#[derive(Debug)]
pub struct Restored {
    pub history: Vec<Message>,
    pub model: String,
    pub cwd: Option<String>,
    pub meta: StoredMeta,
}

/// The error with which a session that was found in storage is refused: one that cannot be loaded
/// does not exist, one whose directory cannot be had cannot be served, and one that is open
/// elsewhere is refused with the given words.
pub open spec fn read_refusal(
    session_id: Seq<char>,
    loaded: Result<StoredSession, String>,
    sessions_dir: Result<(), String>,
    open_elsewhere: Option<String>,
) -> Option<error::ErrorView> {
    match loaded {
        Err(reason) => Some(
            error::ErrorView {
                data: error::DataView::Text(reason@),
                ..error::not_found_view("session/"@ + session_id)
            },
        ),
        Ok(_) => match sessions_dir {
            Err(reason) => Some(error::internal_error_because(reason@)),
            Ok(_) => match open_elsewhere {
                Some(message) => Some(error::internal_error_because(message@)),
                None => None,
            },
        },
    }
}

/// What is read of a stored session. A directory that is not absolute is not restored.
pub open spec fn read_from(stored: StoredSession, restored: Restored) -> bool {
    &&& restored.history == stored.history
    &&& restored.model == stored.model
    &&& restored.cwd == (if stored.cwd_is_absolute {
        Some(stored.cwd)
    } else {
        None
    })
    &&& restored.meta == stored.meta
}

/// Reads a session from storage, or refuses it.
pub fn load_history_from(
    session_id: &str,
    loaded: Result<StoredSession, String>,
    sessions_dir: Result<(), String>,
    open_elsewhere: Option<String>,
) -> (result: Result<Restored, AcpError>)
    ensures
        match read_refusal(session_id@, loaded, sessions_dir, open_elsewhere) {
            Some(view) => result is Err && result->Err_0@ == view,
            None => result matches Ok(restored) && read_from(loaded->Ok_0, restored),
        },
{
    let stored = match loaded {
        Ok(stored) => stored,
        Err(reason) => {
            return Err(
                AcpError::resource_not_found(joined("session/", session_id)).data(
                    ErrorData::Text(reason),
                ),
            );
        },
    };
    match sessions_dir {
        Ok(()) => {},
        Err(reason) => {
            return Err(AcpError::internal_error().data(ErrorData::Text(reason)));
        },
    }
    match open_elsewhere {
        Some(message) => {
            return Err(AcpError::internal_error().data(ErrorData::Text(message)));
        },
        None => {},
    }
    let cwd = if stored.cwd_is_absolute { Some(stored.cwd) } else { None };
    Ok(Restored { history: stored.history, model: stored.model, cwd, meta: stored.meta })
}

/// The error that the session a client wants to load does not exist.
pub fn unknown_session(session_id: String) -> (result: AcpError)
    ensures
        result@ == error::not_found_view(session_id@),
{
    AcpError::resource_not_found(session_id)
}

/// The directory a loaded session works in: the one it was recorded in, or the client's.
pub fn effective_session_cwd(restored: Option<&str>, client: &str) -> (result: String)
    ensures
        result@ == (match restored {
            Some(cwd) => cwd@,
            None => client@,
        }),
{
    match restored {
        Some(cwd) => cwd.to_owned(),
        None => client.to_owned(),
    }
}

/// What a model can do.
#[derive(Debug, PartialEq, Eq)]
pub struct ModelFacts {
    pub spec: String,
    pub supports_fast: bool,
    pub supports_thinking: bool,
}

/// How a session starts: the conversation that it goes on with, and what it is set to.
#[derive(Debug)]
pub struct RestorePlan {
    pub history: Vec<Message>,
    pub options: Vec<(String, String)>,
    pub model: ModelFacts,
    pub cwd: String,
    pub yolo: bool,
    pub fast: bool,
    pub workflow: bool,
    pub thinking: ThinkingConfig,
    pub defaults: SessionDefaults,
}

/// The model that a loaded session starts with: the recorded one, if it is known and policy allows
/// it, and otherwise the server's.
pub open spec fn restored_model(recorded: Option<ModelFacts>, allowed: bool, fallback: ModelFacts)
    -> ModelFacts {
    match recorded {
        Some(model) if allowed => model,
        _ => fallback,
    }
}

/// How a loaded session starts: what its model cannot do is off, what was recorded stands before
/// the server's settings, and the session's defaults are widened by what was recorded.
pub open spec fn restores(
    restored: Restored,
    model: ModelFacts,
    client_cwd: Seq<char>,
    yolo: bool,
    defaults: SessionDefaults,
    plan: RestorePlan,
) -> bool {
    &&& plan.history == restored.history
    &&& plan.options == restored.meta.options
    &&& plan.model == model
    &&& plan.cwd@ == (match restored.cwd {
        Some(cwd) => cwd@,
        None => client_cwd,
    })
    &&& plan.yolo == (match restored.meta.yolo {
        Some(recorded) => recorded,
        None => yolo,
    })
    &&& plan.fast == (restored.meta.fast && model.supports_fast)
    &&& plan.workflow == restored.meta.workflow
    &&& plan.thinking == (match restored.meta.thinking {
        Some(thinking) if model.supports_thinking => thinking,
        _ => ThinkingConfig::Off,
    })
    &&& plan.defaults == (SessionDefaults {
        fast: defaults.fast || plan.fast,
        workflow: defaults.workflow || plan.workflow,
        ..defaults
    })
}

/// Says how a loaded session starts.
pub fn load_session(
    restored: Restored,
    recorded: Option<ModelFacts>,
    allowed: bool,
    fallback: ModelFacts,
    client_cwd: &str,
    yolo: bool,
    defaults: SessionDefaults,
) -> (result: RestorePlan)
    ensures
        restores(
            restored,
            restored_model(recorded, allowed, fallback),
            client_cwd@,
            yolo,
            defaults,
            result,
        ),
{
    let model = if allowed {
        match recorded {
            Some(model) => model,
            None => fallback,
        }
    } else {
        fallback
    };
    let cwd = match &restored.cwd {
        Some(cwd) => effective_session_cwd(Some(cwd.as_str()), client_cwd),
        None => effective_session_cwd(None, client_cwd),
    };
    let fast = restored.meta.fast && model.supports_fast;
    let workflow = restored.meta.workflow;
    let thinking = if model.supports_thinking {
        match restored.meta.thinking {
            Some(thinking) => thinking,
            None => ThinkingConfig::Off,
        }
    } else {
        ThinkingConfig::Off
    };
    let mut widened = defaults;
    widened.fast = widened.fast || fast;
    widened.workflow = widened.workflow || workflow;
    RestorePlan {
        history: restored.history,
        options: restored.meta.options,
        model,
        cwd,
        yolo: match restored.meta.yolo {
            Some(recorded) => recorded,
            None => yolo,
        },
        fast,
        workflow,
        thinking,
        defaults: widened,
    }
}

/// Says how a new session starts: with the server's model and settings, and every option off.
pub fn new_session(model: ModelFacts, client_cwd: &str, yolo: bool, defaults: SessionDefaults)
    -> (result: RestorePlan)
    ensures
        result.history@ == Seq::<Message>::empty(),
        result.options@ == Seq::<(String, String)>::empty(),
        result.model == model,
        result.cwd@ == client_cwd@,
        result.yolo == yolo,
        !result.fast,
        !result.workflow,
        result.thinking == ThinkingConfig::Off,
        result.defaults == defaults,
{
    RestorePlan {
        history: Vec::new(),
        options: Vec::new(),
        model,
        cwd: client_cwd.to_owned(),
        yolo,
        fast: false,
        workflow: false,
        thinking: ThinkingConfig::Off,
        defaults,
    }
}

/// How an agent's questions are put.
#[derive(Debug, Clone, Copy, PartialEq, Eq, Structural)]
pub enum QuestionMode {
    /// As a form that the client fills in.
    Elicitation,
    /// Not at all.
    Headless,
}

/// How the questions of a session's agent are put: as forms, where the client fills in forms.
pub fn question_mode(elicitation: bool) -> (result: QuestionMode)
    ensures
        result == (if elicitation {
            QuestionMode::Elicitation
        } else {
            QuestionMode::Headless
        }),
{
    if elicitation {
        QuestionMode::Elicitation
    } else {
        QuestionMode::Headless
    }
}

/// What came of renewing a session's lock.
#[derive(Debug, Clone, Copy, PartialEq, Eq, Structural)]
pub enum LockBeat {
    Claimed,
    Held,
    Lost,
    Failed,
}

/// Whether the lock is renewed again: not once the session has given it back, and not once another
/// has it. A renewal that fails is tried again.
pub fn keeps_beating(stopped: bool, beat: LockBeat) -> (result: bool)
    ensures
        result == (!stopped && beat != LockBeat::Lost),
{
    !stopped && beat != LockBeat::Lost
}

/// What is recorded of a directory: whether its project is trusted.
#[derive(Debug, Clone, Copy, PartialEq, Eq, Structural)]
pub enum TrustRecord {
    Trusted,
    Rejected,
    Unanswered,
}

/// Whether the trust policy makes a directory trusted: only where nothing is recorded of it, so that
/// a rejection stands.
pub fn policy_trusts(recorded: TrustRecord, granted: bool) -> (result: bool)
    ensures
        result == (recorded == TrustRecord::Unanswered && granted),
{
    recorded == TrustRecord::Unanswered && granted
}

/// A session that fails to be installed leaves the server without it, stops the agent's task
/// first, and gives the lock back exactly where it was claimed.
pub proof fn law_failed_install_is_taken_back(
    installation: Installation,
    reason: String,
    step: InstallStep,
)
    requires
        advanced(installation, Err(reason), step),
    ensures
        step is Failed,
        step->error == reason,
        step->rollback@[0] == RollbackAction::CancelTask,
        installation.mcp <==> step->rollback@.contains(RollbackAction::ShutdownMcp),
        locked_before(installation.stage) <==> step->rollback@.contains(
            RollbackAction::ReleaseLock,
        ),
{
    let actions = step->rollback@;
    let stopped = if installation.mcp {
        seq![RollbackAction::CancelTask, RollbackAction::ShutdownMcp]
    } else {
        seq![RollbackAction::CancelTask]
    };
    if installation.mcp {
        assert(actions[1] == RollbackAction::ShutdownMcp);
    }
    if locked_before(installation.stage) {
        assert(actions[stopped.len() as int] == RollbackAction::ReleaseLock);
    }
}

/// A session is ready only once its directory, its lock, its log and its coordinator have been had,
/// in that order: each stage is followed by the next, and the last by nothing.
pub proof fn law_install_takes_every_stage(
    first: Installation,
    second: InstallStep,
    third: InstallStep,
    fourth: InstallStep,
    last: InstallStep,
)
    requires
        first.stage == InstallStage::SessionsDirectory,
        advanced(first, Ok(()), second),
        second is Next ==> advanced(second->Next_0, Ok(()), third),
        third is Next ==> advanced(third->Next_0, Ok(()), fourth),
        fourth is Next ==> advanced(fourth->Next_0, Ok(()), last),
    ensures
        second is Next && second->Next_0.stage == InstallStage::Lock,
        third is Next && third->Next_0.stage == InstallStage::Checkpoint,
        fourth is Next && fourth->Next_0.stage == InstallStage::Register,
        last is Ready,
        last->session_id == first.session_id,
{
}

} // verus!
