//! The server's side of the client protocol: which request a line is, and what each is answered.
use agent_client_protocol_schema::v1;
use vstd::prelude::*;

use crate::acp::error;
use crate::acp::error::{coordinator_error, no_session, AcpError, CoordinatorError, ErrorData};
use crate::acp::methods;
use crate::acp::methods::mode_id_to_agent_mode;
use crate::acp::options;
use crate::acp::options::{
    session_config_options, toggle_text, ConfigOption, OptionProjection, ProjectedOptions,
    SessionOptionsSnapshot,
};
use crate::acp::pending;
use crate::acp::pending::{Answer, Cancellation, ClientResponse, Pending, RequestId, SentId};
use crate::acp::prompt;
use crate::acp::prompt::{extract_prompt_content, PromptBlock};
use crate::acp::updates;
use crate::acp::updates::{Action, EndView, PromptEnd, SessionUpdate, StopReason};
use crate::agent::modes::ModeDef;
use crate::json;
use crate::json::{as_integer, as_text, at_pointer, is_object, member, parse_json};
use crate::text;
use crate::text::{joined, same_text, trim_text};
use crate::types::{AgentMode, AgentTurn, CommandContent, SessionDefaults};

verus! {

/// The request identity that a JSON value stands for: a number, a string, or none.
pub open spec fn id_of(value: Seq<char>) -> (Option<i64>, Option<Seq<char>>) {
    match json::json_integer(value) {
        Some(number) => (Some(number), None),
        None => (None, json::json_string(value)),
    }
}

/// A request identity is what a JSON value stands for.
pub open spec fn identifies(id: RequestId, value: Seq<char>) -> bool {
    match id {
        RequestId::Number(number) => id_of(value) == (Some(number), None::<Seq<char>>),
        RequestId::Str(text) => id_of(value) == (None::<i64>, Some(text@)),
        RequestId::Null => id_of(value) == (None::<i64>, None::<Seq<char>>),
    }
}

/// Calls `serde_json::from_value` for the schema crate's `RequestId`, which is read as a number
/// where the value is an integer in the range of `i64`, as a string where it is a string, and as
/// null where it is null; any other value cannot be read and counts as null.
#[verifier::external_body]
fn request_id(value: &serde_json::Value) -> (result: RequestId)
    ensures
        identifies(result, json::json_text(*value)),
{
    match serde_json::from_value::<v1::RequestId>(value.clone()) {
        Ok(v1::RequestId::Null) => RequestId::Null,
        Ok(v1::RequestId::Number(number)) => RequestId::Number(number),
        Ok(v1::RequestId::Str(text)) => RequestId::Str(text),
        Err(_) => RequestId::Null,
    }
}

/// What is read of a JSON message: its identity, whether it answers, and the method it names.
#[derive(Debug, PartialEq, Eq)]
pub struct Frame {
    pub id: Option<RequestId>,
    pub answers: bool,
    pub method: Option<String>,
}

/// What a message is.
#[derive(Debug, PartialEq, Eq)]
pub enum MessageKind {
    /// An answer to a request of the host.
    Response,
    Request { id: RequestId, method: String },
    Notification { method: String },
    /// Neither of these, under an identity that is answered.
    Invalid { id: RequestId },
    /// Neither of these.
    Nothing,
}

/// What a message is.
pub open spec fn message_kind(frame: Frame) -> MessageKind {
    if frame.answers {
        MessageKind::Response
    } else {
        match (frame.method, frame.id) {
            (Some(method), Some(id)) => MessageKind::Request { id, method },
            (Some(method), None) => MessageKind::Notification { method },
            (None, Some(id)) => MessageKind::Invalid { id },
            (None, None) => MessageKind::Nothing,
        }
    }
}

/// What a message is.
pub fn classify(frame: Frame) -> (result: MessageKind)
    ensures
        result == message_kind(frame),
{
    let Frame { id, answers, method } = frame;
    if answers {
        return MessageKind::Response;
    }
    match method {
        Some(method) => match id {
            Some(id) => MessageKind::Request { id, method },
            None => MessageKind::Notification { method },
        },
        None => match id {
            Some(id) => MessageKind::Invalid { id },
            None => MessageKind::Nothing,
        },
    }
}

/// A frame is what is read of a JSON message.
pub open spec fn frames(frame: Frame, message: Seq<char>) -> bool {
    &&& match json::json_member(message, "id"@) {
        Some(id) => frame.id is Some && identifies(frame.id->0, id),
        None => frame.id is None,
    }
    &&& frame.answers == (json::json_member(message, "result"@) is Some || json::json_member(
        message,
        "error"@,
    ) is Some)
    &&& match json::json_member(message, "method"@) {
        Some(method) => match json::json_string(method) {
            Some(name) => frame.method is Some && frame.method->0@ == name,
            None => frame.method is None,
        },
        None => frame.method is None,
    }
}

/// What is read of a JSON message.
fn read_frame(raw: &serde_json::Value) -> (result: Frame)
    ensures
        frames(result, json::json_text(*raw)),
{
    let id = match member(raw, "id") {
        Some(value) => Some(request_id(value)),
        None => None,
    };
    let answers = member(raw, "result").is_some() || member(raw, "error").is_some();
    let method = match member(raw, "method") {
        Some(value) => match as_text(value) {
            Some(name) => Some(name.to_owned()),
            None => None,
        },
        None => None,
    };
    Frame { id, answers, method }
}

/// What a line of input is.
pub enum Line {
    /// White space.
    Blank,
    /// Text that is no JSON, which is answered under no identity.
    Malformed { error: AcpError },
    Message { raw: serde_json::Value, kind: MessageKind },
}

/// Reads a line of input.
pub fn handle_line(line: &str) -> (result: Line)
    ensures
        match result {
            Line::Blank => text::trimmed(line@).len() == 0,
            Line::Malformed { error } => {
                &&& text::trimmed(line@).len() > 0
                &&& json::json_parsed(text::trimmed(line@)) is None
                &&& error@ == error::parse_error_view()
            },
            Line::Message { raw, kind } => {
                &&& text::trimmed(line@).len() > 0
                &&& json::json_parsed(text::trimmed(line@)) == Some(json::json_text(raw))
                &&& exists|frame: Frame| #[trigger]
                    frames(frame, json::json_text(raw)) && kind == message_kind(frame)
            },
        },
{
    let trimmed = trim_text(line);
    if trimmed.as_str().is_empty() {
        return Line::Blank;
    }
    match parse_json(trimmed.as_str()) {
        None => Line::Malformed { error: AcpError::parse_error() },
        Some(raw) => {
            let frame = read_frame(&raw);
            assert(frames(frame, json::json_text(raw)));
            let kind = classify(frame);
            Line::Message { raw, kind }
        },
    }
}

/// The requests that a client sends.
#[derive(Debug, Clone, Copy, PartialEq, Eq, Structural)]
pub enum Method {
    Initialize,
    NewSession,
    LoadSession,
    Prompt,
    SetMode,
    SetConfigOption,
}

/// The request that a method names.
pub open spec fn method_named(name: Seq<char>) -> Option<Method> {
    if name == "initialize"@ {
        Some(Method::Initialize)
    } else if name == "session/new"@ {
        Some(Method::NewSession)
    } else if name == "session/load"@ {
        Some(Method::LoadSession)
    } else if name == "session/prompt"@ {
        Some(Method::Prompt)
    } else if name == "session/set_mode"@ {
        Some(Method::SetMode)
    } else if name == "session/set_config_option"@ {
        Some(Method::SetConfigOption)
    } else {
        None
    }
}

/// The request that a method names, or the error that there is none.
pub fn handle_request(method: &str) -> (result: Result<Method, AcpError>)
    ensures
        match method_named(method@) {
            Some(named) => result == Ok::<_, AcpError>(named),
            None => result is Err && result->Err_0@ == error::method_not_found_view(),
        },
{
    if same_text(method, "initialize") {
        Ok(Method::Initialize)
    } else if same_text(method, "session/new") {
        Ok(Method::NewSession)
    } else if same_text(method, "session/load") {
        Ok(Method::LoadSession)
    } else if same_text(method, "session/prompt") {
        Ok(Method::Prompt)
    } else if same_text(method, "session/set_mode") {
        Ok(Method::SetMode)
    } else if same_text(method, "session/set_config_option") {
        Ok(Method::SetConfigOption)
    } else {
        Err(AcpError::method_not_found())
    }
}

/// What is sent once a request has been carried out.
#[derive(Debug, Clone, Copy, PartialEq, Eq, Structural)]
pub enum ResponseStep {
    /// The request's result.
    Respond,
    /// The commands that the session offers.
    OfferCommands,
}

/// What is sent once a request has been carried out: its result, and behind it, where it started
/// a session, the commands that the session offers. A prompt that was taken on is answered when it
/// ends.
pub open spec fn response_steps(method: Method, succeeded: bool) -> Seq<ResponseStep> {
    if method == Method::Prompt && succeeded {
        seq![]
    } else if succeeded && (method == Method::NewSession || method == Method::LoadSession) {
        seq![ResponseStep::Respond, ResponseStep::OfferCommands]
    } else {
        seq![ResponseStep::Respond]
    }
}

/// What is sent once a request has been carried out.
pub fn respond_request(method: Method, succeeded: bool) -> (result: Vec<ResponseStep>)
    ensures
        result@ == response_steps(method, succeeded),
{
    let mut steps: Vec<ResponseStep> = Vec::new();
    match method {
        Method::Prompt => {
            if succeeded {
                assert(steps@ =~= seq![]);
                return steps;
            }
        },
        _ => {},
    }
    steps.push(ResponseStep::Respond);
    match method {
        Method::NewSession => {
            if succeeded {
                steps.push(ResponseStep::OfferCommands);
            }
        },
        Method::LoadSession => {
            if succeeded {
                steps.push(ResponseStep::OfferCommands);
            }
        },
        _ => {},
    }
    assert(steps@ =~= response_steps(method, succeeded));
    steps
}

/// Where a client says that it knows switches.
pub open spec fn boolean_pointer() -> Seq<char> {
    "/params/clientCapabilities/session/configOptions/boolean"@
}

/// Whether a client that connects knows switches: it says so with an object.
pub fn supports_boolean_config(raw: &serde_json::Value) -> (result: bool)
    ensures
        result == (json::json_at(json::json_text(*raw), boolean_pointer()) matches Some(found)
            && json::json_is_object(found)),
{
    match at_pointer(raw, "/params/clientCapabilities/session/configOptions/boolean") {
        Some(value) => is_object(value),
        None => false,
    }
}

/// The error that a request's parameters cannot be read.
pub fn params_error(reason: String) -> (result: AcpError)
    ensures
        result@ == error::invalid_params_because(reason@),
{
    AcpError::invalid_params().data(ErrorData::Text(reason))
}

/// The session that a message about a session names.
pub open spec fn named_session(message: Seq<char>) -> Option<Seq<char>> {
    match json::json_member(message, "params"@) {
        Some(params) => match json::json_member(params, "sessionId"@) {
            Some(id) => json::json_string(id),
            None => None,
        },
        None => None,
    }
}

/// The session that a notification asks to cancel, if it asks for a cancellation.
pub fn cancelled_session(method: &str, raw: &serde_json::Value) -> (result: Option<String>)
    ensures
        if method@ == "session/cancel"@ && named_session(json::json_text(*raw)) is Some {
            result is Some && result->0@ == named_session(json::json_text(*raw))->0
        } else {
            result is None
        },
{
    if !same_text(method, "session/cancel") {
        return None;
    }
    match member(raw, "params") {
        Some(params) => match member(params, "sessionId") {
            Some(id) => match as_text(id) {
                Some(id) => Some(id.to_owned()),
                None => None,
            },
            None => None,
        },
        None => None,
    }
}

/// An identity is the one that a JSON value was sent as.
pub open spec fn sent_as(id: SentId, value: Seq<char>) -> bool {
    match id {
        SentId::Number(number) => json::json_integer(value) == Some(number),
        SentId::Text(text) => json::json_integer(value) is None && json::json_string(value)
            == Some(text@),
        SentId::Other => json::json_integer(value) is None && json::json_string(value) is None,
    }
}

/// The identity of a response, as it was sent.
pub fn response_id(raw: &serde_json::Value) -> (result: Option<SentId>)
    ensures
        match json::json_member(json::json_text(*raw), "id"@) {
            Some(value) => result is Some && sent_as(result->0, value),
            None => result is None,
        },
{
    match member(raw, "id") {
        Some(value) => match as_integer(value) {
            Some(number) => Some(SentId::Number(number)),
            None => match as_text(value) {
                Some(text) => Some(SentId::Text(text.to_owned())),
                None => Some(SentId::Other),
            },
        },
        None => None,
    }
}

/// A session that a server serves: its identity, what is outstanding, the answer channel of its
/// agent, its mode, what the client has seen of its options, and what it holds that must be given
/// back when it closes.
pub struct SessionRecord {
    pub session_id: String,
    pub pending: Pending,
    pub channel: u64,
    pub mode: AgentMode,
    pub projection: Option<OptionProjection>,
    pub coordinator: bool,
    pub checkpoint: bool,
    pub mcp: bool,
    pub lock: bool,
}

/// A session record differs from another in nothing but what is outstanding.
pub open spec fn same_session(a: SessionRecord, b: SessionRecord) -> bool {
    &&& a.session_id == b.session_id
    &&& a.channel == b.channel
    &&& a.mode == b.mode
    &&& a.projection == b.projection
    &&& a.coordinator == b.coordinator
    &&& a.checkpoint == b.checkpoint
    &&& a.mcp == b.mcp
    &&& a.lock == b.lock
}

/// A server: the models it knows, the modes there are, the session it serves, and what its client
/// can do.
pub struct Server {
    pub model_specs: Vec<String>,
    pub modes: Vec<ModeDef>,
    pub session: Option<SessionRecord>,
    pub elicitation: bool,
    pub supports_boolean: bool,
    pub defaults: SessionDefaults,
}

/// A server differs from another in nothing but its session.
pub open spec fn same_server(a: Server, b: Server) -> bool {
    &&& a.model_specs == b.model_specs
    &&& a.modes == b.modes
    &&& a.elicitation == b.elicitation
    &&& a.supports_boolean == b.supports_boolean
    &&& a.defaults == b.defaults
}

/// The error with which a request about a session is refused: none is active, or the named one is
/// not the active one, or the active one can no longer be reached.
pub open spec fn session_error(
    session: Option<SessionRecord>,
    requested: Seq<char>,
    reachable: bool,
) -> Option<error::ErrorView> {
    match session {
        None => Some(error::no_session_view()),
        Some(session) => if session.session_id@ == requested && reachable {
            None
        } else {
            Some(error::not_found_view("session/"@ + requested))
        },
    }
}

/// What came of what a prompt says, once commands have been looked for in it.
#[derive(Debug)]
pub enum InputDispatch {
    /// It is no command.
    LiteralInput(CommandContent),
    /// A command has done its work.
    Completed,
    AgentTurn(AgentTurn),
    IsolatedTurn(CommandContent),
    ManualCompaction(Option<String>),
    /// A command answers with the working directory.
    WorkingDirectory(String),
    /// A command answers with a text.
    Text(String),
    /// A command failed.
    Failed(String),
}

/// What is said in place of starting the conversation over, which only the client can do.
pub open spec fn guidance() -> Seq<char> {
    "Start a new conversation using the client’s new-session action. This conversation has not been changed."@
}

/// What a command that would start the conversation over answers with.
pub fn new_session_guidance() -> (result: InputDispatch)
    ensures
        result matches InputDispatch::Text(text) && text@ == guidance(),
{
    InputDispatch::Text(
        "Start a new conversation using the client’s new-session action. This conversation has not been changed.".to_owned(),
    )
}

/// How a prompt goes on.
#[derive(Debug)]
pub enum PromptStep {
    Turn(AgentTurn),
    Question(CommandContent),
    Compaction(Option<String>),
    /// The prompt has been answered. Where a command has done its work, what it changed of the
    /// session's options is shown before.
    Answered { show_options: bool, actions: Vec<Action> },
}

/// How a prompt goes on.
pub open spec fn prompt_goes_on(
    dispatch: InputDispatch,
    id: RequestId,
    result: Result<PromptStep, AcpError>,
) -> bool {
    let ended = EndView::Stopped(StopReason::EndTurn);
    match dispatch {
        InputDispatch::LiteralInput(content) => result == Ok::<_, AcpError>(
            PromptStep::Turn(AgentTurn { content, prompt: None }),
        ),
        InputDispatch::AgentTurn(turn) => result == Ok::<_, AcpError>(PromptStep::Turn(turn)),
        InputDispatch::IsolatedTurn(content) => result == Ok::<_, AcpError>(
            PromptStep::Question(content),
        ),
        InputDispatch::ManualCompaction(instructions) => result == Ok::<_, AcpError>(
            PromptStep::Compaction(instructions),
        ),
        InputDispatch::Completed => {
            result matches Ok(PromptStep::Answered { show_options, actions }) && {
                &&& show_options
                &&& actions@.len() == 1
                &&& updates::answers_prompt(actions@[0], id, ended)
            }
        },
        InputDispatch::WorkingDirectory(path) => answered_with(
            result,
            id,
            "Working directory: "@ + path@,
        ),
        InputDispatch::Text(text) => answered_with(result, id, text@),
        InputDispatch::Failed(message) => result is Err && result->Err_0@ == error::plain_error(
            -32602,
            message@,
        ),
    }
}

/// A prompt is answered with a text and has then ended.
pub open spec fn answered_with(
    result: Result<PromptStep, AcpError>,
    id: RequestId,
    text: Seq<char>,
) -> bool {
    result matches Ok(PromptStep::Answered { show_options, actions }) && {
        &&& !show_options
        &&& actions@.len() == 2
        &&& actions@[0] matches Action::Update(SessionUpdate::TextDelta(shown)) && shown@ == text
        &&& updates::answers_prompt(actions@[1], id, EndView::Stopped(StopReason::EndTurn))
    }
}

/// Says how a prompt goes on.
pub fn route_prompt(dispatch: InputDispatch, id: RequestId) -> (result: Result<
    PromptStep,
    AcpError,
>)
    ensures
        prompt_goes_on(dispatch, id, result),
{
    match dispatch {
        InputDispatch::LiteralInput(content) => Ok(
            PromptStep::Turn(AgentTurn { content, prompt: None }),
        ),
        InputDispatch::AgentTurn(turn) => Ok(PromptStep::Turn(turn)),
        InputDispatch::IsolatedTurn(content) => Ok(PromptStep::Question(content)),
        InputDispatch::ManualCompaction(instructions) => Ok(PromptStep::Compaction(instructions)),
        InputDispatch::Completed => {
            let mut actions: Vec<Action> = Vec::new();
            actions.push(Action::Respond { id, end: PromptEnd::Stopped(StopReason::EndTurn) });
            Ok(PromptStep::Answered { show_options: true, actions })
        },
        InputDispatch::WorkingDirectory(path) => {
            let mut actions: Vec<Action> = Vec::new();
            actions.push(
                Action::Update(
                    SessionUpdate::TextDelta(joined("Working directory: ", path.as_str())),
                ),
            );
            actions.push(Action::Respond { id, end: PromptEnd::Stopped(StopReason::EndTurn) });
            Ok(PromptStep::Answered { show_options: false, actions })
        },
        InputDispatch::Text(text) => {
            let mut actions: Vec<Action> = Vec::new();
            actions.push(Action::Update(SessionUpdate::TextDelta(text)));
            actions.push(Action::Respond { id, end: PromptEnd::Stopped(StopReason::EndTurn) });
            Ok(PromptStep::Answered { show_options: false, actions })
        },
        InputDispatch::Failed(message) => Err(error::command_error(message.as_str())),
    }
}

/// The value that a client gives an option.
#[derive(Debug, PartialEq, Eq)]
pub enum ConfigValue {
    ValueId(String),
    Boolean(bool),
    /// A value of a kind that is not known.
    Unknown,
}

/// The value that a client gives an option, as text.
pub fn config_value(value: ConfigValue) -> (result: Result<String, AcpError>)
    ensures
        match value {
            ConfigValue::ValueId(text) => result == Ok::<_, AcpError>(text),
            ConfigValue::Boolean(on) => result is Ok && result->Ok_0@ == (if on {
                options::enabled_value()
            } else {
                options::disabled_value()
            }),
            ConfigValue::Unknown => result is Err && result->Err_0@
                == error::invalid_params_view(),
        },
{
    match value {
        ConfigValue::ValueId(text) => Ok(text),
        ConfigValue::Boolean(on) => Ok(toggle_text(on)),
        ConfigValue::Unknown => Err(AcpError::invalid_params()),
    }
}

/// Why an option could not be changed: the coordinator refused, or the plugins' host is gone.
#[derive(Debug)]
pub enum OptionMutationError {
    Coordinator(CoordinatorError),
    HostDead { message: String },
}

/// The error a client sees where an option could not be changed.
pub open spec fn mutation_error_view(error: OptionMutationError) -> error::ErrorView {
    match error {
        OptionMutationError::Coordinator(error) => error::coordinator_error_view(error),
        OptionMutationError::HostDead { message } => error::internal_error_because(message@),
    }
}

/// An option that has been changed: what the change commits to, and what the client is shown.
#[derive(Debug)]
pub struct ChangedOptions {
    pub projected: Option<ProjectedOptions>,
    pub shown: Vec<ConfigOption>,
}

impl Server {
    /// Refuses a request about a session that is not the active one.
    pub fn validate_session(&self, requested: &str, reachable: bool) -> (result: Result<
        (),
        AcpError,
    >)
        ensures
            match session_error(self.session, requested@, reachable) {
                None => result is Ok,
                Some(error) => result is Err && result->Err_0@ == error,
            },
    {
        match &self.session {
            None => Err(no_session()),
            Some(session) => if same_text(session.session_id.as_str(), requested) && reachable {
                Ok(())
            } else {
                Err(AcpError::resource_not_found(joined("session/", requested)))
            },
        }
    }

    /// Takes a prompt on: refuses it where its session is not the active one, where another
    /// operation is active and where it holds a piece that it cannot, and otherwise says what it
    /// says.
    pub fn accept_prompt(&self, requested: &str, reachable: bool, blocks: &Vec<PromptBlock>)
        -> (result: Result<CommandContent, AcpError>)
        ensures
            prompt_accepted(self.session, requested@, reachable, blocks@, result),
    {
        match self.validate_session(requested, reachable) {
            Ok(()) => {},
            Err(error) => {
                return Err(error);
            },
        }
        match &self.session {
            Some(session) => match session.pending.admit_prompt() {
                Ok(()) => extract_prompt_content(blocks),
                Err(error) => Err(error),
            },
            None => Err(no_session()),
        }
    }

    /// Puts the session into another mode and says so to the client.
    pub fn set_mode(
        &mut self,
        requested: &str,
        reachable: bool,
        mode_id: &str,
        plan_path: Option<String>,
    ) -> (result: Result<Action, AcpError>)
        ensures
            mode_set(*old(self), requested@, reachable, mode_id@, plan_path, result, *final(self)),
    {
        match self.validate_session(requested, reachable) {
            Ok(()) => {},
            Err(error) => {
                return Err(error);
            },
        }
        let mode = match mode_id_to_agent_mode(mode_id, &self.modes, plan_path) {
            Some(mode) => mode,
            None => {
                let message = joined("unknown mode: ", mode_id);
                return Err(AcpError::new(-32602, message.as_str()));
            },
        };
        match &mut self.session {
            Some(session) => {
                session.mode = mode;
            },
            None => {
                return Err(no_session());
            },
        }
        Ok(Action::Update(SessionUpdate::CurrentMode(mode_id.to_owned())))
    }

    /// Answers a change of an option once the coordinator has been asked: the client is shown the
    /// options as they are now, and what they commit to is given where that is news.
    pub fn option_changed(
        &mut self,
        reply: Result<SessionOptionsSnapshot, OptionMutationError>,
    ) -> (result: Result<ChangedOptions, AcpError>)
        ensures
            same_server(*final(self), *old(self)),
            match (reply, old(self).session) {
                (Ok(snapshot), Some(session)) if session.coordinator && session.projection is Some => {
                    let projection = session.projection->0;
                    &&& result matches Ok(changed) && {
                        &&& options::shows_all(
                            snapshot.options@,
                            old(self).supports_boolean,
                            changed.shown@,
                        )
                        &&& final(self).session matches Some(after) && after.projection
                            matches Some(seen) && {
                            &&& options::projected(
                                projection.emitted_version,
                                projection.supports_boolean,
                                snapshot,
                                false,
                                changed.projected,
                                seen.emitted_version,
                            )
                            &&& seen.supports_boolean == projection.supports_boolean
                            &&& after == (SessionRecord { projection: Some(seen), ..session })
                        }
                    }
                },
                (Err(error), Some(session)) if session.coordinator => {
                    &&& result is Err
                    &&& result->Err_0@ == mutation_error_view(error)
                    &&& final(self).session == old(self).session
                },
                _ => {
                    &&& result is Err
                    &&& result->Err_0@ == error::no_session_view()
                    &&& final(self).session == old(self).session
                },
            },
    {
        let supports_boolean = self.supports_boolean;
        match &mut self.session {
            None => Err(no_session()),
            Some(session) => {
                if !session.coordinator {
                    return Err(no_session());
                }
                match reply {
                    Err(error) => match error {
                        OptionMutationError::Coordinator(error) => Err(coordinator_error(error)),
                        OptionMutationError::HostDead { message } => Err(
                            AcpError::internal_error().data(ErrorData::Text(message)),
                        ),
                    },
                    Ok(snapshot) => match &mut session.projection {
                        None => Err(no_session()),
                        Some(projection) => {
                            let projected = projection.apply(&snapshot);
                            let shown = session_config_options(&snapshot, supports_boolean);
                            Ok(ChangedOptions { projected, shown })
                        },
                    },
                }
            },
        }
    }

    /// Cancels the active operation of the named session, if it is the active one and its
    /// operation is not being cancelled already.
    pub fn cancel_session(&mut self, requested: &str, reachable: bool) -> (result: Option<
        Cancellation,
    >)
        ensures
            session_cancelled(*old(self), requested@, reachable, result, *final(self)),
    {
        match self.validate_session(requested, reachable) {
            Ok(()) => {},
            Err(_) => {
                return None;
            },
        }
        match &mut self.session {
            Some(session) => {
                let channel: u64 = session.channel;
                session.pending.cancel(channel)
            },
            None => None,
        }
    }

    /// Takes a client's response to a request of the host.
    pub fn take_response(&mut self, response: ClientResponse) -> (result: Option<Answer>)
        ensures
            response_taken(*old(self), response, result, *final(self)),
    {
        match &mut self.session {
            Some(session) => {
                let channel: u64 = session.channel;
                session.pending.take_response(response, channel)
            },
            None => None,
        }
    }
}

/// A prompt is taken on, or refused: its session is not the active one, another operation is
/// active, or it holds a piece that it cannot.
pub open spec fn prompt_accepted(
    session: Option<SessionRecord>,
    requested: Seq<char>,
    reachable: bool,
    blocks: Seq<PromptBlock>,
    result: Result<CommandContent, AcpError>,
) -> bool {
    match session_error(session, requested, reachable) {
        Some(error) => result is Err && result->Err_0@ == error,
        None => match pending::admission_error(session->0.pending@) {
            Some(error) => result is Err && result->Err_0@ == error,
            None => match result {
                Ok(content) => {
                    &&& prompt::supported(blocks)
                    &&& content.text@ == prompt::prompt_text(blocks)
                    &&& content.attachments@ == prompt::prompt_attachments(blocks)
                },
                Err(error) => !prompt::supported(blocks) && error@ == prompt::unsupported_block(),
            },
        },
    }
}

/// A session is in another mode and its client knows, or there is no such mode or no such session.
pub open spec fn mode_set(
    before: Server,
    requested: Seq<char>,
    reachable: bool,
    mode_id: Seq<char>,
    plan_path: Option<String>,
    result: Result<Action, AcpError>,
    after: Server,
) -> bool {
    match session_error(before.session, requested, reachable) {
        Some(error) => {
            &&& result is Err
            &&& result->Err_0@ == error
            &&& after == before
        },
        None => {
            if result is Ok {
                &&& result->Ok_0 matches Action::Update(SessionUpdate::CurrentMode(shown))
                    && shown@ == mode_id
                &&& same_server(after, before)
                &&& after.session is Some
                &&& after.session->0 == (SessionRecord {
                    mode: after.session->0.mode,
                    ..before.session->0
                })
                &&& methods::chosen_mode(
                    mode_id,
                    before.modes@,
                    plan_path,
                    Some(after.session->0.mode),
                )
            } else {
                &&& methods::chosen_mode(mode_id, before.modes@, plan_path, None)
                &&& result->Err_0@ == error::plain_error(-32602, "unknown mode: "@ + mode_id)
                &&& after == before
            }
        },
    }
}

/// The active operation of the named session is being cancelled, or there was none to cancel.
pub open spec fn session_cancelled(
    before: Server,
    requested: Seq<char>,
    reachable: bool,
    result: Option<Cancellation>,
    after: Server,
) -> bool {
    &&& same_server(after, before)
    &&& if session_error(before.session, requested, reachable) is None {
        let session = before.session->0;
        &&& after.session matches Some(left) && {
            &&& same_session(left, session)
            &&& if session.pending@.operation is Some && !pending::cancelling(session.pending@) {
                &&& left.pending@ == pending::cancelled(session.pending@)
                &&& result is Some
                &&& result->0.trigger == session.pending@.operation->0.cancel
                &&& pending::voids(
                    result->0.answers@,
                    session.pending@.permissions,
                    session.pending@.elicitation,
                    session.channel,
                )
            } else {
                left.pending@ == session.pending@ && result is None
            }
        }
    } else {
        after.session == before.session && result is None
    }
}

/// A client's response to a request of the host has been taken.
pub open spec fn response_taken(
    before: Server,
    response: ClientResponse,
    result: Option<Answer>,
    after: Server,
) -> bool {
    &&& same_server(after, before)
    &&& match before.session {
        None => after.session is None && result is None,
        Some(session) => {
            &&& after.session matches Some(left) && {
                &&& same_session(left, session)
                &&& pending::responded(
                    session.pending@,
                    response,
                    session.channel,
                    result,
                    left.pending@,
                )
            }
        },
    }
}

} // verus!
