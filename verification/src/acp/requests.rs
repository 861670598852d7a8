//! Requests and responses as they come over the wire: what is read of each, and what it leads to.
use agent_client_protocol_schema::v1;
use vstd::prelude::*;

use crate::acp::error;
use crate::acp::error::{no_session, AcpError};
use crate::acp::mcp_servers::InjectedServer;
use crate::acp::methods::{initialize_response, InitializeResponse};
use crate::acp::options;
use crate::acp::pending::{Answer, Cancellation, ClientResponse, PermissionAnswer};
use crate::acp::prompt::PromptBlock;
use crate::acp::server;
use crate::acp::server::{
    cancelled_session, config_value, params_error, response_id, supports_boolean_config,
    ConfigValue, Server,
};
use crate::acp::updates::Action;
use crate::json;
use crate::json::{copy_of, member, null_value};
use crate::text::same_text;
use crate::types::CommandContent;

verus! {

/// What is read of a change of mode.
#[derive(Debug)]
pub struct ModeParams {
    pub session_id: String,
    pub mode_id: String,
}

/// What is read of a change of an option.
#[derive(Debug)]
pub struct OptionParams {
    pub session_id: String,
    pub config_id: String,
    pub value: ConfigValue,
}

/// What is read of a request for a new session.
#[derive(Debug)]
pub struct NewSessionParams {
    pub cwd: String,
    pub servers: Vec<InjectedServer>,
}

/// What is read of a request for a session that was saved.
#[derive(Debug)]
pub struct LoadSessionParams {
    pub session_id: String,
    pub cwd: String,
    pub servers: Vec<InjectedServer>,
}

/// Whether a client that connects has forms among the ways to ask it something: nothing where it
/// states no such ways, or where the request cannot be read.
pub uninterp spec fn stated_forms(params: Seq<char>) -> Option<bool>;

/// A piece of a prompt as the client sent it.
#[verifier::external_type_specification]
#[verifier::external_body]
pub struct ExContentBlock(v1::ContentBlock);

/// A server of tools as the client sent it.
#[verifier::external_type_specification]
#[verifier::external_body]
pub struct ExMcpServer(v1::McpServer);

/// What a piece of a prompt holds.
pub uninterp spec fn sent_block(block: v1::ContentBlock) -> PromptBlock;

/// What is said of a server of tools.
pub uninterp spec fn sent_server(server: v1::McpServer) -> InjectedServer;

/// The session and the pieces of a prompt with these parameters, or why they cannot be read.
pub uninterp spec fn prompt_params(params: Seq<char>) -> Result<
    (Seq<char>, Seq<v1::ContentBlock>),
    Seq<char>,
>;

/// The session and the mode of a change of mode with these parameters, or why they cannot be read.
pub uninterp spec fn mode_params(params: Seq<char>) -> Result<(Seq<char>, Seq<char>), Seq<char>>;

/// The session, the option and the value of a change of an option with these parameters, or why
/// they cannot be read.
pub uninterp spec fn option_params(params: Seq<char>) -> Result<
    (Seq<char>, Seq<char>, ConfigValue),
    Seq<char>,
>;

/// The directory and the servers of a request for a new session with these parameters, or why they
/// cannot be read.
pub uninterp spec fn new_session_params(params: Seq<char>) -> Result<
    (Seq<char>, Seq<v1::McpServer>),
    Seq<char>,
>;

/// The session, the directory and the servers of a request for a saved session with these
/// parameters, or why they cannot be read.
pub uninterp spec fn load_session_params(params: Seq<char>) -> Result<
    (Seq<char>, Seq<char>, Seq<v1::McpServer>),
    Seq<char>,
>;

/// The option that the user chose when asked for permission, or none where the question was
/// cancelled; nothing where the answer cannot be read.
pub uninterp spec fn chosen_option(answer: Seq<char>) -> Option<Option<Seq<char>>>;

/// What the user answered to a question can be read.
pub uninterp spec fn question_answered(answer: Seq<char>) -> bool;

/// Calls `serde_json::from_value` for the schema crate's `InitializeRequest`. What it gives depends
/// on the parameters alone.
#[verifier::external_body]
fn read_initialize(params: serde_json::Value) -> (result: Option<bool>)
    ensures
        result == stated_forms(json::json_text(params)),
{
    serde_json::from_value::<v1::InitializeRequest>(params)
        .ok()
        .and_then(|request| request.client_capabilities.elicitation)
        .map(|stated| stated.form.is_some())
}

/// Calls `serde_json::from_value` for the schema crate's `PromptRequest`. What it gives depends on
/// the parameters alone.
#[verifier::external_body]
fn read_prompt(params: serde_json::Value) -> (result: Result<
    (String, Vec<v1::ContentBlock>),
    String,
>)
    ensures
        match result {
            Ok((session_id, blocks)) => prompt_params(json::json_text(params)) == Ok::<
                _,
                Seq<char>,
            >((session_id@, blocks@)),
            Err(reason) => prompt_params(json::json_text(params)) == Err::<
                (Seq<char>, Seq<v1::ContentBlock>),
                _,
            >(reason@),
        },
{
    serde_json::from_value::<v1::PromptRequest>(params)
        .map(|request| (request.session_id.0.to_string(), request.prompt))
        .map_err(|error| error.to_string())
}

/// Tells the variants of the schema crate's `ContentBlock` apart and hands out their fields, which
/// depend on the block alone. A variant that is not known is `Unknown`.
#[verifier::external_body]
fn block_of(block: &v1::ContentBlock) -> (result: PromptBlock)
    ensures
        result == sent_block(*block),
{
    match block.clone() {
        v1::ContentBlock::Text(b) => PromptBlock::Text(b.text),
        v1::ContentBlock::Image(b) => PromptBlock::Image { mime_type: b.mime_type, data: b.data },
        v1::ContentBlock::ResourceLink(b) => PromptBlock::ResourceLink { uri: b.uri },
        v1::ContentBlock::Audio(_) => PromptBlock::Audio,
        v1::ContentBlock::Resource(b) => match b.resource {
            v1::EmbeddedResourceResource::TextResourceContents(r) =>
                PromptBlock::TextResource { uri: r.uri, text: r.text },
            v1::EmbeddedResourceResource::BlobResourceContents(r) =>
                PromptBlock::BlobResource { uri: r.uri },
            _ => PromptBlock::Unknown,
        },
        _ => PromptBlock::Unknown,
    }
}

/// What the pieces of a prompt hold.
pub open spec fn sent_blocks(blocks: Seq<v1::ContentBlock>) -> Seq<PromptBlock> {
    blocks.map_values(|block: v1::ContentBlock| sent_block(block))
}

/// What the pieces of a prompt hold.
fn blocks_of(blocks: &Vec<v1::ContentBlock>) -> (result: Vec<PromptBlock>)
    ensures
        result@ == sent_blocks(blocks@),
{
    let mut read: Vec<PromptBlock> = Vec::new();
    let mut i: usize = 0;
    while i < blocks.len()
        invariant
            i <= blocks@.len(),
            read@ == sent_blocks(blocks@.take(i as int)),
        decreases blocks@.len() - i,
    {
        read.push(block_of(&blocks[i]));
        i += 1;
        assert(read@ =~= sent_blocks(blocks@.take(i as int)));
    }
    assert(blocks@.take(i as int) =~= blocks@);
    read
}

/// Calls `serde_json::from_value` for the schema crate's `SetSessionModeRequest`. What it gives
/// depends on the parameters alone.
#[verifier::external_body]
fn read_mode(params: serde_json::Value) -> (result: Result<ModeParams, String>)
    ensures
        match result {
            Ok(change) => mode_params(json::json_text(params)) == Ok::<_, Seq<char>>(
                (change.session_id@, change.mode_id@),
            ),
            Err(reason) => mode_params(json::json_text(params)) == Err::<
                (Seq<char>, Seq<char>),
                _,
            >(reason@),
        },
{
    serde_json::from_value::<v1::SetSessionModeRequest>(params)
        .map(|request| ModeParams {
            session_id: request.session_id.0.to_string(),
            mode_id: request.mode_id.0.to_string(),
        })
        .map_err(|error| error.to_string())
}

/// Calls `serde_json::from_value` for the schema crate's `SetSessionConfigOptionRequest`. What it
/// gives depends on the parameters alone.
#[verifier::external_body]
fn read_option(params: serde_json::Value) -> (result: Result<OptionParams, String>)
    ensures
        match result {
            Ok(change) => option_params(json::json_text(params)) == Ok::<_, Seq<char>>(
                (change.session_id@, change.config_id@, change.value),
            ),
            Err(reason) => option_params(json::json_text(params)) == Err::<
                (Seq<char>, Seq<char>, ConfigValue),
                _,
            >(reason@),
        },
{
    serde_json::from_value::<v1::SetSessionConfigOptionRequest>(params)
        .map(|request| OptionParams {
            session_id: request.session_id.0.to_string(),
            config_id: request.config_id.0.to_string(),
            value: match request.value {
                v1::SessionConfigOptionValue::ValueId { value } =>
                    ConfigValue::ValueId(value.0.to_string()),
                v1::SessionConfigOptionValue::Boolean { value } => ConfigValue::Boolean(value),
                _ => ConfigValue::Unknown,
            },
        })
        .map_err(|error| error.to_string())
}

/// Calls `serde_json::from_value` for the schema crate's `NewSessionRequest`. What it gives depends
/// on the parameters alone.
#[verifier::external_body]
fn read_new_session(params: serde_json::Value) -> (result: Result<
    (String, Vec<v1::McpServer>),
    String,
>)
    ensures
        match result {
            Ok((cwd, servers)) => new_session_params(json::json_text(params)) == Ok::<
                _,
                Seq<char>,
            >((cwd@, servers@)),
            Err(reason) => new_session_params(json::json_text(params)) == Err::<
                (Seq<char>, Seq<v1::McpServer>),
                _,
            >(reason@),
        },
{
    serde_json::from_value::<v1::NewSessionRequest>(params)
        .map(|request| (request.cwd.to_string_lossy().into_owned(), request.mcp_servers))
        .map_err(|error| error.to_string())
}

/// Calls `serde_json::from_value` for the schema crate's `LoadSessionRequest`. What it gives depends
/// on the parameters alone.
#[verifier::external_body]
fn read_load_session(params: serde_json::Value) -> (result: Result<
    (String, String, Vec<v1::McpServer>),
    String,
>)
    ensures
        match result {
            Ok((session_id, cwd, servers)) => load_session_params(json::json_text(params)) == Ok::<
                _,
                Seq<char>,
            >((session_id@, cwd@, servers@)),
            Err(reason) => load_session_params(json::json_text(params)) == Err::<
                (Seq<char>, Seq<char>, Seq<v1::McpServer>),
                _,
            >(reason@),
        },
{
    serde_json::from_value::<v1::LoadSessionRequest>(params)
        .map(|request| (
            request.session_id.0.to_string(),
            request.cwd.to_string_lossy().into_owned(),
            request.mcp_servers,
        ))
        .map_err(|error| error.to_string())
}

/// Tells the variants of the schema crate's `McpServer` apart and hands out their fields, which
/// depend on the server alone. A variant that is neither reached over HTTP nor run as a command is
/// `Other`.
#[verifier::external_body]
fn server_of(server: &v1::McpServer) -> (result: InjectedServer)
    ensures
        result == sent_server(*server),
{
    match server.clone() {
        v1::McpServer::Http(s) => InjectedServer::Http {
            name: s.name,
            url: s.url,
            headers: s.headers.into_iter().map(|h| (h.name, h.value)).collect(),
        },
        v1::McpServer::Stdio(s) => InjectedServer::Stdio {
            name: s.name,
            command: s.command.to_string_lossy().into_owned(),
            args: s.args,
            env: s.env.into_iter().map(|v| (v.name, v.value)).collect(),
        },
        _ => InjectedServer::Other,
    }
}

/// What is said of servers of tools.
pub open spec fn sent_servers(servers: Seq<v1::McpServer>) -> Seq<InjectedServer> {
    servers.map_values(|server: v1::McpServer| sent_server(server))
}

/// What is said of servers of tools.
fn servers_of(servers: &Vec<v1::McpServer>) -> (result: Vec<InjectedServer>)
    ensures
        result@ == sent_servers(servers@),
{
    let mut read: Vec<InjectedServer> = Vec::new();
    let mut i: usize = 0;
    while i < servers.len()
        invariant
            i <= servers@.len(),
            read@ == sent_servers(servers@.take(i as int)),
        decreases servers@.len() - i,
    {
        read.push(server_of(&servers[i]));
        i += 1;
        assert(read@ =~= sent_servers(servers@.take(i as int)));
    }
    assert(servers@.take(i as int) =~= servers@);
    read
}

/// Calls `serde_json::from_value` for the schema crate's `RequestPermissionResponse`. What it gives
/// depends on the answer alone.
#[verifier::external_body]
fn read_permission(answer: serde_json::Value) -> (result: Option<Option<String>>)
    ensures
        match result {
            None => chosen_option(json::json_text(answer)) is None,
            Some(None) => chosen_option(json::json_text(answer)) == Some(None::<Seq<char>>),
            Some(Some(id)) => chosen_option(json::json_text(answer)) == Some(Some(id@)),
        },
{
    match serde_json::from_value::<v1::RequestPermissionResponse>(answer).ok()?.outcome {
        v1::RequestPermissionOutcome::Selected(selected) => Some(
            Some(selected.option_id.0.to_string()),
        ),
        _ => Some(None),
    }
}

/// Calls `serde_json::from_value` for the schema crate's `CreateElicitationResponse`. Whether it can
/// be read depends on the answer alone.
#[verifier::external_body]
fn reads_elicitation(answer: serde_json::Value) -> (result: bool)
    ensures
        result == question_answered(json::json_text(answer)),
{
    serde_json::from_value::<v1::CreateElicitationResponse>(answer).is_ok()
}

/// The parameters of a message: null where it has none.
pub open spec fn params_text(message: Seq<char>) -> Seq<char> {
    match json::json_member(message, "params"@) {
        Some(params) => params,
        None => "null"@,
    }
}

/// The parameters of a message.
fn params_of(raw: &serde_json::Value) -> (result: serde_json::Value)
    ensures
        json::json_text(result) == params_text(json::json_text(*raw)),
{
    match member(raw, "params") {
        Some(params) => copy_of(params),
        None => null_value(),
    }
}

/// Reads a request for a new session.
pub fn new_session_request(raw: &serde_json::Value) -> (result: Result<NewSessionParams, AcpError>)
    ensures
        match new_session_params(params_text(json::json_text(*raw))) {
            Ok((cwd, servers)) => result is Ok && result->Ok_0.cwd@ == cwd && result->Ok_0.servers@
                == sent_servers(servers),
            Err(reason) => result is Err && result->Err_0@ == error::invalid_params_because(
                reason,
            ),
        },
{
    match read_new_session(params_of(raw)) {
        Ok((cwd, servers)) => Ok(NewSessionParams { cwd, servers: servers_of(&servers) }),
        Err(reason) => Err(params_error(reason)),
    }
}

/// Reads a request for a saved session.
pub fn load_session_request(raw: &serde_json::Value) -> (result: Result<
    LoadSessionParams,
    AcpError,
>)
    ensures
        match load_session_params(params_text(json::json_text(*raw))) {
            Ok((session_id, cwd, servers)) => {
                &&& result is Ok
                &&& result->Ok_0.session_id@ == session_id
                &&& result->Ok_0.cwd@ == cwd
                &&& result->Ok_0.servers@ == sent_servers(servers)
            },
            Err(reason) => result is Err && result->Err_0@ == error::invalid_params_because(
                reason,
            ),
        },
{
    match read_load_session(params_of(raw)) {
        Ok((session_id, cwd, servers)) => Ok(
            LoadSessionParams { session_id, cwd, servers: servers_of(&servers) },
        ),
        Err(reason) => Err(params_error(reason)),
    }
}

/// A change of an option that the coordinator is asked for.
#[derive(Debug, PartialEq, Eq)]
pub struct OptionChange {
    pub config_id: String,
    pub value: String,
}

/// A change of an option goes to the coordinator, or is refused: its session is not the active
/// one, its value is of a kind that is not known, or the session has no coordinator.
pub open spec fn option_requested(
    server: Server,
    requested: Seq<char>,
    reachable: bool,
    config_id: Seq<char>,
    value: ConfigValue,
    result: Result<OptionChange, AcpError>,
) -> bool {
    match server::session_error(server.session, requested, reachable) {
        Some(error) => result is Err && result->Err_0@ == error,
        None => if value is Unknown {
            result is Err && result->Err_0@ == error::invalid_params_view()
        } else if !server.session->0.coordinator {
            result is Err && result->Err_0@ == error::no_session_view()
        } else {
            &&& result is Ok
            &&& result->Ok_0.config_id@ == config_id
            &&& match value {
                ConfigValue::ValueId(text) => result->Ok_0.value == text,
                ConfigValue::Boolean(on) => result->Ok_0.value@ == (if on {
                    options::enabled_value()
                } else {
                    options::disabled_value()
                }),
                ConfigValue::Unknown => false,
            }
        },
    }
}

/// An answer that the user was offered when asked for permission.
#[derive(Debug)]
pub struct OfferedAnswer {
    pub option_id: String,
    pub answer: PermissionAnswer,
}

/// The answer that an option stands for, looked for from a position on.
pub open spec fn offered_from(offered: Seq<OfferedAnswer>, id: Seq<char>, from: int) -> Option<
    PermissionAnswer,
>
    decreases offered.len() - from,
{
    if from < 0 || from >= offered.len() {
        None
    } else if offered[from].option_id@ == id {
        Some(offered[from].answer)
    } else {
        offered_from(offered, id, from + 1)
    }
}

/// The answer that a response gives to a request for permission: the one that was chosen. There is
/// none where the question was cancelled, where no such answer was offered and where the response
/// cannot be read.
pub open spec fn permission_given(message: Seq<char>, offered: Seq<OfferedAnswer>) -> Option<
    PermissionAnswer,
> {
    match json::json_member(message, "result"@) {
        Some(answer) => match chosen_option(answer) {
            Some(Some(id)) => offered_from(offered, id, 0),
            _ => None,
        },
        None => None,
    }
}

/// The answer that a response gives to a request for permission.
pub fn permission_in(raw: &serde_json::Value, offered: &Vec<OfferedAnswer>) -> (result: Option<
    PermissionAnswer,
>)
    ensures
        result == permission_given(json::json_text(*raw), offered@),
{
    let id = match member(raw, "result") {
        Some(answer) => match read_permission(copy_of(answer)) {
            Some(Some(id)) => id,
            _ => {
                return None;
            },
        },
        None => {
            return None;
        },
    };
    let mut i: usize = 0;
    while i < offered.len() && !same_text(offered[i].option_id.as_str(), id.as_str())
        invariant
            i <= offered@.len(),
            offered_from(offered@, id@, 0) == offered_from(offered@, id@, i as int),
        decreases offered@.len() - i,
    {
        i += 1;
    }
    if i < offered.len() {
        Some(offered[i].answer)
    } else {
        None
    }
}

/// The answer that a response gives to a question: `payload` is what it says, where it can be read.
pub open spec fn answer_given(message: Seq<char>, payload: Option<String>) -> Option<String> {
    match json::json_member(message, "result"@) {
        Some(answer) => if question_answered(answer) {
            payload
        } else {
            None
        },
        None => None,
    }
}

/// The answer that a response gives to a question.
pub fn answer_in(raw: &serde_json::Value, payload: Option<String>) -> (result: Option<String>)
    ensures
        result == answer_given(json::json_text(*raw), payload),
{
    match member(raw, "result") {
        Some(answer) => if reads_elicitation(copy_of(answer)) {
            payload
        } else {
            None
        },
        None => None,
    }
}

/// A response is what is read of a message.
pub open spec fn reads_response(
    message: Seq<char>,
    offered: Seq<OfferedAnswer>,
    payload: Option<String>,
    response: ClientResponse,
) -> bool {
    &&& match json::json_member(message, "id"@) {
        Some(id) => response.id is Some && server::sent_as(response.id->0, id),
        None => response.id is None,
    }
    &&& response.elicitation == answer_given(message, payload)
    &&& response.permission == permission_given(message, offered)
}

impl Server {
    /// Takes what a client that connects can do, and says what the server can.
    pub fn initialize(&mut self, raw: &serde_json::Value, version: &str)
        -> (result: InitializeResponse)
        ensures
            *final(self) == (Server {
                supports_boolean: json::json_at(
                    json::json_text(*raw),
                    server::boolean_pointer(),
                ) matches Some(found) && json::json_is_object(found),
                elicitation: stated_forms(params_text(json::json_text(*raw))) == Some(true),
                ..*old(self)
            }),
            result.protocol_version == 1,
            result.load_session,
            result.prompt_image,
            result.prompt_embedded_context,
            result.mcp_http,
            result.agent_name@ == "makima"@,
            result.agent_version@ == version@,
    {
        self.supports_boolean = supports_boolean_config(raw);
        self.elicitation = match read_initialize(params_of(raw)) {
            Some(forms) => forms,
            None => false,
        };
        initialize_response(version)
    }

    /// Takes a prompt on.
    pub fn handle_prompt(&self, raw: &serde_json::Value, reachable: bool) -> (result: Result<
        CommandContent,
        AcpError,
    >)
        ensures
            match prompt_params(params_text(json::json_text(*raw))) {
                Ok((session_id, blocks)) => server::prompt_accepted(
                    self.session,
                    session_id,
                    reachable,
                    sent_blocks(blocks),
                    result,
                ),
                Err(reason) => result is Err && result->Err_0@ == error::invalid_params_because(
                    reason,
                ),
            },
    {
        match read_prompt(params_of(raw)) {
            Ok((session_id, blocks)) => self.accept_prompt(
                session_id.as_str(),
                reachable,
                &blocks_of(&blocks),
            ),
            Err(reason) => Err(params_error(reason)),
        }
    }

    /// Puts the session into another mode and says so to the client.
    pub fn handle_set_mode(
        &mut self,
        raw: &serde_json::Value,
        reachable: bool,
        plan_path: Option<String>,
    ) -> (result: Result<Action, AcpError>)
        ensures
            match mode_params(params_text(json::json_text(*raw))) {
                Ok((session_id, mode_id)) => server::mode_set(
                    *old(self),
                    session_id,
                    reachable,
                    mode_id,
                    plan_path,
                    result,
                    *final(self),
                ),
                Err(reason) => {
                    &&& result is Err
                    &&& result->Err_0@ == error::invalid_params_because(reason)
                    &&& *final(self) == *old(self)
                },
            },
    {
        match read_mode(params_of(raw)) {
            Ok(change) => self.set_mode(
                change.session_id.as_str(),
                reachable,
                change.mode_id.as_str(),
                plan_path,
            ),
            Err(reason) => Err(params_error(reason)),
        }
    }

    /// Says what the coordinator is asked for when a client changes an option.
    pub fn handle_set_config(&self, raw: &serde_json::Value, reachable: bool) -> (result: Result<
        OptionChange,
        AcpError,
    >)
        ensures
            match option_params(params_text(json::json_text(*raw))) {
                Ok((session_id, config_id, value)) => option_requested(
                    *self,
                    session_id,
                    reachable,
                    config_id,
                    value,
                    result,
                ),
                Err(reason) => result is Err && result->Err_0@ == error::invalid_params_because(
                    reason,
                ),
            },
    {
        match read_option(params_of(raw)) {
            Ok(change) => self.request_option(change, reachable),
            Err(reason) => Err(params_error(reason)),
        }
    }

    /// Says what the coordinator is asked for by a change of an option.
    pub fn request_option(&self, change: OptionParams, reachable: bool) -> (result: Result<
        OptionChange,
        AcpError,
    >)
        ensures
            option_requested(
                *self,
                change.session_id@,
                reachable,
                change.config_id@,
                change.value,
                result,
            ),
    {
        match self.validate_session(change.session_id.as_str(), reachable) {
            Ok(()) => {},
            Err(error) => {
                return Err(error);
            },
        }
        let value = match config_value(change.value) {
            Ok(value) => value,
            Err(error) => {
                return Err(error);
            },
        };
        match &self.session {
            Some(session) => if session.coordinator {
                Ok(OptionChange { config_id: change.config_id, value })
            } else {
                Err(no_session())
            },
            None => Err(no_session()),
        }
    }

    /// Takes a notification: one that asks for a cancellation cancels, and any other does nothing.
    pub fn handle_notification(
        &mut self,
        method: &str,
        raw: &serde_json::Value,
        reachable: bool,
    ) -> (result: Option<Cancellation>)
        ensures
            match server::named_session(json::json_text(*raw)) {
                Some(session_id) if method@ == "session/cancel"@ => server::session_cancelled(
                    *old(self),
                    session_id,
                    reachable,
                    result,
                    *final(self),
                ),
                _ => result is None && *final(self) == *old(self),
            },
    {
        match cancelled_session(method, raw) {
            Some(session_id) => self.cancel_session(session_id.as_str(), reachable),
            None => None,
        }
    }

    /// Takes a response to a request of the host. `offered` is what the user was offered when asked
    /// for permission, and `payload` is what the response says to a question.
    pub fn handle_incoming_response(
        &mut self,
        raw: &serde_json::Value,
        offered: &Vec<OfferedAnswer>,
        payload: Option<String>,
    ) -> (result: Option<Answer>)
        ensures
            exists|response: ClientResponse|
                #[trigger] reads_response(
                    json::json_text(*raw),
                    offered@,
                    payload,
                    response,
                ) && server::response_taken(*old(self), response, result, *final(self)),
    {
        let response = ClientResponse {
            id: response_id(raw),
            elicitation: answer_in(raw, payload),
            permission: permission_in(raw, offered),
        };
        assert(reads_response(json::json_text(*raw), offered@, payload, response));
        self.take_response(response)
    }
}

} // verus!
