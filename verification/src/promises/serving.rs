//! The server's side of the protocol: what each line is, what each request is answered, and what it
//! changes.
use vstd::prelude::*;

use crate::acp::error::{AcpError, CoordinatorError, ErrorData};
use crate::acp::mcp_servers;
use crate::acp::mcp_servers::{
    injected_servers, pairs, server_name, InjectedServer, RawTransport,
};
use crate::acp::methods;
use crate::acp::methods::{
    contains_mode, initialize_response, load_session_response, mode_id_to_agent_mode, mode_state,
    new_session_response, InitializeResponse, NewSessionResponse, SessionMode, SessionModeState,
};
use crate::acp::options;
use crate::acp::options::SessionOptionsSnapshot;
use crate::acp::pending;
use crate::acp::pending::{
    ask_id, Answer, Cancellation, ClientResponse, PermissionAnswer, Reply, RequestId, SentId,
};
use crate::acp::prompt;
use crate::acp::prompt::PromptBlock;
use crate::acp::requests;
use crate::acp::requests::{
    answer_in, load_session_request, new_session_request, permission_in, LoadSessionParams,
    NewSessionParams, OfferedAnswer, OptionChange, OptionParams,
};
use crate::acp::restore::{restore_requested, RestoreStep};
use crate::acp::server;
use crate::acp::server::{
    cancelled_session, classify, config_value, handle_line, handle_request, new_session_guidance,
    params_error, respond_request, response_id, route_prompt, supports_boolean_config,
    ChangedOptions, ConfigValue, Frame, InputDispatch, Line, MessageKind, Method,
    OptionMutationError, PromptStep, ResponseStep, Server, SessionRecord,
};
use crate::acp::session::CloseAction;
use crate::acp::updates::{Action, PromptEnd, SessionUpdate, StopReason};
use crate::agent::modes::ModeDef;
use crate::json;
use crate::promises::options as choices;
use crate::promises::pending as outstanding;
use crate::promises::prompts;
use crate::promises::pump;
use crate::promises::sessions;
use crate::promises::turns;
use crate::text_map;
use crate::text_map::TextMap;
use crate::types::{AgentMode, AgentTurn, CommandContent};

verus! {

/// A message that answers is a response whatever else it holds; one that names a method is a
/// request where it has an identity and a notification where it has none; anything else is invalid
/// where it can be answered.
pub proof fn law_messages_are_told_apart(frame: Frame, kind: MessageKind)
    requires
        call_ensures(classify, (frame,), kind),
    ensures
        frame.answers <==> kind is Response,
        !frame.answers && frame.method is Some && frame.id is Some ==> kind == (
        MessageKind::Request { id: frame.id->0, method: frame.method->0 }),
        !frame.answers && frame.method is Some && frame.id is None ==> kind == (
        MessageKind::Notification { method: frame.method->0 }),
        !frame.answers && frame.method is None && frame.id is Some ==> kind == (
        MessageKind::Invalid { id: frame.id->0 }),
        !frame.answers && frame.method is None && frame.id is None ==> kind is Nothing,
{
}

/// A line is blank exactly where it is nothing but white space; one that is no JSON is answered as
/// such; and any other is the message that it holds.
pub proof fn law_lines_are_read(text: &str, line: Line)
    requires
        call_ensures(handle_line, (text,), line),
    ensures
        line is Blank <==> !turns::has_substance(text@),
        line matches Line::Malformed { error } ==> pump::bare(error, -32700, "Parse error"@),
        line matches Line::Message { raw, kind } ==> {
            let message = json::json_text(raw);
            let answers = json::json_member(message, "result"@) is Some || json::json_member(
                message,
                "error"@,
            ) is Some;
            let named = json::json_member(message, "method"@) is Some && json::json_string(
                json::json_member(message, "method"@)->0,
            ) is Some;
            let identified = json::json_member(message, "id"@) is Some;
            &&& kind is Response <==> answers
            &&& kind is Request <==> !answers && named && identified
            &&& kind is Notification <==> !answers && named && !identified
            &&& kind is Invalid <==> !answers && !named && identified
            &&& kind is Nothing <==> !answers && !named && !identified
            &&& kind matches MessageKind::Request { id, method } ==> method@ == json::json_string(
                json::json_member(message, "method"@)->0,
            )->0 && is_identity(id, json::json_member(message, "id"@)->0)
            &&& kind matches MessageKind::Notification { method } ==> method@
                == json::json_string(json::json_member(message, "method"@)->0)->0
            &&& kind matches MessageKind::Invalid { id } ==> is_identity(
                id,
                json::json_member(message, "id"@)->0,
            )
        },
{
    turns::lemma_trimmed(text@);
}

/// An identity is a number where the value is one, a text where it is one, and nothing else.
pub open spec fn is_identity(id: RequestId, value: Seq<char>) -> bool {
    &&& json::json_integer(value) matches Some(number) ==> id == RequestId::Number(number)
    &&& json::json_integer(value) is None && json::json_string(value) is Some ==> (
    id matches RequestId::Str(text) && text@ == json::json_string(value)->0)
    &&& json::json_integer(value) is None && json::json_string(value) is None ==> id is Null
}

/// The names of the methods differ.
proof fn lemma_methods_differ()
    ensures
        "initialize"@.len() == 10,
        "session/new"@.len() == 11,
        "session/load"@.len() == 12,
        "session/prompt"@.len() == 14,
        "session/set_mode"@.len() == 16,
        "session/set_config_option"@.len() == 25,
{
    reveal_strlit("initialize");
    reveal_strlit("session/new");
    reveal_strlit("session/load");
    reveal_strlit("session/prompt");
    reveal_strlit("session/set_mode");
    reveal_strlit("session/set_config_option");
}

/// A method leads to the request that it names, and any other name is answered as unknown.
pub proof fn law_methods_are_found_by_name(name: &str, found: Result<Method, AcpError>)
    requires
        call_ensures(handle_request, (name,), found),
    ensures
        found == Ok::<_, AcpError>(Method::Initialize) <==> name@ == "initialize"@,
        found == Ok::<_, AcpError>(Method::NewSession) <==> name@ == "session/new"@,
        found == Ok::<_, AcpError>(Method::LoadSession) <==> name@ == "session/load"@,
        found == Ok::<_, AcpError>(Method::Prompt) <==> name@ == "session/prompt"@,
        found == Ok::<_, AcpError>(Method::SetMode) <==> name@ == "session/set_mode"@,
        found == Ok::<_, AcpError>(Method::SetConfigOption) <==> name@
            == "session/set_config_option"@,
        found matches Err(error) ==> pump::bare(error, -32601, "Method not found"@),
{
    lemma_methods_differ();
}

/// Every request is answered once it has been carried out, but for a prompt that was taken on; the
/// commands are offered behind the answer exactly where a session has started.
pub proof fn law_requests_are_answered(
    method: Method,
    succeeded: bool,
    steps: Vec<ResponseStep>,
)
    requires
        call_ensures(respond_request, (method, succeeded), steps),
    ensures
        steps@.len() == 0 <==> method == Method::Prompt && succeeded,
        steps@.len() > 0 ==> steps@[0] == ResponseStep::Respond,
        steps@.len() == 2 <==> succeeded && (method == Method::NewSession || method
            == Method::LoadSession),
        steps@.len() == 2 ==> steps@[1] == ResponseStep::OfferCommands,
        steps@.len() <= 2,
{
}

/// What a client says of itself, and what is wrong with what it sends.
pub proof fn law_clients_say_what_they_can(
    raw: serde_json::Value,
    switches: bool,
    reason: String,
    error: AcpError,
    method: &str,
    cancels: Option<String>,
    id: Option<SentId>,
)
    requires
        call_ensures(supports_boolean_config, (&raw,), switches),
        call_ensures(params_error, (reason,), error),
        call_ensures(cancelled_session, (method, &raw), cancels),
        call_ensures(response_id, (&raw,), id),
    ensures
        ({
            let message = json::json_text(raw);
            let stated = json::json_at(
                message,
                "/params/clientCapabilities/session/configOptions/boolean"@,
            );
            &&& switches <==> stated is Some && json::json_is_object(stated->0)
            &&& pump::explained(error, -32602, "Invalid params"@, reason@)
            &&& cancels is Some <==> method@ == "session/cancel"@ && named_in(message) is Some
            &&& cancels is Some ==> cancels->0@ == named_in(message)->0
            &&& id is Some <==> json::json_member(message, "id"@) is Some
            &&& id is Some ==> is_sent(id->0, json::json_member(message, "id"@)->0)
        }),
{
}

/// The session that a message names.
pub open spec fn named_in(message: Seq<char>) -> Option<Seq<char>> {
    if json::json_member(message, "params"@) is Some && json::json_member(
        json::json_member(message, "params"@)->0,
        "sessionId"@,
    ) is Some {
        json::json_string(
            json::json_member(json::json_member(message, "params"@)->0, "sessionId"@)->0,
        )
    } else {
        None
    }
}

/// An identity is the one that a value was sent as.
pub open spec fn is_sent(id: SentId, value: Seq<char>) -> bool {
    &&& json::json_integer(value) matches Some(number) ==> id == SentId::Number(number)
    &&& json::json_integer(value) is None && json::json_string(value) is Some ==> (
    id matches SentId::Text(text) && text@ == json::json_string(value)->0)
    &&& json::json_integer(value) is None && json::json_string(value) is None ==> id is Other
}

/// A prompt is answered with a text, and has then ended.
pub open spec fn says_and_ends(
    step: Result<PromptStep, AcpError>,
    id: RequestId,
    said: Seq<char>,
) -> bool {
    step matches Ok(PromptStep::Answered { show_options, actions }) && {
        &&& !show_options
        &&& actions@.len() == 2
        &&& actions@[0] matches Action::Update(SessionUpdate::TextDelta(text)) && text@ == said
        &&& actions@[1] == (Action::Respond { id, end: PromptEnd::Stopped(StopReason::EndTurn) })
    }
}

/// What was found in a prompt decides how it goes on: what is no command, and what a command asks
/// for, becomes a turn, a side question or a compaction as it is; what a command has done or says is
/// answered at once; and a command that failed is an error.
pub proof fn law_prompts_go_on_as_dispatched(
    dispatch: InputDispatch,
    id: RequestId,
    step: Result<PromptStep, AcpError>,
    guidance: InputDispatch,
)
    requires
        call_ensures(route_prompt, (dispatch, id), step),
        call_ensures(new_session_guidance, (), guidance),
    ensures
        match dispatch {
            InputDispatch::LiteralInput(said) => step matches Ok(PromptStep::Turn(turn))
                && turn.content == said && turn.prompt is None,
            InputDispatch::AgentTurn(asked) => step matches Ok(PromptStep::Turn(turn)) && turn
                == asked,
            InputDispatch::IsolatedTurn(said) => step matches Ok(PromptStep::Question(asked))
                && asked == said,
            InputDispatch::ManualCompaction(given) => step matches Ok(PromptStep::Compaction(kept))
                && kept == given,
            InputDispatch::Completed => step matches Ok(
                PromptStep::Answered { show_options, actions },
            ) && show_options && actions@.len() == 1 && actions@[0] == (Action::Respond {
                id,
                end: PromptEnd::Stopped(StopReason::EndTurn),
            }),
            InputDispatch::WorkingDirectory(path) => says_and_ends(
                step,
                id,
                "Working directory: "@ + path@,
            ),
            InputDispatch::Text(said) => says_and_ends(step, id, said@),
            InputDispatch::Failed(message) => step matches Err(error) && pump::bare(
                error,
                -32602,
                message@,
            ),
        },
        guidance matches InputDispatch::Text(text) && text@
            == "Start a new conversation using the client’s new-session action. This conversation has not been changed."@,
{
}

/// The value that a client gives an option: a switch is written as it is read, a text stays as it
/// is, and what is not known is refused.
pub proof fn law_values_are_taken(value: ConfigValue, text: Result<String, AcpError>)
    requires
        call_ensures(config_value, (value,), text),
    ensures
        value matches ConfigValue::ValueId(given) ==> (text matches Ok(kept) && kept@ == given@),
        value matches ConfigValue::Boolean(on) ==> (text matches Ok(kept) && kept@ == (if on {
            "enabled"@
        } else {
            "disabled"@
        })),
        value is Unknown ==> (text matches Err(error) && pump::bare(
            error,
            -32602,
            "Invalid params"@,
        )),
{
}

/// A request about a session is refused: none is served, or not that one, or it cannot be reached.
pub open spec fn is_turned_away(
    session: Option<SessionRecord>,
    requested: Seq<char>,
    reachable: bool,
    error: AcpError,
) -> bool {
    &&& session is None ==> pump::bare(error, -32600, "no active session"@)
    &&& session is Some ==> {
        &&& error.code == -32002
        &&& error.message@ == "Resource not found"@
        &&& error.data matches ErrorData::Uri(uri) && uri@ == "session/"@ + requested
    }
}

/// The session that is asked for is the one that is served, and can be reached.
pub open spec fn is_reached(
    session: Option<SessionRecord>,
    requested: Seq<char>,
    reachable: bool,
) -> bool {
    session is Some && session->0.session_id@ == requested && reachable
}

/// Requests reach the session that they name, and no other.
pub proof fn law_requests_reach_their_session(
    server: Server,
    requested: &str,
    reachable: bool,
    valid: Result<(), AcpError>,
)
    requires
        call_ensures(Server::validate_session, (&server, requested, reachable), valid),
    ensures
        valid is Ok <==> is_reached(server.session, requested@, reachable),
        valid matches Err(error) ==> is_turned_away(server.session, requested@, reachable, error),
{
}

/// A prompt is taken on with all that it says, where its session is reached, nothing else is active
/// and it holds no piece that it cannot; otherwise it is refused for the first of these.
pub open spec fn is_taken_on(
    session: Option<SessionRecord>,
    requested: Seq<char>,
    reachable: bool,
    blocks: Seq<PromptBlock>,
    result: Result<CommandContent, AcpError>,
) -> bool {
    let reached = is_reached(session, requested, reachable);
    let active = reached && session->0.pending@.operation is Some;
    match result {
        Ok(content) => {
            &&& reached
            &&& !active
            &&& content.text@ == prompts::words_until(blocks, blocks.len() as int)
            &&& prompts::attaches(content.attachments@, blocks, blocks.len() as int)
            &&& forall|i: int|
                0 <= i < blocks.len() ==> !(#[trigger] blocks[i] is BlobResource) && !(blocks[i]
                    is Audio) && !(blocks[i] is Unknown)
        },
        Err(error) => {
            &&& !reached ==> is_turned_away(session, requested, reachable, error)
            &&& active && session->0.pending@.operation->0.cancelling ==> error.code == -32001
                && error.data is Retryable
            &&& active && !session->0.pending@.operation->0.cancelling ==> pump::bare(
                error,
                -32600,
                "session already has an active operation"@,
            )
            &&& reached && !active ==> pump::explained(
                error,
                -32602,
                "Invalid params"@,
                "unsupported content block in command prompt"@,
            ) && exists|i: int|
                0 <= i < blocks.len() && (#[trigger] blocks[i] is BlobResource || blocks[i]
                    is Audio || blocks[i] is Unknown)
        },
    }
}

/// A prompt is taken on.
proof fn lemma_taken_on(
    session: Option<SessionRecord>,
    requested: Seq<char>,
    reachable: bool,
    blocks: Seq<PromptBlock>,
    result: Result<CommandContent, AcpError>,
)
    requires
        server::prompt_accepted(session, requested, reachable, blocks, result),
    ensures
        is_taken_on(session, requested, reachable, blocks, result),
{
    prompts::lemma_said(blocks, blocks.len() as int);
    assert(blocks.take(blocks.len() as int) =~= blocks);
    if result is Ok {
        assert forall|i: int| 0 <= i < blocks.len() implies !(#[trigger] blocks[i] is BlobResource)
            && !(blocks[i] is Audio) && !(blocks[i] is Unknown) by {
            assert(prompt::block_text(blocks[i]) is Some);
        }
    } else if is_reached(session, requested, reachable) && session->0.pending@.operation is None {
        let i = choose|i: int|
            0 <= i < blocks.len() && prompt::block_text(#[trigger] blocks[i]) is None;
        assert(blocks[i] is BlobResource || blocks[i] is Audio || blocks[i] is Unknown);
    }
}

/// Prompts are taken on with all that they say, or refused.
pub proof fn law_prompts_are_taken_on(
    server: Server,
    requested: &str,
    reachable: bool,
    blocks: Vec<PromptBlock>,
    result: Result<CommandContent, AcpError>,
)
    requires
        call_ensures(Server::accept_prompt, (&server, requested, reachable, &blocks), result),
    ensures
        is_taken_on(server.session, requested@, reachable, blocks@, result),
{
    lemma_taken_on(server.session, requested@, reachable, blocks@, result);
}

/// A prompt that can be read is taken on as it was sent, and one that cannot be is refused with the
/// reason.
pub proof fn law_sent_prompts_are_taken_on(
    server: Server,
    raw: serde_json::Value,
    reachable: bool,
    result: Result<CommandContent, AcpError>,
)
    requires
        call_ensures(Server::handle_prompt, (&server, &raw, reachable), result),
    ensures
        match requests::prompt_params(params_in(json::json_text(raw))) {
            Ok((session_id, blocks)) => is_taken_on(
                server.session,
                session_id,
                reachable,
                Seq::new(blocks.len(), |i: int| requests::sent_block(blocks[i])),
                result,
            ),
            Err(reason) => result matches Err(error) && pump::explained(
                error,
                -32602,
                "Invalid params"@,
                reason,
            ),
        },
{
    match requests::prompt_params(params_in(json::json_text(raw))) {
        Ok((session_id, blocks)) => {
            let sent = Seq::new(blocks.len(), |i: int| requests::sent_block(blocks[i]));
            assert(requests::sent_blocks(blocks) =~= sent);
            lemma_taken_on(server.session, session_id, reachable, sent, result);
        },
        Err(_) => {},
    }
}

/// The parameters that a message carries, or null where it carries none.
pub open spec fn params_in(message: Seq<char>) -> Seq<char> {
    if json::json_member(message, "params"@) is Some {
        json::json_member(message, "params"@)->0
    } else {
        "null"@
    }
}

/// The mode that a key stands for: building and planning by their names, where planning needs a
/// file for the plan, and one that the user defined by its key.
pub open spec fn stands_for_mode(
    key: Seq<char>,
    modes: Seq<ModeDef>,
    plan_path: Option<String>,
    mode: Option<AgentMode>,
) -> bool {
    let defined = exists|i: int|
        0 <= i < modes.len() && turns::key_of_mode((#[trigger] modes[i]).id) == key;
    &&& key == "build"@ ==> mode == Some(AgentMode::Build)
    &&& key == "plan"@ && plan_path is Some ==> mode == Some(AgentMode::Plan(plan_path->0))
    &&& key == "plan"@ && plan_path is None ==> mode is None
    &&& key != "build"@ && key != "plan"@ && defined ==> (mode matches Some(
        AgentMode::Custom(name),
    ) && name@ == key)
    &&& key != "build"@ && key != "plan"@ && !defined ==> mode is None
}

/// The modes that keys stand for.
proof fn lemma_mode(
    key: Seq<char>,
    modes: Seq<ModeDef>,
    plan_path: Option<String>,
    mode: Option<AgentMode>,
)
    requires
        methods::chosen_mode(key, modes, plan_path, mode),
    ensures
        stands_for_mode(key, modes, plan_path, mode),
{
    reveal_strlit("build");
    reveal_strlit("plan");
    assert("build"@.len() != "plan"@.len());
    if exists|i: int| 0 <= i < modes.len() && turns::key_of_mode((#[trigger] modes[i]).id) == key {
        let i = choose|i: int|
            0 <= i < modes.len() && turns::key_of_mode((#[trigger] modes[i]).id) == key;
        assert(crate::agent::modes::mode_key(modes[i].id) == key);
        assert(methods::has_mode(modes, key));
    }
    if methods::has_mode(modes, key) {
        let i = choose|i: int|
            0 <= i < modes.len() && crate::agent::modes::mode_key((#[trigger] modes[i]).id) == key;
        assert(turns::key_of_mode(modes[i].id) == key);
    }
}

/// Modes are chosen by their keys.
pub proof fn law_modes_are_chosen_by_key(
    key: &str,
    modes: Vec<ModeDef>,
    plan_path: Option<String>,
    mode: Option<AgentMode>,
    found: bool,
)
    requires
        call_ensures(mode_id_to_agent_mode, (key, &modes, plan_path), mode),
        call_ensures(contains_mode, (&modes, key), found),
    ensures
        stands_for_mode(key@, modes@, plan_path, mode),
        found <==> exists|i: int|
            0 <= i < modes@.len() && turns::key_of_mode((#[trigger] modes@[i]).id) == key@,
{
    lemma_mode(key@, modes@, plan_path, mode);
    if exists|i: int|
        0 <= i < modes@.len() && turns::key_of_mode((#[trigger] modes@[i]).id) == key@ {
        let i = choose|i: int|
            0 <= i < modes@.len() && turns::key_of_mode((#[trigger] modes@[i]).id) == key@;
        assert(crate::agent::modes::mode_key(modes@[i].id) == key@);
    }
    if found {
        let i = choose|i: int|
            0 <= i < modes@.len() && crate::agent::modes::mode_key((#[trigger] modes@[i]).id)
                == key@;
        assert(turns::key_of_mode(modes@[i].id) == key@);
    }
}

/// Two sessions differ in nothing but their mode.
pub open spec fn only_mode_differs(before: SessionRecord, after: SessionRecord) -> bool {
    &&& after.session_id == before.session_id
    &&& after.pending == before.pending
    &&& after.channel == before.channel
    &&& after.projection == before.projection
    &&& after.coordinator == before.coordinator
    &&& after.checkpoint == before.checkpoint
    &&& after.mcp == before.mcp
    &&& after.lock == before.lock
}

/// A session is put into the mode that was asked for and the client is told; where there is no such
/// mode or the session is not reached, nothing changes.
pub open spec fn is_put_into_mode(
    before: Server,
    requested: Seq<char>,
    reachable: bool,
    key: Seq<char>,
    plan_path: Option<String>,
    result: Result<Action, AcpError>,
    after: Server,
) -> bool {
    match result {
        Ok(action) => {
            &&& is_reached(before.session, requested, reachable)
            &&& action matches Action::Update(SessionUpdate::CurrentMode(shown)) && shown@ == key
            &&& sessions::only_session_differs(before, after)
            &&& after.session is Some
            &&& only_mode_differs(before.session->0, after.session->0)
            &&& stands_for_mode(key, before.modes@, plan_path, Some(after.session->0.mode))
        },
        Err(error) => {
            &&& after == before
            &&& !is_reached(before.session, requested, reachable) ==> is_turned_away(
                before.session,
                requested,
                reachable,
                error,
            )
            &&& is_reached(before.session, requested, reachable) ==> {
                &&& pump::bare(error, -32602, "unknown mode: "@ + key)
                &&& stands_for_mode(key, before.modes@, plan_path, None)
            }
        },
    }
}

/// A session is put into a mode.
proof fn lemma_put_into_mode(
    before: Server,
    requested: Seq<char>,
    reachable: bool,
    key: Seq<char>,
    plan_path: Option<String>,
    result: Result<Action, AcpError>,
    after: Server,
)
    requires
        server::mode_set(before, requested, reachable, key, plan_path, result, after),
    ensures
        is_put_into_mode(before, requested, reachable, key, plan_path, result, after),
{
    if is_reached(before.session, requested, reachable) {
        if result is Ok {
            lemma_mode(key, before.modes@, plan_path, Some(after.session->0.mode));
        } else {
            lemma_mode(key, before.modes@, plan_path, None);
        }
    }
}

/// A session is put into the mode that was asked for.
pub proof fn law_modes_are_set(
    server: &mut Server,
    requested: &str,
    reachable: bool,
    key: &str,
    plan_path: Option<String>,
    result: Result<Action, AcpError>,
)
    requires
        call_ensures(Server::set_mode, (server, requested, reachable, key, plan_path), result),
    ensures
        is_put_into_mode(
            *old(server),
            requested@,
            reachable,
            key@,
            plan_path,
            result,
            *final(server),
        ),
{
    lemma_put_into_mode(
        *old(server),
        requested@,
        reachable,
        key@,
        plan_path,
        result,
        *final(server),
    );
}

/// A session is put into the mode that a request asks for, and a request that cannot be read is
/// refused with the reason and changes nothing.
pub proof fn law_sent_modes_are_set(
    server: &mut Server,
    raw: serde_json::Value,
    reachable: bool,
    plan_path: Option<String>,
    result: Result<Action, AcpError>,
)
    requires
        call_ensures(Server::handle_set_mode, (server, &raw, reachable, plan_path), result),
    ensures
        match requests::mode_params(params_in(json::json_text(raw))) {
            Ok((session_id, key)) => is_put_into_mode(
                *old(server),
                session_id,
                reachable,
                key,
                plan_path,
                result,
                *final(server),
            ),
            Err(reason) => *final(server) == *old(server) && (result matches Err(error)
                && pump::explained(error, -32602, "Invalid params"@, reason)),
        },
{
    match requests::mode_params(params_in(json::json_text(raw))) {
        Ok((session_id, key)) => {
            lemma_put_into_mode(
                *old(server),
                session_id,
                reachable,
                key,
                plan_path,
                result,
                *final(server),
            );
        },
        Err(_) => {},
    }
}

/// The coordinator is asked for the change that a client wants, as the client states it; a session
/// that is not reached or has no coordinator, or a value that is not known, is refused.
pub open spec fn is_asked_for(
    server: Server,
    requested: Seq<char>,
    reachable: bool,
    config_id: Seq<char>,
    value: ConfigValue,
    result: Result<OptionChange, AcpError>,
) -> bool {
    let reached = is_reached(server.session, requested, reachable);
    match result {
        Ok(change) => {
            &&& reached
            &&& server.session->0.coordinator
            &&& change.config_id@ == config_id
            &&& match value {
                ConfigValue::ValueId(given) => change.value@ == given@,
                ConfigValue::Boolean(true) => change.value@ == "enabled"@,
                ConfigValue::Boolean(false) => change.value@ == "disabled"@,
                ConfigValue::Unknown => false,
            }
        },
        Err(error) => {
            &&& !reached ==> is_turned_away(server.session, requested, reachable, error)
            &&& reached ==> value is Unknown || !server.session->0.coordinator
            &&& reached && value is Unknown ==> pump::bare(error, -32602, "Invalid params"@)
            &&& reached && !(value is Unknown) ==> pump::bare(error, -32600, "no active session"@)
        },
    }
}

/// Changes of options are asked for as the client states them.
pub proof fn law_options_are_asked_for(
    server: Server,
    change: OptionParams,
    reachable: bool,
    result: Result<OptionChange, AcpError>,
)
    requires
        call_ensures(Server::request_option, (&server, change, reachable), result),
    ensures
        is_asked_for(
            server,
            change.session_id@,
            reachable,
            change.config_id@,
            change.value,
            result,
        ),
{
}

/// Changes of options are asked for as they were sent, and what cannot be read is refused with the
/// reason.
pub proof fn law_sent_options_are_asked_for(
    server: Server,
    raw: serde_json::Value,
    reachable: bool,
    result: Result<OptionChange, AcpError>,
)
    requires
        call_ensures(Server::handle_set_config, (&server, &raw, reachable), result),
    ensures
        match requests::option_params(params_in(json::json_text(raw))) {
            Ok((session_id, config_id, value)) => is_asked_for(
                server,
                session_id,
                reachable,
                config_id,
                value,
                result,
            ),
            Err(reason) => result matches Err(error) && pump::explained(
                error,
                -32602,
                "Invalid params"@,
                reason,
            ),
        },
{
}

/// Once an option has been changed the client is shown all options as they are, what they commit to
/// is given where that is news, and the version is remembered. A refusal is told with its reason.
pub proof fn law_changed_options_are_shown(
    server: &mut Server,
    reply: Result<SessionOptionsSnapshot, OptionMutationError>,
    result: Result<ChangedOptions, AcpError>,
    i: int,
)
    requires
        call_ensures(Server::option_changed, (server, reply), result),
    ensures
        sessions::only_session_differs(*old(server), *final(server)),
        result is Ok <==> reply is Ok && old(server).session is Some
            && old(server).session->0.coordinator && old(server).session->0.projection is Some,
        result matches Ok(changed) ==> {
            let snapshot = reply->Ok_0;
            let seen = old(server).session->0.projection->0;
            let newer = snapshot.version > seen.emitted_version;
            &&& changed.shown@.len() == snapshot.options@.len()
            &&& 0 <= i < changed.shown@.len() ==> choices::is_shown_as(
                snapshot.options@[i],
                old(server).supports_boolean,
                changed.shown@[i],
            )
            &&& changed.projected is Some <==> newer
            &&& changed.projected matches Some(brought) ==> {
                &&& choices::decides(snapshot.options@, "yolo"@, i, brought.committed.yolo)
                &&& choices::decides(snapshot.options@, "fast"@, i, brought.committed.fast)
                &&& choices::decides(
                    snapshot.options@,
                    "workflow"@,
                    i,
                    brought.committed.workflow,
                )
                &&& brought.shown is None
            }
            &&& final(server).session is Some
            &&& final(server).session->0.projection is Some
            &&& newer ==> final(server).session->0.projection->0.emitted_version
                == snapshot.version
            &&& !newer ==> final(server).session->0.projection->0.emitted_version
                == seen.emitted_version
            &&& final(server).session->0.mode == old(server).session->0.mode
            &&& final(server).session->0.pending == old(server).session->0.pending
        },
        result matches Err(error) ==> {
            &&& final(server).session == old(server).session
            &&& reply is Ok || old(server).session is None || !old(server).session->0.coordinator
                ==> pump::bare(error, -32600, "no active session"@)
            &&& reply is Err && old(server).session is Some && old(server).session->0.coordinator
                ==> match reply->Err_0 {
                OptionMutationError::HostDead { message } => pump::explained(
                    error,
                    -32603,
                    "Internal error"@,
                    message@,
                ),
                OptionMutationError::Coordinator(CoordinatorError::OptionRejected { message }) =>
                    pump::explained(error, -32602, "Invalid params"@, message@),
                OptionMutationError::Coordinator(CoordinatorError::SessionBusy { message }) =>
                    pump::bare(error, -32600, message@),
                OptionMutationError::Coordinator(CoordinatorError::Other { message }) =>
                    pump::explained(error, -32603, "Internal error"@, message@),
                OptionMutationError::Coordinator(CoordinatorError::StaleSession { .. }) =>
                    error.code == -32002,
            }
        },
{
    if result is Ok {
        let snapshot = reply->Ok_0;
        let changed = result->Ok_0;
        if 0 <= i < changed.shown@.len() {
            choices::lemma_shown(snapshot.options@[i], old(server).supports_boolean, changed.shown@[i]);
        }
        if changed.projected is Some {
            choices::lemma_committed(snapshot.options@, changed.projected->0.committed, i);
        }
    }
}

/// What is outstanding of the served session, where it is reached, is cancelled, once; otherwise
/// nothing happens.
pub open spec fn is_cancelled_by(
    before: Server,
    requested: Seq<char>,
    reachable: bool,
    result: Option<Cancellation>,
    after: Server,
) -> bool {
    let due = is_reached(before.session, requested, reachable)
        && before.session->0.pending@.operation is Some
        && !before.session->0.pending@.operation->0.cancelling;
    &&& sessions::only_session_differs(before, after)
    &&& result is Some <==> due
    &&& before.session is None ==> after.session is None
    &&& before.session is Some ==> {
        &&& after.session is Some
        &&& after.session->0.session_id == before.session->0.session_id
        &&& after.session->0.mode == before.session->0.mode
        &&& after.session->0.channel == before.session->0.channel
        &&& !due ==> after.session->0.pending@ == before.session->0.pending@
    }
    &&& due ==> {
        let pending = before.session->0.pending@;
        let left = after.session->0.pending@;
        &&& result->0.trigger == pending.operation->0.cancel
        &&& outstanding::all_denied(
            result->0.answers@,
            pending.permissions,
            pending.elicitation,
            before.session->0.channel,
        )
        &&& left.permissions.len() == 0
        &&& left.elicitation is None
        &&& left.operation is Some
        &&& left.operation->0.cancelling
        &&& left.operation->0.cancel is None
        &&& left.operation->0.request_id == pending.operation->0.request_id
    }
}

/// Cancellations reach the session that they name, and no other.
pub proof fn law_cancellations_reach_their_session(
    server: &mut Server,
    requested: &str,
    reachable: bool,
    result: Option<Cancellation>,
)
    requires
        call_ensures(Server::cancel_session, (server, requested, reachable), result),
    ensures
        is_cancelled_by(*old(server), requested@, reachable, result, *final(server)),
{
}

/// A notification cancels exactly where it asks for a cancellation and names a session; any other
/// changes nothing.
pub proof fn law_only_cancellations_cancel(
    server: &mut Server,
    method: &str,
    raw: serde_json::Value,
    reachable: bool,
    result: Option<Cancellation>,
)
    requires
        call_ensures(Server::handle_notification, (server, method, &raw, reachable), result),
    ensures
        method@ == "session/cancel"@ && named_in(json::json_text(raw)) is Some ==> is_cancelled_by(
            *old(server),
            named_in(json::json_text(raw))->0,
            reachable,
            result,
            *final(server),
        ),
        method@ != "session/cancel"@ || named_in(json::json_text(raw)) is None ==> result is None
            && *final(server) == *old(server),
{
}

/// A response settles the question that it answers of the served session, with the text or the
/// decision that it brings; without a session it is dropped.
pub proof fn law_responses_reach_the_served_session(
    server: &mut Server,
    response: ClientResponse,
    result: Option<Answer>,
    id: Option<i64>,
)
    requires
        response.id is Some ==> call_ensures(ask_id, (&response.id->0,), id),
        response.id is None ==> id is None,
        call_ensures(Server::take_response, (server, response), result),
    ensures
        sessions::only_session_differs(*old(server), *final(server)),
        old(server).session is None ==> result is None && final(server).session is None,
        old(server).session is Some ==> {
            let before = old(server).session->0;
            let after = final(server).session->0;
            &&& final(server).session is Some
            &&& after.session_id == before.session_id
            &&& after.mode == before.mode
            &&& after.pending@.operation == before.pending@.operation
            &&& result is None ==> {
                &&& after.pending@ == before.pending@
                &&& id is None || before.pending@.elicitation != id
                &&& id is Some ==> forall|k: int|
                    0 <= k < before.pending@.permissions.len() ==> (
                    #[trigger] before.pending@.permissions[k]).request_id != id->0
            }
            &&& result matches Some(answer) ==> match answer.reply {
                Reply::Text(text) => {
                    &&& id is Some
                    &&& before.pending@.elicitation == id
                    &&& after.pending@.elicitation is None
                    &&& answer.channel == before.channel
                    &&& response.elicitation matches Some(given) ==> text@ == given@
                    &&& response.elicitation is None ==> text@ == "{\"dismissed\":true}"@
                },
                Reply::Permission { permission_id, answer: decision } => {
                    &&& after.pending@.elicitation == before.pending@.elicitation
                    &&& after.pending@.permissions.len() == before.pending@.permissions.len() - 1
                    &&& response.permission matches Some(given) ==> decision == given
                    &&& response.permission is None ==> decision == PermissionAnswer::Deny
                },
            }
        },
{
    if id is Some && old(server).session is Some {
        pump::lemma_ask_position(old(server).session->0.pending@.permissions, id->0 as int, 0);
    }
}

/// The first answer of an option among those offered.
proof fn lemma_offered(offered: Seq<OfferedAnswer>, id: Seq<char>, from: int)
    requires
        0 <= from,
    ensures
        match requests::offered_from(offered, id, from) {
            Some(answer) => exists|i: int|
                {
                    &&& from <= i < offered.len()
                    &&& (#[trigger] offered[i]).option_id@ == id
                    &&& offered[i].answer == answer
                    &&& forall|j: int| from <= j < i ==> (#[trigger] offered[j]).option_id@ != id
                },
            None => forall|j: int|
                from <= j < offered.len() ==> (#[trigger] offered[j]).option_id@ != id,
        },
    decreases offered.len() - from,
{
    if from < offered.len() {
        if offered[from].option_id@ == id {
            assert(offered[from].option_id@ == id);
        } else {
            lemma_offered(offered, id, from + 1);
        }
    }
}

/// What the user chose is the answer that was offered under it; there is none where nothing was
/// chosen or nothing of the kind was offered. What the user wrote counts where it can be read.
pub proof fn law_choices_are_those_offered(
    raw: serde_json::Value,
    offered: Vec<OfferedAnswer>,
    answer: Option<PermissionAnswer>,
    payload: Option<String>,
    written: Option<String>,
)
    requires
        call_ensures(permission_in, (&raw, &offered), answer),
        call_ensures(answer_in, (&raw, payload), written),
    ensures
        ({
            let given = json::json_member(json::json_text(raw), "result"@);
            let chosen = given is Some && (requests::chosen_option(given->0) matches Some(Some(_)));
            &&& !chosen ==> answer is None
            &&& chosen ==> {
                let id = requests::chosen_option(given->0)->0->0;
                &&& answer matches Some(decision) ==> exists|i: int|
                    {
                        &&& 0 <= i < offered@.len()
                        &&& (#[trigger] offered@[i]).option_id@ == id
                        &&& offered@[i].answer == decision
                        &&& forall|j: int|
                            0 <= j < i ==> (#[trigger] offered@[j]).option_id@ != id
                    }
                &&& answer is None ==> forall|j: int|
                    0 <= j < offered@.len() ==> (#[trigger] offered@[j]).option_id@ != id
            }
            &&& given is Some && requests::question_answered(given->0) ==> written == payload
            &&& given is None || !requests::question_answered(given->0) ==> written is None
        }),
{
    let given = json::json_member(json::json_text(raw), "result"@);
    if given is Some && (requests::chosen_option(given->0) matches Some(Some(_))) {
        lemma_offered(offered@, requests::chosen_option(given->0)->0->0, 0);
    }
}

/// A client that connects is told what the server can do, and the server knows what the client can:
/// whether it fills in forms and knows switches. Nothing else changes.
pub proof fn law_connecting_says_what_each_can(
    server: &mut Server,
    raw: serde_json::Value,
    version: &str,
    told: InitializeResponse,
)
    requires
        call_ensures(Server::initialize, (server, &raw, version), told),
    ensures
        ({
            let stated = json::json_at(
                json::json_text(raw),
                "/params/clientCapabilities/session/configOptions/boolean"@,
            );
            &&& final(server).supports_boolean <==> stated is Some && json::json_is_object(
                stated->0,
            )
            &&& final(server).elicitation <==> requests::stated_forms(
                params_in(json::json_text(raw)),
            ) == Some(true)
            &&& final(server).session == old(server).session
            &&& final(server).model_specs == old(server).model_specs
            &&& final(server).modes == old(server).modes
            &&& final(server).defaults == old(server).defaults
            &&& told.protocol_version == 1
            &&& told.load_session
            &&& told.prompt_image
            &&& told.prompt_embedded_context
            &&& told.mcp_http
            &&& told.agent_name@ == "makima"@
            &&& told.agent_version@ == version@
        }),
{
}

/// The client sees the modes in two groups, each in order: those of the server, and then those the
/// user defined.
pub open spec fn lists_modes(shown: Seq<SessionMode>, modes: Seq<ModeDef>) -> bool {
    let own = modes.filter(|def: ModeDef| !(def.id is Custom));
    let users = modes.filter(|def: ModeDef| def.id is Custom);
    let all = own + users;
    &&& shown.len() == all.len()
    &&& forall|i: int|
        0 <= i < shown.len() ==> (#[trigger] shown[i]).id@ == turns::key_of_mode(all[i].id)
            && shown[i].name@ == all[i].label@
}

/// The modes that the client sees.
proof fn lemma_listed(shown: Seq<SessionMode>, modes: Seq<ModeDef>)
    requires
        methods::shown_modes(shown) == methods::mode_entries(modes),
    ensures
        lists_modes(shown, modes),
{
    let own = modes.filter(|def: ModeDef| !(def.id is Custom));
    let users = modes.filter(|def: ModeDef| def.id is Custom);
    let plain = |def: ModeDef| !methods::is_custom(def);
    let custom = |def: ModeDef| methods::is_custom(def);
    assert(plain =~= (|def: ModeDef| !(def.id is Custom)));
    assert(custom =~= (|def: ModeDef| def.id is Custom));
    let all = own + users;
    let entries = methods::mode_entries(modes);
    assert(methods::shown_modes(shown).len() == shown.len());
    assert(entries.len() == all.len());
    assert forall|i: int| 0 <= i < shown.len() implies (#[trigger] shown[i]).id@
        == turns::key_of_mode(all[i].id) && shown[i].name@ == all[i].label@ by {
        assert(methods::shown_modes(shown)[i] == (shown[i].id@, shown[i].name@));
        assert(entries[i] == methods::mode_entry(all[i]));
    }
}

/// The client is told every mode there is, and the current one; a session begins in the building
/// mode.
pub proof fn law_clients_see_every_mode(
    current: &str,
    modes: Vec<ModeDef>,
    state: SessionModeState,
    session_id: &str,
    fresh: NewSessionResponse,
    loaded: SessionModeState,
    version: &str,
    told: InitializeResponse,
)
    requires
        call_ensures(mode_state, (current, &modes), state),
        call_ensures(new_session_response, (session_id, &modes), fresh),
        call_ensures(load_session_response, (&modes,), loaded),
        call_ensures(initialize_response, (version,), told),
    ensures
        state.current@ == current@,
        lists_modes(state.modes@, modes@),
        fresh.session_id@ == session_id@,
        fresh.modes.current@ == "build"@,
        lists_modes(fresh.modes.modes@, modes@),
        loaded.current@ == "build"@,
        lists_modes(loaded.modes@, modes@),
        told.protocol_version == 1,
        told.agent_name@ == "makima"@,
        told.agent_version@ == version@,
{
    lemma_listed(state.modes@, modes@);
    lemma_listed(fresh.modes.modes@, modes@);
    lemma_listed(loaded.modes@, modes@);
}

/// A server is known under the beginning of its name, in which every character that is no letter
/// and no digit is a hyphen.
pub open spec fn is_known_as(name: Seq<char>, limit: int, known: Seq<char>) -> bool {
    &&& known.len() <= limit
    &&& known.len() <= name.len()
    &&& known.len() == limit || known.len() == name.len()
    &&& forall|i: int|
        0 <= i < known.len() ==> {
            let c = name[i];
            let plain = ('a' <= c && c <= 'z') || ('A' <= c && c <= 'Z') || ('0' <= c && c
                <= '9');
            &&& plain ==> #[trigger] known[i] == c
            &&& !plain ==> known[i] == '-'
        }
}

/// Servers are known under names that can be used.
pub proof fn law_servers_are_known_under_plain_names(name: &str, limit: usize, known: String)
    requires
        call_ensures(server_name, (name, limit), known),
    ensures
        is_known_as(name@, limit as int, known@),
{
}

/// Of values under one name the last counts, and a name without a value has none.
pub open spec fn holds_last(items: Seq<(String, String)>, map: Map<Seq<char>, String>) -> bool {
    &&& forall|i: int|
        0 <= i < items.len() && (forall|j: int|
            i < j < items.len() ==> (#[trigger] items[j]).0@ != items[i].0@)
            ==> #[trigger] map.dom().contains(items[i].0@) && map[items[i].0@] == items[i].1
    &&& forall|key: Seq<char>| #[trigger]
        map.dom().contains(key) ==> exists|i: int|
            0 <= i < items.len() && (#[trigger] items[i]).0@ == key
}

/// The last of values under one name counts.
proof fn lemma_holds_last(items: Seq<(String, String)>)
    ensures
        holds_last(items, text_map::entries_map(items)),
    decreases items.len(),
{
    let map = text_map::entries_map(items);
    if items.len() > 0 {
        let shorter = items.drop_last();
        let before = text_map::entries_map(shorter);
        lemma_holds_last(shorter);
        assert forall|i: int|
            0 <= i < items.len() && (forall|j: int|
                i < j < items.len() ==> (#[trigger] items[j]).0@ != items[i].0@) implies
            #[trigger] map.dom().contains(items[i].0@) && map[items[i].0@] == items[i].1 by {
            if i < shorter.len() {
                assert(items[items.len() - 1].0@ != items[i].0@);
                assert forall|j: int| i < j < shorter.len() implies (#[trigger] shorter[j]).0@
                    != shorter[i].0@ by {
                    assert(items[j].0@ != items[i].0@);
                }
                assert(before.dom().contains(shorter[i].0@));
            }
        }
        assert forall|key: Seq<char>| #[trigger] map.dom().contains(key) implies exists|i: int|
            0 <= i < items.len() && (#[trigger] items[i]).0@ == key by {
            if key == items.last().0@ {
                assert(items[items.len() - 1].0@ == key);
            } else {
                assert(before.dom().contains(key));
                let i = choose|i: int| 0 <= i < shorter.len() && (#[trigger] shorter[i]).0@ == key;
                assert(items[i].0@ == key);
            }
        }
    }
}

/// Named values are looked up by name, and of two with one name the later counts.
pub proof fn law_later_values_count(items: Vec<(String, String)>, map: TextMap<String>)
    requires
        call_ensures(pairs, (&items,), map),
    ensures
        holds_last(items@, map@),
{
    lemma_holds_last(items@);
}

/// A server is spoken to as the client says: over the web by its address and headers, or as a
/// command with its arguments and environment.
pub open spec fn is_spoken_to(
    server: InjectedServer,
    limit: int,
    name: Seq<char>,
    transport: RawTransport,
) -> bool {
    match server {
        InjectedServer::Http { name: own, url, headers } => {
            &&& is_known_as(own@, limit, name)
            &&& transport matches RawTransport::Http { url: address, headers: sent } && address@
                == url@ && holds_last(headers@, sent@)
        },
        InjectedServer::Stdio { name: own, command, args, env } => {
            &&& is_known_as(own@, limit, name)
            &&& transport matches RawTransport::Stdio { command: line, environment } && {
                &&& line@.len() == args@.len() + 1
                &&& line@[0]@ == command@
                &&& forall|i: int| 0 <= i < args@.len() ==> #[trigger] line@[i + 1] == args@[i]
                &&& holds_last(env@, environment@)
            }
        },
        InjectedServer::Other => false,
    }
}

/// Every server that can be spoken to is taken over, in order and as the client says; the others
/// are left out.
pub proof fn law_brought_servers_are_taken_over(
    servers: Vec<InjectedServer>,
    limit: usize,
    taken: Vec<(String, RawTransport)>,
    i: int,
)
    requires
        call_ensures(injected_servers, (&servers, limit), taken),
    ensures
        ({
            let known = servers@.filter(|server: InjectedServer| !(server is Other));
            &&& taken@.len() == known.len()
            &&& 0 <= i < taken@.len() ==> is_spoken_to(
                known[i],
                limit as int,
                taken@[i].0@,
                taken@[i].1,
            )
        }),
{
    let known = mcp_servers::speakable(servers@);
    if 0 <= i < taken@.len() {
        assert(mcp_servers::speaks(known[i], limit as nat, taken@[i]));
        match known[i] {
            InjectedServer::Http { headers, .. } => {
                lemma_holds_last(headers@);
            },
            InjectedServer::Stdio { env, command, args, .. } => {
                lemma_holds_last(env@);
                let line = seq![command] + args@;
                assert forall|k: int| 0 <= k < args@.len() implies #[trigger] line[k + 1]
                    == args@[k] by {}
            },
            InjectedServer::Other => {},
        }
    }
}

/// The servers that a request brings are read one by one.
pub open spec fn are_sent(
    servers: Seq<InjectedServer>,
    sent: Seq<agent_client_protocol_schema::v1::McpServer>,
) -> bool {
    &&& servers.len() == sent.len()
    &&& forall|i: int|
        0 <= i < servers.len() ==> #[trigger] servers[i] == requests::sent_server(sent[i])
}

/// A request for a new session is read as it was sent, or refused with the reason; only where it is
/// read does the served session close, and then it owes all that a session owes.
pub proof fn law_new_sessions_are_requested(
    server: &mut Server,
    raw: serde_json::Value,
    result: Result<(NewSessionParams, Vec<CloseAction>), AcpError>,
    read: Result<NewSessionParams, AcpError>,
)
    requires
        call_ensures(Server::session_requested, (server, &raw), result),
        call_ensures(new_session_request, (&raw,), read),
    ensures
        match requests::new_session_params(params_in(json::json_text(raw))) {
            Ok((cwd, sent)) => {
                &&& read is Ok
                &&& read->Ok_0.cwd@ == cwd
                &&& are_sent(read->Ok_0.servers@, sent)
                &&& result is Ok
                &&& result->Ok_0.0.cwd@ == cwd
                &&& are_sent(result->Ok_0.0.servers@, sent)
                &&& sessions::only_session_differs(*old(server), *final(server))
                &&& final(server).session is None
                &&& old(server).session is None ==> result->Ok_0.1@.len() == 0
                &&& old(server).session matches Some(served) ==> sessions::is_closed_by(
                    served,
                    result->Ok_0.1@,
                )
            },
            Err(reason) => {
                &&& read matches Err(error) && pump::explained(
                    error,
                    -32602,
                    "Invalid params"@,
                    reason,
                )
                &&& result matches Err(error) && pump::explained(
                    error,
                    -32602,
                    "Invalid params"@,
                    reason,
                )
                &&& *final(server) == *old(server)
            },
        },
{
    if result is Ok && old(server).session is Some {
        sessions::lemma_closes(old(server).session->0, result->Ok_0.1@);
    }
}

/// A request for a saved session is read as it was sent, and then looked up, or refused with the
/// reason.
pub proof fn law_saved_sessions_are_requested(
    raw: serde_json::Value,
    step: RestoreStep,
    read: Result<LoadSessionParams, AcpError>,
)
    requires
        call_ensures(restore_requested, (&raw,), step),
        call_ensures(load_session_request, (&raw,), read),
    ensures
        match requests::load_session_params(params_in(json::json_text(raw))) {
            Ok((session_id, cwd, sent)) => {
                &&& read is Ok
                &&& read->Ok_0.session_id@ == session_id
                &&& read->Ok_0.cwd@ == cwd
                &&& are_sent(read->Ok_0.servers@, sent)
                &&& step matches RestoreStep::LookUp(params) && params.session_id@ == session_id
                    && params.cwd@ == cwd && are_sent(params.servers@, sent)
            },
            Err(reason) => {
                &&& read matches Err(error) && pump::explained(
                    error,
                    -32602,
                    "Invalid params"@,
                    reason,
                )
                &&& step matches RestoreStep::Refused { error, rollback } && rollback@.len() == 0
                    && pump::explained(error, -32602, "Invalid params"@, reason)
            },
        },
{
}

/// A response that comes in settles what it answers, with the answer that the user chose or wrote:
/// a decision is the one that was offered under what was chosen, and else a denial; a text is what
/// was written, and else a dismissal.
pub proof fn law_incoming_responses_settle_questions(
    server: &mut Server,
    raw: serde_json::Value,
    offered: Vec<OfferedAnswer>,
    payload: Option<String>,
    result: Option<Answer>,
    chosen: Option<PermissionAnswer>,
    written: Option<String>,
    sent: Option<SentId>,
    id: Option<i64>,
)
    requires
        call_ensures(response_id, (&raw,), sent),
        sent is Some ==> call_ensures(ask_id, (&sent->0,), id),
        sent is None ==> id is None,
        call_ensures(
            Server::handle_incoming_response,
            (server, &raw, &offered, payload),
            result,
        ),
        call_ensures(permission_in, (&raw, &offered), chosen),
        call_ensures(answer_in, (&raw, payload), written),
    ensures
        sessions::only_session_differs(*old(server), *final(server)),
        old(server).session is None ==> result is None && final(server).session is None,
        old(server).session is Some ==> {
            let before = old(server).session->0;
            let after = final(server).session->0;
            &&& final(server).session is Some
            &&& after.pending@.operation == before.pending@.operation
            &&& json::json_member(json::json_text(raw), "id"@) is None ==> result is None
            &&& result is None ==> {
                &&& after.pending@ == before.pending@
                &&& id is None || before.pending@.elicitation != id
                &&& id is Some ==> forall|k: int|
                    0 <= k < before.pending@.permissions.len() ==> (
                    #[trigger] before.pending@.permissions[k]).request_id != id->0
            }
            &&& result matches Some(answer) ==> match answer.reply {
                Reply::Text(text) => {
                    &&& id is Some
                    &&& before.pending@.elicitation == id
                    &&& after.pending@.elicitation is None
                    &&& answer.channel == before.channel
                    &&& written matches Some(given) ==> text@ == given@
                    &&& written is None ==> text@ == "{\"dismissed\":true}"@
                },
                Reply::Permission { permission_id, answer: decision } => {
                    &&& chosen matches Some(given) ==> decision == given
                    &&& chosen is None ==> decision == PermissionAnswer::Deny
                    &&& id is Some && before.pending@.elicitation != id
                    &&& exists|at: int|
                        {
                            &&& 0 <= at < before.pending@.permissions.len()
                            &&& (#[trigger] before.pending@.permissions[at]).request_id == id->0
                            &&& before.pending@.permissions[at].permission_id@ == permission_id@
                            &&& before.pending@.permissions[at].channel == answer.channel
                            &&& after.pending@.permissions == before.pending@.permissions.remove(at)
                        }
                },
            }
        },
{
    if id is Some && old(server).session is Some {
        pump::lemma_ask_position(old(server).session->0.pending@.permissions, id->0 as int, 0);
    }
}

} // verus!
