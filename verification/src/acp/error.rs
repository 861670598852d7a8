//! The errors a client is answered with.
use agent_client_protocol_schema::v1;
use vstd::prelude::*;

use crate::text::joined;

verus! {

/// What an error carries besides its code and message.
#[derive(Debug, PartialEq, Eq)]
pub enum ErrorData {
    Nothing,
    /// A text that says more.
    Text(String),
    /// The resource that was not found.
    Uri(String),
    /// The request may be sent again.
    Retryable,
}

/// An error as a client sees it.
#[derive(Debug, PartialEq, Eq)]
pub struct AcpError {
    pub code: i32,
    pub message: String,
    pub data: ErrorData,
}

/// What an error carries, as a mathematical value.
pub enum DataView {
    Nothing,
    Text(Seq<char>),
    Uri(Seq<char>),
    Retryable,
}

/// An error as a mathematical value.
pub struct ErrorView {
    pub code: int,
    pub message: Seq<char>,
    pub data: DataView,
}

impl View for ErrorData {
    type V = DataView;

    open spec fn view(&self) -> DataView {
        match self {
            ErrorData::Nothing => DataView::Nothing,
            ErrorData::Text(text) => DataView::Text(text@),
            ErrorData::Uri(uri) => DataView::Uri(uri@),
            ErrorData::Retryable => DataView::Retryable,
        }
    }
}

impl View for AcpError {
    type V = ErrorView;

    open spec fn view(&self) -> ErrorView {
        ErrorView { code: self.code as int, message: self.message@, data: self.data@ }
    }
}

/// The error with a code and a message and nothing else.
pub open spec fn plain_error(code: int, message: Seq<char>) -> ErrorView {
    ErrorView { code, message, data: DataView::Nothing }
}

/// The client sent what is no request.
pub open spec fn invalid_request_view() -> ErrorView {
    plain_error(-32600, "Invalid request"@)
}

/// The client sent text that is no JSON.
pub open spec fn parse_error_view() -> ErrorView {
    plain_error(-32700, "Parse error"@)
}

/// The client asked for a method that does not exist.
pub open spec fn method_not_found_view() -> ErrorView {
    plain_error(-32601, "Method not found"@)
}

/// The client's parameters cannot be used.
pub open spec fn invalid_params_view() -> ErrorView {
    plain_error(-32602, "Invalid params"@)
}

/// The client's parameters cannot be used, for a reason.
pub open spec fn invalid_params_because(reason: Seq<char>) -> ErrorView {
    ErrorView { data: DataView::Text(reason), ..invalid_params_view() }
}

/// The session failed, for a reason.
pub open spec fn internal_error_because(reason: Seq<char>) -> ErrorView {
    ErrorView { code: -32603, message: "Internal error"@, data: DataView::Text(reason) }
}

/// The client must authenticate, for a reason.
pub open spec fn auth_required_because(reason: Seq<char>) -> ErrorView {
    ErrorView { code: -32000, message: "Authentication required"@, data: DataView::Text(reason) }
}

/// A resource does not exist.
pub open spec fn not_found_view(uri: Seq<char>) -> ErrorView {
    ErrorView { code: -32002, message: "Resource not found"@, data: DataView::Uri(uri) }
}

/// No session is active.
pub open spec fn no_session_view() -> ErrorView {
    plain_error(-32600, "no active session"@)
}

/// Calls the schema crate's `Error::new`: the error has the given code, also where the code is one
/// that the crate knows by name, and the given message.
#[verifier::external_body]
fn schema_new(code: i32, message: &str) -> (result: (i32, String))
    ensures
        result.0 == code,
        result.1@ == message@,
{
    let error = v1::Error::new(code, message);
    (i32::from(error.code), error.message)
}

/// Calls the schema crate's `Error::parse_error`: code and message as its source gives them.
#[verifier::external_body]
fn schema_parse_error() -> (result: (i32, String))
    ensures
        result.0 == -32700,
        result.1@ == "Parse error"@,
{
    let error = v1::Error::parse_error();
    (i32::from(error.code), error.message)
}

/// Calls the schema crate's `Error::invalid_request`: code and message as its source gives them.
#[verifier::external_body]
fn schema_invalid_request() -> (result: (i32, String))
    ensures
        result.0 == -32600,
        result.1@ == "Invalid request"@,
{
    let error = v1::Error::invalid_request();
    (i32::from(error.code), error.message)
}

/// Calls the schema crate's `Error::method_not_found`: code and message as its source gives them.
#[verifier::external_body]
fn schema_method_not_found() -> (result: (i32, String))
    ensures
        result.0 == -32601,
        result.1@ == "Method not found"@,
{
    let error = v1::Error::method_not_found();
    (i32::from(error.code), error.message)
}

/// Calls the schema crate's `Error::invalid_params`: code and message as its source gives them.
#[verifier::external_body]
fn schema_invalid_params() -> (result: (i32, String))
    ensures
        result.0 == -32602,
        result.1@ == "Invalid params"@,
{
    let error = v1::Error::invalid_params();
    (i32::from(error.code), error.message)
}

/// Calls the schema crate's `Error::internal_error`: code and message as its source gives them.
#[verifier::external_body]
fn schema_internal_error() -> (result: (i32, String))
    ensures
        result.0 == -32603,
        result.1@ == "Internal error"@,
{
    let error = v1::Error::internal_error();
    (i32::from(error.code), error.message)
}

/// Calls the schema crate's `Error::auth_required`: code and message as its source gives them.
#[verifier::external_body]
fn schema_auth_required() -> (result: (i32, String))
    ensures
        result.0 == -32000,
        result.1@ == "Authentication required"@,
{
    let error = v1::Error::auth_required();
    (i32::from(error.code), error.message)
}

/// Calls the schema crate's `Error::resource_not_found` with a resource: code and message as its
/// source gives them, and the resource as the member `uri` of the error's data.
#[verifier::external_body]
fn schema_resource_not_found(uri: &str) -> (result: (i32, String, Option<String>))
    ensures
        result.0 == -32002,
        result.1@ == "Resource not found"@,
        result.2 is Some && result.2->0@ == uri@,
{
    let error = v1::Error::resource_not_found(Some(uri.to_owned()));
    let named = error.data.as_ref().and_then(|data| data["uri"].as_str()).map(str::to_owned);
    (i32::from(error.code), error.message, named)
}

impl AcpError {
    /// An error with a code and a message.
    pub fn new(code: i32, message: &str) -> (result: Self)
        ensures
            result@ == plain_error(code as int, message@),
    {
        let (code, message) = schema_new(code, message);
        AcpError { code, message, data: ErrorData::Nothing }
    }

    pub fn parse_error() -> (result: Self)
        ensures
            result@ == parse_error_view(),
    {
        let (code, message) = schema_parse_error();
        AcpError { code, message, data: ErrorData::Nothing }
    }

    pub fn invalid_request() -> (result: Self)
        ensures
            result@ == invalid_request_view(),
    {
        let (code, message) = schema_invalid_request();
        AcpError { code, message, data: ErrorData::Nothing }
    }

    pub fn method_not_found() -> (result: Self)
        ensures
            result@ == method_not_found_view(),
    {
        let (code, message) = schema_method_not_found();
        AcpError { code, message, data: ErrorData::Nothing }
    }

    pub fn invalid_params() -> (result: Self)
        ensures
            result@ == invalid_params_view(),
    {
        let (code, message) = schema_invalid_params();
        AcpError { code, message, data: ErrorData::Nothing }
    }

    pub fn internal_error() -> (result: Self)
        ensures
            result@ == plain_error(-32603, "Internal error"@),
    {
        let (code, message) = schema_internal_error();
        AcpError { code, message, data: ErrorData::Nothing }
    }

    pub fn auth_required() -> (result: Self)
        ensures
            result@ == plain_error(-32000, "Authentication required"@),
    {
        let (code, message) = schema_auth_required();
        AcpError { code, message, data: ErrorData::Nothing }
    }

    /// The error that a resource does not exist.
    pub fn resource_not_found(uri: String) -> (result: Self)
        ensures
            result@ == not_found_view(uri@),
    {
        let (code, message, named) = schema_resource_not_found(uri.as_str());
        let data = match named {
            Some(named) => ErrorData::Uri(named),
            None => ErrorData::Nothing,
        };
        AcpError { code, message, data }
    }

    /// The same error, with data.
    pub fn data(self, data: ErrorData) -> (result: Self)
        ensures
            result@ == (ErrorView { data: data@, ..self@ }),
    {
        AcpError { code: self.code, message: self.message, data }
    }
}

/// The error that no session is active.
pub fn no_session() -> (result: AcpError)
    ensures
        result@ == no_session_view(),
{
    AcpError::new(-32600, "no active session")
}

/// The error that a session could not be installed.
pub fn session_registration_error(error: String) -> (result: AcpError)
    ensures
        result@ == internal_error_because(error@),
{
    AcpError::internal_error().data(ErrorData::Text(error))
}

/// A command failed; its message is the error's.
pub fn command_error(message: &str) -> (result: AcpError)
    ensures
        result@ == plain_error(-32602, message@),
{
    AcpError::new(-32602, message)
}

/// Why the coordinator of a session refuses a request. `message` describes the error.
#[derive(Debug, PartialEq, Eq)]
pub enum CoordinatorError {
    StaleSession { id: String },
    SessionBusy { message: String },
    /// The option is unknown, the value is not one of its values, fast mode is not supported, or
    /// policy or a callback rejects the value.
    OptionRejected { message: String },
    /// Any other failure.
    Other { message: String },
}

/// The error a client sees where the coordinator refuses a request.
pub open spec fn coordinator_error_view(error: CoordinatorError) -> ErrorView {
    match error {
        CoordinatorError::StaleSession { id } => not_found_view("session/"@ + id@),
        CoordinatorError::SessionBusy { message } => plain_error(-32600, message@),
        CoordinatorError::OptionRejected { message } => invalid_params_because(message@),
        CoordinatorError::Other { message } => internal_error_because(message@),
    }
}

/// The error a client sees where the coordinator refuses a request.
pub fn coordinator_error(error: CoordinatorError) -> (result: AcpError)
    ensures
        result@ == coordinator_error_view(error),
{
    match error {
        CoordinatorError::StaleSession { id } => AcpError::resource_not_found(
            joined("session/", id.as_str()),
        ),
        CoordinatorError::SessionBusy { message } => AcpError::new(-32600, message.as_str()),
        CoordinatorError::OptionRejected { message } => AcpError::invalid_params().data(
            ErrorData::Text(message),
        ),
        CoordinatorError::Other { message } => AcpError::internal_error().data(
            ErrorData::Text(message),
        ),
    }
}

} // verus!
