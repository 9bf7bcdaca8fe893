//! Authenticated HTTP ingress over the tools: what is asked, refused and replied.
use crate::contract::{AUTH_CAPABILITY, TOOL_PROVIDER_CAPABILITY};
use crate::failure::RuntimeFailure;
use crate::json;
use crate::json::quoted;
use crate::text;
use crate::text::same;
use crate::tools::ExecuteError;
use vstd::prelude::*;

verus! {

/// The largest request body, in bytes.
pub const MAX_REQUEST: usize = 300_000;

/// The largest response body, in bytes.
pub const MAX_RESPONSE: usize = 2_097_152;

/// The longest tool name, in bytes.
pub const MAX_TOOL_NAME: usize = 128;

/// The longest tool arguments, in bytes.
pub const MAX_ARGUMENTS: usize = 262_144;

/// One header of a response.
#[derive(Clone, Debug, PartialEq, Eq)]
pub struct Header {
    pub name: String,
    pub value: String,
}

/// A response.
#[derive(Clone, Debug, PartialEq, Eq)]
pub struct HandleResponse {
    pub status: i64,
    pub headers: Vec<Header>,
    pub body: String,
}

/// Whether the header has this name and value.
pub open spec fn is_header(header: Header, name: Seq<char>, value: Seq<char>) -> bool {
    header.name@ == name && header.value@ == value
}

/// Whether the headers say that the body is JSON that nobody stores or sniffs.
pub open spec fn are_reply_headers(headers: Seq<Header>) -> bool {
    &&& headers.len() == 3
    &&& is_header(headers[0], "content-type"@, "application/json"@)
    &&& is_header(headers[1], "cache-control"@, "no-store"@)
    &&& is_header(headers[2], "x-content-type-options"@, "nosniff"@)
}

/// Whether `response` is the JSON body with this status.
pub open spec fn is_json_response(response: HandleResponse, status: int, body: Seq<char>) -> bool {
    &&& response.status == status
    &&& response.body@ == body
    &&& are_reply_headers(response.headers@)
}

/// The body that names a problem.
pub open spec fn problem_body(code: Seq<char>) -> Seq<char> {
    "{\"error\":"@ + json::json_string(code) + "}"@
}

/// Whether `response` names a problem.
pub open spec fn is_problem(response: HandleResponse, status: int, code: Seq<char>) -> bool {
    is_json_response(response, status, problem_body(code))
}

/// Whether `response` is the reply with this status and body: a body over the limit is replaced by
/// a problem.
pub open spec fn is_reply(response: HandleResponse, status: int, body: Seq<char>) -> bool {
    if text::byte_len(body) > MAX_RESPONSE {
        is_problem(response, 413, "response_too_large"@)
    } else {
        is_json_response(response, status, body)
    }
}

fn header(name: &str, value: &str) -> (result: Header)
    ensures
        is_header(result, name@, value@),
{
    Header { name: name.to_owned(), value: value.to_owned() }
}

fn json_response(status: i64, body: String) -> (response: HandleResponse)
    ensures
        is_json_response(response, status as int, body@),
{
    let headers = vec![
        header("content-type", "application/json"),
        header("cache-control", "no-store"),
        header("x-content-type-options", "nosniff"),
    ];
    HandleResponse { status, headers, body }
}

/// The response that names a problem.
pub fn problem(status: i64, code: &str) -> (response: HandleResponse)
    ensures
        is_problem(response, status as int, code@),
{
    let mut body = "{\"error\":".to_owned();
    body.append(quoted(code).as_str());
    body.append("}");
    json_response(status, body)
}

/// The reply with this status and JSON body.
pub fn reply(status: i64, body: String) -> (response: HandleResponse)
    ensures
        is_reply(response, status as int, body@),
{
    if body.as_str().as_bytes().len() > MAX_RESPONSE {
        return problem(413, "response_too_large");
    }
    json_response(status, body)
}

/// Whether `failure` says that a port broke its contract.
pub open spec fn is_violation(failure: RuntimeFailure, capability: Seq<char>) -> bool {
    failure matches RuntimeFailure::ProtocolViolation { capability: name } && name@ == capability
}

fn violation(capability: &str) -> (failure: RuntimeFailure)
    ensures
        is_violation(failure, capability@),
{
    RuntimeFailure::ProtocolViolation { capability: capability.to_owned() }
}

/// What becomes of an invocation on its way.
#[derive(Clone, Debug, PartialEq, Eq)]
pub enum WebStep {
    /// Go on.
    Continue,
    /// Reply with this response.
    Respond(HandleResponse),
    /// The invocation fails.
    Fail(RuntimeFailure),
}

/// Whether the step responds with a problem.
pub open spec fn responds(step: WebStep, status: int, code: Seq<char>) -> bool {
    step matches WebStep::Respond(response) && is_problem(response, status, code)
}

/// What a selected credential leads to, by its scheme.
pub open spec fn credential_leads(scheme: Option<Seq<char>>, step: WebStep) -> bool {
    if scheme == Some("session"@) {
        step == WebStep::Continue
    } else {
        responds(step, 401, "authentication_required"@)
    }
}

/// Starts authentication: only a session credential that the ingress selected is accepted.
pub fn credential_selected(scheme: &Option<String>) -> (step: WebStep)
    ensures
        credential_leads(text::text_of(*scheme), step),
{
    match scheme {
        Some(scheme) => {
            if same(scheme.as_str(), "session") {
                return WebStep::Continue;
            }
            WebStep::Respond(problem(401, "authentication_required"))
        },
        None => WebStep::Respond(problem(401, "authentication_required")),
    }
}

/// What the Auth port answers.
#[derive(Clone, Debug, PartialEq, Eq)]
pub enum AuthReply {
    /// The credential is authenticated for an actor of this kind.
    Authenticated { actor_kind: String },
    /// Nobody is authenticated.
    Anonymous,
    /// The credential is refused.
    Refused,
    /// The answer cannot be decoded.
    Undecodable,
    /// The port failed.
    Failed(RuntimeFailure),
}

/// What an answer of the Auth port leads to.
pub open spec fn session_leads(reply: AuthReply, step: WebStep) -> bool {
    match reply {
        AuthReply::Authenticated { actor_kind } => if actor_kind@ == "user"@ {
            step == WebStep::Continue
        } else {
            responds(step, 403, "user_required"@)
        },
        AuthReply::Anonymous => responds(step, 401, "authentication_required"@),
        AuthReply::Refused => responds(step, 401, "invalid_session"@),
        AuthReply::Undecodable => step matches WebStep::Fail(failure) && is_violation(
            failure,
            AUTH_CAPABILITY@,
        ),
        AuthReply::Failed(failure) => step == WebStep::Fail(failure),
    }
}

/// Continues once the Auth port answered: only users are let through.
pub fn session_checked(reply: AuthReply) -> (step: WebStep)
    ensures
        session_leads(reply, step),
{
    match reply {
        AuthReply::Authenticated { actor_kind } => {
            if same(actor_kind.as_str(), "user") {
                return WebStep::Continue;
            }
            WebStep::Respond(problem(403, "user_required"))
        },
        AuthReply::Anonymous => WebStep::Respond(problem(401, "authentication_required")),
        AuthReply::Refused => WebStep::Respond(problem(401, "invalid_session")),
        AuthReply::Undecodable => WebStep::Fail(violation(AUTH_CAPABILITY)),
        AuthReply::Failed(failure) => WebStep::Fail(failure),
    }
}

/// What the attachment of the assertion leads to.
pub open spec fn attachment_leads(attached: bool, step: WebStep) -> bool {
    if attached {
        step == WebStep::Continue
    } else {
        step matches WebStep::Fail(failure) && is_violation(failure, AUTH_CAPABILITY@)
    }
}

/// Ends authentication: the assertion must attach to the invocation.
pub fn assertion_attached(attached: bool) -> (step: WebStep)
    ensures
        attachment_leads(attached, step),
{
    if attached {
        WebStep::Continue
    } else {
        WebStep::Fail(violation(AUTH_CAPABILITY))
    }
}

/// What the tool provider answers when it is asked for its catalog.
#[derive(Clone, Debug, PartialEq, Eq)]
pub enum CatalogReply {
    /// The catalog, as JSON.
    Catalog { body: String },
    /// The catalog cannot be written as JSON.
    Unwritable,
    /// The provider has no catalog.
    Refused,
    /// The port failed.
    Failed(RuntimeFailure),
}

/// What an answer to the question for the catalog leads to.
pub open spec fn catalog_leads(answer: CatalogReply, step: WebStep) -> bool {
    match answer {
        CatalogReply::Catalog { body } => step matches WebStep::Respond(response) && is_reply(
            response,
            200,
            body@,
        ),
        CatalogReply::Unwritable => step matches WebStep::Fail(failure) && is_violation(
            failure,
            TOOL_PROVIDER_CAPABILITY@,
        ),
        CatalogReply::Refused => responds(step, 503, "catalog_unavailable"@),
        CatalogReply::Failed(failure) => step == WebStep::Fail(failure),
    }
}

/// Answers with the catalog.
pub fn catalog_answered(answer: CatalogReply) -> (step: WebStep)
    ensures
        catalog_leads(answer, step),
{
    match answer {
        CatalogReply::Catalog { body } => WebStep::Respond(reply(200, body)),
        CatalogReply::Unwritable => WebStep::Fail(violation(TOOL_PROVIDER_CAPABILITY)),
        CatalogReply::Refused => WebStep::Respond(problem(503, "catalog_unavailable")),
        CatalogReply::Failed(failure) => WebStep::Fail(failure),
    }
}

/// What the size of a request body leads to.
pub open spec fn body_leads(length: int, step: WebStep) -> bool {
    if length > MAX_REQUEST {
        responds(step, 413, "request_too_large"@)
    } else {
        step == WebStep::Continue
    }
}

/// Checks the size of a request body.
pub fn body_received(length: usize) -> (step: WebStep)
    ensures
        body_leads(length as int, step),
{
    if length > MAX_REQUEST {
        WebStep::Respond(problem(413, "request_too_large"))
    } else {
        WebStep::Continue
    }
}

/// The body of an execution request.
#[derive(Clone, Debug, PartialEq, Eq)]
pub struct ToolInput {
    pub name: String,
    pub arguments_json: String,
}

/// Whether `RawJson::new` accepts a text.
pub uninterp spec fn is_json_text(text: Seq<char>) -> bool;

/// Calls `lenso_capability_agent_tool_provider::RawJson::new`. Whether it succeeds depends on the
/// text alone: it must be one well-formed JSON value whose numbers are portable. Which texts these
/// are is not stated.
#[verifier::external_body]
pub(crate) fn parses_json(text: &str) -> (accepted: bool)
    ensures
        accepted == is_json_text(text@),
{
    lenso_capability_agent_tool_provider::RawJson::new(text).is_ok()
}

/// Whether the sizes of an input are within their limits.
pub open spec fn is_bounded_input(input: ToolInput) -> bool {
    &&& 0 < text::byte_len(input.name@) <= MAX_TOOL_NAME
    &&& text::byte_len(input.arguments_json@) <= MAX_ARGUMENTS
}

/// What a decoded body leads to, given whether its arguments are JSON.
pub open spec fn input_leads(input: Option<ToolInput>, is_json: bool, step: WebStep) -> bool {
    match input {
        None => responds(step, 400, "invalid_request"@),
        Some(input) => if is_bounded_input(input) && is_json {
            step == WebStep::Continue
        } else {
            responds(step, 400, "invalid_arguments"@)
        },
    }
}

/// Checks a decoded body, given whether its arguments are JSON: nothing was decoded where the body is
/// not an input.
pub fn input_checked(input: &Option<ToolInput>, is_json: bool) -> (step: WebStep)
    ensures
        input_leads(*input, is_json, step),
{
    match input {
        None => WebStep::Respond(problem(400, "invalid_request")),
        Some(input) => {
            let name = input.name.as_str().as_bytes().len();
            if name == 0 || name > MAX_TOOL_NAME || input.arguments_json.as_str().as_bytes().len()
                > MAX_ARGUMENTS || !is_json {
                WebStep::Respond(problem(400, "invalid_arguments"))
            } else {
                WebStep::Continue
            }
        },
    }
}

/// The status of a refused execution; an unknown refusal has none.
pub open spec fn execute_status(error: ExecuteError) -> Option<int> {
    match error {
        ExecuteError::InvalidArguments => Some(400),
        ExecuteError::PermissionDenied => Some(403),
        ExecuteError::NotFound => Some(404),
        ExecuteError::OutputLimitExceeded => Some(413),
        ExecuteError::ExecutionFailed { .. } => Some(422),
        ExecuteError::Unknown => None,
    }
}

/// What the tool provider answers when it is asked to execute, with the JSON of its answer.
#[derive(Clone, Debug, PartialEq, Eq)]
pub enum ExecutionReply {
    /// The result.
    Done { body: String },
    /// The answer cannot be written as JSON.
    Unwritable,
    /// The refusal.
    Refused { error: ExecuteError, body: String },
    /// The port failed.
    Failed(RuntimeFailure),
}

/// What an answer to an execution leads to.
pub open spec fn execution_leads(answer: ExecutionReply, step: WebStep) -> bool {
    match answer {
        ExecutionReply::Done { body } => step matches WebStep::Respond(response) && is_reply(
            response,
            200,
            body@,
        ),
        ExecutionReply::Unwritable => step matches WebStep::Fail(failure) && is_violation(
            failure,
            TOOL_PROVIDER_CAPABILITY@,
        ),
        ExecutionReply::Refused { error, body } => match execute_status(error) {
            Some(status) => step matches WebStep::Respond(response) && is_reply(
                response,
                status,
                body@,
            ),
            None => step matches WebStep::Fail(failure) && is_violation(
                failure,
                TOOL_PROVIDER_CAPABILITY@,
            ),
        },
        ExecutionReply::Failed(failure) => step == WebStep::Fail(failure),
    }
}

/// Answers with the result of an execution.
pub fn execution_answered(answer: ExecutionReply) -> (step: WebStep)
    ensures
        execution_leads(answer, step),
{
    match answer {
        ExecutionReply::Done { body } => WebStep::Respond(reply(200, body)),
        ExecutionReply::Unwritable => WebStep::Fail(violation(TOOL_PROVIDER_CAPABILITY)),
        ExecutionReply::Refused { error, body } => {
            let status: i64 = match error {
                ExecuteError::InvalidArguments => 400,
                ExecuteError::PermissionDenied => 403,
                ExecuteError::NotFound => 404,
                ExecuteError::OutputLimitExceeded => 413,
                ExecuteError::ExecutionFailed { .. } => 422,
                ExecuteError::Unknown => {
                    return WebStep::Fail(violation(TOOL_PROVIDER_CAPABILITY));
                },
            };
            WebStep::Respond(reply(status, body))
        },
        ExecutionReply::Failed(failure) => WebStep::Fail(failure),
    }
}

} // verus!
