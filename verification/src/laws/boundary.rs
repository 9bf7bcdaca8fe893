//! What crosses the boundary: who is admitted, what an agent is told, and what a web client gets.
use crate::access;
use crate::access::{AccessRequest, ActorReply, AuthorizationFailure, Authorized, PortReply};
use crate::export;
use crate::failure::{CollaborationError, ProjectsError};
use crate::json;
use crate::text;
use crate::tools;
use crate::tools::ExecuteError;
use crate::validate;
use crate::web;
use crate::web::HandleResponse;
use vstd::prelude::*;

verus! {

/// A caller that is not allowed is refused whatever the assertion, the membership and the permission
/// would have been.
pub proof fn law_untrusted_caller_is_refused_first(
    caller: Option<String>,
    allowed: Seq<String>,
    request: AccessRequest,
    actor: ActorReply,
    member: PortReply,
    permitted: PortReply,
    result: Result<Authorized, AuthorizationFailure>,
)
    requires
        !access::is_admitted(text::text_of(caller), allowed),
        access::is_access(caller, allowed, request, actor, member, permitted, result),
    ensures
        result == Err::<Authorized, AuthorizationFailure>(AuthorizationFailure::Forbidden),
{
}

/// Whoever is admitted was an allowed caller with a verified actor, who is an active member and has
/// the permission.
pub proof fn law_admission_needs_every_answer(
    caller: Option<String>,
    allowed: Seq<String>,
    request: AccessRequest,
    actor: ActorReply,
    member: PortReply,
    permitted: PortReply,
    authorized: Authorized,
)
    requires
        access::is_access(
            caller,
            allowed,
            request,
            actor,
            member,
            permitted,
            Ok::<Authorized, AuthorizationFailure>(authorized),
        ),
    ensures
        text::has_text(allowed, authorized.caller@),
        actor matches ActorReply::Verified { subject } && subject@ == authorized.actor@,
        validate::is_id(request.organization_id@),
        member == PortReply::Answered(true),
        permitted == PortReply::Answered(true),
{
}

/// An agent can tell a refusal for want of permission from a lost race, a missing thing and a bad
/// request, in both contracts.
pub proof fn law_tool_errors_stay_distinct(
    denied: ExecuteError,
    stale: ExecuteError,
    missing: ExecuteError,
    invalid: ExecuteError,
)
    requires
        tools::is_project_tool_error(ProjectsError::Forbidden, denied)
            || tools::is_project_tool_error(ProjectsError::PrivateTeam, denied)
            || tools::is_project_tool_error(ProjectsError::Unauthenticated, denied)
            || tools::is_collaboration_tool_error(CollaborationError::Forbidden, denied)
            || tools::is_collaboration_tool_error(CollaborationError::AuthorRequired, denied),
        tools::is_project_tool_error(ProjectsError::RevisionConflict, stale)
            || tools::is_collaboration_tool_error(CollaborationError::RevisionConflict, stale),
        tools::is_project_tool_error(ProjectsError::NotFound, missing)
            || tools::is_collaboration_tool_error(CollaborationError::NotFound, missing),
        tools::is_project_tool_error(ProjectsError::InvalidRequest, invalid)
            || tools::is_collaboration_tool_error(CollaborationError::InvalidRequest, invalid),
    ensures
        denied == ExecuteError::PermissionDenied,
        tools::is_rejected(stale, "revision_conflict"@),
        missing == ExecuteError::NotFound,
        invalid == ExecuteError::InvalidArguments,
{
}

/// A character takes at most four bytes.
proof fn lemma_byte_len_bound(text: Seq<char>)
    ensures
        text::byte_len(text) <= 4 * text.len(),
    decreases text.len(),
{
    if text.len() > 0 {
        lemma_byte_len_bound(text.drop_first());
        let first = seq![text[0]];
        assert(first + text.drop_first() =~= text);
        export::lemma_byte_len_add(first, text.drop_first());
        assert(first.drop_first() =~= Seq::<char>::empty());
        vstd::utf8::char_is_scalar(text[0]);
        assert(vstd::utf8::encode_utf8(first.drop_first()).len() == 0);
        assert(vstd::utf8::encode_utf8(first).len() <= 4);
    }
}

/// Escaping makes a text at most six times as long.
proof fn lemma_escaped_bound(text: Seq<char>)
    ensures
        json::escaped(text).len() <= 6 * text.len(),
    decreases text.len(),
{
    if text.len() > 0 {
        lemma_escaped_bound(text.drop_last());
    }
}

/// Every reply to a web client fits the largest response, and tells it not to store the body.
pub proof fn law_replies_are_bounded(response: HandleResponse, status: int, body: Seq<char>)
    requires
        web::is_reply(response, status, body),
    ensures
        text::byte_len(response.body@) <= web::MAX_RESPONSE,
        web::are_reply_headers(response.headers@),
        web::is_header(response.headers@[1], "cache-control"@, "no-store"@),
{
    if text::byte_len(body) > web::MAX_RESPONSE {
        let code = "response_too_large"@;
        reveal_strlit("response_too_large");
        reveal_strlit("{\"error\":");
        reveal_strlit("}");
        lemma_escaped_bound(code);
        lemma_byte_len_bound(web::problem_body(code));
    }
}

} // verus!
