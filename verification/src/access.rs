//! Authorization: who may call, for whom, and with which permission.
use crate::contract::{ACCESS_CAPABILITY, MEMBERSHIP_CAPABILITY};
use crate::failure::{AdminError, CollaborationError, PluginError, ProjectsError, RuntimeFailure};
use crate::text;
use crate::text::contains_text;
use crate::validate;
use crate::validate::valid_id;
use vstd::prelude::*;

verus! {

/// The caller and the actor of an admitted invocation.
#[derive(Clone, Debug, PartialEq, Eq)]
pub struct Authorized {
    pub caller: String,
    pub actor: String,
}

/// Why an invocation is not admitted.
#[derive(Clone, Debug, PartialEq, Eq)]
pub enum AuthorizationFailure {
    Unauthenticated,
    Forbidden,
    Runtime(RuntimeFailure),
}

/// What became of the actor assertion that an invocation carries, checked for the exact capability
/// and operation.
#[derive(Clone, Debug, PartialEq, Eq)]
pub enum ActorReply {
    Verified { subject: String },
    Rejected,
    Failed(RuntimeFailure),
}

/// What a port answers to a question.
#[derive(Clone, Debug, PartialEq, Eq)]
pub enum PortReply {
    Answered(bool),
    Refused,
    Failed(RuntimeFailure),
}

/// What an invocation asks for.
#[derive(Clone, Debug, PartialEq, Eq)]
pub struct AccessRequest {
    pub capability: String,
    pub operation: String,
    pub organization_id: String,
    pub permission: String,
}

/// How far the authorization of an invocation is, and what it needs next.
#[derive(Clone, Debug, PartialEq, Eq)]
pub enum AccessStep {
    /// Verify the actor assertion for this capability and operation.
    VerifyActor { caller: String, capability: String, operation: String },
    /// Ask whether the subject is an active member of the organization.
    CheckMembership { caller: String, organization_id: String, subject: String },
    /// Ask whether the subject has the permission in the scope.
    CheckPermission {
        caller: String,
        subject: String,
        scope_kind: String,
        scope_id: String,
        permission: String,
    },
    /// The invocation is admitted.
    Granted(Authorized),
    /// The invocation is not admitted.
    Denied(AuthorizationFailure),
}

/// Whether `failure` says that a port broke its contract.
pub open spec fn is_violation(failure: AuthorizationFailure, capability: Seq<char>) -> bool {
    failure matches AuthorizationFailure::Runtime(
        RuntimeFailure::ProtocolViolation { capability: name },
    ) && name@ == capability
}

/// Whether the caller is one of those that are allowed.
pub open spec fn is_admitted(caller: Option<Seq<char>>, allowed: Seq<String>) -> bool {
    caller is Some && text::has_text(allowed, caller->0)
}

/// Whether the caller is one of those that are allowed.
pub fn admits(caller: &Option<String>, allowed: &Vec<String>) -> (answer: bool)
    ensures
        answer == is_admitted(text::text_of(*caller), allowed@),
{
    match caller {
        Some(caller) => contains_text(allowed, caller.as_str()),
        None => false,
    }
}

/// Starts an authorization: a caller that is not allowed is denied before anything else is asked.
pub fn begin_access(caller: &Option<String>, allowed: &Vec<String>, request: &AccessRequest) -> (step:
    AccessStep)
    ensures
        if is_admitted(text::text_of(*caller), allowed@) {
            step matches AccessStep::VerifyActor { caller: name, capability, operation } && name@
                == caller->0@ && capability@ == request.capability@ && operation@
                == request.operation@
        } else {
            step == AccessStep::Denied(AuthorizationFailure::Forbidden)
        },
{
    match caller {
        Some(name) => {
            if contains_text(allowed, name.as_str()) {
                return AccessStep::VerifyActor {
                    caller: name.clone(),
                    capability: request.capability.clone(),
                    operation: request.operation.clone(),
                };
            }
            AccessStep::Denied(AuthorizationFailure::Forbidden)
        },
        None => AccessStep::Denied(AuthorizationFailure::Forbidden),
    }
}

/// Continues once the actor assertion was checked.
pub fn actor_checked(caller: &str, request: &AccessRequest, reply: ActorReply) -> (step: AccessStep)
    ensures
        match reply {
            ActorReply::Rejected => step == AccessStep::Denied(
                AuthorizationFailure::Unauthenticated,
            ),
            ActorReply::Failed(failure) => step == AccessStep::Denied(
                AuthorizationFailure::Runtime(failure),
            ),
            ActorReply::Verified { subject } => if validate::is_id(request.organization_id@)
                && validate::is_id(subject@) {
                step matches AccessStep::CheckMembership {
                    caller: name,
                    organization_id,
                    subject: asked,
                } && name@ == caller@ && organization_id@ == request.organization_id@ && asked
                    == subject
            } else {
                step == AccessStep::Denied(AuthorizationFailure::Forbidden)
            },
        },
{
    match reply {
        ActorReply::Rejected => AccessStep::Denied(AuthorizationFailure::Unauthenticated),
        ActorReply::Failed(failure) => AccessStep::Denied(AuthorizationFailure::Runtime(failure)),
        ActorReply::Verified { subject } => {
            if valid_id(request.organization_id.as_str()) && valid_id(subject.as_str()) {
                AccessStep::CheckMembership {
                    caller: caller.to_owned(),
                    organization_id: request.organization_id.clone(),
                    subject,
                }
            } else {
                AccessStep::Denied(AuthorizationFailure::Forbidden)
            }
        },
    }
}

/// What a port's answer means: whether it says yes, or why the invocation fails.
pub open spec fn port_failure(reply: PortReply, capability: Seq<char>, failure: AuthorizationFailure) -> bool {
    match reply {
        PortReply::Answered(answer) => !answer && failure == AuthorizationFailure::Forbidden,
        PortReply::Refused => is_violation(failure, capability),
        PortReply::Failed(error) => failure == AuthorizationFailure::Runtime(error),
    }
}

fn port_answer(reply: PortReply, capability: &str) -> (result: Result<(), AuthorizationFailure>)
    ensures
        result is Ok <==> reply == PortReply::Answered(true),
        result matches Err(failure) ==> port_failure(reply, capability@, failure),
{
    match reply {
        PortReply::Answered(answer) => if answer {
            Ok(())
        } else {
            Err(AuthorizationFailure::Forbidden)
        },
        PortReply::Refused => Err(
            AuthorizationFailure::Runtime(
                RuntimeFailure::ProtocolViolation { capability: capability.to_owned() },
            ),
        ),
        PortReply::Failed(failure) => Err(AuthorizationFailure::Runtime(failure)),
    }
}

/// What the membership port's answer about a subject means.
pub fn membership_answer(reply: PortReply) -> (result: Result<(), AuthorizationFailure>)
    ensures
        result is Ok <==> reply == PortReply::Answered(true),
        result matches Err(failure) ==> port_failure(reply, MEMBERSHIP_CAPABILITY@, failure),
{
    port_answer(reply, MEMBERSHIP_CAPABILITY)
}

/// Continues once the membership of the subject was asked for.
pub fn membership_checked(caller: &str, subject: &str, request: &AccessRequest, reply: PortReply) -> (step:
    AccessStep)
    ensures
        if reply == PortReply::Answered(true) {
            step matches AccessStep::CheckPermission {
                caller: name,
                subject: asked,
                scope_kind,
                scope_id,
                permission,
            } && name@ == caller@ && asked@ == subject@ && scope_kind@ == "organization"@
                && scope_id@ == request.organization_id@ && permission@ == request.permission@
        } else {
            step matches AccessStep::Denied(failure) && port_failure(
                reply,
                MEMBERSHIP_CAPABILITY@,
                failure,
            )
        },
{
    match port_answer(reply, MEMBERSHIP_CAPABILITY) {
        Ok(()) => AccessStep::CheckPermission {
            caller: caller.to_owned(),
            subject: subject.to_owned(),
            scope_kind: "organization".to_owned(),
            scope_id: request.organization_id.clone(),
            permission: request.permission.clone(),
        },
        Err(failure) => AccessStep::Denied(failure),
    }
}

/// Ends once the permission of the subject was asked for.
pub fn permission_checked(caller: &str, subject: &str, reply: PortReply) -> (step: AccessStep)
    ensures
        if reply == PortReply::Answered(true) {
            step matches AccessStep::Granted(authorized) && authorized.caller@ == caller@
                && authorized.actor@ == subject@
        } else {
            step matches AccessStep::Denied(failure) && port_failure(
                reply,
                ACCESS_CAPABILITY@,
                failure,
            )
        },
{
    match port_answer(reply, ACCESS_CAPABILITY) {
        Ok(()) => AccessStep::Granted(
            Authorized { caller: caller.to_owned(), actor: subject.to_owned() },
        ),
        Err(failure) => AccessStep::Denied(failure),
    }
}

/// Whether `result` is what an authorization comes to, given every answer on its way.
pub open spec fn is_access(
    caller: Option<String>,
    allowed: Seq<String>,
    request: AccessRequest,
    actor: ActorReply,
    member: PortReply,
    permitted: PortReply,
    result: Result<Authorized, AuthorizationFailure>,
) -> bool {
    if !is_admitted(text::text_of(caller), allowed) {
        result == Err::<Authorized, AuthorizationFailure>(AuthorizationFailure::Forbidden)
    } else {
        match actor {
            ActorReply::Rejected => result == Err::<Authorized, AuthorizationFailure>(
                AuthorizationFailure::Unauthenticated,
            ),
            ActorReply::Failed(failure) => result == Err::<Authorized, AuthorizationFailure>(
                AuthorizationFailure::Runtime(failure),
            ),
            ActorReply::Verified { subject } => if !validate::is_id(request.organization_id@)
                || !validate::is_id(subject@) {
                result == Err::<Authorized, AuthorizationFailure>(AuthorizationFailure::Forbidden)
            } else if member != PortReply::Answered(true) {
                result matches Err(failure) && port_failure(member, MEMBERSHIP_CAPABILITY@, failure)
            } else if permitted != PortReply::Answered(true) {
                result matches Err(failure) && port_failure(permitted, ACCESS_CAPABILITY@, failure)
            } else {
                result matches Ok(authorized) && authorized.caller@ == caller->0@
                    && authorized.actor@ == subject@
            },
        }
    }
}

/// Runs an authorization on answers that are all known.
pub fn authorize(
    caller: &Option<String>,
    allowed: &Vec<String>,
    request: &AccessRequest,
    actor: ActorReply,
    member: PortReply,
    permitted: PortReply,
) -> (result: Result<Authorized, AuthorizationFailure>)
    ensures
        is_access(*caller, allowed@, *request, actor, member, permitted, result),
{
    let caller = match begin_access(caller, allowed, request) {
        AccessStep::VerifyActor { caller, .. } => caller,
        _ => {
            return Err(AuthorizationFailure::Forbidden);
        },
    };
    let subject = match actor_checked(caller.as_str(), request, actor) {
        AccessStep::CheckMembership { subject, .. } => subject,
        AccessStep::Denied(failure) => {
            return Err(failure);
        },
        _ => {
            return Err(AuthorizationFailure::Forbidden);
        },
    };
    match membership_checked(caller.as_str(), subject.as_str(), request, member) {
        AccessStep::CheckPermission { .. } => {},
        AccessStep::Denied(failure) => {
            return Err(failure);
        },
        _ => {
            return Err(AuthorizationFailure::Forbidden);
        },
    }
    match permission_checked(caller.as_str(), subject.as_str(), permitted) {
        AccessStep::Granted(authorized) => Ok(authorized),
        AccessStep::Denied(failure) => Err(failure),
        _ => Err(AuthorizationFailure::Forbidden),
    }
}

/// What the Projects contract answers to an invocation that is not admitted.
pub open spec fn project_denial(failure: AuthorizationFailure) -> PluginError<ProjectsError> {
    match failure {
        AuthorizationFailure::Unauthenticated => PluginError::Domain(
            ProjectsError::Unauthenticated,
        ),
        AuthorizationFailure::Forbidden => PluginError::Domain(ProjectsError::Forbidden),
        AuthorizationFailure::Runtime(failure) => PluginError::Runtime(failure),
    }
}

/// What the Projects Collaboration contract answers to an invocation that is not admitted.
pub open spec fn collaboration_denial(failure: AuthorizationFailure) -> PluginError<
    CollaborationError,
> {
    match failure {
        AuthorizationFailure::Unauthenticated => PluginError::Domain(
            CollaborationError::Unauthenticated,
        ),
        AuthorizationFailure::Forbidden => PluginError::Domain(CollaborationError::Forbidden),
        AuthorizationFailure::Runtime(failure) => PluginError::Runtime(failure),
    }
}

/// What the Projects Admin contract answers to an invocation that is not admitted.
pub open spec fn admin_denial(failure: AuthorizationFailure) -> PluginError<AdminError> {
    match failure {
        AuthorizationFailure::Unauthenticated => PluginError::Domain(AdminError::Unauthenticated),
        AuthorizationFailure::Forbidden => PluginError::Domain(AdminError::Forbidden),
        AuthorizationFailure::Runtime(failure) => PluginError::Runtime(failure),
    }
}

/// What the Projects contract answers to an invocation that is not admitted.
pub fn deny_project(failure: AuthorizationFailure) -> (error: PluginError<ProjectsError>)
    ensures
        error == project_denial(failure),
{
    match failure {
        AuthorizationFailure::Unauthenticated => PluginError::Domain(
            ProjectsError::Unauthenticated,
        ),
        AuthorizationFailure::Forbidden => PluginError::Domain(ProjectsError::Forbidden),
        AuthorizationFailure::Runtime(failure) => PluginError::Runtime(failure),
    }
}

/// What the Projects Collaboration contract answers to an invocation that is not admitted.
pub fn deny_collaboration(failure: AuthorizationFailure) -> (error: PluginError<CollaborationError>)
    ensures
        error == collaboration_denial(failure),
{
    match failure {
        AuthorizationFailure::Unauthenticated => PluginError::Domain(
            CollaborationError::Unauthenticated,
        ),
        AuthorizationFailure::Forbidden => PluginError::Domain(CollaborationError::Forbidden),
        AuthorizationFailure::Runtime(failure) => PluginError::Runtime(failure),
    }
}

/// What the Projects Admin contract answers to an invocation that is not admitted.
pub fn deny_admin(failure: AuthorizationFailure) -> (error: PluginError<AdminError>)
    ensures
        error == admin_denial(failure),
{
    match failure {
        AuthorizationFailure::Unauthenticated => PluginError::Domain(AdminError::Unauthenticated),
        AuthorizationFailure::Forbidden => PluginError::Domain(AdminError::Forbidden),
        AuthorizationFailure::Runtime(failure) => PluginError::Runtime(failure),
    }
}

} // verus!
