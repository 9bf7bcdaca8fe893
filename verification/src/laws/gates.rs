//! Who is admitted to what, and in whose name it is done.
use crate::access::{AccessRequest, ActorReply, AuthorizationFailure, Authorized, PortReply};
use crate::access;
use crate::admin_handlers;
use crate::clock::Timestamp;
use crate::collaboration;
use crate::collaboration_handlers;
use crate::config::{ProjectsConfig, ProjectsConfigError};
use crate::config;
use crate::failure::{
    AdminError, CollaborationError, DomainFailure, GovernanceError, PluginError, ProjectsError,
    RuntimeFailure, StorageError,
};
use crate::failure;
use crate::issues;
use crate::laws::catalogs;
use crate::laws::discussion;
use crate::laws::issue_changes;
use crate::laws::plans;
use crate::laws::project_changes;
use crate::model::{
    AddCommentRequest, AddIssueRelationRequest, ArchiveIssueRequest, ArchiveProjectRequest,
    ArchiveProjectStatusRequest, ArchiveWorkflowStateRequest, AssigneeValue, CommentValue,
    Completion, CreateIssueRequest, CreateProjectRequest, CreateProjectUpdateRequest, CycleValue,
    DeleteCommentRequest, DeleteProjectStatusRequest, DeleteWorkflowStateRequest,
    DeletedProjectStatus, DeletedWorkflowState, ExternalLinkValue, IssueValue, LabelValue,
    MilestoneValue, MoveIssueRequest, ProjectStatusValue, ProjectUpdateValue, ProjectValue,
    PutCycleRequest, PutExternalLinkRequest, PutLabelRequest, PutMilestoneRequest,
    PutProjectStatusRequest, PutTeamRequest, PutWorkflowStateRequest, RelationValue,
    RemoveIssueRelationRequest, ReorderProjectStatusesRequest, ReorderWorkflowStatesRequest,
    SetIssueAssigneeRequest, SetTeamMemberRequest, TeamMemberValue, TeamValue, UpdateCommentRequest,
    UpdateIssueRequest, UpdateProjectRequest, WorkflowStateValue,
};
use crate::operations::Operation;
use crate::operations;
use crate::planning;
use crate::product_handlers;
use crate::project_status::StatusIds;
use crate::project_status;
use crate::projects;
use crate::schema;
use crate::service::{Gate, ProjectsService};
use crate::service;
use crate::store::{Invocation, Store};
use crate::teams;
use crate::validate;
use crate::workflow::WorkflowIds;
use crate::workflow;
use vstd::prelude::*;

verus! {

/// Whether an operation only reads.
pub open spec fn reads(operation: Operation) -> bool {
    ||| operation is GetProject
    ||| operation is ListProjects
    ||| operation is GetIssue
    ||| operation is ListIssues
    ||| operation is ListActivity
    ||| operation is ListIssueWorkflowStates
    ||| operation is ListComments
    ||| operation is ListProjectUpdates
    ||| operation is GetIssueAssignee
    ||| operation is ListTeams
    ||| operation is GetWorkflowState
    ||| operation is ListWorkflowStates
    ||| operation is GetProjectStatus
    ||| operation is ListProjectStatuses
    ||| operation is ListLabels
    ||| operation is ListCycles
    ||| operation is ListMilestones
}

/// Whether an operation is one of comments, project updates, relations and assignments.
pub open spec fn collaborates(operation: Operation) -> bool {
    ||| operation is AddComment
    ||| operation is UpdateComment
    ||| operation is DeleteComment
    ||| operation is ListComments
    ||| operation is CreateProjectUpdate
    ||| operation is ListProjectUpdates
    ||| operation is AddIssueRelation
    ||| operation is RemoveIssueRelation
    ||| operation is GetIssueAssignee
    ||| operation is SetIssueAssignee
}

/// Whether an operation is one of teams, workflows, statuses, labels, cycles and milestones.
pub open spec fn administers(operation: Operation) -> bool {
    ||| operation is PutTeam
    ||| operation is ListTeams
    ||| operation is SetTeamMember
    ||| operation is PutWorkflowState
    ||| operation is GetWorkflowState
    ||| operation is ReorderWorkflowStates
    ||| operation is ArchiveWorkflowState
    ||| operation is DeleteWorkflowState
    ||| operation is ListWorkflowStates
    ||| operation is PutProjectStatus
    ||| operation is GetProjectStatus
    ||| operation is ReorderProjectStatuses
    ||| operation is ArchiveProjectStatus
    ||| operation is DeleteProjectStatus
    ||| operation is ListProjectStatuses
    ||| operation is PutLabel
    ||| operation is ListLabels
    ||| operation is PutCycle
    ||| operation is ListCycles
    ||| operation is PutMilestone
    ||| operation is ListMilestones
}

/// What administers belongs to the admin contract and takes the admin permission. Any other operation
/// takes the permission to read where it only reads; else the one to collaborate where it belongs to
/// the collaboration contract, but for assignments, and the one to write everywhere else.
pub proof fn law_operations_take_their_permission(operation: Operation)
    ensures
        operations::operation_capability(operation) == if administers(operation) {
            "lenso.projects-admin@1"@
        } else if collaborates(operation) {
            "lenso.projects-collaboration@1"@
        } else {
            "lenso.projects@1"@
        },
        operations::operation_permission(operation) == if administers(operation) {
            "projects.admin"@
        } else if reads(operation) {
            "projects.read"@
        } else if collaborates(operation) && !(operation is SetIssueAssignee) {
            "projects.collaborate"@
        } else {
            "projects.write"@
        },
{
}

/// The name of every operation.
pub proof fn law_operations_are_called(operation: Operation)
    ensures
        operations::operation_name(operation) == match operation {
            Operation::CreateProject => "create_project"@,
            Operation::GetProject => "get_project"@,
            Operation::ListProjects => "list_projects"@,
            Operation::UpdateProject => "update_project"@,
            Operation::ArchiveProject => "archive_project"@,
            Operation::CreateIssue => "create_issue"@,
            Operation::GetIssue => "get_issue"@,
            Operation::ListIssues => "list_issues"@,
            Operation::UpdateIssue => "update_issue"@,
            Operation::MoveIssue => "move_issue"@,
            Operation::ArchiveIssue => "archive_issue"@,
            Operation::PutExternalLink => "put_external_link"@,
            Operation::ListActivity => "list_activity"@,
            Operation::ListIssueWorkflowStates => "list_issue_workflow_states"@,
            Operation::AddComment => "add_comment"@,
            Operation::UpdateComment => "update_comment"@,
            Operation::DeleteComment => "delete_comment"@,
            Operation::ListComments => "list_comments"@,
            Operation::CreateProjectUpdate => "create_project_update"@,
            Operation::ListProjectUpdates => "list_project_updates"@,
            Operation::AddIssueRelation => "add_issue_relation"@,
            Operation::RemoveIssueRelation => "remove_issue_relation"@,
            Operation::GetIssueAssignee => "get_issue_assignee"@,
            Operation::SetIssueAssignee => "set_issue_assignee"@,
            Operation::PutTeam => "put_team"@,
            Operation::ListTeams => "list_teams"@,
            Operation::SetTeamMember => "set_team_member"@,
            Operation::PutWorkflowState => "put_workflow_state"@,
            Operation::GetWorkflowState => "get_workflow_state"@,
            Operation::ReorderWorkflowStates => "reorder_workflow_states"@,
            Operation::ArchiveWorkflowState => "archive_workflow_state"@,
            Operation::DeleteWorkflowState => "delete_workflow_state"@,
            Operation::ListWorkflowStates => "list_workflow_states"@,
            Operation::PutProjectStatus => "put_project_status"@,
            Operation::GetProjectStatus => "get_project_status"@,
            Operation::ReorderProjectStatuses => "reorder_project_statuses"@,
            Operation::ArchiveProjectStatus => "archive_project_status"@,
            Operation::DeleteProjectStatus => "delete_project_status"@,
            Operation::ListProjectStatuses => "list_project_statuses"@,
            Operation::PutLabel => "put_label"@,
            Operation::ListLabels => "list_labels"@,
            Operation::PutCycle => "put_cycle"@,
            Operation::ListCycles => "list_cycles"@,
            Operation::PutMilestone => "put_milestone"@,
            Operation::ListMilestones => "list_milestones"@,
        },
{
}

/// The admin contract has callers of its own; the other two share theirs.
pub proof fn law_operations_have_their_callers(operation: Operation, config: ProjectsConfig)
    ensures
        operations::operation_callers(operation, config) == if administers(operation) {
            config.admin_callers
        } else {
            config.project_callers
        },
{
    law_operations_take_their_permission(operation);
    reveal_strlit("lenso.projects@1");
    reveal_strlit("lenso.projects-collaboration@1");
    reveal_strlit("lenso.projects-admin@1");
    assert("lenso.projects@1"@.len() == 16);
    assert("lenso.projects-collaboration@1"@.len() == 30);
    assert("lenso.projects-admin@1"@.len() == 22);
}

/// What an authorization comes to: an allowed caller, a verified actor, an active membership and the
/// permission are asked for in this order, and the first that is missing decides. Whoever is admitted
/// is the caller with the verified subject as its actor.
pub proof fn law_access_is_decided_in_order(
    caller: Option<String>,
    allowed: Seq<String>,
    request: AccessRequest,
    actor: ActorReply,
    member: PortReply,
    permitted: PortReply,
    result: Result<Authorized, AuthorizationFailure>,
)
    requires
        access::is_access(caller, allowed, request, actor, member, permitted, result),
    ensures
        ({
            let known = caller matches Some(name) && exists|k: int|
                0 <= k < allowed.len() && (#[trigger] allowed[k])@ == name@;
            if !known {
                result matches Err(AuthorizationFailure::Forbidden)
            } else if actor is Rejected {
                result matches Err(AuthorizationFailure::Unauthenticated)
            } else if actor is Failed {
                result matches Err(AuthorizationFailure::Runtime(failure)) && failure
                    == actor->Failed_0
            } else if !validate::is_id(request.organization_id@) || !validate::is_id(
                actor->subject@,
            ) {
                result matches Err(AuthorizationFailure::Forbidden)
            } else if member is Answered && !member->Answered_0 {
                result matches Err(AuthorizationFailure::Forbidden)
            } else if member is Refused {
                result matches Err(AuthorizationFailure::Runtime(
                    RuntimeFailure::ProtocolViolation { capability },
                )) && capability@ == "lenso.organization-membership@1"@
            } else if member is Failed {
                result matches Err(AuthorizationFailure::Runtime(failure)) && failure
                    == member->Failed_0
            } else if permitted is Answered && !permitted->Answered_0 {
                result matches Err(AuthorizationFailure::Forbidden)
            } else if permitted is Refused {
                result matches Err(AuthorizationFailure::Runtime(
                    RuntimeFailure::ProtocolViolation { capability },
                )) && capability@ == "lenso.access-control@1"@
            } else if permitted is Failed {
                result matches Err(AuthorizationFailure::Runtime(failure)) && failure
                    == permitted->Failed_0
            } else {
                result matches Ok(authorized) && authorized.caller@ == caller->0@
                    && authorized.actor@ == actor->subject@
            }
        }),
{
}

/// A handler turns to the store only for who is admitted, with a valid request, once there is a
/// store: a denial comes before everything else, an invalid request before the want of a store.
pub proof fn law_gates_open_for_the_admitted(
    access: Result<Authorized, AuthorizationFailure>,
    valid: bool,
    service: ProjectsService,
)
    ensures
        match service::gate_of(access, valid, service) {
            Gate::Open(authorized) => access == Ok::<Authorized, AuthorizationFailure>(authorized)
                && valid && service.store is Some,
            Gate::Denied(failure) => access == Err::<Authorized, AuthorizationFailure>(failure),
            Gate::Invalid => access is Ok && !valid,
            Gate::Unprepared => access is Ok && valid && service.store is None,
        },
{
}

/// What is answered where a handler does not turn to the store: the denial as such, in the words of
/// each contract.
pub proof fn law_closed_gates_say_why<T>(
    failure: AuthorizationFailure,
    product: Result<T, PluginError<ProjectsError>>,
    talk: Result<T, PluginError<CollaborationError>>,
    admin: Result<T, PluginError<AdminError>>,
)
    ensures
        service::project_blocked(Gate::Denied(failure), product) ==> match failure {
            AuthorizationFailure::Unauthenticated => product matches Err(
                PluginError::Domain(ProjectsError::Unauthenticated),
            ),
            AuthorizationFailure::Forbidden => product matches Err(
                PluginError::Domain(ProjectsError::Forbidden),
            ),
            AuthorizationFailure::Runtime(fault) => product matches Err(PluginError::Runtime(said))
                && said == fault,
        },
        service::collaboration_blocked(Gate::Denied(failure), talk) ==> match failure {
            AuthorizationFailure::Unauthenticated => talk matches Err(
                PluginError::Domain(CollaborationError::Unauthenticated),
            ),
            AuthorizationFailure::Forbidden => talk matches Err(
                PluginError::Domain(CollaborationError::Forbidden),
            ),
            AuthorizationFailure::Runtime(fault) => talk matches Err(PluginError::Runtime(said))
                && said == fault,
        },
        service::admin_blocked(Gate::Denied(failure), admin) ==> match failure {
            AuthorizationFailure::Unauthenticated => admin matches Err(
                PluginError::Domain(AdminError::Unauthenticated),
            ),
            AuthorizationFailure::Forbidden => admin matches Err(
                PluginError::Domain(AdminError::Forbidden),
            ),
            AuthorizationFailure::Runtime(fault) => admin matches Err(PluginError::Runtime(said))
                && said == fault,
        },
        service::project_blocked(Gate::Invalid, product) ==> product matches Err(
            PluginError::Domain(ProjectsError::InvalidRequest),
        ),
        service::collaboration_blocked(Gate::Invalid, talk) ==> talk matches Err(
            PluginError::Domain(CollaborationError::InvalidRequest),
        ),
        service::admin_blocked(Gate::Invalid, admin) ==> admin matches Err(
            PluginError::Domain(AdminError::InvalidRequest),
        ),
        service::project_blocked(Gate::Unprepared, product) ==> product matches Err(
            PluginError::Runtime(_),
        ),
        service::collaboration_blocked(Gate::Unprepared, talk) ==> talk matches Err(
            PluginError::Runtime(_),
        ),
        service::admin_blocked(Gate::Unprepared, admin) ==> admin matches Err(
            PluginError::Runtime(_),
        ),
{
}

/// A refusal is answered under its own name in every contract that knows it, a taken id of a comment
/// or an update as a conflict of the collaboration contract, and as an invalid request elsewhere.
pub proof fn law_refusals_keep_their_names(failure: DomainFailure)
    ensures
        match failure::project_answer(failure) {
            ProjectsError::IdempotencyConflict => failure == DomainFailure::IdempotencyConflict,
            ProjectsError::NotFound => failure == DomainFailure::NotFound,
            ProjectsError::RevisionConflict => failure == DomainFailure::RevisionConflict,
            ProjectsError::TeamNotFound => failure == DomainFailure::TeamNotFound,
            ProjectsError::WorkflowStateNotFound => failure == DomainFailure::WorkflowStateNotFound,
            ProjectsError::ProjectStatusNotFound => failure == DomainFailure::ProjectStatusNotFound,
            ProjectsError::CycleNotFound => failure == DomainFailure::CycleNotFound,
            ProjectsError::MilestoneNotFound => failure == DomainFailure::MilestoneNotFound,
            ProjectsError::ParentNotFound => failure == DomainFailure::ParentNotFound,
            ProjectsError::LabelNotFound => failure == DomainFailure::LabelNotFound,
            ProjectsError::PrivateTeam => failure == DomainFailure::PrivateTeam,
            ProjectsError::IdentifierConflict => failure == DomainFailure::IdentifierConflict,
            ProjectsError::InvalidRequest => failure != DomainFailure::IdempotencyConflict && failure != DomainFailure::NotFound && failure != DomainFailure::RevisionConflict && failure != DomainFailure::TeamNotFound && failure != DomainFailure::WorkflowStateNotFound && failure != DomainFailure::ProjectStatusNotFound && failure != DomainFailure::CycleNotFound && failure != DomainFailure::MilestoneNotFound && failure != DomainFailure::ParentNotFound && failure != DomainFailure::LabelNotFound && failure != DomainFailure::PrivateTeam && failure != DomainFailure::IdentifierConflict,
            _ => false,
        },
        match failure::collaboration_answer(failure) {
            CollaborationError::IdempotencyConflict => failure == DomainFailure::IdempotencyConflict,
            CollaborationError::NotFound => failure == DomainFailure::NotFound,
            CollaborationError::RevisionConflict => failure == DomainFailure::RevisionConflict,
            CollaborationError::PrivateTeam => failure == DomainFailure::PrivateTeam,
            CollaborationError::AuthorRequired => failure == DomainFailure::AuthorRequired,
            CollaborationError::CannotRelateSelf => failure == DomainFailure::CannotRelateSelf,
            CollaborationError::RelationConflict => failure == DomainFailure::RelationConflict || failure == DomainFailure::IdentifierConflict,
            CollaborationError::InvalidRequest => failure != DomainFailure::IdempotencyConflict && failure != DomainFailure::NotFound && failure != DomainFailure::RevisionConflict && failure != DomainFailure::PrivateTeam && failure != DomainFailure::AuthorRequired && failure != DomainFailure::CannotRelateSelf && failure != DomainFailure::RelationConflict && failure != DomainFailure::IdentifierConflict,
            _ => false,
        },
        match failure::admin_answer(failure) {
            AdminError::IdempotencyConflict => failure == DomainFailure::IdempotencyConflict,
            AdminError::NotFound => failure == DomainFailure::NotFound,
            AdminError::RevisionConflict => failure == DomainFailure::RevisionConflict,
            AdminError::KeyConflict => failure == DomainFailure::KeyConflict,
            AdminError::DefaultStateInvalid => failure == DomainFailure::DefaultStateInvalid,
            AdminError::ActiveReference => failure == DomainFailure::ActiveReference,
            AdminError::InvalidRequest => failure != DomainFailure::IdempotencyConflict && failure != DomainFailure::NotFound && failure != DomainFailure::RevisionConflict && failure != DomainFailure::KeyConflict && failure != DomainFailure::DefaultStateInvalid && failure != DomainFailure::ActiveReference,
            _ => false,
        },
{
}

/// What the store gives is answered as it is; a refusal in the words of the contract; a fault as a
/// fault.
pub proof fn law_results_are_answered<T>(result: Result<T, StorageError>)
    ensures
        match result {
            Ok(value) => {
                &&& failure::project_result(result) == Ok::<T, PluginError<ProjectsError>>(value)
                &&& failure::collaboration_result(result) == Ok::<T, PluginError<CollaborationError>>(
                    value,
                )
                &&& failure::admin_result(result) == Ok::<T, PluginError<AdminError>>(value)
                &&& failure::governance_result(result) == Ok::<T, PluginError<GovernanceError>>(value)
            },
            Err(StorageError::Domain(reason)) => {
                &&& failure::project_result(result) matches Err(PluginError::Domain(said)) && said
                    == failure::project_answer(reason)
                &&& failure::collaboration_result(result) matches Err(PluginError::Domain(said))
                    && said == failure::collaboration_answer(reason)
                &&& failure::admin_result(result) matches Err(PluginError::Domain(said)) && said
                    == failure::admin_answer(reason)
                &&& failure::governance_result(result) matches Err(
                    PluginError::Domain(GovernanceError::InvalidRequest),
                )
            },
            Err(StorageError::Runtime(fault)) => {
                &&& failure::project_result(result) matches Err(PluginError::Runtime(said)) && said
                    == fault
                &&& failure::collaboration_result(result) matches Err(PluginError::Runtime(said))
                    && said == fault
                &&& failure::admin_result(result) matches Err(PluginError::Runtime(said)) && said
                    == fault
                &&& failure::governance_result(result) matches Err(PluginError::Runtime(said)) && said
                    == fault
            },
        },
{
}

/// A configuration is refused for its first fault in the order of its fields: the schema, the secret,
/// the issuer, the key, and the three lists of callers, each of 1 to 64 different identifiers.
pub proof fn law_configurations_name_their_first_fault(config: ProjectsConfig, key_accepted: bool)
    ensures
        config::config_fault(config, key_accepted) == if !schema::is_schema_name(config.schema@) {
            Some(ProjectsConfigError::InvalidSchema)
        } else if !validate::is_secret_reference(config.database_url_secret@) {
            Some(ProjectsConfigError::InvalidSecretReference)
        } else if !validate::is_id(config.auth_issuer@) {
            Some(ProjectsConfigError::InvalidAuthIssuer)
        } else if !key_accepted {
            Some(ProjectsConfigError::InvalidAuthPublicKey)
        } else if !callers(config.project_callers@) {
            Some(ProjectsConfigError::InvalidProjectCallers)
        } else if !callers(config.admin_callers@) {
            Some(ProjectsConfigError::InvalidAdminCallers)
        } else if !callers(config.governance_callers@) {
            Some(ProjectsConfigError::InvalidGovernanceCallers)
        } else {
            None
        },
{
}

/// Whether a list names 1 to 64 callers, each once.
pub open spec fn callers(list: Seq<String>) -> bool {
    &&& 1 <= list.len() <= 64
    &&& forall|i: int| 0 <= i < list.len() ==> validate::is_id((#[trigger] list[i])@)
    &&& forall|i: int, j: int|
        0 <= i < j < list.len() ==> (#[trigger] list[i])@ != (#[trigger] list[j])@
}

/// Whether the last record of the stream says that the actor did this at that time, and the last
/// receipt that the caller asked for it under this key with this request.
pub open spec fn done_by(
    before: Store,
    after: Store,
    authorized: Authorized,
    request_json: Seq<char>,
    now: Timestamp,
    operation: Seq<char>,
    key: Seq<char>,
) -> bool {
    &&& after.activity@.len() == before.activity@.len() + 1
    &&& after.activity@.last().actor_subject@ == authorized.actor@
    &&& after.activity@.last().operation@ == operation
    &&& after.activity@.last().occurred_at == now
    &&& after.commands@.len() == before.commands@.len() + 1
    &&& after.commands@.last().caller@ == authorized.caller@
    &&& after.commands@.last().actor@ == authorized.actor@
    &&& after.commands@.last().operation@ == operation
    &&& after.commands@.last().idempotency_key@ == key
    &&& after.commands@.last().request@ == request_json
}

/// What `create_project` does for an admitted caller is done by its actor at that time, and on record
/// as asked for by that caller; what is not done leaves everything as it was.
pub proof fn law_create_project_is_done_by_its_actor(
    before: Store,
    after: Store,
    authorized: Authorized,
    request_json: Seq<char>,
    now: Timestamp,
    r: CreateProjectRequest,
    ids: StatusIds,
    answer: Result<Completion<ProjectValue>, PluginError<ProjectsError>>,
)
    requires
        product_handlers::create_project_handled(
            before,
            after,
            authorized,
            request_json,
            now,
            r,
            ids,
            answer,
        ),
    ensures
        answer matches Ok(Completion::Fresh(_)) ==> done_by(
            before,
            after,
            authorized,
            request_json,
            now,
            "create_project"@,
            r.idempotency_key@,
        ),
        !(answer matches Ok(Completion::Fresh(_))) ==> after == before,
{
    let (call, stored) = choose|call: Invocation, stored: Result<Completion<ProjectValue>, StorageError>|
        {
            &&& service::is_invocation(call, authorized, request_json, now)
            &&& #[trigger] projects::create_project_outcome(before, after, call, r, ids, stored)
            &&& answer == failure::project_result(stored)
        };
    if let Ok(Completion::Fresh(value)) = stored {
        project_changes::law_creation_gives_the_request(before, after, call, r, ids, value);
    }
}

/// What `update_project` does for an admitted caller is done by its actor at that time, and on record
/// as asked for by that caller; what is not done leaves everything as it was.
pub proof fn law_update_project_is_done_by_its_actor(
    before: Store,
    after: Store,
    authorized: Authorized,
    request_json: Seq<char>,
    now: Timestamp,
    r: UpdateProjectRequest,
    ids: StatusIds,
    answer: Result<Completion<ProjectValue>, PluginError<ProjectsError>>,
)
    requires
        product_handlers::update_project_handled(
            before,
            after,
            authorized,
            request_json,
            now,
            r,
            ids,
            answer,
        ),
    ensures
        answer matches Ok(Completion::Fresh(_)) ==> done_by(
            before,
            after,
            authorized,
            request_json,
            now,
            "update_project"@,
            r.idempotency_key@,
        ),
        !(answer matches Ok(Completion::Fresh(_))) ==> after == before,
{
    let (call, stored) = choose|call: Invocation, stored: Result<Completion<ProjectValue>, StorageError>|
        {
            &&& service::is_invocation(call, authorized, request_json, now)
            &&& #[trigger] projects::update_project_outcome(before, after, call, r, ids, stored)
            &&& answer == failure::project_result(stored)
        };
    if let Ok(Completion::Fresh(value)) = stored {
        project_changes::law_update_gives_the_request(before, after, call, r, ids, value);
    }
}

/// What `archive_project` does for an admitted caller is done by its actor at that time, and on
/// record as asked for by that caller; what is not done leaves everything as it was.
pub proof fn law_archive_project_is_done_by_its_actor(
    before: Store,
    after: Store,
    authorized: Authorized,
    request_json: Seq<char>,
    now: Timestamp,
    r: ArchiveProjectRequest,
    answer: Result<Completion<ProjectValue>, PluginError<ProjectsError>>,
)
    requires
        product_handlers::archive_project_handled(
            before,
            after,
            authorized,
            request_json,
            now,
            r,
            answer,
        ),
    ensures
        answer matches Ok(Completion::Fresh(_)) ==> done_by(
            before,
            after,
            authorized,
            request_json,
            now,
            "archive_project"@,
            r.idempotency_key@,
        ),
        !(answer matches Ok(Completion::Fresh(_))) ==> after == before,
{
    let (call, stored) = choose|call: Invocation, stored: Result<Completion<ProjectValue>, StorageError>|
        {
            &&& service::is_invocation(call, authorized, request_json, now)
            &&& #[trigger] projects::archive_project_outcome(before, after, call, r, stored)
            &&& answer == failure::project_result(stored)
        };
    if let Ok(Completion::Fresh(value)) = stored {
        project_changes::law_archival_only_archives(before, after, call, r, value);
    }
}

/// What `create_issue` does for an admitted caller is done by its actor at that time, and on record
/// as asked for by that caller; what is not done leaves everything as it was.
pub proof fn law_create_issue_is_done_by_its_actor(
    before: Store,
    after: Store,
    authorized: Authorized,
    request_json: Seq<char>,
    now: Timestamp,
    r: CreateIssueRequest,
    answer: Result<Completion<IssueValue>, PluginError<ProjectsError>>,
)
    requires
        product_handlers::create_issue_handled(
            before,
            after,
            authorized,
            request_json,
            now,
            r,
            answer,
        ),
    ensures
        answer matches Ok(Completion::Fresh(_)) ==> done_by(
            before,
            after,
            authorized,
            request_json,
            now,
            "create_issue"@,
            r.idempotency_key@,
        ),
        !(answer matches Ok(Completion::Fresh(_))) ==> after == before,
{
    let (call, stored) = choose|call: Invocation, stored: Result<Completion<IssueValue>, StorageError>|
        {
            &&& service::is_invocation(call, authorized, request_json, now)
            &&& #[trigger] issues::create_issue_outcome(before, after, call, r, stored)
            &&& answer == failure::project_result(stored)
        };
    if let Ok(Completion::Fresh(value)) = stored {
        issue_changes::law_creation_gives_the_request(before, after, call, r, value);
    }
}

/// What `update_issue` does for an admitted caller is done by its actor at that time, and on record
/// as asked for by that caller; what is not done leaves everything as it was.
pub proof fn law_update_issue_is_done_by_its_actor(
    before: Store,
    after: Store,
    authorized: Authorized,
    request_json: Seq<char>,
    now: Timestamp,
    r: UpdateIssueRequest,
    answer: Result<Completion<IssueValue>, PluginError<ProjectsError>>,
)
    requires
        product_handlers::update_issue_handled(
            before,
            after,
            authorized,
            request_json,
            now,
            r,
            answer,
        ),
    ensures
        answer matches Ok(Completion::Fresh(_)) ==> done_by(
            before,
            after,
            authorized,
            request_json,
            now,
            "update_issue"@,
            r.idempotency_key@,
        ),
        !(answer matches Ok(Completion::Fresh(_))) ==> after == before,
{
    let (call, stored) = choose|call: Invocation, stored: Result<Completion<IssueValue>, StorageError>|
        {
            &&& service::is_invocation(call, authorized, request_json, now)
            &&& #[trigger] issues::update_issue_outcome(before, after, call, r, stored)
            &&& answer == failure::project_result(stored)
        };
    if let Ok(Completion::Fresh(value)) = stored {
        issue_changes::law_update_gives_the_request(before, after, call, r, value);
    }
}

/// What `move_issue` does for an admitted caller is done by its actor at that time, and on record as
/// asked for by that caller; what is not done leaves everything as it was.
pub proof fn law_move_issue_is_done_by_its_actor(
    before: Store,
    after: Store,
    authorized: Authorized,
    request_json: Seq<char>,
    now: Timestamp,
    r: MoveIssueRequest,
    answer: Result<Completion<IssueValue>, PluginError<ProjectsError>>,
)
    requires
        product_handlers::move_issue_handled(
            before,
            after,
            authorized,
            request_json,
            now,
            r,
            answer,
        ),
    ensures
        answer matches Ok(Completion::Fresh(_)) ==> done_by(
            before,
            after,
            authorized,
            request_json,
            now,
            "move_issue"@,
            r.idempotency_key@,
        ),
        !(answer matches Ok(Completion::Fresh(_))) ==> after == before,
{
    let (call, stored) = choose|call: Invocation, stored: Result<Completion<IssueValue>, StorageError>|
        {
            &&& service::is_invocation(call, authorized, request_json, now)
            &&& #[trigger] issues::move_issue_outcome(before, after, call, r, stored)
            &&& answer == failure::project_result(stored)
        };
    if let Ok(Completion::Fresh(value)) = stored {
        issue_changes::law_move_keeps_the_issue(before, after, call, r, value);
    }
}

/// What `archive_issue` does for an admitted caller is done by its actor at that time, and on record
/// as asked for by that caller; what is not done leaves everything as it was.
pub proof fn law_archive_issue_is_done_by_its_actor(
    before: Store,
    after: Store,
    authorized: Authorized,
    request_json: Seq<char>,
    now: Timestamp,
    r: ArchiveIssueRequest,
    answer: Result<Completion<IssueValue>, PluginError<ProjectsError>>,
)
    requires
        product_handlers::archive_issue_handled(
            before,
            after,
            authorized,
            request_json,
            now,
            r,
            answer,
        ),
    ensures
        answer matches Ok(Completion::Fresh(_)) ==> done_by(
            before,
            after,
            authorized,
            request_json,
            now,
            "archive_issue"@,
            r.idempotency_key@,
        ),
        !(answer matches Ok(Completion::Fresh(_))) ==> after == before,
{
    let (call, stored) = choose|call: Invocation, stored: Result<Completion<IssueValue>, StorageError>|
        {
            &&& service::is_invocation(call, authorized, request_json, now)
            &&& #[trigger] issues::archive_issue_outcome(before, after, call, r, stored)
            &&& answer == failure::project_result(stored)
        };
    if let Ok(Completion::Fresh(value)) = stored {
        issue_changes::law_archival_only_archives(before, after, call, r, value);
    }
}

/// What `put_external_link` does for an admitted caller is done by its actor at that time, and on
/// record as asked for by that caller; what is not done leaves everything as it was.
pub proof fn law_put_external_link_is_done_by_its_actor(
    before: Store,
    after: Store,
    authorized: Authorized,
    request_json: Seq<char>,
    now: Timestamp,
    r: PutExternalLinkRequest,
    answer: Result<Completion<ExternalLinkValue>, PluginError<ProjectsError>>,
)
    requires
        product_handlers::put_external_link_handled(
            before,
            after,
            authorized,
            request_json,
            now,
            r,
            answer,
        ),
    ensures
        answer matches Ok(Completion::Fresh(_)) ==> done_by(
            before,
            after,
            authorized,
            request_json,
            now,
            "put_external_link"@,
            r.idempotency_key@,
        ),
        !(answer matches Ok(Completion::Fresh(_))) ==> after == before,
{
    let (call, stored) = choose|call: Invocation, stored: Result<Completion<ExternalLinkValue>, StorageError>|
        {
            &&& service::is_invocation(call, authorized, request_json, now)
            &&& #[trigger] issues::put_external_link_outcome(before, after, call, r, stored)
            &&& answer == failure::project_result(stored)
        };
    if let Ok(Completion::Fresh(value)) = stored {
        issue_changes::law_link_is_what_was_put(before, after, call, r, value);
    }
}

/// What `add_comment` does for an admitted caller is done by its actor at that time, and on record as
/// asked for by that caller; what is not done leaves everything as it was.
pub proof fn law_add_comment_is_done_by_its_actor(
    before: Store,
    after: Store,
    authorized: Authorized,
    request_json: Seq<char>,
    now: Timestamp,
    r: AddCommentRequest,
    answer: Result<Completion<CommentValue>, PluginError<CollaborationError>>,
)
    requires
        collaboration_handlers::add_comment_handled(
            before,
            after,
            authorized,
            request_json,
            now,
            r,
            answer,
        ),
    ensures
        answer matches Ok(Completion::Fresh(_)) ==> done_by(
            before,
            after,
            authorized,
            request_json,
            now,
            "add_comment"@,
            r.idempotency_key@,
        ),
        !(answer matches Ok(Completion::Fresh(_))) ==> after == before,
{
    let (call, stored) = choose|call: Invocation, stored: Result<Completion<CommentValue>, StorageError>|
        {
            &&& service::is_invocation(call, authorized, request_json, now)
            &&& #[trigger] collaboration::add_comment_outcome(before, after, call, r, stored)
            &&& answer == failure::collaboration_result(stored)
        };
    if let Ok(Completion::Fresh(value)) = stored {
        discussion::law_comment_is_what_was_said(before, after, call, r, value);
    }
}

/// What `update_comment` does for an admitted caller is done by its actor at that time, and on record
/// as asked for by that caller; what is not done leaves everything as it was.
pub proof fn law_update_comment_is_done_by_its_actor(
    before: Store,
    after: Store,
    authorized: Authorized,
    request_json: Seq<char>,
    now: Timestamp,
    r: UpdateCommentRequest,
    answer: Result<Completion<CommentValue>, PluginError<CollaborationError>>,
)
    requires
        collaboration_handlers::update_comment_handled(
            before,
            after,
            authorized,
            request_json,
            now,
            r,
            answer,
        ),
    ensures
        answer matches Ok(Completion::Fresh(_)) ==> done_by(
            before,
            after,
            authorized,
            request_json,
            now,
            "update_comment"@,
            r.idempotency_key@,
        ),
        !(answer matches Ok(Completion::Fresh(_))) ==> after == before,
{
    let (call, stored) = choose|call: Invocation, stored: Result<Completion<CommentValue>, StorageError>|
        {
            &&& service::is_invocation(call, authorized, request_json, now)
            &&& #[trigger] collaboration::update_comment_outcome(before, after, call, r, stored)
            &&& answer == failure::collaboration_result(stored)
        };
    if let Ok(Completion::Fresh(value)) = stored {
        discussion::law_updated_comment_says_the_new_body(before, after, call, r, value);
    }
}

/// What `delete_comment` does for an admitted caller is done by its actor at that time, and on record
/// as asked for by that caller; what is not done leaves everything as it was.
pub proof fn law_delete_comment_is_done_by_its_actor(
    before: Store,
    after: Store,
    authorized: Authorized,
    request_json: Seq<char>,
    now: Timestamp,
    r: DeleteCommentRequest,
    answer: Result<Completion<CommentValue>, PluginError<CollaborationError>>,
)
    requires
        collaboration_handlers::delete_comment_handled(
            before,
            after,
            authorized,
            request_json,
            now,
            r,
            answer,
        ),
    ensures
        answer matches Ok(Completion::Fresh(_)) ==> done_by(
            before,
            after,
            authorized,
            request_json,
            now,
            "delete_comment"@,
            r.idempotency_key@,
        ),
        !(answer matches Ok(Completion::Fresh(_))) ==> after == before,
{
    let (call, stored) = choose|call: Invocation, stored: Result<Completion<CommentValue>, StorageError>|
        {
            &&& service::is_invocation(call, authorized, request_json, now)
            &&& #[trigger] collaboration::delete_comment_outcome(before, after, call, r, stored)
            &&& answer == failure::collaboration_result(stored)
        };
    if let Ok(Completion::Fresh(value)) = stored {
        discussion::law_deleted_comment_is_emptied(before, after, call, r, value);
    }
}

/// What `create_project_update` does for an admitted caller is done by its actor at that time, and on
/// record as asked for by that caller; what is not done leaves everything as it was.
pub proof fn law_create_project_update_is_done_by_its_actor(
    before: Store,
    after: Store,
    authorized: Authorized,
    request_json: Seq<char>,
    now: Timestamp,
    r: CreateProjectUpdateRequest,
    answer: Result<Completion<ProjectUpdateValue>, PluginError<CollaborationError>>,
)
    requires
        collaboration_handlers::create_project_update_handled(
            before,
            after,
            authorized,
            request_json,
            now,
            r,
            answer,
        ),
    ensures
        answer matches Ok(Completion::Fresh(_)) ==> done_by(
            before,
            after,
            authorized,
            request_json,
            now,
            "create_project_update"@,
            r.idempotency_key@,
        ),
        !(answer matches Ok(Completion::Fresh(_))) ==> after == before,
{
    let (call, stored) = choose|call: Invocation, stored: Result<Completion<ProjectUpdateValue>, StorageError>|
        {
            &&& service::is_invocation(call, authorized, request_json, now)
            &&& #[trigger] collaboration::create_project_update_outcome(before, after, call, r, stored)
            &&& answer == failure::collaboration_result(stored)
        };
    if let Ok(Completion::Fresh(value)) = stored {
        discussion::law_project_update_is_what_was_posted(before, after, call, r, value);
    }
}

/// What `add_issue_relation` does for an admitted caller is done by its actor at that time, and on
/// record as asked for by that caller; what is not done leaves everything as it was.
pub proof fn law_add_issue_relation_is_done_by_its_actor(
    before: Store,
    after: Store,
    authorized: Authorized,
    request_json: Seq<char>,
    now: Timestamp,
    r: AddIssueRelationRequest,
    answer: Result<Completion<RelationValue>, PluginError<CollaborationError>>,
)
    requires
        collaboration_handlers::add_issue_relation_handled(
            before,
            after,
            authorized,
            request_json,
            now,
            r,
            answer,
        ),
    ensures
        answer matches Ok(Completion::Fresh(_)) ==> done_by(
            before,
            after,
            authorized,
            request_json,
            now,
            "add_issue_relation"@,
            r.idempotency_key@,
        ),
        !(answer matches Ok(Completion::Fresh(_))) ==> after == before,
{
    let (call, stored) = choose|call: Invocation, stored: Result<Completion<RelationValue>, StorageError>|
        {
            &&& service::is_invocation(call, authorized, request_json, now)
            &&& #[trigger] collaboration::add_issue_relation_outcome(before, after, call, r, stored)
            &&& answer == failure::collaboration_result(stored)
        };
    if let Ok(Completion::Fresh(value)) = stored {
        discussion::law_relation_goes_the_way_that_was_asked(before, after, call, r, value);
    }
}

/// What `remove_issue_relation` does for an admitted caller is done by its actor at that time, and on
/// record as asked for by that caller; what is not done leaves everything as it was.
pub proof fn law_remove_issue_relation_is_done_by_its_actor(
    before: Store,
    after: Store,
    authorized: Authorized,
    request_json: Seq<char>,
    now: Timestamp,
    r: RemoveIssueRelationRequest,
    answer: Result<Completion<RelationValue>, PluginError<CollaborationError>>,
)
    requires
        collaboration_handlers::remove_issue_relation_handled(
            before,
            after,
            authorized,
            request_json,
            now,
            r,
            answer,
        ),
    ensures
        answer matches Ok(Completion::Fresh(_)) ==> done_by(
            before,
            after,
            authorized,
            request_json,
            now,
            "remove_issue_relation"@,
            r.idempotency_key@,
        ),
        !(answer matches Ok(Completion::Fresh(_))) ==> after == before,
{
    let (call, stored) = choose|call: Invocation, stored: Result<Completion<RelationValue>, StorageError>|
        {
            &&& service::is_invocation(call, authorized, request_json, now)
            &&& #[trigger] collaboration::remove_issue_relation_outcome(before, after, call, r, stored)
            &&& answer == failure::collaboration_result(stored)
        };
    if let Ok(Completion::Fresh(value)) = stored {
        discussion::law_ended_relation_keeps_its_ends(before, after, call, r, value);
    }
}

/// What `set_issue_assignee` does for an admitted caller is done by its actor at that time, and on
/// record as asked for by that caller; what is not done leaves everything as it was.
pub proof fn law_set_issue_assignee_is_done_by_its_actor(
    before: Store,
    after: Store,
    authorized: Authorized,
    request_json: Seq<char>,
    now: Timestamp,
    r: SetIssueAssigneeRequest,
    answer: Result<Completion<AssigneeValue>, PluginError<CollaborationError>>,
)
    requires
        collaboration_handlers::set_issue_assignee_handled(
            before,
            after,
            authorized,
            request_json,
            now,
            r,
            answer,
        ),
    ensures
        answer matches Ok(Completion::Fresh(_)) ==> done_by(
            before,
            after,
            authorized,
            request_json,
            now,
            "set_issue_assignee"@,
            r.idempotency_key@,
        ),
        !(answer matches Ok(Completion::Fresh(_))) ==> after == before,
{
    let (call, stored) = choose|call: Invocation, stored: Result<Completion<AssigneeValue>, StorageError>|
        {
            &&& service::is_invocation(call, authorized, request_json, now)
            &&& #[trigger] issues::set_issue_assignee_outcome(before, after, call, r, stored)
            &&& answer == failure::collaboration_result(stored)
        };
    if let Ok(Completion::Fresh(value)) = stored {
        issue_changes::law_assignment_only_assigns(before, after, call, r, value);
    }
}

/// What `put_team` does for an admitted caller is done by its actor at that time, and on record as
/// asked for by that caller; what is not done leaves everything as it was.
pub proof fn law_put_team_is_done_by_its_actor(
    before: Store,
    after: Store,
    authorized: Authorized,
    request_json: Seq<char>,
    now: Timestamp,
    r: PutTeamRequest,
    ids: StatusIds,
    states: WorkflowIds,
    answer: Result<Completion<TeamValue>, PluginError<AdminError>>,
)
    requires
        admin_handlers::put_team_handled(
            before,
            after,
            authorized,
            request_json,
            now,
            r,
            ids,
            states,
            answer,
        ),
    ensures
        answer matches Ok(Completion::Fresh(_)) ==> done_by(
            before,
            after,
            authorized,
            request_json,
            now,
            "put_team"@,
            r.idempotency_key@,
        ),
        !(answer matches Ok(Completion::Fresh(_))) ==> after == before,
{
    let (call, stored) = choose|call: Invocation, stored: Result<Completion<TeamValue>, StorageError>|
        {
            &&& service::is_invocation(call, authorized, request_json, now)
            &&& #[trigger] teams::put_team_outcome(before, after, call, r, ids, states, stored)
            &&& answer == failure::admin_result(stored)
        };
    if let Ok(Completion::Fresh(value)) = stored {
        plans::law_team_is_what_was_put(before, after, call, r, ids, states, value);
    }
}

/// What `set_team_member` does for an admitted caller is done by its actor at that time, and on
/// record as asked for by that caller; what is not done leaves everything as it was.
pub proof fn law_set_team_member_is_done_by_its_actor(
    before: Store,
    after: Store,
    authorized: Authorized,
    request_json: Seq<char>,
    now: Timestamp,
    r: SetTeamMemberRequest,
    answer: Result<Completion<TeamMemberValue>, PluginError<AdminError>>,
)
    requires
        admin_handlers::set_team_member_handled(
            before,
            after,
            authorized,
            request_json,
            now,
            r,
            answer,
        ),
    ensures
        answer matches Ok(Completion::Fresh(_)) ==> done_by(
            before,
            after,
            authorized,
            request_json,
            now,
            "set_team_member"@,
            r.idempotency_key@,
        ),
        !(answer matches Ok(Completion::Fresh(_))) ==> after == before,
{
    let (call, stored) = choose|call: Invocation, stored: Result<Completion<TeamMemberValue>, StorageError>|
        {
            &&& service::is_invocation(call, authorized, request_json, now)
            &&& #[trigger] teams::set_team_member_outcome(before, after, call, r, stored)
            &&& answer == failure::admin_result(stored)
        };
    if let Ok(Completion::Fresh(value)) = stored {
        plans::law_membership_is_what_was_asked(before, after, call, r, value);
    }
}

/// What `put_workflow_state` does for an admitted caller is done by its actor at that time, and on
/// record as asked for by that caller; what is not done leaves everything as it was.
pub proof fn law_put_workflow_state_is_done_by_its_actor(
    before: Store,
    after: Store,
    authorized: Authorized,
    request_json: Seq<char>,
    now: Timestamp,
    r: PutWorkflowStateRequest,
    answer: Result<Completion<WorkflowStateValue>, PluginError<AdminError>>,
)
    requires
        admin_handlers::put_workflow_state_handled(
            before,
            after,
            authorized,
            request_json,
            now,
            r,
            answer,
        ),
    ensures
        answer matches Ok(Completion::Fresh(_)) ==> done_by(
            before,
            after,
            authorized,
            request_json,
            now,
            "put_workflow_state"@,
            r.idempotency_key@,
        ),
        !(answer matches Ok(Completion::Fresh(_))) ==> after == before,
{
    let (call, stored) = choose|call: Invocation, stored: Result<Completion<WorkflowStateValue>, StorageError>|
        {
            &&& service::is_invocation(call, authorized, request_json, now)
            &&& #[trigger] workflow::put_workflow_state_outcome(before, after, call, r, stored)
            &&& answer == failure::admin_result(stored)
        };
    if let Ok(Completion::Fresh(value)) = stored {
        catalogs::law_state_is_what_was_put(before, after, call, r, value);
    }
}

/// What `reorder_workflow_states` does for an admitted caller is done by its actor at that time, and
/// on record as asked for by that caller; what is not done leaves everything as it was.
pub proof fn law_reorder_workflow_states_is_done_by_its_actor(
    before: Store,
    after: Store,
    authorized: Authorized,
    request_json: Seq<char>,
    now: Timestamp,
    r: ReorderWorkflowStatesRequest,
    answer: Result<Completion<Vec<WorkflowStateValue>>, PluginError<AdminError>>,
)
    requires
        admin_handlers::reorder_workflow_states_handled(
            before,
            after,
            authorized,
            request_json,
            now,
            r,
            answer,
        ),
    ensures
        answer matches Ok(Completion::Fresh(_)) ==> done_by(
            before,
            after,
            authorized,
            request_json,
            now,
            "reorder_workflow_states"@,
            r.idempotency_key@,
        ),
        !(answer matches Ok(Completion::Fresh(_))) ==> after == before,
{
    let (call, stored) = choose|call: Invocation, stored: Result<Completion<Vec<WorkflowStateValue>>, StorageError>|
        {
            &&& service::is_invocation(call, authorized, request_json, now)
            &&& #[trigger] workflow::reorder_workflow_states_outcome(before, after, call, r, stored)
            &&& answer == failure::admin_result(stored)
        };
    if let Ok(Completion::Fresh(value)) = stored {
        catalogs::law_reordered_states_are_where_they_were_put(before, after, call, r, value);
    }
}

/// What `archive_workflow_state` does for an admitted caller is done by its actor at that time, and
/// on record as asked for by that caller; what is not done leaves everything as it was.
pub proof fn law_archive_workflow_state_is_done_by_its_actor(
    before: Store,
    after: Store,
    authorized: Authorized,
    request_json: Seq<char>,
    now: Timestamp,
    r: ArchiveWorkflowStateRequest,
    answer: Result<Completion<WorkflowStateValue>, PluginError<AdminError>>,
)
    requires
        admin_handlers::archive_workflow_state_handled(
            before,
            after,
            authorized,
            request_json,
            now,
            r,
            answer,
        ),
    ensures
        answer matches Ok(Completion::Fresh(_)) ==> done_by(
            before,
            after,
            authorized,
            request_json,
            now,
            "archive_workflow_state"@,
            r.idempotency_key@,
        ),
        !(answer matches Ok(Completion::Fresh(_))) ==> after == before,
{
    let (call, stored) = choose|call: Invocation, stored: Result<Completion<WorkflowStateValue>, StorageError>|
        {
            &&& service::is_invocation(call, authorized, request_json, now)
            &&& #[trigger] workflow::archive_workflow_state_outcome(before, after, call, r, stored)
            &&& answer == failure::admin_result(stored)
        };
    if let Ok(Completion::Fresh(value)) = stored {
        catalogs::law_archived_state_is_only_archived(before, after, call, r, value);
    }
}

/// What `delete_workflow_state` does for an admitted caller is done by its actor at that time, and on
/// record as asked for by that caller; what is not done leaves everything as it was.
pub proof fn law_delete_workflow_state_is_done_by_its_actor(
    before: Store,
    after: Store,
    authorized: Authorized,
    request_json: Seq<char>,
    now: Timestamp,
    r: DeleteWorkflowStateRequest,
    answer: Result<Completion<DeletedWorkflowState>, PluginError<AdminError>>,
)
    requires
        admin_handlers::delete_workflow_state_handled(
            before,
            after,
            authorized,
            request_json,
            now,
            r,
            answer,
        ),
    ensures
        answer matches Ok(Completion::Fresh(_)) ==> done_by(
            before,
            after,
            authorized,
            request_json,
            now,
            "delete_workflow_state"@,
            r.idempotency_key@,
        ),
        !(answer matches Ok(Completion::Fresh(_))) ==> after == before,
{
    let (call, stored) = choose|call: Invocation, stored: Result<Completion<DeletedWorkflowState>, StorageError>|
        {
            &&& service::is_invocation(call, authorized, request_json, now)
            &&& #[trigger] workflow::delete_workflow_state_outcome(before, after, call, r, stored)
            &&& answer == failure::admin_result(stored)
        };
    if let Ok(Completion::Fresh(value)) = stored {
        catalogs::law_deleted_state_is_gone(before, after, call, r, value);
    }
}

/// What `put_project_status` does for an admitted caller is done by its actor at that time, and on
/// record as asked for by that caller; what is not done leaves everything as it was.
pub proof fn law_put_project_status_is_done_by_its_actor(
    before: Store,
    after: Store,
    authorized: Authorized,
    request_json: Seq<char>,
    now: Timestamp,
    r: PutProjectStatusRequest,
    ids: StatusIds,
    answer: Result<Completion<ProjectStatusValue>, PluginError<AdminError>>,
)
    requires
        admin_handlers::put_project_status_handled(
            before,
            after,
            authorized,
            request_json,
            now,
            r,
            ids,
            answer,
        ),
    ensures
        answer matches Ok(Completion::Fresh(_)) ==> done_by(
            before,
            after,
            authorized,
            request_json,
            now,
            "put_project_status"@,
            r.idempotency_key@,
        ),
        !(answer matches Ok(Completion::Fresh(_))) ==> after == before,
{
    let (call, stored) = choose|call: Invocation, stored: Result<Completion<ProjectStatusValue>, StorageError>|
        {
            &&& service::is_invocation(call, authorized, request_json, now)
            &&& #[trigger] project_status::put_project_status_outcome(before, after, call, r, ids, stored)
            &&& answer == failure::admin_result(stored)
        };
    if let Ok(Completion::Fresh(value)) = stored {
        catalogs::law_status_is_what_was_put(before, after, call, r, ids, value);
    }
}

/// What `reorder_project_statuses` does for an admitted caller is done by its actor at that time, and
/// on record as asked for by that caller. What is not done leaves everything as it was, unless it
/// sets up the statuses of the organization.
pub proof fn law_reorder_project_statuses_is_done_by_its_actor(
    before: Store,
    after: Store,
    authorized: Authorized,
    request_json: Seq<char>,
    now: Timestamp,
    r: ReorderProjectStatusesRequest,
    ids: StatusIds,
    answer: Result<Completion<Vec<ProjectStatusValue>>, PluginError<AdminError>>,
)
    requires
        admin_handlers::reorder_project_statuses_handled(
            before,
            after,
            authorized,
            request_json,
            now,
            r,
            ids,
            answer,
        ),
    ensures
        answer matches Ok(Completion::Fresh(_)) ==> done_by(
            before,
            after,
            authorized,
            request_json,
            now,
            "reorder_project_statuses"@,
            r.idempotency_key@,
        ),
        answer is Err ==> after == before,
{
    let (call, stored) = choose|call: Invocation, stored: Result<Completion<Vec<ProjectStatusValue>>, StorageError>|
        {
            &&& service::is_invocation(call, authorized, request_json, now)
            &&& #[trigger] project_status::reorder_project_statuses_outcome(before, after, call, r, ids, stored)
            &&& answer == failure::admin_result(stored)
        };
    if let Ok(Completion::Fresh(value)) = stored {
        catalogs::law_reordered_statuses_are_where_they_were_put(before, after, call, r, ids, value);
    }
}

/// What `archive_project_status` does for an admitted caller is done by its actor at that time, and
/// on record as asked for by that caller; what is not done leaves everything as it was.
pub proof fn law_archive_project_status_is_done_by_its_actor(
    before: Store,
    after: Store,
    authorized: Authorized,
    request_json: Seq<char>,
    now: Timestamp,
    r: ArchiveProjectStatusRequest,
    ids: StatusIds,
    answer: Result<Completion<ProjectStatusValue>, PluginError<AdminError>>,
)
    requires
        admin_handlers::archive_project_status_handled(
            before,
            after,
            authorized,
            request_json,
            now,
            r,
            ids,
            answer,
        ),
    ensures
        answer matches Ok(Completion::Fresh(_)) ==> done_by(
            before,
            after,
            authorized,
            request_json,
            now,
            "archive_project_status"@,
            r.idempotency_key@,
        ),
        !(answer matches Ok(Completion::Fresh(_))) ==> after == before,
{
    let (call, stored) = choose|call: Invocation, stored: Result<Completion<ProjectStatusValue>, StorageError>|
        {
            &&& service::is_invocation(call, authorized, request_json, now)
            &&& #[trigger] project_status::archive_project_status_outcome(before, after, call, r, ids, stored)
            &&& answer == failure::admin_result(stored)
        };
    if let Ok(Completion::Fresh(value)) = stored {
        catalogs::law_archived_status_is_only_archived(before, after, call, r, ids, value);
    }
}

/// What `delete_project_status` does for an admitted caller is done by its actor at that time, and on
/// record as asked for by that caller. What is not done leaves everything as it was, unless it sets
/// up the statuses of the organization.
pub proof fn law_delete_project_status_is_done_by_its_actor(
    before: Store,
    after: Store,
    authorized: Authorized,
    request_json: Seq<char>,
    now: Timestamp,
    r: DeleteProjectStatusRequest,
    ids: StatusIds,
    answer: Result<Completion<DeletedProjectStatus>, PluginError<AdminError>>,
)
    requires
        admin_handlers::delete_project_status_handled(
            before,
            after,
            authorized,
            request_json,
            now,
            r,
            ids,
            answer,
        ),
    ensures
        answer matches Ok(Completion::Fresh(_)) ==> done_by(
            before,
            after,
            authorized,
            request_json,
            now,
            "delete_project_status"@,
            r.idempotency_key@,
        ),
        answer is Err ==> after == before,
{
    let (call, stored) = choose|call: Invocation, stored: Result<Completion<DeletedProjectStatus>, StorageError>|
        {
            &&& service::is_invocation(call, authorized, request_json, now)
            &&& #[trigger] project_status::delete_project_status_outcome(before, after, call, r, ids, stored)
            &&& answer == failure::admin_result(stored)
        };
    if let Ok(Completion::Fresh(value)) = stored {
        catalogs::law_deleted_status_is_gone(before, after, call, r, ids, value);
    }
}

/// What `put_label` does for an admitted caller is done by its actor at that time, and on record as
/// asked for by that caller; what is not done leaves everything as it was.
pub proof fn law_put_label_is_done_by_its_actor(
    before: Store,
    after: Store,
    authorized: Authorized,
    request_json: Seq<char>,
    now: Timestamp,
    r: PutLabelRequest,
    answer: Result<Completion<LabelValue>, PluginError<AdminError>>,
)
    requires
        admin_handlers::put_label_handled(
            before,
            after,
            authorized,
            request_json,
            now,
            r,
            answer,
        ),
    ensures
        answer matches Ok(Completion::Fresh(_)) ==> done_by(
            before,
            after,
            authorized,
            request_json,
            now,
            "put_label"@,
            r.idempotency_key@,
        ),
        !(answer matches Ok(Completion::Fresh(_))) ==> after == before,
{
    let (call, stored) = choose|call: Invocation, stored: Result<Completion<LabelValue>, StorageError>|
        {
            &&& service::is_invocation(call, authorized, request_json, now)
            &&& #[trigger] planning::put_label_outcome(before, after, call, r, stored)
            &&& answer == failure::admin_result(stored)
        };
    if let Ok(Completion::Fresh(value)) = stored {
        plans::law_label_is_what_was_put(before, after, call, r, value);
    }
}

/// What `put_cycle` does for an admitted caller is done by its actor at that time, and on record as
/// asked for by that caller; what is not done leaves everything as it was.
pub proof fn law_put_cycle_is_done_by_its_actor(
    before: Store,
    after: Store,
    authorized: Authorized,
    request_json: Seq<char>,
    now: Timestamp,
    r: PutCycleRequest,
    answer: Result<Completion<CycleValue>, PluginError<AdminError>>,
)
    requires
        admin_handlers::put_cycle_handled(
            before,
            after,
            authorized,
            request_json,
            now,
            r,
            answer,
        ),
    ensures
        answer matches Ok(Completion::Fresh(_)) ==> done_by(
            before,
            after,
            authorized,
            request_json,
            now,
            "put_cycle"@,
            r.idempotency_key@,
        ),
        !(answer matches Ok(Completion::Fresh(_))) ==> after == before,
{
    let (call, stored) = choose|call: Invocation, stored: Result<Completion<CycleValue>, StorageError>|
        {
            &&& service::is_invocation(call, authorized, request_json, now)
            &&& #[trigger] planning::put_cycle_outcome(before, after, call, r, stored)
            &&& answer == failure::admin_result(stored)
        };
    if let Ok(Completion::Fresh(value)) = stored {
        plans::law_cycle_is_what_was_put(before, after, call, r, value);
    }
}

/// What `put_milestone` does for an admitted caller is done by its actor at that time, and on record
/// as asked for by that caller; what is not done leaves everything as it was.
pub proof fn law_put_milestone_is_done_by_its_actor(
    before: Store,
    after: Store,
    authorized: Authorized,
    request_json: Seq<char>,
    now: Timestamp,
    r: PutMilestoneRequest,
    answer: Result<Completion<MilestoneValue>, PluginError<AdminError>>,
)
    requires
        admin_handlers::put_milestone_handled(
            before,
            after,
            authorized,
            request_json,
            now,
            r,
            answer,
        ),
    ensures
        answer matches Ok(Completion::Fresh(_)) ==> done_by(
            before,
            after,
            authorized,
            request_json,
            now,
            "put_milestone"@,
            r.idempotency_key@,
        ),
        !(answer matches Ok(Completion::Fresh(_))) ==> after == before,
{
    let (call, stored) = choose|call: Invocation, stored: Result<Completion<MilestoneValue>, StorageError>|
        {
            &&& service::is_invocation(call, authorized, request_json, now)
            &&& #[trigger] planning::put_milestone_outcome(before, after, call, r, stored)
            &&& answer == failure::admin_result(stored)
        };
    if let Ok(Completion::Fresh(value)) = stored {
        plans::law_milestone_is_what_was_put(before, after, call, r, value);
    }
}

} // verus!
