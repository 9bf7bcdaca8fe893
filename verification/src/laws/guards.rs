//! What every handler does before it turns to the store.
use crate::access::{AuthorizationFailure, Authorized, PortReply};
use crate::admin_handlers;
use crate::clock::Timestamp;
use crate::collaboration_handlers;
use crate::failure::{AdminError, CollaborationError, PluginError, ProjectsError};
use crate::model::{
    ActivityValue, AddCommentRequest, AddIssueRelationRequest, ArchiveIssueRequest,
    ArchiveProjectRequest, ArchiveProjectStatusRequest, ArchiveWorkflowStateRequest, AssigneeValue,
    CommentValue, Completion, CreateIssueRequest, CreateProjectRequest, CreateProjectUpdateRequest,
    CycleValue, DeleteCommentRequest, DeleteProjectStatusRequest, DeleteWorkflowStateRequest,
    DeletedProjectStatus, DeletedWorkflowState, ExternalLinkValue, GetIssueAssigneeRequest,
    GetIssueRequest, GetProjectRequest, GetProjectStatusRequest, GetWorkflowStateRequest,
    IssueValue, LabelValue, ListActivityRequest, ListCommentsRequest, ListCyclesRequest,
    ListIssueWorkflowStatesRequest, ListIssuesRequest, ListLabelsRequest, ListMilestonesRequest,
    ListProjectStatusesRequest, ListProjectUpdatesRequest, ListProjectsRequest, ListTeamsRequest,
    ListWorkflowStatesRequest, MilestoneValue, MoveIssueRequest, ProjectStatusValue,
    ProjectUpdateValue, ProjectValue, PutCycleRequest, PutExternalLinkRequest, PutLabelRequest,
    PutMilestoneRequest, PutProjectStatusRequest, PutTeamRequest, PutWorkflowStateRequest,
    RelationValue, RemoveIssueRelationRequest, ReorderProjectStatusesRequest,
    ReorderWorkflowStatesRequest, SetIssueAssigneeRequest, SetTeamMemberRequest, TeamMemberValue,
    TeamValue, UpdateCommentRequest, UpdateIssueRequest, UpdateProjectRequest, WorkflowStateValue,
};
use crate::product_handlers;
use crate::project_status::StatusIds;
use crate::service::ProjectsService;
use crate::table::Page;
use crate::validate;
use crate::workflow::WorkflowIds;
use vstd::prelude::*;

verus! {

/// `create_project` is refused to whom is not admitted, then to a request that is not valid, then
/// where there is no store; nothing changes then. Else it is what the store makes of it, for the
/// admitted actor.
pub proof fn law_create_project_is_guarded(
    service: &mut ProjectsService,
    access: Result<Authorized, AuthorizationFailure>,
    request: &CreateProjectRequest,
    request_json: &str,
    now: &Timestamp,
    ids: &StatusIds,
    answer: Result<Completion<ProjectValue>, PluginError<ProjectsError>>,
)
    requires
        call_ensures(ProjectsService::create_project, (service, access, request, request_json, now, ids), answer),
    ensures
        if access is Err {
            &&& match access->Err_0 {
                AuthorizationFailure::Unauthenticated => answer matches Err(
                    PluginError::Domain(ProjectsError::Unauthenticated),
                ),
                AuthorizationFailure::Forbidden => answer matches Err(
                    PluginError::Domain(ProjectsError::Forbidden),
                ),
                AuthorizationFailure::Runtime(fault) => answer matches Err(PluginError::Runtime(said))
                    && said == fault,
            }
            &&& *final(service) == *old(service)
        } else if !validate::is_project_create(*request) {
            answer matches Err(PluginError::Domain(ProjectsError::InvalidRequest)) && *final(service) == *old(service)
        } else if old(service).store is None {
            answer matches Err(PluginError::Runtime(_)) && *final(service) == *old(service)
        } else {
            final(service).store is Some && product_handlers::create_project_handled(
                old(service).store->0,
                final(service).store->0,
                access->Ok_0,
                request_json@,
                *now,
                *request,
                *ids,
                answer,
            )
        },
{
}

/// `get_project` is refused to whom is not admitted, then to a request that is not valid, then where
/// there is no store; nothing changes then. Else it is what the store makes of it, for the admitted
/// actor.
pub proof fn law_get_project_is_guarded(
    service: &ProjectsService,
    access: Result<Authorized, AuthorizationFailure>,
    request: &GetProjectRequest,
    answer: Result<ProjectValue, PluginError<ProjectsError>>,
)
    requires
        call_ensures(ProjectsService::get_project, (service, access, request), answer),
    ensures
        if access is Err {
            &&& match access->Err_0 {
                AuthorizationFailure::Unauthenticated => answer matches Err(
                    PluginError::Domain(ProjectsError::Unauthenticated),
                ),
                AuthorizationFailure::Forbidden => answer matches Err(
                    PluginError::Domain(ProjectsError::Forbidden),
                ),
                AuthorizationFailure::Runtime(fault) => answer matches Err(PluginError::Runtime(said))
                    && said == fault,
            }
        } else if !validate::is_project_get(*request) {
            answer matches Err(PluginError::Domain(ProjectsError::InvalidRequest))
        } else if service.store is None {
            answer matches Err(PluginError::Runtime(_))
        } else {
            product_handlers::get_project_handled(
                service.store->0,
                access->Ok_0,
                *request,
                answer,
            )
        },
{
}

/// `list_projects` is refused to whom is not admitted, then to a request that is not valid, then
/// where there is no store; nothing changes then. Else it is what the store makes of it, for the
/// admitted actor.
pub proof fn law_list_projects_is_guarded(
    service: &ProjectsService,
    access: Result<Authorized, AuthorizationFailure>,
    request: &ListProjectsRequest,
    answer: Result<Page<ProjectValue>, PluginError<ProjectsError>>,
)
    requires
        call_ensures(ProjectsService::list_projects, (service, access, request), answer),
    ensures
        if access is Err {
            &&& match access->Err_0 {
                AuthorizationFailure::Unauthenticated => answer matches Err(
                    PluginError::Domain(ProjectsError::Unauthenticated),
                ),
                AuthorizationFailure::Forbidden => answer matches Err(
                    PluginError::Domain(ProjectsError::Forbidden),
                ),
                AuthorizationFailure::Runtime(fault) => answer matches Err(PluginError::Runtime(said))
                    && said == fault,
            }
        } else if !validate::is_project_list(*request) {
            answer matches Err(PluginError::Domain(ProjectsError::InvalidRequest))
        } else if service.store is None {
            answer matches Err(PluginError::Runtime(_))
        } else {
            product_handlers::list_projects_handled(
                service.store->0,
                access->Ok_0,
                *request,
                answer,
            )
        },
{
}

/// `update_project` is refused to whom is not admitted, then to a request that is not valid, then
/// where there is no store; nothing changes then. Else it is what the store makes of it, for the
/// admitted actor.
pub proof fn law_update_project_is_guarded(
    service: &mut ProjectsService,
    access: Result<Authorized, AuthorizationFailure>,
    request: &UpdateProjectRequest,
    request_json: &str,
    now: &Timestamp,
    ids: &StatusIds,
    answer: Result<Completion<ProjectValue>, PluginError<ProjectsError>>,
)
    requires
        call_ensures(ProjectsService::update_project, (service, access, request, request_json, now, ids), answer),
    ensures
        if access is Err {
            &&& match access->Err_0 {
                AuthorizationFailure::Unauthenticated => answer matches Err(
                    PluginError::Domain(ProjectsError::Unauthenticated),
                ),
                AuthorizationFailure::Forbidden => answer matches Err(
                    PluginError::Domain(ProjectsError::Forbidden),
                ),
                AuthorizationFailure::Runtime(fault) => answer matches Err(PluginError::Runtime(said))
                    && said == fault,
            }
            &&& *final(service) == *old(service)
        } else if !validate::is_project_update(*request) {
            answer matches Err(PluginError::Domain(ProjectsError::InvalidRequest)) && *final(service) == *old(service)
        } else if old(service).store is None {
            answer matches Err(PluginError::Runtime(_)) && *final(service) == *old(service)
        } else {
            final(service).store is Some && product_handlers::update_project_handled(
                old(service).store->0,
                final(service).store->0,
                access->Ok_0,
                request_json@,
                *now,
                *request,
                *ids,
                answer,
            )
        },
{
}

/// `archive_project` is refused to whom is not admitted, then to a request that is not valid, then
/// where there is no store; nothing changes then. Else it is what the store makes of it, for the
/// admitted actor.
pub proof fn law_archive_project_is_guarded(
    service: &mut ProjectsService,
    access: Result<Authorized, AuthorizationFailure>,
    request: &ArchiveProjectRequest,
    request_json: &str,
    now: &Timestamp,
    answer: Result<Completion<ProjectValue>, PluginError<ProjectsError>>,
)
    requires
        call_ensures(ProjectsService::archive_project, (service, access, request, request_json, now), answer),
    ensures
        if access is Err {
            &&& match access->Err_0 {
                AuthorizationFailure::Unauthenticated => answer matches Err(
                    PluginError::Domain(ProjectsError::Unauthenticated),
                ),
                AuthorizationFailure::Forbidden => answer matches Err(
                    PluginError::Domain(ProjectsError::Forbidden),
                ),
                AuthorizationFailure::Runtime(fault) => answer matches Err(PluginError::Runtime(said))
                    && said == fault,
            }
            &&& *final(service) == *old(service)
        } else if !validate::is_project_archive(*request) {
            answer matches Err(PluginError::Domain(ProjectsError::InvalidRequest)) && *final(service) == *old(service)
        } else if old(service).store is None {
            answer matches Err(PluginError::Runtime(_)) && *final(service) == *old(service)
        } else {
            final(service).store is Some && product_handlers::archive_project_handled(
                old(service).store->0,
                final(service).store->0,
                access->Ok_0,
                request_json@,
                *now,
                *request,
                answer,
            )
        },
{
}

/// `create_issue` is refused to whom is not admitted, then to a request that is not valid, then where
/// there is no store; nothing changes then. Else it is what the store makes of it, for the admitted
/// actor.
pub proof fn law_create_issue_is_guarded(
    service: &mut ProjectsService,
    access: Result<Authorized, AuthorizationFailure>,
    request: &CreateIssueRequest,
    request_json: &str,
    now: &Timestamp,
    answer: Result<Completion<IssueValue>, PluginError<ProjectsError>>,
)
    requires
        call_ensures(ProjectsService::create_issue, (service, access, request, request_json, now), answer),
    ensures
        if access is Err {
            &&& match access->Err_0 {
                AuthorizationFailure::Unauthenticated => answer matches Err(
                    PluginError::Domain(ProjectsError::Unauthenticated),
                ),
                AuthorizationFailure::Forbidden => answer matches Err(
                    PluginError::Domain(ProjectsError::Forbidden),
                ),
                AuthorizationFailure::Runtime(fault) => answer matches Err(PluginError::Runtime(said))
                    && said == fault,
            }
            &&& *final(service) == *old(service)
        } else if !validate::is_issue_create(*request) {
            answer matches Err(PluginError::Domain(ProjectsError::InvalidRequest)) && *final(service) == *old(service)
        } else if old(service).store is None {
            answer matches Err(PluginError::Runtime(_)) && *final(service) == *old(service)
        } else {
            final(service).store is Some && product_handlers::create_issue_handled(
                old(service).store->0,
                final(service).store->0,
                access->Ok_0,
                request_json@,
                *now,
                *request,
                answer,
            )
        },
{
}

/// `get_issue` is refused to whom is not admitted, then to a request that is not valid, then where
/// there is no store; nothing changes then. Else it is what the store makes of it, for the admitted
/// actor.
pub proof fn law_get_issue_is_guarded(
    service: &ProjectsService,
    access: Result<Authorized, AuthorizationFailure>,
    request: &GetIssueRequest,
    answer: Result<IssueValue, PluginError<ProjectsError>>,
)
    requires
        call_ensures(ProjectsService::get_issue, (service, access, request), answer),
    ensures
        if access is Err {
            &&& match access->Err_0 {
                AuthorizationFailure::Unauthenticated => answer matches Err(
                    PluginError::Domain(ProjectsError::Unauthenticated),
                ),
                AuthorizationFailure::Forbidden => answer matches Err(
                    PluginError::Domain(ProjectsError::Forbidden),
                ),
                AuthorizationFailure::Runtime(fault) => answer matches Err(PluginError::Runtime(said))
                    && said == fault,
            }
        } else if !validate::is_issue_get(*request) {
            answer matches Err(PluginError::Domain(ProjectsError::InvalidRequest))
        } else if service.store is None {
            answer matches Err(PluginError::Runtime(_))
        } else {
            product_handlers::get_issue_handled(
                service.store->0,
                access->Ok_0,
                *request,
                answer,
            )
        },
{
}

/// `list_issues` is refused to whom is not admitted, then to a request that is not valid, then where
/// there is no store; nothing changes then. Else it is what the store makes of it, for the admitted
/// actor.
pub proof fn law_list_issues_is_guarded(
    service: &ProjectsService,
    access: Result<Authorized, AuthorizationFailure>,
    request: &ListIssuesRequest,
    answer: Result<Page<IssueValue>, PluginError<ProjectsError>>,
)
    requires
        call_ensures(ProjectsService::list_issues, (service, access, request), answer),
    ensures
        if access is Err {
            &&& match access->Err_0 {
                AuthorizationFailure::Unauthenticated => answer matches Err(
                    PluginError::Domain(ProjectsError::Unauthenticated),
                ),
                AuthorizationFailure::Forbidden => answer matches Err(
                    PluginError::Domain(ProjectsError::Forbidden),
                ),
                AuthorizationFailure::Runtime(fault) => answer matches Err(PluginError::Runtime(said))
                    && said == fault,
            }
        } else if !validate::is_issue_list(*request) {
            answer matches Err(PluginError::Domain(ProjectsError::InvalidRequest))
        } else if service.store is None {
            answer matches Err(PluginError::Runtime(_))
        } else {
            product_handlers::list_issues_handled(
                service.store->0,
                access->Ok_0,
                *request,
                answer,
            )
        },
{
}

/// `update_issue` is refused to whom is not admitted, then to a request that is not valid, then where
/// there is no store; nothing changes then. Else it is what the store makes of it, for the admitted
/// actor.
pub proof fn law_update_issue_is_guarded(
    service: &mut ProjectsService,
    access: Result<Authorized, AuthorizationFailure>,
    request: &UpdateIssueRequest,
    request_json: &str,
    now: &Timestamp,
    answer: Result<Completion<IssueValue>, PluginError<ProjectsError>>,
)
    requires
        call_ensures(ProjectsService::update_issue, (service, access, request, request_json, now), answer),
    ensures
        if access is Err {
            &&& match access->Err_0 {
                AuthorizationFailure::Unauthenticated => answer matches Err(
                    PluginError::Domain(ProjectsError::Unauthenticated),
                ),
                AuthorizationFailure::Forbidden => answer matches Err(
                    PluginError::Domain(ProjectsError::Forbidden),
                ),
                AuthorizationFailure::Runtime(fault) => answer matches Err(PluginError::Runtime(said))
                    && said == fault,
            }
            &&& *final(service) == *old(service)
        } else if !validate::is_issue_update(*request) {
            answer matches Err(PluginError::Domain(ProjectsError::InvalidRequest)) && *final(service) == *old(service)
        } else if old(service).store is None {
            answer matches Err(PluginError::Runtime(_)) && *final(service) == *old(service)
        } else {
            final(service).store is Some && product_handlers::update_issue_handled(
                old(service).store->0,
                final(service).store->0,
                access->Ok_0,
                request_json@,
                *now,
                *request,
                answer,
            )
        },
{
}

/// `move_issue` is refused to whom is not admitted, then to a request that is not valid, then where
/// there is no store; nothing changes then. Else it is what the store makes of it, for the admitted
/// actor.
pub proof fn law_move_issue_is_guarded(
    service: &mut ProjectsService,
    access: Result<Authorized, AuthorizationFailure>,
    request: &MoveIssueRequest,
    request_json: &str,
    now: &Timestamp,
    answer: Result<Completion<IssueValue>, PluginError<ProjectsError>>,
)
    requires
        call_ensures(ProjectsService::move_issue, (service, access, request, request_json, now), answer),
    ensures
        if access is Err {
            &&& match access->Err_0 {
                AuthorizationFailure::Unauthenticated => answer matches Err(
                    PluginError::Domain(ProjectsError::Unauthenticated),
                ),
                AuthorizationFailure::Forbidden => answer matches Err(
                    PluginError::Domain(ProjectsError::Forbidden),
                ),
                AuthorizationFailure::Runtime(fault) => answer matches Err(PluginError::Runtime(said))
                    && said == fault,
            }
            &&& *final(service) == *old(service)
        } else if !validate::is_issue_move(*request) {
            answer matches Err(PluginError::Domain(ProjectsError::InvalidRequest)) && *final(service) == *old(service)
        } else if old(service).store is None {
            answer matches Err(PluginError::Runtime(_)) && *final(service) == *old(service)
        } else {
            final(service).store is Some && product_handlers::move_issue_handled(
                old(service).store->0,
                final(service).store->0,
                access->Ok_0,
                request_json@,
                *now,
                *request,
                answer,
            )
        },
{
}

/// `archive_issue` is refused to whom is not admitted, then to a request that is not valid, then
/// where there is no store; nothing changes then. Else it is what the store makes of it, for the
/// admitted actor.
pub proof fn law_archive_issue_is_guarded(
    service: &mut ProjectsService,
    access: Result<Authorized, AuthorizationFailure>,
    request: &ArchiveIssueRequest,
    request_json: &str,
    now: &Timestamp,
    answer: Result<Completion<IssueValue>, PluginError<ProjectsError>>,
)
    requires
        call_ensures(ProjectsService::archive_issue, (service, access, request, request_json, now), answer),
    ensures
        if access is Err {
            &&& match access->Err_0 {
                AuthorizationFailure::Unauthenticated => answer matches Err(
                    PluginError::Domain(ProjectsError::Unauthenticated),
                ),
                AuthorizationFailure::Forbidden => answer matches Err(
                    PluginError::Domain(ProjectsError::Forbidden),
                ),
                AuthorizationFailure::Runtime(fault) => answer matches Err(PluginError::Runtime(said))
                    && said == fault,
            }
            &&& *final(service) == *old(service)
        } else if !validate::is_issue_archive(*request) {
            answer matches Err(PluginError::Domain(ProjectsError::InvalidRequest)) && *final(service) == *old(service)
        } else if old(service).store is None {
            answer matches Err(PluginError::Runtime(_)) && *final(service) == *old(service)
        } else {
            final(service).store is Some && product_handlers::archive_issue_handled(
                old(service).store->0,
                final(service).store->0,
                access->Ok_0,
                request_json@,
                *now,
                *request,
                answer,
            )
        },
{
}

/// `put_external_link` is refused to whom is not admitted, then to a request that is not valid, then
/// where there is no store; nothing changes then. Else it is what the store makes of it, for the
/// admitted actor.
pub proof fn law_put_external_link_is_guarded(
    service: &mut ProjectsService,
    access: Result<Authorized, AuthorizationFailure>,
    request: &PutExternalLinkRequest,
    request_json: &str,
    now: &Timestamp,
    answer: Result<Completion<ExternalLinkValue>, PluginError<ProjectsError>>,
)
    requires
        call_ensures(ProjectsService::put_external_link, (service, access, request, request_json, now), answer),
    ensures
        if access is Err {
            &&& match access->Err_0 {
                AuthorizationFailure::Unauthenticated => answer matches Err(
                    PluginError::Domain(ProjectsError::Unauthenticated),
                ),
                AuthorizationFailure::Forbidden => answer matches Err(
                    PluginError::Domain(ProjectsError::Forbidden),
                ),
                AuthorizationFailure::Runtime(fault) => answer matches Err(PluginError::Runtime(said))
                    && said == fault,
            }
            &&& *final(service) == *old(service)
        } else if !validate::is_external_link(*request) {
            answer matches Err(PluginError::Domain(ProjectsError::InvalidRequest)) && *final(service) == *old(service)
        } else if old(service).store is None {
            answer matches Err(PluginError::Runtime(_)) && *final(service) == *old(service)
        } else {
            final(service).store is Some && product_handlers::put_external_link_handled(
                old(service).store->0,
                final(service).store->0,
                access->Ok_0,
                request_json@,
                *now,
                *request,
                answer,
            )
        },
{
}

/// `list_activity` is refused to whom is not admitted, then to a request that is not valid, then
/// where there is no store; nothing changes then. Else it is what the store makes of it, for the
/// admitted actor.
pub proof fn law_list_activity_is_guarded(
    service: &ProjectsService,
    access: Result<Authorized, AuthorizationFailure>,
    request: &ListActivityRequest,
    answer: Result<Page<ActivityValue>, PluginError<ProjectsError>>,
)
    requires
        call_ensures(ProjectsService::list_activity, (service, access, request), answer),
    ensures
        if access is Err {
            &&& match access->Err_0 {
                AuthorizationFailure::Unauthenticated => answer matches Err(
                    PluginError::Domain(ProjectsError::Unauthenticated),
                ),
                AuthorizationFailure::Forbidden => answer matches Err(
                    PluginError::Domain(ProjectsError::Forbidden),
                ),
                AuthorizationFailure::Runtime(fault) => answer matches Err(PluginError::Runtime(said))
                    && said == fault,
            }
        } else if !validate::is_activity_list(*request) {
            answer matches Err(PluginError::Domain(ProjectsError::InvalidRequest))
        } else if service.store is None {
            answer matches Err(PluginError::Runtime(_))
        } else {
            product_handlers::list_activity_handled(
                service.store->0,
                access->Ok_0,
                *request,
                answer,
            )
        },
{
}

/// `list_issue_workflow_states` is refused to whom is not admitted, then to a request that is not
/// valid, then where there is no store; nothing changes then. Else it is what the store makes of it,
/// for the admitted actor.
pub proof fn law_list_issue_workflow_states_is_guarded(
    service: &ProjectsService,
    access: Result<Authorized, AuthorizationFailure>,
    request: &ListIssueWorkflowStatesRequest,
    answer: Result<Page<WorkflowStateValue>, PluginError<ProjectsError>>,
)
    requires
        call_ensures(ProjectsService::list_issue_workflow_states, (service, access, request), answer),
    ensures
        if access is Err {
            &&& match access->Err_0 {
                AuthorizationFailure::Unauthenticated => answer matches Err(
                    PluginError::Domain(ProjectsError::Unauthenticated),
                ),
                AuthorizationFailure::Forbidden => answer matches Err(
                    PluginError::Domain(ProjectsError::Forbidden),
                ),
                AuthorizationFailure::Runtime(fault) => answer matches Err(PluginError::Runtime(said))
                    && said == fault,
            }
        } else if !validate::is_issue_workflow_list(*request) {
            answer matches Err(PluginError::Domain(ProjectsError::InvalidRequest))
        } else if service.store is None {
            answer matches Err(PluginError::Runtime(_))
        } else {
            product_handlers::list_issue_workflow_states_handled(
                service.store->0,
                access->Ok_0,
                *request,
                answer,
            )
        },
{
}

/// `add_comment` is refused to whom is not admitted, then to a request that is not valid, then where
/// there is no store; nothing changes then. Else it is what the store makes of it, for the admitted
/// actor.
pub proof fn law_add_comment_is_guarded(
    service: &mut ProjectsService,
    access: Result<Authorized, AuthorizationFailure>,
    request: &AddCommentRequest,
    request_json: &str,
    now: &Timestamp,
    answer: Result<Completion<CommentValue>, PluginError<CollaborationError>>,
)
    requires
        call_ensures(ProjectsService::add_comment, (service, access, request, request_json, now), answer),
    ensures
        if access is Err {
            &&& match access->Err_0 {
                AuthorizationFailure::Unauthenticated => answer matches Err(
                    PluginError::Domain(CollaborationError::Unauthenticated),
                ),
                AuthorizationFailure::Forbidden => answer matches Err(
                    PluginError::Domain(CollaborationError::Forbidden),
                ),
                AuthorizationFailure::Runtime(fault) => answer matches Err(PluginError::Runtime(said))
                    && said == fault,
            }
            &&& *final(service) == *old(service)
        } else if !validate::is_comment_add(*request) {
            answer matches Err(PluginError::Domain(CollaborationError::InvalidRequest)) && *final(service) == *old(service)
        } else if old(service).store is None {
            answer matches Err(PluginError::Runtime(_)) && *final(service) == *old(service)
        } else {
            final(service).store is Some && collaboration_handlers::add_comment_handled(
                old(service).store->0,
                final(service).store->0,
                access->Ok_0,
                request_json@,
                *now,
                *request,
                answer,
            )
        },
{
}

/// `update_comment` is refused to whom is not admitted, then to a request that is not valid, then
/// where there is no store; nothing changes then. Else it is what the store makes of it, for the
/// admitted actor.
pub proof fn law_update_comment_is_guarded(
    service: &mut ProjectsService,
    access: Result<Authorized, AuthorizationFailure>,
    request: &UpdateCommentRequest,
    request_json: &str,
    now: &Timestamp,
    answer: Result<Completion<CommentValue>, PluginError<CollaborationError>>,
)
    requires
        call_ensures(ProjectsService::update_comment, (service, access, request, request_json, now), answer),
    ensures
        if access is Err {
            &&& match access->Err_0 {
                AuthorizationFailure::Unauthenticated => answer matches Err(
                    PluginError::Domain(CollaborationError::Unauthenticated),
                ),
                AuthorizationFailure::Forbidden => answer matches Err(
                    PluginError::Domain(CollaborationError::Forbidden),
                ),
                AuthorizationFailure::Runtime(fault) => answer matches Err(PluginError::Runtime(said))
                    && said == fault,
            }
            &&& *final(service) == *old(service)
        } else if !validate::is_comment_update(*request) {
            answer matches Err(PluginError::Domain(CollaborationError::InvalidRequest)) && *final(service) == *old(service)
        } else if old(service).store is None {
            answer matches Err(PluginError::Runtime(_)) && *final(service) == *old(service)
        } else {
            final(service).store is Some && collaboration_handlers::update_comment_handled(
                old(service).store->0,
                final(service).store->0,
                access->Ok_0,
                request_json@,
                *now,
                *request,
                answer,
            )
        },
{
}

/// `delete_comment` is refused to whom is not admitted, then to a request that is not valid, then
/// where there is no store; nothing changes then. Else it is what the store makes of it, for the
/// admitted actor.
pub proof fn law_delete_comment_is_guarded(
    service: &mut ProjectsService,
    access: Result<Authorized, AuthorizationFailure>,
    request: &DeleteCommentRequest,
    request_json: &str,
    now: &Timestamp,
    answer: Result<Completion<CommentValue>, PluginError<CollaborationError>>,
)
    requires
        call_ensures(ProjectsService::delete_comment, (service, access, request, request_json, now), answer),
    ensures
        if access is Err {
            &&& match access->Err_0 {
                AuthorizationFailure::Unauthenticated => answer matches Err(
                    PluginError::Domain(CollaborationError::Unauthenticated),
                ),
                AuthorizationFailure::Forbidden => answer matches Err(
                    PluginError::Domain(CollaborationError::Forbidden),
                ),
                AuthorizationFailure::Runtime(fault) => answer matches Err(PluginError::Runtime(said))
                    && said == fault,
            }
            &&& *final(service) == *old(service)
        } else if !validate::is_comment_delete(*request) {
            answer matches Err(PluginError::Domain(CollaborationError::InvalidRequest)) && *final(service) == *old(service)
        } else if old(service).store is None {
            answer matches Err(PluginError::Runtime(_)) && *final(service) == *old(service)
        } else {
            final(service).store is Some && collaboration_handlers::delete_comment_handled(
                old(service).store->0,
                final(service).store->0,
                access->Ok_0,
                request_json@,
                *now,
                *request,
                answer,
            )
        },
{
}

/// `list_comments` is refused to whom is not admitted, then to a request that is not valid, then
/// where there is no store; nothing changes then. Else it is what the store makes of it, for the
/// admitted actor.
pub proof fn law_list_comments_is_guarded(
    service: &ProjectsService,
    access: Result<Authorized, AuthorizationFailure>,
    request: &ListCommentsRequest,
    answer: Result<Page<CommentValue>, PluginError<CollaborationError>>,
)
    requires
        call_ensures(ProjectsService::list_comments, (service, access, request), answer),
    ensures
        if access is Err {
            &&& match access->Err_0 {
                AuthorizationFailure::Unauthenticated => answer matches Err(
                    PluginError::Domain(CollaborationError::Unauthenticated),
                ),
                AuthorizationFailure::Forbidden => answer matches Err(
                    PluginError::Domain(CollaborationError::Forbidden),
                ),
                AuthorizationFailure::Runtime(fault) => answer matches Err(PluginError::Runtime(said))
                    && said == fault,
            }
        } else if !validate::is_comment_list(*request) {
            answer matches Err(PluginError::Domain(CollaborationError::InvalidRequest))
        } else if service.store is None {
            answer matches Err(PluginError::Runtime(_))
        } else {
            collaboration_handlers::list_comments_handled(
                service.store->0,
                access->Ok_0,
                *request,
                answer,
            )
        },
{
}

/// `create_project_update` is refused to whom is not admitted, then to a request that is not valid,
/// then where there is no store; nothing changes then. Else it is what the store makes of it, for the
/// admitted actor.
pub proof fn law_create_project_update_is_guarded(
    service: &mut ProjectsService,
    access: Result<Authorized, AuthorizationFailure>,
    request: &CreateProjectUpdateRequest,
    request_json: &str,
    now: &Timestamp,
    answer: Result<Completion<ProjectUpdateValue>, PluginError<CollaborationError>>,
)
    requires
        call_ensures(ProjectsService::create_project_update, (service, access, request, request_json, now), answer),
    ensures
        if access is Err {
            &&& match access->Err_0 {
                AuthorizationFailure::Unauthenticated => answer matches Err(
                    PluginError::Domain(CollaborationError::Unauthenticated),
                ),
                AuthorizationFailure::Forbidden => answer matches Err(
                    PluginError::Domain(CollaborationError::Forbidden),
                ),
                AuthorizationFailure::Runtime(fault) => answer matches Err(PluginError::Runtime(said))
                    && said == fault,
            }
            &&& *final(service) == *old(service)
        } else if !validate::is_project_update_create(*request) {
            answer matches Err(PluginError::Domain(CollaborationError::InvalidRequest)) && *final(service) == *old(service)
        } else if old(service).store is None {
            answer matches Err(PluginError::Runtime(_)) && *final(service) == *old(service)
        } else {
            final(service).store is Some && collaboration_handlers::create_project_update_handled(
                old(service).store->0,
                final(service).store->0,
                access->Ok_0,
                request_json@,
                *now,
                *request,
                answer,
            )
        },
{
}

/// `list_project_updates` is refused to whom is not admitted, then to a request that is not valid,
/// then where there is no store; nothing changes then. Else it is what the store makes of it, for the
/// admitted actor.
pub proof fn law_list_project_updates_is_guarded(
    service: &ProjectsService,
    access: Result<Authorized, AuthorizationFailure>,
    request: &ListProjectUpdatesRequest,
    answer: Result<Page<ProjectUpdateValue>, PluginError<CollaborationError>>,
)
    requires
        call_ensures(ProjectsService::list_project_updates, (service, access, request), answer),
    ensures
        if access is Err {
            &&& match access->Err_0 {
                AuthorizationFailure::Unauthenticated => answer matches Err(
                    PluginError::Domain(CollaborationError::Unauthenticated),
                ),
                AuthorizationFailure::Forbidden => answer matches Err(
                    PluginError::Domain(CollaborationError::Forbidden),
                ),
                AuthorizationFailure::Runtime(fault) => answer matches Err(PluginError::Runtime(said))
                    && said == fault,
            }
        } else if !validate::is_project_update_list(*request) {
            answer matches Err(PluginError::Domain(CollaborationError::InvalidRequest))
        } else if service.store is None {
            answer matches Err(PluginError::Runtime(_))
        } else {
            collaboration_handlers::list_project_updates_handled(
                service.store->0,
                access->Ok_0,
                *request,
                answer,
            )
        },
{
}

/// `add_issue_relation` is refused to whom is not admitted, then to a request that is not valid, then
/// where there is no store; nothing changes then. Else it is what the store makes of it, for the
/// admitted actor.
pub proof fn law_add_issue_relation_is_guarded(
    service: &mut ProjectsService,
    access: Result<Authorized, AuthorizationFailure>,
    request: &AddIssueRelationRequest,
    request_json: &str,
    now: &Timestamp,
    answer: Result<Completion<RelationValue>, PluginError<CollaborationError>>,
)
    requires
        call_ensures(ProjectsService::add_issue_relation, (service, access, request, request_json, now), answer),
    ensures
        if access is Err {
            &&& match access->Err_0 {
                AuthorizationFailure::Unauthenticated => answer matches Err(
                    PluginError::Domain(CollaborationError::Unauthenticated),
                ),
                AuthorizationFailure::Forbidden => answer matches Err(
                    PluginError::Domain(CollaborationError::Forbidden),
                ),
                AuthorizationFailure::Runtime(fault) => answer matches Err(PluginError::Runtime(said))
                    && said == fault,
            }
            &&& *final(service) == *old(service)
        } else if !validate::is_relation_add(*request) {
            answer matches Err(PluginError::Domain(CollaborationError::InvalidRequest)) && *final(service) == *old(service)
        } else if old(service).store is None {
            answer matches Err(PluginError::Runtime(_)) && *final(service) == *old(service)
        } else {
            final(service).store is Some && collaboration_handlers::add_issue_relation_handled(
                old(service).store->0,
                final(service).store->0,
                access->Ok_0,
                request_json@,
                *now,
                *request,
                answer,
            )
        },
{
}

/// `remove_issue_relation` is refused to whom is not admitted, then to a request that is not valid,
/// then where there is no store; nothing changes then. Else it is what the store makes of it, for the
/// admitted actor.
pub proof fn law_remove_issue_relation_is_guarded(
    service: &mut ProjectsService,
    access: Result<Authorized, AuthorizationFailure>,
    request: &RemoveIssueRelationRequest,
    request_json: &str,
    now: &Timestamp,
    answer: Result<Completion<RelationValue>, PluginError<CollaborationError>>,
)
    requires
        call_ensures(ProjectsService::remove_issue_relation, (service, access, request, request_json, now), answer),
    ensures
        if access is Err {
            &&& match access->Err_0 {
                AuthorizationFailure::Unauthenticated => answer matches Err(
                    PluginError::Domain(CollaborationError::Unauthenticated),
                ),
                AuthorizationFailure::Forbidden => answer matches Err(
                    PluginError::Domain(CollaborationError::Forbidden),
                ),
                AuthorizationFailure::Runtime(fault) => answer matches Err(PluginError::Runtime(said))
                    && said == fault,
            }
            &&& *final(service) == *old(service)
        } else if !validate::is_relation_remove(*request) {
            answer matches Err(PluginError::Domain(CollaborationError::InvalidRequest)) && *final(service) == *old(service)
        } else if old(service).store is None {
            answer matches Err(PluginError::Runtime(_)) && *final(service) == *old(service)
        } else {
            final(service).store is Some && collaboration_handlers::remove_issue_relation_handled(
                old(service).store->0,
                final(service).store->0,
                access->Ok_0,
                request_json@,
                *now,
                *request,
                answer,
            )
        },
{
}

/// `get_issue_assignee` is refused to whom is not admitted, then to a request that is not valid, then
/// where there is no store; nothing changes then. Else it is what the store makes of it, for the
/// admitted actor.
pub proof fn law_get_issue_assignee_is_guarded(
    service: &ProjectsService,
    access: Result<Authorized, AuthorizationFailure>,
    request: &GetIssueAssigneeRequest,
    answer: Result<AssigneeValue, PluginError<CollaborationError>>,
)
    requires
        call_ensures(ProjectsService::get_issue_assignee, (service, access, request), answer),
    ensures
        if access is Err {
            &&& match access->Err_0 {
                AuthorizationFailure::Unauthenticated => answer matches Err(
                    PluginError::Domain(CollaborationError::Unauthenticated),
                ),
                AuthorizationFailure::Forbidden => answer matches Err(
                    PluginError::Domain(CollaborationError::Forbidden),
                ),
                AuthorizationFailure::Runtime(fault) => answer matches Err(PluginError::Runtime(said))
                    && said == fault,
            }
        } else if !validate::is_assignee_get(*request) {
            answer matches Err(PluginError::Domain(CollaborationError::InvalidRequest))
        } else if service.store is None {
            answer matches Err(PluginError::Runtime(_))
        } else {
            collaboration_handlers::get_issue_assignee_handled(
                service.store->0,
                access->Ok_0,
                *request,
                answer,
            )
        },
{
}

/// `set_issue_assignee` is refused to whom is not admitted, then to a request that is not valid, then
/// where there is no store; nothing changes then. Else it is what the store makes of it, for the
/// admitted actor.
pub proof fn law_set_issue_assignee_is_guarded(
    service: &mut ProjectsService,
    access: Result<Authorized, AuthorizationFailure>,
    member: PortReply,
    request: &SetIssueAssigneeRequest,
    request_json: &str,
    now: &Timestamp,
    answer: Result<Completion<AssigneeValue>, PluginError<CollaborationError>>,
)
    requires
        call_ensures(ProjectsService::set_issue_assignee, (service, access, member, request, request_json, now), answer),
    ensures
        if access is Err {
            &&& match access->Err_0 {
                AuthorizationFailure::Unauthenticated => answer matches Err(
                    PluginError::Domain(CollaborationError::Unauthenticated),
                ),
                AuthorizationFailure::Forbidden => answer matches Err(
                    PluginError::Domain(CollaborationError::Forbidden),
                ),
                AuthorizationFailure::Runtime(fault) => answer matches Err(PluginError::Runtime(said))
                    && said == fault,
            }
            &&& *final(service) == *old(service)
        } else if !validate::is_assignee_set(*request) {
            answer matches Err(PluginError::Domain(CollaborationError::InvalidRequest)) && *final(service) == *old(service)
        } else if old(service).store is None {
            answer matches Err(PluginError::Runtime(_)) && *final(service) == *old(service)
        } else if request.assignee_subject is Some && member != PortReply::Answered(true) {
            *final(service) == *old(service) && match member {
                PortReply::Answered(_) => answer matches Err(
                    PluginError::Domain(CollaborationError::Forbidden),
                ),
                PortReply::Refused => answer matches Err(PluginError::Runtime(_)),
                PortReply::Failed(fault) => answer matches Err(PluginError::Runtime(said)) && said == fault,
            }
        } else {
            final(service).store is Some && collaboration_handlers::set_issue_assignee_handled(
                old(service).store->0,
                final(service).store->0,
                access->Ok_0,
                request_json@,
                *now,
                *request,
                answer,
            )
        },
{
}

/// `put_team` is refused to whom is not admitted, then to a request that is not valid, then where
/// there is no store; nothing changes then. Else it is what the store makes of it, for the admitted
/// actor.
pub proof fn law_put_team_is_guarded(
    service: &mut ProjectsService,
    access: Result<Authorized, AuthorizationFailure>,
    request: &PutTeamRequest,
    request_json: &str,
    now: &Timestamp,
    ids: &StatusIds,
    states: &WorkflowIds,
    answer: Result<Completion<TeamValue>, PluginError<AdminError>>,
)
    requires
        call_ensures(ProjectsService::put_team, (service, access, request, request_json, now, ids, states), answer),
    ensures
        if access is Err {
            &&& match access->Err_0 {
                AuthorizationFailure::Unauthenticated => answer matches Err(
                    PluginError::Domain(AdminError::Unauthenticated),
                ),
                AuthorizationFailure::Forbidden => answer matches Err(
                    PluginError::Domain(AdminError::Forbidden),
                ),
                AuthorizationFailure::Runtime(fault) => answer matches Err(PluginError::Runtime(said))
                    && said == fault,
            }
            &&& *final(service) == *old(service)
        } else if !validate::is_team(*request) {
            answer matches Err(PluginError::Domain(AdminError::InvalidRequest)) && *final(service) == *old(service)
        } else if old(service).store is None {
            answer matches Err(PluginError::Runtime(_)) && *final(service) == *old(service)
        } else {
            final(service).store is Some && admin_handlers::put_team_handled(
                old(service).store->0,
                final(service).store->0,
                access->Ok_0,
                request_json@,
                *now,
                *request,
                *ids,
                *states,
                answer,
            )
        },
{
}

/// `list_teams` is refused to whom is not admitted, then to a request that is not valid, then where
/// there is no store; nothing changes then. Else it is what the store makes of it, for the admitted
/// actor.
pub proof fn law_list_teams_is_guarded(
    service: &ProjectsService,
    access: Result<Authorized, AuthorizationFailure>,
    request: &ListTeamsRequest,
    answer: Result<Page<TeamValue>, PluginError<AdminError>>,
)
    requires
        call_ensures(ProjectsService::list_teams, (service, access, request), answer),
    ensures
        if access is Err {
            &&& match access->Err_0 {
                AuthorizationFailure::Unauthenticated => answer matches Err(
                    PluginError::Domain(AdminError::Unauthenticated),
                ),
                AuthorizationFailure::Forbidden => answer matches Err(
                    PluginError::Domain(AdminError::Forbidden),
                ),
                AuthorizationFailure::Runtime(fault) => answer matches Err(PluginError::Runtime(said))
                    && said == fault,
            }
        } else if !validate::is_team_list(*request) {
            answer matches Err(PluginError::Domain(AdminError::InvalidRequest))
        } else if service.store is None {
            answer matches Err(PluginError::Runtime(_))
        } else {
            admin_handlers::list_teams_handled(
                service.store->0,
                *request,
                answer,
            )
        },
{
}

/// `set_team_member` is refused to whom is not admitted, then to a request that is not valid, then
/// where there is no store; nothing changes then. Else it is what the store makes of it, for the
/// admitted actor.
pub proof fn law_set_team_member_is_guarded(
    service: &mut ProjectsService,
    access: Result<Authorized, AuthorizationFailure>,
    request: &SetTeamMemberRequest,
    request_json: &str,
    now: &Timestamp,
    answer: Result<Completion<TeamMemberValue>, PluginError<AdminError>>,
)
    requires
        call_ensures(ProjectsService::set_team_member, (service, access, request, request_json, now), answer),
    ensures
        if access is Err {
            &&& match access->Err_0 {
                AuthorizationFailure::Unauthenticated => answer matches Err(
                    PluginError::Domain(AdminError::Unauthenticated),
                ),
                AuthorizationFailure::Forbidden => answer matches Err(
                    PluginError::Domain(AdminError::Forbidden),
                ),
                AuthorizationFailure::Runtime(fault) => answer matches Err(PluginError::Runtime(said))
                    && said == fault,
            }
            &&& *final(service) == *old(service)
        } else if !validate::is_team_member(*request) {
            answer matches Err(PluginError::Domain(AdminError::InvalidRequest)) && *final(service) == *old(service)
        } else if old(service).store is None {
            answer matches Err(PluginError::Runtime(_)) && *final(service) == *old(service)
        } else {
            final(service).store is Some && admin_handlers::set_team_member_handled(
                old(service).store->0,
                final(service).store->0,
                access->Ok_0,
                request_json@,
                *now,
                *request,
                answer,
            )
        },
{
}

/// `put_workflow_state` is refused to whom is not admitted, then to a request that is not valid, then
/// where there is no store; nothing changes then. Else it is what the store makes of it, for the
/// admitted actor.
pub proof fn law_put_workflow_state_is_guarded(
    service: &mut ProjectsService,
    access: Result<Authorized, AuthorizationFailure>,
    request: &PutWorkflowStateRequest,
    request_json: &str,
    now: &Timestamp,
    answer: Result<Completion<WorkflowStateValue>, PluginError<AdminError>>,
)
    requires
        call_ensures(ProjectsService::put_workflow_state, (service, access, request, request_json, now), answer),
    ensures
        if access is Err {
            &&& match access->Err_0 {
                AuthorizationFailure::Unauthenticated => answer matches Err(
                    PluginError::Domain(AdminError::Unauthenticated),
                ),
                AuthorizationFailure::Forbidden => answer matches Err(
                    PluginError::Domain(AdminError::Forbidden),
                ),
                AuthorizationFailure::Runtime(fault) => answer matches Err(PluginError::Runtime(said))
                    && said == fault,
            }
            &&& *final(service) == *old(service)
        } else if !validate::is_workflow_put(*request) {
            answer matches Err(PluginError::Domain(AdminError::InvalidRequest)) && *final(service) == *old(service)
        } else if old(service).store is None {
            answer matches Err(PluginError::Runtime(_)) && *final(service) == *old(service)
        } else {
            final(service).store is Some && admin_handlers::put_workflow_state_handled(
                old(service).store->0,
                final(service).store->0,
                access->Ok_0,
                request_json@,
                *now,
                *request,
                answer,
            )
        },
{
}

/// `get_workflow_state` is refused to whom is not admitted, then to a request that is not valid, then
/// where there is no store; nothing changes then. Else it is what the store makes of it, for the
/// admitted actor.
pub proof fn law_get_workflow_state_is_guarded(
    service: &ProjectsService,
    access: Result<Authorized, AuthorizationFailure>,
    request: &GetWorkflowStateRequest,
    answer: Result<WorkflowStateValue, PluginError<AdminError>>,
)
    requires
        call_ensures(ProjectsService::get_workflow_state, (service, access, request), answer),
    ensures
        if access is Err {
            &&& match access->Err_0 {
                AuthorizationFailure::Unauthenticated => answer matches Err(
                    PluginError::Domain(AdminError::Unauthenticated),
                ),
                AuthorizationFailure::Forbidden => answer matches Err(
                    PluginError::Domain(AdminError::Forbidden),
                ),
                AuthorizationFailure::Runtime(fault) => answer matches Err(PluginError::Runtime(said))
                    && said == fault,
            }
        } else if !validate::is_workflow_get(*request) {
            answer matches Err(PluginError::Domain(AdminError::InvalidRequest))
        } else if service.store is None {
            answer matches Err(PluginError::Runtime(_))
        } else {
            admin_handlers::get_workflow_state_handled(
                service.store->0,
                *request,
                answer,
            )
        },
{
}

/// `reorder_workflow_states` is refused to whom is not admitted, then to a request that is not valid,
/// then where there is no store; nothing changes then. Else it is what the store makes of it, for the
/// admitted actor.
pub proof fn law_reorder_workflow_states_is_guarded(
    service: &mut ProjectsService,
    access: Result<Authorized, AuthorizationFailure>,
    request: &ReorderWorkflowStatesRequest,
    request_json: &str,
    now: &Timestamp,
    answer: Result<Completion<Vec<WorkflowStateValue>>, PluginError<AdminError>>,
)
    requires
        call_ensures(ProjectsService::reorder_workflow_states, (service, access, request, request_json, now), answer),
    ensures
        if access is Err {
            &&& match access->Err_0 {
                AuthorizationFailure::Unauthenticated => answer matches Err(
                    PluginError::Domain(AdminError::Unauthenticated),
                ),
                AuthorizationFailure::Forbidden => answer matches Err(
                    PluginError::Domain(AdminError::Forbidden),
                ),
                AuthorizationFailure::Runtime(fault) => answer matches Err(PluginError::Runtime(said))
                    && said == fault,
            }
            &&& *final(service) == *old(service)
        } else if !validate::is_workflow_reorder(*request) {
            answer matches Err(PluginError::Domain(AdminError::InvalidRequest)) && *final(service) == *old(service)
        } else if old(service).store is None {
            answer matches Err(PluginError::Runtime(_)) && *final(service) == *old(service)
        } else {
            final(service).store is Some && admin_handlers::reorder_workflow_states_handled(
                old(service).store->0,
                final(service).store->0,
                access->Ok_0,
                request_json@,
                *now,
                *request,
                answer,
            )
        },
{
}

/// `archive_workflow_state` is refused to whom is not admitted, then to a request that is not valid,
/// then where there is no store; nothing changes then. Else it is what the store makes of it, for the
/// admitted actor.
pub proof fn law_archive_workflow_state_is_guarded(
    service: &mut ProjectsService,
    access: Result<Authorized, AuthorizationFailure>,
    request: &ArchiveWorkflowStateRequest,
    request_json: &str,
    now: &Timestamp,
    answer: Result<Completion<WorkflowStateValue>, PluginError<AdminError>>,
)
    requires
        call_ensures(ProjectsService::archive_workflow_state, (service, access, request, request_json, now), answer),
    ensures
        if access is Err {
            &&& match access->Err_0 {
                AuthorizationFailure::Unauthenticated => answer matches Err(
                    PluginError::Domain(AdminError::Unauthenticated),
                ),
                AuthorizationFailure::Forbidden => answer matches Err(
                    PluginError::Domain(AdminError::Forbidden),
                ),
                AuthorizationFailure::Runtime(fault) => answer matches Err(PluginError::Runtime(said))
                    && said == fault,
            }
            &&& *final(service) == *old(service)
        } else if !validate::is_workflow_archive(*request) {
            answer matches Err(PluginError::Domain(AdminError::InvalidRequest)) && *final(service) == *old(service)
        } else if old(service).store is None {
            answer matches Err(PluginError::Runtime(_)) && *final(service) == *old(service)
        } else {
            final(service).store is Some && admin_handlers::archive_workflow_state_handled(
                old(service).store->0,
                final(service).store->0,
                access->Ok_0,
                request_json@,
                *now,
                *request,
                answer,
            )
        },
{
}

/// `delete_workflow_state` is refused to whom is not admitted, then to a request that is not valid,
/// then where there is no store; nothing changes then. Else it is what the store makes of it, for the
/// admitted actor.
pub proof fn law_delete_workflow_state_is_guarded(
    service: &mut ProjectsService,
    access: Result<Authorized, AuthorizationFailure>,
    request: &DeleteWorkflowStateRequest,
    request_json: &str,
    now: &Timestamp,
    answer: Result<Completion<DeletedWorkflowState>, PluginError<AdminError>>,
)
    requires
        call_ensures(ProjectsService::delete_workflow_state, (service, access, request, request_json, now), answer),
    ensures
        if access is Err {
            &&& match access->Err_0 {
                AuthorizationFailure::Unauthenticated => answer matches Err(
                    PluginError::Domain(AdminError::Unauthenticated),
                ),
                AuthorizationFailure::Forbidden => answer matches Err(
                    PluginError::Domain(AdminError::Forbidden),
                ),
                AuthorizationFailure::Runtime(fault) => answer matches Err(PluginError::Runtime(said))
                    && said == fault,
            }
            &&& *final(service) == *old(service)
        } else if !validate::is_workflow_delete(*request) {
            answer matches Err(PluginError::Domain(AdminError::InvalidRequest)) && *final(service) == *old(service)
        } else if old(service).store is None {
            answer matches Err(PluginError::Runtime(_)) && *final(service) == *old(service)
        } else {
            final(service).store is Some && admin_handlers::delete_workflow_state_handled(
                old(service).store->0,
                final(service).store->0,
                access->Ok_0,
                request_json@,
                *now,
                *request,
                answer,
            )
        },
{
}

/// `list_workflow_states` is refused to whom is not admitted, then to a request that is not valid,
/// then where there is no store; nothing changes then. Else it is what the store makes of it, for the
/// admitted actor.
pub proof fn law_list_workflow_states_is_guarded(
    service: &ProjectsService,
    access: Result<Authorized, AuthorizationFailure>,
    request: &ListWorkflowStatesRequest,
    answer: Result<Page<WorkflowStateValue>, PluginError<AdminError>>,
)
    requires
        call_ensures(ProjectsService::list_workflow_states, (service, access, request), answer),
    ensures
        if access is Err {
            &&& match access->Err_0 {
                AuthorizationFailure::Unauthenticated => answer matches Err(
                    PluginError::Domain(AdminError::Unauthenticated),
                ),
                AuthorizationFailure::Forbidden => answer matches Err(
                    PluginError::Domain(AdminError::Forbidden),
                ),
                AuthorizationFailure::Runtime(fault) => answer matches Err(PluginError::Runtime(said))
                    && said == fault,
            }
        } else if !validate::is_workflow_list(*request) {
            answer matches Err(PluginError::Domain(AdminError::InvalidRequest))
        } else if service.store is None {
            answer matches Err(PluginError::Runtime(_))
        } else {
            admin_handlers::list_workflow_states_handled(
                service.store->0,
                *request,
                answer,
            )
        },
{
}

/// `put_project_status` is refused to whom is not admitted, then to a request that is not valid, then
/// where there is no store; nothing changes then. Else it is what the store makes of it, for the
/// admitted actor.
pub proof fn law_put_project_status_is_guarded(
    service: &mut ProjectsService,
    access: Result<Authorized, AuthorizationFailure>,
    request: &PutProjectStatusRequest,
    request_json: &str,
    now: &Timestamp,
    ids: &StatusIds,
    answer: Result<Completion<ProjectStatusValue>, PluginError<AdminError>>,
)
    requires
        call_ensures(ProjectsService::put_project_status, (service, access, request, request_json, now, ids), answer),
    ensures
        if access is Err {
            &&& match access->Err_0 {
                AuthorizationFailure::Unauthenticated => answer matches Err(
                    PluginError::Domain(AdminError::Unauthenticated),
                ),
                AuthorizationFailure::Forbidden => answer matches Err(
                    PluginError::Domain(AdminError::Forbidden),
                ),
                AuthorizationFailure::Runtime(fault) => answer matches Err(PluginError::Runtime(said))
                    && said == fault,
            }
            &&& *final(service) == *old(service)
        } else if !validate::is_project_status_put(*request) {
            answer matches Err(PluginError::Domain(AdminError::InvalidRequest)) && *final(service) == *old(service)
        } else if old(service).store is None {
            answer matches Err(PluginError::Runtime(_)) && *final(service) == *old(service)
        } else {
            final(service).store is Some && admin_handlers::put_project_status_handled(
                old(service).store->0,
                final(service).store->0,
                access->Ok_0,
                request_json@,
                *now,
                *request,
                *ids,
                answer,
            )
        },
{
}

/// `get_project_status` is refused to whom is not admitted, then to a request that is not valid, then
/// where there is no store; nothing changes then. Else it is what the store makes of it, for the
/// admitted actor.
pub proof fn law_get_project_status_is_guarded(
    service: &mut ProjectsService,
    access: Result<Authorized, AuthorizationFailure>,
    request: &GetProjectStatusRequest,
    ids: &StatusIds,
    answer: Result<ProjectStatusValue, PluginError<AdminError>>,
)
    requires
        call_ensures(ProjectsService::get_project_status, (service, access, request, ids), answer),
    ensures
        if access is Err {
            &&& match access->Err_0 {
                AuthorizationFailure::Unauthenticated => answer matches Err(
                    PluginError::Domain(AdminError::Unauthenticated),
                ),
                AuthorizationFailure::Forbidden => answer matches Err(
                    PluginError::Domain(AdminError::Forbidden),
                ),
                AuthorizationFailure::Runtime(fault) => answer matches Err(PluginError::Runtime(said))
                    && said == fault,
            }
            &&& *final(service) == *old(service)
        } else if !validate::is_project_status_get(*request) {
            answer matches Err(PluginError::Domain(AdminError::InvalidRequest)) && *final(service) == *old(service)
        } else if old(service).store is None {
            answer matches Err(PluginError::Runtime(_)) && *final(service) == *old(service)
        } else {
            final(service).store is Some && admin_handlers::get_project_status_handled(
                old(service).store->0,
                final(service).store->0,
                *request,
                *ids,
                answer,
            )
        },
{
}

/// `reorder_project_statuses` is refused to whom is not admitted, then to a request that is not
/// valid, then where there is no store; nothing changes then. Else it is what the store makes of it,
/// for the admitted actor.
pub proof fn law_reorder_project_statuses_is_guarded(
    service: &mut ProjectsService,
    access: Result<Authorized, AuthorizationFailure>,
    request: &ReorderProjectStatusesRequest,
    request_json: &str,
    now: &Timestamp,
    ids: &StatusIds,
    answer: Result<Completion<Vec<ProjectStatusValue>>, PluginError<AdminError>>,
)
    requires
        call_ensures(ProjectsService::reorder_project_statuses, (service, access, request, request_json, now, ids), answer),
    ensures
        if access is Err {
            &&& match access->Err_0 {
                AuthorizationFailure::Unauthenticated => answer matches Err(
                    PluginError::Domain(AdminError::Unauthenticated),
                ),
                AuthorizationFailure::Forbidden => answer matches Err(
                    PluginError::Domain(AdminError::Forbidden),
                ),
                AuthorizationFailure::Runtime(fault) => answer matches Err(PluginError::Runtime(said))
                    && said == fault,
            }
            &&& *final(service) == *old(service)
        } else if !validate::is_project_status_reorder(*request) {
            answer matches Err(PluginError::Domain(AdminError::InvalidRequest)) && *final(service) == *old(service)
        } else if old(service).store is None {
            answer matches Err(PluginError::Runtime(_)) && *final(service) == *old(service)
        } else {
            final(service).store is Some && admin_handlers::reorder_project_statuses_handled(
                old(service).store->0,
                final(service).store->0,
                access->Ok_0,
                request_json@,
                *now,
                *request,
                *ids,
                answer,
            )
        },
{
}

/// `archive_project_status` is refused to whom is not admitted, then to a request that is not valid,
/// then where there is no store; nothing changes then. Else it is what the store makes of it, for the
/// admitted actor.
pub proof fn law_archive_project_status_is_guarded(
    service: &mut ProjectsService,
    access: Result<Authorized, AuthorizationFailure>,
    request: &ArchiveProjectStatusRequest,
    request_json: &str,
    now: &Timestamp,
    ids: &StatusIds,
    answer: Result<Completion<ProjectStatusValue>, PluginError<AdminError>>,
)
    requires
        call_ensures(ProjectsService::archive_project_status, (service, access, request, request_json, now, ids), answer),
    ensures
        if access is Err {
            &&& match access->Err_0 {
                AuthorizationFailure::Unauthenticated => answer matches Err(
                    PluginError::Domain(AdminError::Unauthenticated),
                ),
                AuthorizationFailure::Forbidden => answer matches Err(
                    PluginError::Domain(AdminError::Forbidden),
                ),
                AuthorizationFailure::Runtime(fault) => answer matches Err(PluginError::Runtime(said))
                    && said == fault,
            }
            &&& *final(service) == *old(service)
        } else if !validate::is_project_status_archive(*request) {
            answer matches Err(PluginError::Domain(AdminError::InvalidRequest)) && *final(service) == *old(service)
        } else if old(service).store is None {
            answer matches Err(PluginError::Runtime(_)) && *final(service) == *old(service)
        } else {
            final(service).store is Some && admin_handlers::archive_project_status_handled(
                old(service).store->0,
                final(service).store->0,
                access->Ok_0,
                request_json@,
                *now,
                *request,
                *ids,
                answer,
            )
        },
{
}

/// `delete_project_status` is refused to whom is not admitted, then to a request that is not valid,
/// then where there is no store; nothing changes then. Else it is what the store makes of it, for the
/// admitted actor.
pub proof fn law_delete_project_status_is_guarded(
    service: &mut ProjectsService,
    access: Result<Authorized, AuthorizationFailure>,
    request: &DeleteProjectStatusRequest,
    request_json: &str,
    now: &Timestamp,
    ids: &StatusIds,
    answer: Result<Completion<DeletedProjectStatus>, PluginError<AdminError>>,
)
    requires
        call_ensures(ProjectsService::delete_project_status, (service, access, request, request_json, now, ids), answer),
    ensures
        if access is Err {
            &&& match access->Err_0 {
                AuthorizationFailure::Unauthenticated => answer matches Err(
                    PluginError::Domain(AdminError::Unauthenticated),
                ),
                AuthorizationFailure::Forbidden => answer matches Err(
                    PluginError::Domain(AdminError::Forbidden),
                ),
                AuthorizationFailure::Runtime(fault) => answer matches Err(PluginError::Runtime(said))
                    && said == fault,
            }
            &&& *final(service) == *old(service)
        } else if !validate::is_project_status_delete(*request) {
            answer matches Err(PluginError::Domain(AdminError::InvalidRequest)) && *final(service) == *old(service)
        } else if old(service).store is None {
            answer matches Err(PluginError::Runtime(_)) && *final(service) == *old(service)
        } else {
            final(service).store is Some && admin_handlers::delete_project_status_handled(
                old(service).store->0,
                final(service).store->0,
                access->Ok_0,
                request_json@,
                *now,
                *request,
                *ids,
                answer,
            )
        },
{
}

/// `list_project_statuses` is refused to whom is not admitted, then to a request that is not valid,
/// then where there is no store; nothing changes then. Else it is what the store makes of it, for the
/// admitted actor.
pub proof fn law_list_project_statuses_is_guarded(
    service: &mut ProjectsService,
    access: Result<Authorized, AuthorizationFailure>,
    request: &ListProjectStatusesRequest,
    ids: &StatusIds,
    answer: Result<Page<ProjectStatusValue>, PluginError<AdminError>>,
)
    requires
        call_ensures(ProjectsService::list_project_statuses, (service, access, request, ids), answer),
    ensures
        if access is Err {
            &&& match access->Err_0 {
                AuthorizationFailure::Unauthenticated => answer matches Err(
                    PluginError::Domain(AdminError::Unauthenticated),
                ),
                AuthorizationFailure::Forbidden => answer matches Err(
                    PluginError::Domain(AdminError::Forbidden),
                ),
                AuthorizationFailure::Runtime(fault) => answer matches Err(PluginError::Runtime(said))
                    && said == fault,
            }
            &&& *final(service) == *old(service)
        } else if !validate::is_project_status_list(*request) {
            answer matches Err(PluginError::Domain(AdminError::InvalidRequest)) && *final(service) == *old(service)
        } else if old(service).store is None {
            answer matches Err(PluginError::Runtime(_)) && *final(service) == *old(service)
        } else {
            final(service).store is Some && admin_handlers::list_project_statuses_handled(
                old(service).store->0,
                final(service).store->0,
                *request,
                *ids,
                answer,
            )
        },
{
}

/// `put_label` is refused to whom is not admitted, then to a request that is not valid, then where
/// there is no store; nothing changes then. Else it is what the store makes of it, for the admitted
/// actor.
pub proof fn law_put_label_is_guarded(
    service: &mut ProjectsService,
    access: Result<Authorized, AuthorizationFailure>,
    request: &PutLabelRequest,
    request_json: &str,
    now: &Timestamp,
    answer: Result<Completion<LabelValue>, PluginError<AdminError>>,
)
    requires
        call_ensures(ProjectsService::put_label, (service, access, request, request_json, now), answer),
    ensures
        if access is Err {
            &&& match access->Err_0 {
                AuthorizationFailure::Unauthenticated => answer matches Err(
                    PluginError::Domain(AdminError::Unauthenticated),
                ),
                AuthorizationFailure::Forbidden => answer matches Err(
                    PluginError::Domain(AdminError::Forbidden),
                ),
                AuthorizationFailure::Runtime(fault) => answer matches Err(PluginError::Runtime(said))
                    && said == fault,
            }
            &&& *final(service) == *old(service)
        } else if !validate::is_label_put(*request) {
            answer matches Err(PluginError::Domain(AdminError::InvalidRequest)) && *final(service) == *old(service)
        } else if old(service).store is None {
            answer matches Err(PluginError::Runtime(_)) && *final(service) == *old(service)
        } else {
            final(service).store is Some && admin_handlers::put_label_handled(
                old(service).store->0,
                final(service).store->0,
                access->Ok_0,
                request_json@,
                *now,
                *request,
                answer,
            )
        },
{
}

/// `list_labels` is refused to whom is not admitted, then to a request that is not valid, then where
/// there is no store; nothing changes then. Else it is what the store makes of it, for the admitted
/// actor.
pub proof fn law_list_labels_is_guarded(
    service: &ProjectsService,
    access: Result<Authorized, AuthorizationFailure>,
    request: &ListLabelsRequest,
    answer: Result<Page<LabelValue>, PluginError<AdminError>>,
)
    requires
        call_ensures(ProjectsService::list_labels, (service, access, request), answer),
    ensures
        if access is Err {
            &&& match access->Err_0 {
                AuthorizationFailure::Unauthenticated => answer matches Err(
                    PluginError::Domain(AdminError::Unauthenticated),
                ),
                AuthorizationFailure::Forbidden => answer matches Err(
                    PluginError::Domain(AdminError::Forbidden),
                ),
                AuthorizationFailure::Runtime(fault) => answer matches Err(PluginError::Runtime(said))
                    && said == fault,
            }
        } else if !validate::is_label_list(*request) {
            answer matches Err(PluginError::Domain(AdminError::InvalidRequest))
        } else if service.store is None {
            answer matches Err(PluginError::Runtime(_))
        } else {
            admin_handlers::list_labels_handled(
                service.store->0,
                *request,
                answer,
            )
        },
{
}

/// `put_cycle` is refused to whom is not admitted, then to a request that is not valid, then where
/// there is no store; nothing changes then. Else it is what the store makes of it, for the admitted
/// actor.
pub proof fn law_put_cycle_is_guarded(
    service: &mut ProjectsService,
    access: Result<Authorized, AuthorizationFailure>,
    request: &PutCycleRequest,
    request_json: &str,
    now: &Timestamp,
    answer: Result<Completion<CycleValue>, PluginError<AdminError>>,
)
    requires
        call_ensures(ProjectsService::put_cycle, (service, access, request, request_json, now), answer),
    ensures
        if access is Err {
            &&& match access->Err_0 {
                AuthorizationFailure::Unauthenticated => answer matches Err(
                    PluginError::Domain(AdminError::Unauthenticated),
                ),
                AuthorizationFailure::Forbidden => answer matches Err(
                    PluginError::Domain(AdminError::Forbidden),
                ),
                AuthorizationFailure::Runtime(fault) => answer matches Err(PluginError::Runtime(said))
                    && said == fault,
            }
            &&& *final(service) == *old(service)
        } else if !validate::is_cycle_put(*request) {
            answer matches Err(PluginError::Domain(AdminError::InvalidRequest)) && *final(service) == *old(service)
        } else if old(service).store is None {
            answer matches Err(PluginError::Runtime(_)) && *final(service) == *old(service)
        } else {
            final(service).store is Some && admin_handlers::put_cycle_handled(
                old(service).store->0,
                final(service).store->0,
                access->Ok_0,
                request_json@,
                *now,
                *request,
                answer,
            )
        },
{
}

/// `list_cycles` is refused to whom is not admitted, then to a request that is not valid, then where
/// there is no store; nothing changes then. Else it is what the store makes of it, for the admitted
/// actor.
pub proof fn law_list_cycles_is_guarded(
    service: &ProjectsService,
    access: Result<Authorized, AuthorizationFailure>,
    request: &ListCyclesRequest,
    answer: Result<Page<CycleValue>, PluginError<AdminError>>,
)
    requires
        call_ensures(ProjectsService::list_cycles, (service, access, request), answer),
    ensures
        if access is Err {
            &&& match access->Err_0 {
                AuthorizationFailure::Unauthenticated => answer matches Err(
                    PluginError::Domain(AdminError::Unauthenticated),
                ),
                AuthorizationFailure::Forbidden => answer matches Err(
                    PluginError::Domain(AdminError::Forbidden),
                ),
                AuthorizationFailure::Runtime(fault) => answer matches Err(PluginError::Runtime(said))
                    && said == fault,
            }
        } else if !validate::is_cycle_list(*request) {
            answer matches Err(PluginError::Domain(AdminError::InvalidRequest))
        } else if service.store is None {
            answer matches Err(PluginError::Runtime(_))
        } else {
            admin_handlers::list_cycles_handled(
                service.store->0,
                *request,
                answer,
            )
        },
{
}

/// `put_milestone` is refused to whom is not admitted, then to a request that is not valid, then
/// where there is no store; nothing changes then. Else it is what the store makes of it, for the
/// admitted actor.
pub proof fn law_put_milestone_is_guarded(
    service: &mut ProjectsService,
    access: Result<Authorized, AuthorizationFailure>,
    request: &PutMilestoneRequest,
    request_json: &str,
    now: &Timestamp,
    answer: Result<Completion<MilestoneValue>, PluginError<AdminError>>,
)
    requires
        call_ensures(ProjectsService::put_milestone, (service, access, request, request_json, now), answer),
    ensures
        if access is Err {
            &&& match access->Err_0 {
                AuthorizationFailure::Unauthenticated => answer matches Err(
                    PluginError::Domain(AdminError::Unauthenticated),
                ),
                AuthorizationFailure::Forbidden => answer matches Err(
                    PluginError::Domain(AdminError::Forbidden),
                ),
                AuthorizationFailure::Runtime(fault) => answer matches Err(PluginError::Runtime(said))
                    && said == fault,
            }
            &&& *final(service) == *old(service)
        } else if !validate::is_milestone_put(*request) {
            answer matches Err(PluginError::Domain(AdminError::InvalidRequest)) && *final(service) == *old(service)
        } else if old(service).store is None {
            answer matches Err(PluginError::Runtime(_)) && *final(service) == *old(service)
        } else {
            final(service).store is Some && admin_handlers::put_milestone_handled(
                old(service).store->0,
                final(service).store->0,
                access->Ok_0,
                request_json@,
                *now,
                *request,
                answer,
            )
        },
{
}

/// `list_milestones` is refused to whom is not admitted, then to a request that is not valid, then
/// where there is no store; nothing changes then. Else it is what the store makes of it, for the
/// admitted actor.
pub proof fn law_list_milestones_is_guarded(
    service: &ProjectsService,
    access: Result<Authorized, AuthorizationFailure>,
    request: &ListMilestonesRequest,
    answer: Result<Page<MilestoneValue>, PluginError<AdminError>>,
)
    requires
        call_ensures(ProjectsService::list_milestones, (service, access, request), answer),
    ensures
        if access is Err {
            &&& match access->Err_0 {
                AuthorizationFailure::Unauthenticated => answer matches Err(
                    PluginError::Domain(AdminError::Unauthenticated),
                ),
                AuthorizationFailure::Forbidden => answer matches Err(
                    PluginError::Domain(AdminError::Forbidden),
                ),
                AuthorizationFailure::Runtime(fault) => answer matches Err(PluginError::Runtime(said))
                    && said == fault,
            }
        } else if !validate::is_milestone_list(*request) {
            answer matches Err(PluginError::Domain(AdminError::InvalidRequest))
        } else if service.store is None {
            answer matches Err(PluginError::Runtime(_))
        } else {
            admin_handlers::list_milestones_handled(
                service.store->0,
                *request,
                answer,
            )
        },
{
}

} // verus!
