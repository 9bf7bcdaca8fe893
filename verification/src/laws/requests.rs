//! What every request must be to be taken at all.
use crate::model::{
    AddCommentRequest, AddIssueRelationRequest, ApplyRetentionRequest, ArchiveIssueRequest,
    ArchiveProjectRequest, ArchiveProjectStatusRequest, ArchiveWorkflowStateRequest,
    CollectExportRequest, CreateIssueRequest, CreateProjectRequest, CreateProjectUpdateRequest,
    DeleteCommentRequest, DeleteProjectStatusRequest, DeleteWorkflowStateRequest,
    GetIssueAssigneeRequest, GetIssueRequest, GetProjectRequest, GetProjectStatusRequest,
    GetWorkflowStateRequest, ListActivityRequest, ListCommentsRequest, ListCyclesRequest,
    ListIssueWorkflowStatesRequest, ListIssuesRequest, ListLabelsRequest, ListMilestonesRequest,
    ListProjectStatusesRequest, ListProjectUpdatesRequest, ListProjectsRequest, ListTeamsRequest,
    ListWorkflowStatesRequest, MoveIssueRequest, PutCycleRequest, PutExternalLinkRequest,
    PutLabelRequest, PutMilestoneRequest, PutProjectStatusRequest, PutTeamRequest,
    PutWorkflowStateRequest, RemoveIssueRelationRequest, ReorderProjectStatusesRequest,
    ReorderWorkflowStatesRequest, SetIssueAssigneeRequest, SetTeamMemberRequest,
    UpdateCommentRequest, UpdateIssueRequest, UpdateProjectRequest,
};
use crate::text;
use crate::validate;
use vstd::prelude::*;

verus! {

/// A request is taken as a project create exactly where each of these holds of its fields.
pub proof fn law_project_create_rule(request: CreateProjectRequest)
    ensures
        validate::is_project_create(request) <==> ({
            &&& validate::is_id(request.idempotency_key@)
            &&& validate::is_id(request.project_id@)
            &&& validate::is_free_text(request.name@, 300)
            &&& (request.summary matches Some(given) ==> validate::is_free_text(given@, 4000))
            &&& validate::is_id(request.lead_team_id@)
            &&& 1 <= request.team_ids@.len() <= 64
            &&& (forall|i: int|
                0 <= i < request.team_ids@.len() ==> validate::is_id((#[trigger] request.team_ids@[i])@))
            &&& (forall|i: int, j: int|
                0 <= i < j < request.team_ids@.len() ==> (#[trigger] request.team_ids@[i])@ != (
                #[trigger] request.team_ids@[j])@)
            &&& (exists|i: int|
                0 <= i < request.team_ids@.len() && (#[trigger] request.team_ids@[i])@ == request.lead_team_id@)
            &&& (request.status_id matches Some(id) ==> validate::is_id(id@))
            &&& (request.milestone_id matches Some(id) ==> validate::is_id(id@))
        }),
{
}

/// A request is taken as a project update exactly where each of these holds of its fields.
pub proof fn law_project_update_rule(request: UpdateProjectRequest)
    ensures
        validate::is_project_update(request) <==> ({
            &&& validate::is_id(request.idempotency_key@)
            &&& validate::is_id(request.project_id@)
            &&& validate::revision_value(request.expected_revision@) is Some
            &&& validate::is_free_text(request.name@, 300)
            &&& (request.summary matches Some(given) ==> validate::is_free_text(given@, 4000))
            &&& validate::is_id(request.lead_team_id@)
            &&& 1 <= request.team_ids@.len() <= 64
            &&& (forall|i: int|
                0 <= i < request.team_ids@.len() ==> validate::is_id((#[trigger] request.team_ids@[i])@))
            &&& (forall|i: int, j: int|
                0 <= i < j < request.team_ids@.len() ==> (#[trigger] request.team_ids@[i])@ != (
                #[trigger] request.team_ids@[j])@)
            &&& (exists|i: int|
                0 <= i < request.team_ids@.len() && (#[trigger] request.team_ids@[i])@ == request.lead_team_id@)
            &&& validate::is_id(request.status_id@)
            &&& (request.milestone_id matches Some(id) ==> validate::is_id(id@))
        }),
{
}

/// A request is taken as a project get exactly where each of these holds of its fields.
pub proof fn law_project_get_rule(request: GetProjectRequest)
    ensures
        validate::is_project_get(request) <==> ({
            &&& validate::is_id(request.project_id@)
        }),
{
}

/// A request is taken as a project list exactly where each of these holds of its fields.
pub proof fn law_project_list_rule(request: ListProjectsRequest)
    ensures
        validate::is_project_list(request) <==> ({
            &&& 1 <= request.limit <= 100 && (request.after matches Some(cursor) ==> validate::revision_value(cursor@) is Some)
            &&& (request.team_id matches Some(id) ==> validate::is_id(id@))
        }),
{
}

/// A request is taken as a project archive exactly where each of these holds of its fields.
pub proof fn law_project_archive_rule(request: ArchiveProjectRequest)
    ensures
        validate::is_project_archive(request) <==> ({
            &&& validate::is_id(request.idempotency_key@)
            &&& validate::is_id(request.project_id@)
            &&& validate::revision_value(request.expected_revision@) is Some
        }),
{
}

/// A request is taken as an issue create exactly where each of these holds of its fields.
pub proof fn law_issue_create_rule(request: CreateIssueRequest)
    ensures
        validate::is_issue_create(request) <==> ({
            &&& validate::is_id(request.idempotency_key@)
            &&& validate::is_id(request.issue_id@)
            &&& validate::is_id(request.project_id@)
            &&& validate::is_id(request.team_id@)
            &&& (request.workflow_state_id matches Some(id) ==> validate::is_id(id@))
            &&& validate::is_free_text(request.title@, 1000)
            &&& (request.description matches Some(given) ==> validate::is_free_text(given@, 20_000))
            &&& (request.cycle_id matches Some(id) ==> validate::is_id(id@))
            &&& (request.milestone_id matches Some(id) ==> validate::is_id(id@))
            &&& (request.parent_issue_id matches Some(id) ==> validate::is_id(id@))
            &&& request.label_ids@.len() <= 64
            &&& (forall|i: int|
                0 <= i < request.label_ids@.len() ==> validate::is_id((#[trigger] request.label_ids@[i])@))
            &&& (forall|i: int, j: int|
                0 <= i < j < request.label_ids@.len() ==> (#[trigger] request.label_ids@[i])@ != (
                #[trigger] request.label_ids@[j])@)
            &&& text::text_of(request.parent_issue_id) != Some(request.issue_id@)
        }),
{
}

/// A request is taken as an issue update exactly where each of these holds of its fields.
pub proof fn law_issue_update_rule(request: UpdateIssueRequest)
    ensures
        validate::is_issue_update(request) <==> ({
            &&& validate::is_id(request.idempotency_key@)
            &&& validate::is_id(request.issue_id@)
            &&& validate::revision_value(request.expected_revision@) is Some
            &&& validate::is_id(request.workflow_state_id@)
            &&& validate::is_free_text(request.title@, 1000)
            &&& (request.description matches Some(given) ==> validate::is_free_text(given@, 20_000))
            &&& (request.cycle_id matches Some(id) ==> validate::is_id(id@))
            &&& (request.milestone_id matches Some(id) ==> validate::is_id(id@))
            &&& (request.parent_issue_id matches Some(id) ==> validate::is_id(id@))
            &&& request.label_ids@.len() <= 64
            &&& (forall|i: int|
                0 <= i < request.label_ids@.len() ==> validate::is_id((#[trigger] request.label_ids@[i])@))
            &&& (forall|i: int, j: int|
                0 <= i < j < request.label_ids@.len() ==> (#[trigger] request.label_ids@[i])@ != (
                #[trigger] request.label_ids@[j])@)
            &&& text::text_of(request.parent_issue_id) != Some(request.issue_id@)
        }),
{
}

/// A request is taken as an issue get exactly where each of these holds of its fields.
pub proof fn law_issue_get_rule(request: GetIssueRequest)
    ensures
        validate::is_issue_get(request) <==> ({
            &&& validate::is_id(request.issue_ref@)
        }),
{
}

/// A request is taken as an issue list exactly where each of these holds of its fields.
pub proof fn law_issue_list_rule(request: ListIssuesRequest)
    ensures
        validate::is_issue_list(request) <==> ({
            &&& 1 <= request.limit <= 100 && (request.after matches Some(cursor) ==> validate::revision_value(cursor@) is Some)
            &&& (request.project_id matches Some(id) ==> validate::is_id(id@))
            &&& (request.team_id matches Some(id) ==> validate::is_id(id@))
            &&& (request.workflow_state_id matches Some(id) ==> validate::is_id(id@))
        }),
{
}

/// A request is taken as an issue move exactly where each of these holds of its fields.
pub proof fn law_issue_move_rule(request: MoveIssueRequest)
    ensures
        validate::is_issue_move(request) <==> ({
            &&& validate::is_id(request.idempotency_key@)
            &&& validate::is_id(request.issue_id@)
            &&& validate::revision_value(request.expected_revision@) is Some
            &&& validate::is_id(request.team_id@)
            &&& validate::is_id(request.workflow_state_id@)
        }),
{
}

/// A request is taken as an issue archive exactly where each of these holds of its fields.
pub proof fn law_issue_archive_rule(request: ArchiveIssueRequest)
    ensures
        validate::is_issue_archive(request) <==> ({
            &&& validate::is_id(request.idempotency_key@)
            &&& validate::is_id(request.issue_id@)
            &&& validate::revision_value(request.expected_revision@) is Some
        }),
{
}

/// A request is taken as an external link exactly where each of these holds of its fields.
pub proof fn law_external_link_rule(request: PutExternalLinkRequest)
    ensures
        validate::is_external_link(request) <==> ({
            &&& validate::is_id(request.idempotency_key@)
            &&& validate::is_id(request.issue_id@)
            &&& validate::is_id(request.provider@)
            &&& validate::is_id(request.external_key@)
            &&& validate::is_url(request.url@)
            &&& (request.title matches Some(given) ==> validate::is_free_text(given@, 300))
        }),
{
}

/// A request is taken as an activity list exactly where each of these holds of its fields.
pub proof fn law_activity_list_rule(request: ListActivityRequest)
    ensures
        validate::is_activity_list(request) <==> ({
            &&& 1 <= request.limit <= 100 && (request.after matches Some(cursor) ==> validate::revision_value(cursor@) is Some)
            &&& (request.project_id matches Some(id) ==> validate::is_id(id@))
            &&& (request.issue_id matches Some(id) ==> validate::is_id(id@))
        }),
{
}

/// A request is taken as an issue workflow list exactly where each of these holds of its fields.
pub proof fn law_issue_workflow_list_rule(request: ListIssueWorkflowStatesRequest)
    ensures
        validate::is_issue_workflow_list(request) <==> ({
            &&& validate::is_id(request.team_id@)
            &&& 1 <= request.limit <= 100 && (request.after matches Some(cursor) ==> validate::revision_value(cursor@) is Some)
        }),
{
}

/// A request is taken as a comment add exactly where each of these holds of its fields.
pub proof fn law_comment_add_rule(request: AddCommentRequest)
    ensures
        validate::is_comment_add(request) <==> ({
            &&& validate::is_id(request.idempotency_key@)
            &&& validate::is_id(request.issue_id@)
            &&& validate::is_id(request.comment_id@)
            &&& validate::is_free_text(request.body@, 20000)
        }),
{
}

/// A request is taken as a comment update exactly where each of these holds of its fields.
pub proof fn law_comment_update_rule(request: UpdateCommentRequest)
    ensures
        validate::is_comment_update(request) <==> ({
            &&& validate::is_id(request.idempotency_key@)
            &&& validate::is_id(request.comment_id@)
            &&& validate::revision_value(request.expected_revision@) is Some
            &&& validate::is_free_text(request.body@, 20000)
        }),
{
}

/// A request is taken as a comment delete exactly where each of these holds of its fields.
pub proof fn law_comment_delete_rule(request: DeleteCommentRequest)
    ensures
        validate::is_comment_delete(request) <==> ({
            &&& validate::is_id(request.idempotency_key@)
            &&& validate::is_id(request.comment_id@)
            &&& validate::revision_value(request.expected_revision@) is Some
        }),
{
}

/// A request is taken as a comment list exactly where each of these holds of its fields.
pub proof fn law_comment_list_rule(request: ListCommentsRequest)
    ensures
        validate::is_comment_list(request) <==> ({
            &&& validate::is_id(request.issue_id@)
            &&& 1 <= request.limit <= 100 && (request.after matches Some(cursor) ==> validate::revision_value(cursor@) is Some)
        }),
{
}

/// A request is taken as a project update create exactly where each of these holds of its fields.
pub proof fn law_project_update_create_rule(request: CreateProjectUpdateRequest)
    ensures
        validate::is_project_update_create(request) <==> ({
            &&& validate::is_id(request.idempotency_key@)
            &&& validate::is_id(request.project_id@)
            &&& validate::is_id(request.update_id@)
            &&& validate::is_free_text(request.body@, 20000)
        }),
{
}

/// A request is taken as a project update list exactly where each of these holds of its fields.
pub proof fn law_project_update_list_rule(request: ListProjectUpdatesRequest)
    ensures
        validate::is_project_update_list(request) <==> ({
            &&& validate::is_id(request.project_id@)
            &&& 1 <= request.limit <= 100 && (request.after matches Some(cursor) ==> validate::revision_value(cursor@) is Some)
        }),
{
}

/// A request is taken as a relation add exactly where each of these holds of its fields.
pub proof fn law_relation_add_rule(request: AddIssueRelationRequest)
    ensures
        validate::is_relation_add(request) <==> ({
            &&& validate::is_id(request.idempotency_key@)
            &&& validate::is_id(request.relation_id@)
            &&& validate::is_id(request.issue_id@)
            &&& validate::is_id(request.related_issue_id@)
        }),
{
}

/// A request is taken as a relation remove exactly where each of these holds of its fields.
pub proof fn law_relation_remove_rule(request: RemoveIssueRelationRequest)
    ensures
        validate::is_relation_remove(request) <==> ({
            &&& validate::is_id(request.idempotency_key@)
            &&& validate::is_id(request.relation_id@)
        }),
{
}

/// A request is taken as an assignee get exactly where each of these holds of its fields.
pub proof fn law_assignee_get_rule(request: GetIssueAssigneeRequest)
    ensures
        validate::is_assignee_get(request) <==> ({
            &&& validate::is_id(request.issue_id@)
        }),
{
}

/// A request is taken as an assignee set exactly where each of these holds of its fields.
pub proof fn law_assignee_set_rule(request: SetIssueAssigneeRequest)
    ensures
        validate::is_assignee_set(request) <==> ({
            &&& validate::is_id(request.idempotency_key@)
            &&& validate::is_id(request.issue_id@)
            &&& validate::revision_value(request.expected_revision@) is Some
            &&& (request.assignee_subject matches Some(id) ==> validate::is_id(id@))
        }),
{
}

/// A request is taken as a team exactly where each of these holds of its fields.
pub proof fn law_team_rule(request: PutTeamRequest)
    ensures
        validate::is_team(request) <==> ({
            &&& validate::is_id(request.idempotency_key@)
            &&& validate::is_id(request.team_id@)
            &&& validate::is_team_key(request.key@)
            &&& validate::is_free_text(request.name@, 200)
            &&& (request.description matches Some(given) ==> validate::is_free_text(given@, 2000))
            &&& (request.default_workflow_state_id matches Some(id) ==> validate::is_id(id@))
            &&& (request.expected_revision matches Some(expected) ==> validate::revision_value(expected@) is Some)
            &&& (request.expected_revision is Some) == (request.default_workflow_state_id is Some)
        }),
{
}

/// A request is taken as a team list exactly where each of these holds of its fields.
pub proof fn law_team_list_rule(request: ListTeamsRequest)
    ensures
        validate::is_team_list(request) <==> ({
            &&& 1 <= request.limit <= 100 && (request.after matches Some(cursor) ==> validate::revision_value(cursor@) is Some)
        }),
{
}

/// A request is taken as a team member exactly where each of these holds of its fields.
pub proof fn law_team_member_rule(request: SetTeamMemberRequest)
    ensures
        validate::is_team_member(request) <==> ({
            &&& validate::is_id(request.idempotency_key@)
            &&& validate::is_id(request.team_id@)
            &&& validate::is_id(request.subject@)
        }),
{
}

/// A request is taken as a workflow put exactly where each of these holds of its fields.
pub proof fn law_workflow_put_rule(request: PutWorkflowStateRequest)
    ensures
        validate::is_workflow_put(request) <==> ({
            &&& validate::is_id(request.idempotency_key@)
            &&& validate::is_id(request.state_id@)
            &&& validate::is_free_text(request.name@, 200)
            &&& validate::is_color(request.color@)
            &&& (request.expected_revision matches Some(expected) ==> validate::revision_value(expected@) is Some)
            &&& validate::is_id(request.team_id@)
        }),
{
}

/// A request is taken as a workflow get exactly where each of these holds of its fields.
pub proof fn law_workflow_get_rule(request: GetWorkflowStateRequest)
    ensures
        validate::is_workflow_get(request) <==> ({
            &&& validate::is_id(request.team_id@)
            &&& validate::is_id(request.state_id@)
        }),
{
}

/// A request is taken as a workflow reorder exactly where each of these holds of its fields.
pub proof fn law_workflow_reorder_rule(request: ReorderWorkflowStatesRequest)
    ensures
        validate::is_workflow_reorder(request) <==> ({
            &&& 1 <= request.items@.len() <= 100
            &&& (forall|i: int|
                0 <= i < request.items@.len() ==> validate::is_id((#[trigger] request.items@[i]).id@)
                    && validate::revision_value(request.items@[i].expected_revision@) is Some && 0
                    <= request.items@[i].position <= i32::MAX)
            &&& (forall|i: int, j: int|
                0 <= i < j < request.items@.len() ==> (#[trigger] request.items@[i]).id@ != (
                #[trigger] request.items@[j]).id@ && request.items@[i].position
                    != request.items@[j].position)
            &&& validate::is_id(request.idempotency_key@)
            &&& validate::is_id(request.team_id@)
        }),
{
}

/// A request is taken as a workflow archive exactly where each of these holds of its fields.
pub proof fn law_workflow_archive_rule(request: ArchiveWorkflowStateRequest)
    ensures
        validate::is_workflow_archive(request) <==> ({
            &&& validate::is_id(request.idempotency_key@)
            &&& validate::is_id(request.state_id@)
            &&& validate::revision_value(request.expected_revision@) is Some
        }),
{
}

/// A request is taken as a workflow delete exactly where each of these holds of its fields.
pub proof fn law_workflow_delete_rule(request: DeleteWorkflowStateRequest)
    ensures
        validate::is_workflow_delete(request) <==> ({
            &&& validate::is_id(request.idempotency_key@)
            &&& validate::is_id(request.state_id@)
            &&& validate::revision_value(request.expected_revision@) is Some
            &&& validate::is_id(request.team_id@)
        }),
{
}

/// A request is taken as a workflow list exactly where each of these holds of its fields.
pub proof fn law_workflow_list_rule(request: ListWorkflowStatesRequest)
    ensures
        validate::is_workflow_list(request) <==> ({
            &&& validate::is_id(request.team_id@)
            &&& 1 <= request.limit <= 100 && (request.after matches Some(cursor) ==> validate::revision_value(cursor@) is Some)
        }),
{
}

/// A request is taken as a project status put exactly where each of these holds of its fields.
pub proof fn law_project_status_put_rule(request: PutProjectStatusRequest)
    ensures
        validate::is_project_status_put(request) <==> ({
            &&& validate::is_id(request.idempotency_key@)
            &&& validate::is_id(request.status_id@)
            &&& validate::is_free_text(request.name@, 200)
            &&& validate::is_color(request.color@)
            &&& (request.expected_revision matches Some(expected) ==> validate::revision_value(expected@) is Some)
        }),
{
}

/// A request is taken as a project status get exactly where each of these holds of its fields.
pub proof fn law_project_status_get_rule(request: GetProjectStatusRequest)
    ensures
        validate::is_project_status_get(request) <==> ({
            &&& validate::is_id(request.status_id@)
        }),
{
}

/// A request is taken as a project status reorder exactly where each of these holds of its fields.
pub proof fn law_project_status_reorder_rule(request: ReorderProjectStatusesRequest)
    ensures
        validate::is_project_status_reorder(request) <==> ({
            &&& 1 <= request.items@.len() <= 100
            &&& (forall|i: int|
                0 <= i < request.items@.len() ==> validate::is_id((#[trigger] request.items@[i]).id@)
                    && validate::revision_value(request.items@[i].expected_revision@) is Some && 0
                    <= request.items@[i].position <= i32::MAX)
            &&& (forall|i: int, j: int|
                0 <= i < j < request.items@.len() ==> (#[trigger] request.items@[i]).id@ != (
                #[trigger] request.items@[j]).id@ && request.items@[i].position
                    != request.items@[j].position)
            &&& validate::is_id(request.idempotency_key@)
        }),
{
}

/// A request is taken as a project status archive exactly where each of these holds of its fields.
pub proof fn law_project_status_archive_rule(request: ArchiveProjectStatusRequest)
    ensures
        validate::is_project_status_archive(request) <==> ({
            &&& validate::is_id(request.idempotency_key@)
            &&& validate::is_id(request.status_id@)
            &&& validate::revision_value(request.expected_revision@) is Some
        }),
{
}

/// A request is taken as a project status delete exactly where each of these holds of its fields.
pub proof fn law_project_status_delete_rule(request: DeleteProjectStatusRequest)
    ensures
        validate::is_project_status_delete(request) <==> ({
            &&& validate::is_id(request.idempotency_key@)
            &&& validate::is_id(request.status_id@)
            &&& validate::revision_value(request.expected_revision@) is Some
        }),
{
}

/// A request is taken as a project status list exactly where each of these holds of its fields.
pub proof fn law_project_status_list_rule(request: ListProjectStatusesRequest)
    ensures
        validate::is_project_status_list(request) <==> ({
            &&& 1 <= request.limit <= 100 && (request.after matches Some(cursor) ==> validate::revision_value(cursor@) is Some)
        }),
{
}

/// A request is taken as a label put exactly where each of these holds of its fields.
pub proof fn law_label_put_rule(request: PutLabelRequest)
    ensures
        validate::is_label_put(request) <==> ({
            &&& validate::is_id(request.idempotency_key@)
            &&& validate::is_id(request.label_id@)
            &&& validate::is_free_text(request.name@, 200)
            &&& validate::is_color(request.color@)
            &&& (request.expected_revision matches Some(expected) ==> validate::revision_value(expected@) is Some)
            &&& (request.team_id matches Some(id) ==> validate::is_id(id@))
            &&& (request.description matches Some(given) ==> validate::is_free_text(given@, 1000))
        }),
{
}

/// A request is taken as a label list exactly where each of these holds of its fields.
pub proof fn law_label_list_rule(request: ListLabelsRequest)
    ensures
        validate::is_label_list(request) <==> ({
            &&& 1 <= request.limit <= 100 && (request.after matches Some(cursor) ==> validate::revision_value(cursor@) is Some)
            &&& (request.team_id matches Some(id) ==> validate::is_id(id@))
        }),
{
}

/// A request is taken as a cycle put exactly where each of these holds of its fields.
pub proof fn law_cycle_put_rule(request: PutCycleRequest)
    ensures
        validate::is_cycle_put(request) <==> ({
            &&& validate::is_id(request.idempotency_key@)
            &&& validate::is_id(request.cycle_id@)
            &&& validate::is_id(request.team_id@)
            &&& request.number >= 1
            &&& (request.name matches Some(given) ==> validate::is_free_text(given@, 200))
            &&& (request.expected_revision matches Some(expected) ==> validate::revision_value(expected@) is Some)
        }),
{
}

/// A request is taken as a cycle list exactly where each of these holds of its fields.
pub proof fn law_cycle_list_rule(request: ListCyclesRequest)
    ensures
        validate::is_cycle_list(request) <==> ({
            &&& validate::is_id(request.team_id@)
            &&& 1 <= request.limit <= 100 && (request.after matches Some(cursor) ==> validate::revision_value(cursor@) is Some)
        }),
{
}

/// A request is taken as a milestone put exactly where each of these holds of its fields.
pub proof fn law_milestone_put_rule(request: PutMilestoneRequest)
    ensures
        validate::is_milestone_put(request) <==> ({
            &&& validate::is_id(request.idempotency_key@)
            &&& validate::is_id(request.milestone_id@)
            &&& validate::is_id(request.project_id@)
            &&& validate::is_free_text(request.name@, 200)
            &&& (request.description matches Some(given) ==> validate::is_free_text(given@, 2000))
            &&& (request.expected_revision matches Some(expected) ==> validate::revision_value(expected@) is Some)
        }),
{
}

/// A request is taken as a milestone list exactly where each of these holds of its fields.
pub proof fn law_milestone_list_rule(request: ListMilestonesRequest)
    ensures
        validate::is_milestone_list(request) <==> ({
            &&& validate::is_id(request.project_id@)
            &&& 1 <= request.limit <= 100 && (request.after matches Some(cursor) ==> validate::revision_value(cursor@) is Some)
        }),
{
}

/// A request is taken as an export exactly where each of these holds of its fields.
pub proof fn law_export_rule(request: CollectExportRequest)
    ensures
        validate::is_export(request) <==> ({
            &&& request.scope_kind@ == "organization"@
            &&& validate::is_id(request.export_id@)
            &&& validate::is_id(request.scope_id@)
            &&& validate::is_id(request.subject@)
        }),
{
}

/// A request is taken as a retention exactly where each of these holds of its fields.
pub proof fn law_retention_rule(request: ApplyRetentionRequest)
    ensures
        validate::is_retention(request) <==> ({
            &&& request.scope_kind@ == "organization"@
            &&& validate::is_id(request.action_id@)
            &&& validate::is_id(request.scope_id@)
            &&& validate::is_id(request.subject@)
            &&& validate::is_free_text(request.reason@, 1000)
        }),
{
}

} // verus!
