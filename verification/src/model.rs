//! The rows that storage keeps, the requests it takes and the values it answers.
use crate::clock::{CalendarDate, Timestamp};
use vstd::prelude::*;

verus! {

/// How urgent an issue is.
#[derive(Clone, Copy, Debug, PartialEq, Eq, Structural)]
pub enum Priority {
    NoPriority,
    Urgent,
    High,
    Medium,
    Low,
}

/// How a project fares.
#[derive(Clone, Copy, Debug, PartialEq, Eq, Structural)]
pub enum Health {
    OnTrack,
    AtRisk,
    OffTrack,
}

/// How one issue relates to another.
#[derive(Clone, Copy, Debug, PartialEq, Eq, Structural)]
pub enum RelationKind {
    Blocks,
    BlockedBy,
    Duplicate,
    Related,
}

/// The stable meaning of a workflow state.
#[derive(Clone, Copy, Debug, PartialEq, Eq, Structural)]
pub enum WorkflowCategory {
    Backlog,
    Unstarted,
    Started,
    Completed,
    Canceled,
}

/// The stable meaning of a project status.
#[derive(Clone, Copy, Debug, PartialEq, Eq, Structural)]
pub enum ProjectStatusCategory {
    Backlog,
    Planned,
    Started,
    Paused,
    Completed,
    Canceled,
}

/// What retention does to the text of a subject.
#[derive(Clone, Copy, Debug, PartialEq, Eq, Structural)]
pub enum RetentionMode {
    Delete,
    Anonymize,
}

/// A team.
#[derive(Clone, Debug, PartialEq, Eq)]
pub struct Team {
    pub team_id: String,
    pub organization_id: String,
    pub key: String,
    pub name: String,
    pub description: Option<String>,
    pub private: bool,
    pub default_workflow_state_id: String,
    pub next_issue_number: i64,
    pub revision: i64,
    pub created_at: Timestamp,
    pub updated_at: Timestamp,
    pub row_seq: i64,
}

/// The membership of a subject in a team.
#[derive(Clone, Debug, PartialEq, Eq)]
pub struct TeamMember {
    pub organization_id: String,
    pub team_id: String,
    pub subject: String,
    pub active: bool,
    pub revision: i64,
}

/// One state of a team's issue workflow.
#[derive(Clone, Debug, PartialEq, Eq)]
pub struct WorkflowState {
    pub state_id: String,
    pub organization_id: String,
    pub team_id: String,
    pub name: String,
    pub category: WorkflowCategory,
    pub color: String,
    pub position: i32,
    pub archived: bool,
    pub archived_at: Option<Timestamp>,
    pub revision: i64,
    pub row_seq: i64,
}

/// The record that an organization's project statuses are set up.
#[derive(Debug, PartialEq, Eq)]
pub struct Workspace {
    pub organization_id: String,
    pub default_project_status_id: String,
}

/// One project status of an organization.
#[derive(Debug, PartialEq, Eq)]
pub struct ProjectStatus {
    pub status_id: String,
    pub organization_id: String,
    pub name: String,
    pub category: ProjectStatusCategory,
    pub color: String,
    pub position: i32,
    pub is_default: bool,
    pub archived: bool,
    pub archived_at: Option<Timestamp>,
    pub revision: i64,
    pub row_seq: i64,
}

/// A project. Its teams are kept in ascending order.
#[derive(Clone, Debug, PartialEq, Eq)]
pub struct Project {
    pub project_id: String,
    pub organization_id: String,
    pub name: String,
    pub summary: Option<String>,
    pub lead_team_id: String,
    pub team_ids: Vec<String>,
    pub status_id: String,
    pub milestone_id: Option<String>,
    pub starts_on: Option<CalendarDate>,
    pub target_date: Option<CalendarDate>,
    pub completed_at: Option<Timestamp>,
    pub canceled_at: Option<Timestamp>,
    pub archived: bool,
    pub revision: i64,
    pub created_at: Timestamp,
    pub updated_at: Timestamp,
    pub row_seq: i64,
}

/// An issue. Its labels are kept in ascending order.
#[derive(Clone, Debug, PartialEq, Eq)]
pub struct Issue {
    pub issue_id: String,
    pub organization_id: String,
    pub project_id: String,
    pub team_id: String,
    pub identifier: String,
    pub title: String,
    pub description: Option<String>,
    pub priority: Priority,
    pub workflow_state_id: String,
    pub cycle_id: Option<String>,
    pub milestone_id: Option<String>,
    pub parent_issue_id: Option<String>,
    pub label_ids: Vec<String>,
    pub assignee_subject: Option<String>,
    pub archived: bool,
    pub revision: i64,
    pub created_at: Timestamp,
    pub updated_at: Timestamp,
    pub row_seq: i64,
}

/// An identifier that an issue has or had.
#[derive(Debug, PartialEq, Eq)]
pub struct IdentifierAlias {
    pub organization_id: String,
    pub identifier: String,
    pub issue_id: String,
    pub created_at: Timestamp,
}

/// The association of an issue with an external object.
#[derive(Clone, Debug, PartialEq, Eq)]
pub struct ExternalLink {
    pub organization_id: String,
    pub issue_id: String,
    pub provider: String,
    pub external_key: String,
    pub url: String,
    pub title: Option<String>,
}

/// A cycle of a team.
#[derive(Clone, Debug, PartialEq, Eq)]
pub struct Cycle {
    pub cycle_id: String,
    pub organization_id: String,
    pub team_id: String,
    pub number: i32,
    pub name: Option<String>,
    pub starts_on: CalendarDate,
    pub ends_on: CalendarDate,
    pub revision: i64,
    pub row_seq: i64,
}

/// A milestone of a project.
#[derive(Clone, Debug, PartialEq, Eq)]
pub struct Milestone {
    pub milestone_id: String,
    pub organization_id: String,
    pub project_id: String,
    pub name: String,
    pub description: Option<String>,
    pub target_date: Option<CalendarDate>,
    pub revision: i64,
    pub row_seq: i64,
}

/// A label of an organization or of one team.
#[derive(Clone, Debug, PartialEq, Eq)]
pub struct Label {
    pub label_id: String,
    pub organization_id: String,
    pub team_id: Option<String>,
    pub name: String,
    pub description: Option<String>,
    pub color: String,
    pub revision: i64,
    pub row_seq: i64,
}

/// A comment on an issue.
#[derive(Clone, Debug, PartialEq, Eq)]
pub struct Comment {
    pub comment_id: String,
    pub organization_id: String,
    pub issue_id: String,
    pub author_subject: String,
    pub body: String,
    pub deleted: bool,
    pub revision: i64,
    pub created_at: Timestamp,
    pub updated_at: Timestamp,
    pub row_seq: i64,
}

/// A posted update on a project.
#[derive(Clone, Debug, PartialEq, Eq)]
pub struct ProjectUpdate {
    pub update_id: String,
    pub organization_id: String,
    pub project_id: String,
    pub author_subject: String,
    pub body: String,
    pub health: Health,
    pub created_at: Timestamp,
    pub row_seq: i64,
}

/// A relation between two issues.
#[derive(Clone, Debug, PartialEq, Eq)]
pub struct IssueRelation {
    pub relation_id: String,
    pub organization_id: String,
    pub issue_id: String,
    pub related_issue_id: String,
    pub kind: RelationKind,
    pub active: bool,
}

/// One record of the activity stream.
#[derive(Clone, Debug, PartialEq, Eq)]
pub struct Activity {
    pub activity_id: i64,
    pub organization_id: String,
    pub project_id: Option<String>,
    pub issue_id: Option<String>,
    pub actor_subject: String,
    pub operation: String,
    pub entity_kind: String,
    pub entity_id: String,
    pub revision: Option<i64>,
    pub occurred_at: Timestamp,
}

/// The receipt of a mutation: the request it was reserved with and, once completed, its response.
#[derive(Clone, Debug, PartialEq, Eq)]
pub struct Command {
    pub caller: String,
    pub actor: String,
    pub operation: String,
    pub idempotency_key: String,
    pub request: String,
    pub response: Option<String>,
}

/// The receipt of a retention action.
#[derive(Clone, Debug, PartialEq, Eq)]
pub struct RetentionReceipt {
    pub action_id: String,
    pub organization_id: String,
    pub subject: String,
    pub mode: RetentionMode,
    pub receipt: String,
}

/// Asks for a new project.
#[derive(Clone, Debug, PartialEq, Eq)]
pub struct CreateProjectRequest {
    pub idempotency_key: String,
    pub organization_id: String,
    pub project_id: String,
    pub name: String,
    pub summary: Option<String>,
    pub lead_team_id: String,
    pub team_ids: Vec<String>,
    pub status_id: Option<String>,
    pub milestone_id: Option<String>,
    pub start_date: Option<String>,
    pub target_date: Option<String>,
}

/// Asks for one project.
#[derive(Clone, Debug, PartialEq, Eq)]
pub struct GetProjectRequest {
    pub organization_id: String,
    pub project_id: String,
}

/// Asks for a page of projects.
#[derive(Clone, Debug, PartialEq, Eq)]
pub struct ListProjectsRequest {
    pub organization_id: String,
    pub team_id: Option<String>,
    pub include_archived: bool,
    pub limit: i64,
    pub after: Option<String>,
}

/// Asks to replace the fields of a project.
#[derive(Clone, Debug, PartialEq, Eq)]
pub struct UpdateProjectRequest {
    pub idempotency_key: String,
    pub organization_id: String,
    pub project_id: String,
    pub expected_revision: String,
    pub name: String,
    pub summary: Option<String>,
    pub lead_team_id: String,
    pub team_ids: Vec<String>,
    pub status_id: String,
    pub milestone_id: Option<String>,
    pub start_date: Option<String>,
    pub target_date: Option<String>,
}

/// Asks to archive or restore a project.
#[derive(Clone, Debug, PartialEq, Eq)]
pub struct ArchiveProjectRequest {
    pub idempotency_key: String,
    pub organization_id: String,
    pub project_id: String,
    pub expected_revision: String,
    pub archived: bool,
}

/// Asks for a new issue.
#[derive(Clone, Debug, PartialEq, Eq)]
pub struct CreateIssueRequest {
    pub idempotency_key: String,
    pub organization_id: String,
    pub issue_id: String,
    pub project_id: String,
    pub team_id: String,
    pub title: String,
    pub description: Option<String>,
    pub priority: Priority,
    pub workflow_state_id: Option<String>,
    pub cycle_id: Option<String>,
    pub milestone_id: Option<String>,
    pub parent_issue_id: Option<String>,
    pub label_ids: Vec<String>,
}

/// Asks for one issue, by its id or by any identifier it has or had.
#[derive(Clone, Debug, PartialEq, Eq)]
pub struct GetIssueRequest {
    pub organization_id: String,
    pub issue_ref: String,
}

/// Asks for a page of issues.
#[derive(Clone, Debug, PartialEq, Eq)]
pub struct ListIssuesRequest {
    pub organization_id: String,
    pub project_id: Option<String>,
    pub team_id: Option<String>,
    pub workflow_state_id: Option<String>,
    pub include_archived: bool,
    pub limit: i64,
    pub after: Option<String>,
}

/// Asks to replace the fields of an issue.
#[derive(Clone, Debug, PartialEq, Eq)]
pub struct UpdateIssueRequest {
    pub idempotency_key: String,
    pub organization_id: String,
    pub issue_id: String,
    pub expected_revision: String,
    pub title: String,
    pub description: Option<String>,
    pub priority: Priority,
    pub workflow_state_id: String,
    pub cycle_id: Option<String>,
    pub milestone_id: Option<String>,
    pub parent_issue_id: Option<String>,
    pub label_ids: Vec<String>,
}

/// Asks to move an issue to another team.
#[derive(Clone, Debug, PartialEq, Eq)]
pub struct MoveIssueRequest {
    pub idempotency_key: String,
    pub organization_id: String,
    pub issue_id: String,
    pub expected_revision: String,
    pub team_id: String,
    pub workflow_state_id: String,
}

/// Asks to archive or restore an issue.
#[derive(Clone, Debug, PartialEq, Eq)]
pub struct ArchiveIssueRequest {
    pub idempotency_key: String,
    pub organization_id: String,
    pub issue_id: String,
    pub expected_revision: String,
    pub archived: bool,
}

/// Asks to record an external association of an issue.
#[derive(Clone, Debug, PartialEq, Eq)]
pub struct PutExternalLinkRequest {
    pub idempotency_key: String,
    pub organization_id: String,
    pub issue_id: String,
    pub provider: String,
    pub external_key: String,
    pub url: String,
    pub title: Option<String>,
}

/// Asks for activity after a checkpoint.
#[derive(Clone, Debug, PartialEq, Eq)]
pub struct ListActivityRequest {
    pub organization_id: String,
    pub project_id: Option<String>,
    pub issue_id: Option<String>,
    pub limit: i64,
    pub after: Option<String>,
}

/// Asks for the workflow states that issues of a team can have.
#[derive(Clone, Debug, PartialEq, Eq)]
pub struct ListIssueWorkflowStatesRequest {
    pub organization_id: String,
    pub team_id: String,
    pub limit: i64,
    pub after: Option<String>,
}

/// Asks for a new comment.
#[derive(Clone, Debug, PartialEq, Eq)]
pub struct AddCommentRequest {
    pub idempotency_key: String,
    pub organization_id: String,
    pub issue_id: String,
    pub comment_id: String,
    pub body: String,
}

/// Asks to replace the body of a comment.
#[derive(Clone, Debug, PartialEq, Eq)]
pub struct UpdateCommentRequest {
    pub idempotency_key: String,
    pub organization_id: String,
    pub comment_id: String,
    pub expected_revision: String,
    pub body: String,
}

/// Asks to delete a comment.
#[derive(Clone, Debug, PartialEq, Eq)]
pub struct DeleteCommentRequest {
    pub idempotency_key: String,
    pub organization_id: String,
    pub comment_id: String,
    pub expected_revision: String,
}

/// Asks for a page of an issue's comments.
#[derive(Clone, Debug, PartialEq, Eq)]
pub struct ListCommentsRequest {
    pub organization_id: String,
    pub issue_id: String,
    pub limit: i64,
    pub after: Option<String>,
}

/// Asks for a new project update.
#[derive(Clone, Debug, PartialEq, Eq)]
pub struct CreateProjectUpdateRequest {
    pub idempotency_key: String,
    pub organization_id: String,
    pub project_id: String,
    pub update_id: String,
    pub body: String,
    pub health: Health,
}

/// Asks for a page of a project's updates.
#[derive(Clone, Debug, PartialEq, Eq)]
pub struct ListProjectUpdatesRequest {
    pub organization_id: String,
    pub project_id: String,
    pub limit: i64,
    pub after: Option<String>,
}

/// Asks for a new relation between issues.
#[derive(Clone, Debug, PartialEq, Eq)]
pub struct AddIssueRelationRequest {
    pub idempotency_key: String,
    pub organization_id: String,
    pub relation_id: String,
    pub issue_id: String,
    pub related_issue_id: String,
    pub kind: RelationKind,
}

/// Asks to end a relation between issues.
#[derive(Clone, Debug, PartialEq, Eq)]
pub struct RemoveIssueRelationRequest {
    pub idempotency_key: String,
    pub organization_id: String,
    pub relation_id: String,
}

/// Asks who an issue is assigned to.
#[derive(Clone, Debug, PartialEq, Eq)]
pub struct GetIssueAssigneeRequest {
    pub organization_id: String,
    pub issue_id: String,
}

/// Asks to assign an issue, or to clear its assignment.
#[derive(Clone, Debug, PartialEq, Eq)]
pub struct SetIssueAssigneeRequest {
    pub idempotency_key: String,
    pub organization_id: String,
    pub issue_id: String,
    pub assignee_subject: Option<String>,
    pub expected_revision: String,
}

/// Asks for a new team, or to replace the fields of one.
#[derive(Clone, Debug, PartialEq, Eq)]
pub struct PutTeamRequest {
    pub idempotency_key: String,
    pub organization_id: String,
    pub team_id: String,
    pub key: String,
    pub name: String,
    pub description: Option<String>,
    pub private: bool,
    pub default_workflow_state_id: Option<String>,
    pub expected_revision: Option<String>,
}

/// Asks for a page of teams.
#[derive(Clone, Debug, PartialEq, Eq)]
pub struct ListTeamsRequest {
    pub organization_id: String,
    pub limit: i64,
    pub after: Option<String>,
}

/// Asks to set the membership of a subject in a team.
#[derive(Clone, Debug, PartialEq, Eq)]
pub struct SetTeamMemberRequest {
    pub idempotency_key: String,
    pub organization_id: String,
    pub team_id: String,
    pub subject: String,
    pub active: bool,
}

/// Asks for a new workflow state, or to replace the fields of one.
#[derive(Clone, Debug, PartialEq, Eq)]
pub struct PutWorkflowStateRequest {
    pub idempotency_key: String,
    pub organization_id: String,
    pub team_id: String,
    pub state_id: String,
    pub name: String,
    pub category: WorkflowCategory,
    pub color: String,
    pub position: i64,
    pub expected_revision: Option<String>,
}

/// Asks for one workflow state.
#[derive(Clone, Debug, PartialEq, Eq)]
pub struct GetWorkflowStateRequest {
    pub organization_id: String,
    pub team_id: String,
    pub state_id: String,
}

/// The new place of one catalog entry, and the revision it must still have.
#[derive(Clone, Debug, PartialEq, Eq)]
pub struct ReorderItem {
    pub id: String,
    pub expected_revision: String,
    pub position: i64,
}

/// Asks to reorder the whole active workflow of a team.
#[derive(Clone, Debug, PartialEq, Eq)]
pub struct ReorderWorkflowStatesRequest {
    pub idempotency_key: String,
    pub organization_id: String,
    pub team_id: String,
    pub items: Vec<ReorderItem>,
}

/// Asks to archive or restore a workflow state.
#[derive(Clone, Debug, PartialEq, Eq)]
pub struct ArchiveWorkflowStateRequest {
    pub idempotency_key: String,
    pub organization_id: String,
    pub state_id: String,
    pub expected_revision: String,
    pub archived: bool,
}

/// Asks to delete a workflow state for good.
#[derive(Clone, Debug, PartialEq, Eq)]
pub struct DeleteWorkflowStateRequest {
    pub idempotency_key: String,
    pub organization_id: String,
    pub team_id: String,
    pub state_id: String,
    pub expected_revision: String,
}

/// Asks for a page of a team's workflow states.
#[derive(Clone, Debug, PartialEq, Eq)]
pub struct ListWorkflowStatesRequest {
    pub organization_id: String,
    pub team_id: String,
    pub limit: i64,
    pub after: Option<String>,
}

/// Asks for a new project status, or to replace the fields of one.
#[derive(Clone, Debug, PartialEq, Eq)]
pub struct PutProjectStatusRequest {
    pub idempotency_key: String,
    pub organization_id: String,
    pub status_id: String,
    pub name: String,
    pub category: ProjectStatusCategory,
    pub color: String,
    pub position: i64,
    pub expected_revision: Option<String>,
}

/// Asks for one project status.
#[derive(Clone, Debug, PartialEq, Eq)]
pub struct GetProjectStatusRequest {
    pub organization_id: String,
    pub status_id: String,
}

/// Asks to reorder all active project statuses.
#[derive(Clone, Debug, PartialEq, Eq)]
pub struct ReorderProjectStatusesRequest {
    pub idempotency_key: String,
    pub organization_id: String,
    pub items: Vec<ReorderItem>,
}

/// Asks to archive or restore a project status.
#[derive(Clone, Debug, PartialEq, Eq)]
pub struct ArchiveProjectStatusRequest {
    pub idempotency_key: String,
    pub organization_id: String,
    pub status_id: String,
    pub expected_revision: String,
    pub archived: bool,
}

/// Asks to delete a project status for good.
#[derive(Clone, Debug, PartialEq, Eq)]
pub struct DeleteProjectStatusRequest {
    pub idempotency_key: String,
    pub organization_id: String,
    pub status_id: String,
    pub expected_revision: String,
}

/// Asks for a page of project statuses.
#[derive(Clone, Debug, PartialEq, Eq)]
pub struct ListProjectStatusesRequest {
    pub organization_id: String,
    pub limit: i64,
    pub after: Option<String>,
}

/// Asks for a new label, or to replace the fields of one.
#[derive(Clone, Debug, PartialEq, Eq)]
pub struct PutLabelRequest {
    pub idempotency_key: String,
    pub organization_id: String,
    pub label_id: String,
    pub team_id: Option<String>,
    pub name: String,
    pub description: Option<String>,
    pub color: String,
    pub expected_revision: Option<String>,
}

/// Asks for a page of labels.
#[derive(Clone, Debug, PartialEq, Eq)]
pub struct ListLabelsRequest {
    pub organization_id: String,
    pub team_id: Option<String>,
    pub limit: i64,
    pub after: Option<String>,
}

/// Asks for a new cycle, or to replace the fields of one.
#[derive(Clone, Debug, PartialEq, Eq)]
pub struct PutCycleRequest {
    pub idempotency_key: String,
    pub organization_id: String,
    pub cycle_id: String,
    pub team_id: String,
    pub number: i64,
    pub name: Option<String>,
    pub starts_on: String,
    pub ends_on: String,
    pub expected_revision: Option<String>,
}

/// Asks for a page of a team's cycles.
#[derive(Clone, Debug, PartialEq, Eq)]
pub struct ListCyclesRequest {
    pub organization_id: String,
    pub team_id: String,
    pub limit: i64,
    pub after: Option<String>,
}

/// Asks for a new milestone, or to replace the fields of one.
#[derive(Clone, Debug, PartialEq, Eq)]
pub struct PutMilestoneRequest {
    pub idempotency_key: String,
    pub organization_id: String,
    pub milestone_id: String,
    pub project_id: String,
    pub name: String,
    pub description: Option<String>,
    pub target_date: Option<String>,
    pub expected_revision: Option<String>,
}

/// Asks for a page of a project's milestones.
#[derive(Clone, Debug, PartialEq, Eq)]
pub struct ListMilestonesRequest {
    pub organization_id: String,
    pub project_id: String,
    pub limit: i64,
    pub after: Option<String>,
}

/// Asks for everything a subject wrote or is assigned to.
#[derive(Clone, Debug, PartialEq, Eq)]
pub struct CollectExportRequest {
    pub export_id: String,
    pub scope_kind: String,
    pub scope_id: String,
    pub subject: String,
}

/// Asks to delete or anonymize what a subject wrote.
#[derive(Clone, Debug, PartialEq, Eq)]
pub struct ApplyRetentionRequest {
    pub action_id: String,
    pub scope_kind: String,
    pub scope_id: String,
    pub subject: String,
    pub mode: RetentionMode,
    pub reason: String,
}

/// A project as callers see it.
#[derive(Clone, Debug, PartialEq, Eq)]
pub struct ProjectValue {
    pub project_id: String,
    pub organization_id: String,
    pub name: String,
    pub summary: Option<String>,
    pub lead_team_id: String,
    pub team_ids: Vec<String>,
    pub status_id: String,
    pub milestone_id: Option<String>,
    pub start_date: Option<String>,
    pub target_date: Option<String>,
    pub completed_at: Option<String>,
    pub canceled_at: Option<String>,
    pub archived: bool,
    pub revision: String,
    pub created_at: String,
    pub updated_at: String,
}

/// An issue as callers see it.
#[derive(Clone, Debug, PartialEq, Eq)]
pub struct IssueValue {
    pub issue_id: String,
    pub organization_id: String,
    pub identifier: String,
    pub previous_identifiers: Vec<String>,
    pub project_id: String,
    pub team_id: String,
    pub title: String,
    pub description: Option<String>,
    pub priority: Priority,
    pub workflow_state_id: String,
    pub cycle_id: Option<String>,
    pub milestone_id: Option<String>,
    pub parent_issue_id: Option<String>,
    pub label_ids: Vec<String>,
    pub archived: bool,
    pub revision: String,
    pub created_at: String,
    pub updated_at: String,
}

/// An external association as callers see it.
#[derive(Clone, Debug, PartialEq, Eq)]
pub struct ExternalLinkValue {
    pub created: bool,
    pub issue_id: String,
    pub provider: String,
    pub external_key: String,
    pub url: String,
    pub title: Option<String>,
}

/// An activity record as callers see it.
#[derive(Clone, Debug, PartialEq, Eq)]
pub struct ActivityValue {
    pub activity_id: String,
    pub organization_id: String,
    pub project_id: Option<String>,
    pub issue_id: Option<String>,
    pub actor_subject: String,
    pub operation: String,
    pub entity_kind: String,
    pub entity_id: String,
    pub revision: Option<String>,
    pub occurred_at: String,
}

/// A comment as callers see it.
#[derive(Clone, Debug, PartialEq, Eq)]
pub struct CommentValue {
    pub comment_id: String,
    pub organization_id: String,
    pub issue_id: String,
    pub author_subject: String,
    pub body: String,
    pub deleted: bool,
    pub revision: String,
    pub created_at: String,
    pub updated_at: String,
}

/// A project update as callers see it.
#[derive(Clone, Debug, PartialEq, Eq)]
pub struct ProjectUpdateValue {
    pub update_id: String,
    pub organization_id: String,
    pub project_id: String,
    pub author_subject: String,
    pub body: String,
    pub health: Health,
    pub created_at: String,
}

/// An issue relation as callers see it.
#[derive(Clone, Debug, PartialEq, Eq)]
pub struct RelationValue {
    pub relation_id: String,
    pub organization_id: String,
    pub issue_id: String,
    pub related_issue_id: String,
    pub kind: RelationKind,
    pub active: bool,
}

/// The assignment of an issue as callers see it.
#[derive(Clone, Debug, PartialEq, Eq)]
pub struct AssigneeValue {
    pub issue_id: String,
    pub organization_id: String,
    pub assignee_subject: Option<String>,
    pub revision: String,
}

/// A team as callers see it.
#[derive(Clone, Debug, PartialEq, Eq)]
pub struct TeamValue {
    pub team_id: String,
    pub organization_id: String,
    pub key: String,
    pub name: String,
    pub description: Option<String>,
    pub private: bool,
    pub default_workflow_state_id: String,
    pub revision: String,
    pub created_at: String,
    pub updated_at: String,
}

/// A team membership as callers see it.
#[derive(Clone, Debug, PartialEq, Eq)]
pub struct TeamMemberValue {
    pub team_id: String,
    pub subject: String,
    pub active: bool,
    pub changed: bool,
    pub revision: String,
}

/// A workflow state as callers see it.
#[derive(Clone, Debug, PartialEq, Eq)]
pub struct WorkflowStateValue {
    pub state_id: String,
    pub organization_id: String,
    pub team_id: String,
    pub name: String,
    pub category: WorkflowCategory,
    pub color: String,
    pub position: i32,
    pub archived: bool,
    pub archived_at: Option<String>,
    pub revision: String,
}

/// A project status as callers see it.
#[derive(Clone, Debug, PartialEq, Eq)]
pub struct ProjectStatusValue {
    pub status_id: String,
    pub organization_id: String,
    pub name: String,
    pub category: ProjectStatusCategory,
    pub color: String,
    pub position: i32,
    pub is_default: bool,
    pub archived: bool,
    pub archived_at: Option<String>,
    pub revision: String,
}

/// The answer to the deletion of a workflow state.
#[derive(Clone, Debug, PartialEq, Eq)]
pub struct DeletedWorkflowState {
    pub organization_id: String,
    pub team_id: String,
    pub state_id: String,
    pub deleted: bool,
}

/// The answer to the deletion of a project status.
#[derive(Clone, Debug, PartialEq, Eq)]
pub struct DeletedProjectStatus {
    pub organization_id: String,
    pub status_id: String,
    pub deleted: bool,
}

/// A label as callers see it.
#[derive(Clone, Debug, PartialEq, Eq)]
pub struct LabelValue {
    pub label_id: String,
    pub organization_id: String,
    pub team_id: Option<String>,
    pub name: String,
    pub description: Option<String>,
    pub color: String,
    pub revision: String,
}

/// A cycle as callers see it.
#[derive(Clone, Debug, PartialEq, Eq)]
pub struct CycleValue {
    pub cycle_id: String,
    pub organization_id: String,
    pub team_id: String,
    pub number: i64,
    pub name: Option<String>,
    pub starts_on: String,
    pub ends_on: String,
    pub revision: String,
}

/// A milestone as callers see it.
#[derive(Clone, Debug, PartialEq, Eq)]
pub struct MilestoneValue {
    pub milestone_id: String,
    pub organization_id: String,
    pub project_id: String,
    pub name: String,
    pub description: Option<String>,
    pub target_date: Option<String>,
    pub revision: String,
}

/// How a mutation ended: it took effect now and its response awaits completion, or an earlier run
/// of the same command is answered again.
#[derive(Clone, Debug, PartialEq, Eq)]
pub enum Completion<T> {
    Fresh(T),
    Replayed(String),
}

/// The stored name of a priority.
pub open spec fn priority_text(priority: Priority) -> Seq<char> {
    match priority {
        Priority::NoPriority => "none"@,
        Priority::Urgent => "urgent"@,
        Priority::High => "high"@,
        Priority::Medium => "medium"@,
        Priority::Low => "low"@,
    }
}

/// The stored name of a priority.
pub fn priority_name(priority: &Priority) -> (name: &'static str)
    ensures
        name@ == priority_text(*priority),
{
    match priority {
        Priority::NoPriority => "none",
        Priority::Urgent => "urgent",
        Priority::High => "high",
        Priority::Medium => "medium",
        Priority::Low => "low",
    }
}

/// The stored name of a project's health.
pub open spec fn health_text(health: Health) -> Seq<char> {
    match health {
        Health::OnTrack => "on_track"@,
        Health::AtRisk => "at_risk"@,
        Health::OffTrack => "off_track"@,
    }
}

/// The stored name of a project's health.
pub fn health_name(health: &Health) -> (name: &'static str)
    ensures
        name@ == health_text(*health),
{
    match health {
        Health::OnTrack => "on_track",
        Health::AtRisk => "at_risk",
        Health::OffTrack => "off_track",
    }
}

/// The stored name of a relation kind.
pub open spec fn relation_kind_text(kind: RelationKind) -> Seq<char> {
    match kind {
        RelationKind::Blocks => "blocks"@,
        RelationKind::BlockedBy => "blocked_by"@,
        RelationKind::Duplicate => "duplicate"@,
        RelationKind::Related => "related"@,
    }
}

/// The stored name of a relation kind.
pub fn relation_kind_name(kind: &RelationKind) -> (name: &'static str)
    ensures
        name@ == relation_kind_text(*kind),
{
    match kind {
        RelationKind::Blocks => "blocks",
        RelationKind::BlockedBy => "blocked_by",
        RelationKind::Duplicate => "duplicate",
        RelationKind::Related => "related",
    }
}

/// The stored name of a workflow category.
pub open spec fn workflow_category_text(category: WorkflowCategory) -> Seq<char> {
    match category {
        WorkflowCategory::Backlog => "backlog"@,
        WorkflowCategory::Unstarted => "unstarted"@,
        WorkflowCategory::Started => "started"@,
        WorkflowCategory::Completed => "completed"@,
        WorkflowCategory::Canceled => "canceled"@,
    }
}

/// The stored name of a workflow category.
pub fn workflow_category(category: &WorkflowCategory) -> (name: &'static str)
    ensures
        name@ == workflow_category_text(*category),
{
    match category {
        WorkflowCategory::Backlog => "backlog",
        WorkflowCategory::Unstarted => "unstarted",
        WorkflowCategory::Started => "started",
        WorkflowCategory::Completed => "completed",
        WorkflowCategory::Canceled => "canceled",
    }
}

/// The stored name of a project status category.
pub open spec fn project_status_category_text(category: ProjectStatusCategory) -> Seq<char> {
    match category {
        ProjectStatusCategory::Backlog => "backlog"@,
        ProjectStatusCategory::Planned => "planned"@,
        ProjectStatusCategory::Started => "started"@,
        ProjectStatusCategory::Paused => "paused"@,
        ProjectStatusCategory::Completed => "completed"@,
        ProjectStatusCategory::Canceled => "canceled"@,
    }
}

/// The stored name of a project status category.
pub fn project_status_category(category: &ProjectStatusCategory) -> (name: &'static str)
    ensures
        name@ == project_status_category_text(*category),
{
    match category {
        ProjectStatusCategory::Backlog => "backlog",
        ProjectStatusCategory::Planned => "planned",
        ProjectStatusCategory::Started => "started",
        ProjectStatusCategory::Paused => "paused",
        ProjectStatusCategory::Completed => "completed",
        ProjectStatusCategory::Canceled => "canceled",
    }
}

/// The stored name of a retention mode.
pub open spec fn retention_mode_text(mode: RetentionMode) -> Seq<char> {
    match mode {
        RetentionMode::Delete => "delete"@,
        RetentionMode::Anonymize => "anonymize"@,
    }
}

/// The stored name of a retention mode.
pub fn retention_mode_name(mode: &RetentionMode) -> (name: &'static str)
    ensures
        name@ == retention_mode_text(*mode),
{
    match mode {
        RetentionMode::Delete => "delete",
        RetentionMode::Anonymize => "anonymize",
    }
}

} // verus!
