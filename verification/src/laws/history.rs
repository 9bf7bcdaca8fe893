//! Everything that can happen to a store, one operation after another.
use crate::clock::Timestamp;
use crate::collaboration;
use crate::failure::StorageError;
use crate::issues;
use crate::model::{
    AddCommentRequest, AddIssueRelationRequest, ApplyRetentionRequest, ArchiveIssueRequest,
    ArchiveProjectRequest, ArchiveProjectStatusRequest, ArchiveWorkflowStateRequest, AssigneeValue,
    CommentValue, Completion, CreateIssueRequest, CreateProjectRequest, CreateProjectUpdateRequest,
    CycleValue, DeleteCommentRequest, DeleteProjectStatusRequest, DeleteWorkflowStateRequest,
    DeletedProjectStatus, DeletedWorkflowState, ExternalLinkValue, GetProjectStatusRequest,
    IssueValue, LabelValue, ListProjectStatusesRequest, MilestoneValue, MoveIssueRequest,
    ProjectStatusValue, ProjectUpdateValue, ProjectValue, PutCycleRequest, PutExternalLinkRequest,
    PutLabelRequest, PutMilestoneRequest, PutProjectStatusRequest, PutTeamRequest,
    PutWorkflowStateRequest, RelationValue, RemoveIssueRelationRequest,
    ReorderProjectStatusesRequest, ReorderWorkflowStatesRequest, SetIssueAssigneeRequest,
    SetTeamMemberRequest, TeamMemberValue, TeamValue, UpdateCommentRequest, UpdateIssueRequest,
    UpdateProjectRequest, WorkflowStateValue,
};
use crate::planning;
use crate::project_status;
use crate::project_status::StatusIds;
use crate::projects;
use crate::retention;
use crate::store;
use crate::store::{Invocation, Store};
use crate::table::Page;
use crate::teams;
use crate::workflow;
use crate::workflow::WorkflowIds;
use vstd::prelude::*;

verus! {

/// One operation on a store, with what it was given and what it answered.
#[allow(inconsistent_fields)]
pub enum Step {
    AddComment {
        call: Invocation,
        r: AddCommentRequest,
        result: Result<Completion<CommentValue>, StorageError>,
    },
    UpdateComment {
        call: Invocation,
        r: UpdateCommentRequest,
        result: Result<Completion<CommentValue>, StorageError>,
    },
    DeleteComment {
        call: Invocation,
        r: DeleteCommentRequest,
        result: Result<Completion<CommentValue>, StorageError>,
    },
    CreateProjectUpdate {
        call: Invocation,
        r: CreateProjectUpdateRequest,
        result: Result<Completion<ProjectUpdateValue>, StorageError>,
    },
    AddIssueRelation {
        call: Invocation,
        r: AddIssueRelationRequest,
        result: Result<Completion<RelationValue>, StorageError>,
    },
    RemoveIssueRelation {
        call: Invocation,
        r: RemoveIssueRelationRequest,
        result: Result<Completion<RelationValue>, StorageError>,
    },
    CreateIssue {
        call: Invocation,
        r: CreateIssueRequest,
        result: Result<Completion<IssueValue>, StorageError>,
    },
    UpdateIssue {
        call: Invocation,
        r: UpdateIssueRequest,
        result: Result<Completion<IssueValue>, StorageError>,
    },
    MoveIssue {
        call: Invocation,
        r: MoveIssueRequest,
        result: Result<Completion<IssueValue>, StorageError>,
    },
    ArchiveIssue {
        call: Invocation,
        r: ArchiveIssueRequest,
        result: Result<Completion<IssueValue>, StorageError>,
    },
    PutExternalLink {
        call: Invocation,
        r: PutExternalLinkRequest,
        result: Result<Completion<ExternalLinkValue>, StorageError>,
    },
    SetIssueAssignee {
        call: Invocation,
        r: SetIssueAssigneeRequest,
        result: Result<Completion<AssigneeValue>, StorageError>,
    },
    PutLabel {
        call: Invocation,
        r: PutLabelRequest,
        result: Result<Completion<LabelValue>, StorageError>,
    },
    PutCycle {
        call: Invocation,
        r: PutCycleRequest,
        result: Result<Completion<CycleValue>, StorageError>,
    },
    PutMilestone {
        call: Invocation,
        r: PutMilestoneRequest,
        result: Result<Completion<MilestoneValue>, StorageError>,
    },
    PutProjectStatus {
        call: Invocation,
        r: PutProjectStatusRequest,
        ids: StatusIds,
        result: Result<Completion<ProjectStatusValue>, StorageError>,
    },
    GetProjectStatus {
        r: GetProjectStatusRequest,
        ids: StatusIds,
        result: Result<ProjectStatusValue, StorageError>,
    },
    ReorderProjectStatuses {
        call: Invocation,
        r: ReorderProjectStatusesRequest,
        ids: StatusIds,
        result: Result<Completion<Vec<ProjectStatusValue>>, StorageError>,
    },
    ArchiveProjectStatus {
        call: Invocation,
        r: ArchiveProjectStatusRequest,
        ids: StatusIds,
        result: Result<Completion<ProjectStatusValue>, StorageError>,
    },
    DeleteProjectStatus {
        call: Invocation,
        r: DeleteProjectStatusRequest,
        ids: StatusIds,
        result: Result<Completion<DeletedProjectStatus>, StorageError>,
    },
    ListProjectStatuses {
        r: ListProjectStatusesRequest,
        ids: StatusIds,
        result: Result<Page<ProjectStatusValue>, StorageError>,
    },
    CreateProject {
        call: Invocation,
        r: CreateProjectRequest,
        ids: StatusIds,
        result: Result<Completion<ProjectValue>, StorageError>,
    },
    UpdateProject {
        call: Invocation,
        r: UpdateProjectRequest,
        ids: StatusIds,
        result: Result<Completion<ProjectValue>, StorageError>,
    },
    ArchiveProject {
        call: Invocation,
        r: ArchiveProjectRequest,
        result: Result<Completion<ProjectValue>, StorageError>,
    },
    ApplyRetention {
        r: ApplyRetentionRequest,
        now: Timestamp,
        result: Result<String, StorageError>,
    },
    PutTeam {
        call: Invocation,
        r: PutTeamRequest,
        ids: StatusIds,
        states: WorkflowIds,
        result: Result<Completion<TeamValue>, StorageError>,
    },
    SetTeamMember {
        call: Invocation,
        r: SetTeamMemberRequest,
        result: Result<Completion<TeamMemberValue>, StorageError>,
    },
    PutWorkflowState {
        call: Invocation,
        r: PutWorkflowStateRequest,
        result: Result<Completion<WorkflowStateValue>, StorageError>,
    },
    ReorderWorkflowStates {
        call: Invocation,
        r: ReorderWorkflowStatesRequest,
        result: Result<Completion<Vec<WorkflowStateValue>>, StorageError>,
    },
    ArchiveWorkflowState {
        call: Invocation,
        r: ArchiveWorkflowStateRequest,
        result: Result<Completion<WorkflowStateValue>, StorageError>,
    },
    DeleteWorkflowState {
        call: Invocation,
        r: DeleteWorkflowStateRequest,
        result: Result<Completion<DeletedWorkflowState>, StorageError>,
    },
    CompleteCommand {
        caller: Seq<char>,
        actor: Seq<char>,
        operation: Seq<char>,
        key: Seq<char>,
        response: Seq<char>,
        result: Result<(), StorageError>,
    },
}

/// Whether the operation leads from one store to the other.
pub open spec fn takes(before: Store, after: Store, step: Step) -> bool {
    match step {
        Step::AddComment { call, r, result } => {
            collaboration::add_comment_outcome(before, after, call, r, result)
        },
        Step::UpdateComment { call, r, result } => {
            collaboration::update_comment_outcome(before, after, call, r, result)
        },
        Step::DeleteComment { call, r, result } => {
            collaboration::delete_comment_outcome(before, after, call, r, result)
        },
        Step::CreateProjectUpdate { call, r, result } => {
            collaboration::create_project_update_outcome(before, after, call, r, result)
        },
        Step::AddIssueRelation { call, r, result } => {
            collaboration::add_issue_relation_outcome(before, after, call, r, result)
        },
        Step::RemoveIssueRelation { call, r, result } => {
            collaboration::remove_issue_relation_outcome(before, after, call, r, result)
        },
        Step::CreateIssue { call, r, result } => {
            issues::create_issue_outcome(before, after, call, r, result)
        },
        Step::UpdateIssue { call, r, result } => {
            issues::update_issue_outcome(before, after, call, r, result)
        },
        Step::MoveIssue { call, r, result } => {
            issues::move_issue_outcome(before, after, call, r, result)
        },
        Step::ArchiveIssue { call, r, result } => {
            issues::archive_issue_outcome(before, after, call, r, result)
        },
        Step::PutExternalLink { call, r, result } => {
            issues::put_external_link_outcome(before, after, call, r, result)
        },
        Step::SetIssueAssignee { call, r, result } => {
            issues::set_issue_assignee_outcome(before, after, call, r, result)
        },
        Step::PutLabel { call, r, result } => {
            planning::put_label_outcome(before, after, call, r, result)
        },
        Step::PutCycle { call, r, result } => {
            planning::put_cycle_outcome(before, after, call, r, result)
        },
        Step::PutMilestone { call, r, result } => {
            planning::put_milestone_outcome(before, after, call, r, result)
        },
        Step::PutProjectStatus { call, r, ids, result } => {
            project_status::put_project_status_outcome(before, after, call, r, ids, result)
        },
        Step::GetProjectStatus { r, ids, result } => {
            project_status::get_project_status_outcome(before, after, r, ids, result)
        },
        Step::ReorderProjectStatuses { call, r, ids, result } => {
            project_status::reorder_project_statuses_outcome(before, after, call, r, ids, result)
        },
        Step::ArchiveProjectStatus { call, r, ids, result } => {
            project_status::archive_project_status_outcome(before, after, call, r, ids, result)
        },
        Step::DeleteProjectStatus { call, r, ids, result } => {
            project_status::delete_project_status_outcome(before, after, call, r, ids, result)
        },
        Step::ListProjectStatuses { r, ids, result } => {
            project_status::list_project_statuses_outcome(before, after, r, ids, result)
        },
        Step::CreateProject { call, r, ids, result } => {
            projects::create_project_outcome(before, after, call, r, ids, result)
        },
        Step::UpdateProject { call, r, ids, result } => {
            projects::update_project_outcome(before, after, call, r, ids, result)
        },
        Step::ArchiveProject { call, r, result } => {
            projects::archive_project_outcome(before, after, call, r, result)
        },
        Step::ApplyRetention { r, now, result } => {
            retention::retention_outcome(before, after, r, now, result)
        },
        Step::PutTeam { call, r, ids, states, result } => {
            teams::put_team_outcome(before, after, call, r, ids, states, result)
        },
        Step::SetTeamMember { call, r, result } => {
            teams::set_team_member_outcome(before, after, call, r, result)
        },
        Step::PutWorkflowState { call, r, result } => {
            workflow::put_workflow_state_outcome(before, after, call, r, result)
        },
        Step::ReorderWorkflowStates { call, r, result } => {
            workflow::reorder_workflow_states_outcome(before, after, call, r, result)
        },
        Step::ArchiveWorkflowState { call, r, result } => {
            workflow::archive_workflow_state_outcome(before, after, call, r, result)
        },
        Step::DeleteWorkflowState { call, r, result } => {
            workflow::delete_workflow_state_outcome(before, after, call, r, result)
        },
        Step::CompleteCommand { caller, actor, operation, key, response, result } => {
            store::complete_command_outcome(
                before,
                after,
                caller,
                actor,
                operation,
                key,
                response,
                result,
            )
        },
    }
}

/// A store as it changes from one operation to the next.
pub struct History {
    pub stores: Seq<Store>,
    pub steps: Seq<Step>,
}

impl History {
    /// Whether each operation leads from one store to the next.
    pub open spec fn holds(self) -> bool {
        &&& self.stores.len() == self.steps.len() + 1
        &&& forall|k: int| 0 <= k < self.steps.len() ==> #[trigger] self.steps_on(k)
    }

    /// Whether the history begins with an empty store.
    pub open spec fn starts_empty(self) -> bool {
        self.holds() && store::is_empty(self.stores[0])
    }

    /// Whether the k-th operation leads from the k-th store to the next.
    pub open spec fn steps_on(self, k: int) -> bool {
        takes(self.stores[k], self.stores[k + 1], self.steps[k])
    }
}

} // verus!
