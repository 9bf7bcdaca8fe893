//! The operations of the three product contracts: what each is called, which permission it takes and
//! who may call it.
use crate::access::AccessRequest;
use crate::config::ProjectsConfig;
use crate::contract::{
    ADD_COMMENT_OPERATION, ADD_ISSUE_RELATION_OPERATION, ADMIN_CAPABILITY, ADMIN_PERMISSION,
    ARCHIVE_ISSUE_OPERATION, ARCHIVE_PROJECT_OPERATION, ARCHIVE_PROJECT_STATUS_OPERATION,
    ARCHIVE_WORKFLOW_STATE_OPERATION, COLLABORATE_PERMISSION, COLLABORATION_CAPABILITY,
    CREATE_ISSUE_OPERATION, CREATE_PROJECT_OPERATION, CREATE_PROJECT_UPDATE_OPERATION,
    DELETE_COMMENT_OPERATION, DELETE_PROJECT_STATUS_OPERATION, DELETE_WORKFLOW_STATE_OPERATION,
    GET_ISSUE_ASSIGNEE_OPERATION, GET_ISSUE_OPERATION, GET_PROJECT_OPERATION,
    GET_PROJECT_STATUS_OPERATION, GET_WORKFLOW_STATE_OPERATION, LIST_ACTIVITY_OPERATION,
    LIST_COMMENTS_OPERATION, LIST_CYCLES_OPERATION, LIST_ISSUES_OPERATION,
    LIST_ISSUE_WORKFLOW_STATES_OPERATION, LIST_LABELS_OPERATION, LIST_MILESTONES_OPERATION,
    LIST_PROJECTS_OPERATION, LIST_PROJECT_STATUSES_OPERATION, LIST_PROJECT_UPDATES_OPERATION,
    LIST_TEAMS_OPERATION, LIST_WORKFLOW_STATES_OPERATION, MOVE_ISSUE_OPERATION, PROJECTS_CAPABILITY,
    PUT_CYCLE_OPERATION, PUT_EXTERNAL_LINK_OPERATION, PUT_LABEL_OPERATION, PUT_MILESTONE_OPERATION,
    PUT_PROJECT_STATUS_OPERATION, PUT_TEAM_OPERATION, PUT_WORKFLOW_STATE_OPERATION, READ_PERMISSION,
    REMOVE_ISSUE_RELATION_OPERATION, REORDER_PROJECT_STATUSES_OPERATION,
    REORDER_WORKFLOW_STATES_OPERATION, SET_ISSUE_ASSIGNEE_OPERATION, SET_TEAM_MEMBER_OPERATION,
    UPDATE_COMMENT_OPERATION, UPDATE_ISSUE_OPERATION, UPDATE_PROJECT_OPERATION, WRITE_PERMISSION,
};
use vstd::prelude::*;

verus! {

/// An operation of one of the product contracts.
#[derive(Clone, Copy, Debug, PartialEq, Eq, Structural)]
pub enum Operation {
    CreateProject,
    GetProject,
    ListProjects,
    UpdateProject,
    ArchiveProject,
    CreateIssue,
    GetIssue,
    ListIssues,
    UpdateIssue,
    MoveIssue,
    ArchiveIssue,
    PutExternalLink,
    ListActivity,
    ListIssueWorkflowStates,
    AddComment,
    UpdateComment,
    DeleteComment,
    ListComments,
    CreateProjectUpdate,
    ListProjectUpdates,
    AddIssueRelation,
    RemoveIssueRelation,
    GetIssueAssignee,
    SetIssueAssignee,
    PutTeam,
    ListTeams,
    SetTeamMember,
    PutWorkflowState,
    GetWorkflowState,
    ReorderWorkflowStates,
    ArchiveWorkflowState,
    DeleteWorkflowState,
    ListWorkflowStates,
    PutProjectStatus,
    GetProjectStatus,
    ReorderProjectStatuses,
    ArchiveProjectStatus,
    DeleteProjectStatus,
    ListProjectStatuses,
    PutLabel,
    ListLabels,
    PutCycle,
    ListCycles,
    PutMilestone,
    ListMilestones,
}

/// The name of an operation.
pub open spec fn operation_name(operation: Operation) -> Seq<char> {
    match operation {
        Operation::CreateProject => CREATE_PROJECT_OPERATION@,
        Operation::GetProject => GET_PROJECT_OPERATION@,
        Operation::ListProjects => LIST_PROJECTS_OPERATION@,
        Operation::UpdateProject => UPDATE_PROJECT_OPERATION@,
        Operation::ArchiveProject => ARCHIVE_PROJECT_OPERATION@,
        Operation::CreateIssue => CREATE_ISSUE_OPERATION@,
        Operation::GetIssue => GET_ISSUE_OPERATION@,
        Operation::ListIssues => LIST_ISSUES_OPERATION@,
        Operation::UpdateIssue => UPDATE_ISSUE_OPERATION@,
        Operation::MoveIssue => MOVE_ISSUE_OPERATION@,
        Operation::ArchiveIssue => ARCHIVE_ISSUE_OPERATION@,
        Operation::PutExternalLink => PUT_EXTERNAL_LINK_OPERATION@,
        Operation::ListActivity => LIST_ACTIVITY_OPERATION@,
        Operation::ListIssueWorkflowStates => LIST_ISSUE_WORKFLOW_STATES_OPERATION@,
        Operation::AddComment => ADD_COMMENT_OPERATION@,
        Operation::UpdateComment => UPDATE_COMMENT_OPERATION@,
        Operation::DeleteComment => DELETE_COMMENT_OPERATION@,
        Operation::ListComments => LIST_COMMENTS_OPERATION@,
        Operation::CreateProjectUpdate => CREATE_PROJECT_UPDATE_OPERATION@,
        Operation::ListProjectUpdates => LIST_PROJECT_UPDATES_OPERATION@,
        Operation::AddIssueRelation => ADD_ISSUE_RELATION_OPERATION@,
        Operation::RemoveIssueRelation => REMOVE_ISSUE_RELATION_OPERATION@,
        Operation::GetIssueAssignee => GET_ISSUE_ASSIGNEE_OPERATION@,
        Operation::SetIssueAssignee => SET_ISSUE_ASSIGNEE_OPERATION@,
        Operation::PutTeam => PUT_TEAM_OPERATION@,
        Operation::ListTeams => LIST_TEAMS_OPERATION@,
        Operation::SetTeamMember => SET_TEAM_MEMBER_OPERATION@,
        Operation::PutWorkflowState => PUT_WORKFLOW_STATE_OPERATION@,
        Operation::GetWorkflowState => GET_WORKFLOW_STATE_OPERATION@,
        Operation::ReorderWorkflowStates => REORDER_WORKFLOW_STATES_OPERATION@,
        Operation::ArchiveWorkflowState => ARCHIVE_WORKFLOW_STATE_OPERATION@,
        Operation::DeleteWorkflowState => DELETE_WORKFLOW_STATE_OPERATION@,
        Operation::ListWorkflowStates => LIST_WORKFLOW_STATES_OPERATION@,
        Operation::PutProjectStatus => PUT_PROJECT_STATUS_OPERATION@,
        Operation::GetProjectStatus => GET_PROJECT_STATUS_OPERATION@,
        Operation::ReorderProjectStatuses => REORDER_PROJECT_STATUSES_OPERATION@,
        Operation::ArchiveProjectStatus => ARCHIVE_PROJECT_STATUS_OPERATION@,
        Operation::DeleteProjectStatus => DELETE_PROJECT_STATUS_OPERATION@,
        Operation::ListProjectStatuses => LIST_PROJECT_STATUSES_OPERATION@,
        Operation::PutLabel => PUT_LABEL_OPERATION@,
        Operation::ListLabels => LIST_LABELS_OPERATION@,
        Operation::PutCycle => PUT_CYCLE_OPERATION@,
        Operation::ListCycles => LIST_CYCLES_OPERATION@,
        Operation::PutMilestone => PUT_MILESTONE_OPERATION@,
        Operation::ListMilestones => LIST_MILESTONES_OPERATION@,
    }
}

/// The contract of an operation.
pub open spec fn operation_capability(operation: Operation) -> Seq<char> {
    match operation {
        Operation::CreateProject => PROJECTS_CAPABILITY@,
        Operation::GetProject => PROJECTS_CAPABILITY@,
        Operation::ListProjects => PROJECTS_CAPABILITY@,
        Operation::UpdateProject => PROJECTS_CAPABILITY@,
        Operation::ArchiveProject => PROJECTS_CAPABILITY@,
        Operation::CreateIssue => PROJECTS_CAPABILITY@,
        Operation::GetIssue => PROJECTS_CAPABILITY@,
        Operation::ListIssues => PROJECTS_CAPABILITY@,
        Operation::UpdateIssue => PROJECTS_CAPABILITY@,
        Operation::MoveIssue => PROJECTS_CAPABILITY@,
        Operation::ArchiveIssue => PROJECTS_CAPABILITY@,
        Operation::PutExternalLink => PROJECTS_CAPABILITY@,
        Operation::ListActivity => PROJECTS_CAPABILITY@,
        Operation::ListIssueWorkflowStates => PROJECTS_CAPABILITY@,
        Operation::AddComment => COLLABORATION_CAPABILITY@,
        Operation::UpdateComment => COLLABORATION_CAPABILITY@,
        Operation::DeleteComment => COLLABORATION_CAPABILITY@,
        Operation::ListComments => COLLABORATION_CAPABILITY@,
        Operation::CreateProjectUpdate => COLLABORATION_CAPABILITY@,
        Operation::ListProjectUpdates => COLLABORATION_CAPABILITY@,
        Operation::AddIssueRelation => COLLABORATION_CAPABILITY@,
        Operation::RemoveIssueRelation => COLLABORATION_CAPABILITY@,
        Operation::GetIssueAssignee => COLLABORATION_CAPABILITY@,
        Operation::SetIssueAssignee => COLLABORATION_CAPABILITY@,
        Operation::PutTeam => ADMIN_CAPABILITY@,
        Operation::ListTeams => ADMIN_CAPABILITY@,
        Operation::SetTeamMember => ADMIN_CAPABILITY@,
        Operation::PutWorkflowState => ADMIN_CAPABILITY@,
        Operation::GetWorkflowState => ADMIN_CAPABILITY@,
        Operation::ReorderWorkflowStates => ADMIN_CAPABILITY@,
        Operation::ArchiveWorkflowState => ADMIN_CAPABILITY@,
        Operation::DeleteWorkflowState => ADMIN_CAPABILITY@,
        Operation::ListWorkflowStates => ADMIN_CAPABILITY@,
        Operation::PutProjectStatus => ADMIN_CAPABILITY@,
        Operation::GetProjectStatus => ADMIN_CAPABILITY@,
        Operation::ReorderProjectStatuses => ADMIN_CAPABILITY@,
        Operation::ArchiveProjectStatus => ADMIN_CAPABILITY@,
        Operation::DeleteProjectStatus => ADMIN_CAPABILITY@,
        Operation::ListProjectStatuses => ADMIN_CAPABILITY@,
        Operation::PutLabel => ADMIN_CAPABILITY@,
        Operation::ListLabels => ADMIN_CAPABILITY@,
        Operation::PutCycle => ADMIN_CAPABILITY@,
        Operation::ListCycles => ADMIN_CAPABILITY@,
        Operation::PutMilestone => ADMIN_CAPABILITY@,
        Operation::ListMilestones => ADMIN_CAPABILITY@,
    }
}

/// The permission that an operation takes.
pub open spec fn operation_permission(operation: Operation) -> Seq<char> {
    match operation {
        Operation::CreateProject => WRITE_PERMISSION@,
        Operation::GetProject => READ_PERMISSION@,
        Operation::ListProjects => READ_PERMISSION@,
        Operation::UpdateProject => WRITE_PERMISSION@,
        Operation::ArchiveProject => WRITE_PERMISSION@,
        Operation::CreateIssue => WRITE_PERMISSION@,
        Operation::GetIssue => READ_PERMISSION@,
        Operation::ListIssues => READ_PERMISSION@,
        Operation::UpdateIssue => WRITE_PERMISSION@,
        Operation::MoveIssue => WRITE_PERMISSION@,
        Operation::ArchiveIssue => WRITE_PERMISSION@,
        Operation::PutExternalLink => WRITE_PERMISSION@,
        Operation::ListActivity => READ_PERMISSION@,
        Operation::ListIssueWorkflowStates => READ_PERMISSION@,
        Operation::AddComment => COLLABORATE_PERMISSION@,
        Operation::UpdateComment => COLLABORATE_PERMISSION@,
        Operation::DeleteComment => COLLABORATE_PERMISSION@,
        Operation::ListComments => READ_PERMISSION@,
        Operation::CreateProjectUpdate => COLLABORATE_PERMISSION@,
        Operation::ListProjectUpdates => READ_PERMISSION@,
        Operation::AddIssueRelation => COLLABORATE_PERMISSION@,
        Operation::RemoveIssueRelation => COLLABORATE_PERMISSION@,
        Operation::GetIssueAssignee => READ_PERMISSION@,
        Operation::SetIssueAssignee => WRITE_PERMISSION@,
        Operation::PutTeam => ADMIN_PERMISSION@,
        Operation::ListTeams => ADMIN_PERMISSION@,
        Operation::SetTeamMember => ADMIN_PERMISSION@,
        Operation::PutWorkflowState => ADMIN_PERMISSION@,
        Operation::GetWorkflowState => ADMIN_PERMISSION@,
        Operation::ReorderWorkflowStates => ADMIN_PERMISSION@,
        Operation::ArchiveWorkflowState => ADMIN_PERMISSION@,
        Operation::DeleteWorkflowState => ADMIN_PERMISSION@,
        Operation::ListWorkflowStates => ADMIN_PERMISSION@,
        Operation::PutProjectStatus => ADMIN_PERMISSION@,
        Operation::GetProjectStatus => ADMIN_PERMISSION@,
        Operation::ReorderProjectStatuses => ADMIN_PERMISSION@,
        Operation::ArchiveProjectStatus => ADMIN_PERMISSION@,
        Operation::DeleteProjectStatus => ADMIN_PERMISSION@,
        Operation::ListProjectStatuses => ADMIN_PERMISSION@,
        Operation::PutLabel => ADMIN_PERMISSION@,
        Operation::ListLabels => ADMIN_PERMISSION@,
        Operation::PutCycle => ADMIN_PERMISSION@,
        Operation::ListCycles => ADMIN_PERMISSION@,
        Operation::PutMilestone => ADMIN_PERMISSION@,
        Operation::ListMilestones => ADMIN_PERMISSION@,
    }
}

impl Operation {
    /// The name of the operation.
    pub fn name(self) -> (result: &'static str)
        ensures
            result@ == operation_name(self),
    {
        match self {
            Operation::CreateProject => CREATE_PROJECT_OPERATION,
            Operation::GetProject => GET_PROJECT_OPERATION,
            Operation::ListProjects => LIST_PROJECTS_OPERATION,
            Operation::UpdateProject => UPDATE_PROJECT_OPERATION,
            Operation::ArchiveProject => ARCHIVE_PROJECT_OPERATION,
            Operation::CreateIssue => CREATE_ISSUE_OPERATION,
            Operation::GetIssue => GET_ISSUE_OPERATION,
            Operation::ListIssues => LIST_ISSUES_OPERATION,
            Operation::UpdateIssue => UPDATE_ISSUE_OPERATION,
            Operation::MoveIssue => MOVE_ISSUE_OPERATION,
            Operation::ArchiveIssue => ARCHIVE_ISSUE_OPERATION,
            Operation::PutExternalLink => PUT_EXTERNAL_LINK_OPERATION,
            Operation::ListActivity => LIST_ACTIVITY_OPERATION,
            Operation::ListIssueWorkflowStates => LIST_ISSUE_WORKFLOW_STATES_OPERATION,
            Operation::AddComment => ADD_COMMENT_OPERATION,
            Operation::UpdateComment => UPDATE_COMMENT_OPERATION,
            Operation::DeleteComment => DELETE_COMMENT_OPERATION,
            Operation::ListComments => LIST_COMMENTS_OPERATION,
            Operation::CreateProjectUpdate => CREATE_PROJECT_UPDATE_OPERATION,
            Operation::ListProjectUpdates => LIST_PROJECT_UPDATES_OPERATION,
            Operation::AddIssueRelation => ADD_ISSUE_RELATION_OPERATION,
            Operation::RemoveIssueRelation => REMOVE_ISSUE_RELATION_OPERATION,
            Operation::GetIssueAssignee => GET_ISSUE_ASSIGNEE_OPERATION,
            Operation::SetIssueAssignee => SET_ISSUE_ASSIGNEE_OPERATION,
            Operation::PutTeam => PUT_TEAM_OPERATION,
            Operation::ListTeams => LIST_TEAMS_OPERATION,
            Operation::SetTeamMember => SET_TEAM_MEMBER_OPERATION,
            Operation::PutWorkflowState => PUT_WORKFLOW_STATE_OPERATION,
            Operation::GetWorkflowState => GET_WORKFLOW_STATE_OPERATION,
            Operation::ReorderWorkflowStates => REORDER_WORKFLOW_STATES_OPERATION,
            Operation::ArchiveWorkflowState => ARCHIVE_WORKFLOW_STATE_OPERATION,
            Operation::DeleteWorkflowState => DELETE_WORKFLOW_STATE_OPERATION,
            Operation::ListWorkflowStates => LIST_WORKFLOW_STATES_OPERATION,
            Operation::PutProjectStatus => PUT_PROJECT_STATUS_OPERATION,
            Operation::GetProjectStatus => GET_PROJECT_STATUS_OPERATION,
            Operation::ReorderProjectStatuses => REORDER_PROJECT_STATUSES_OPERATION,
            Operation::ArchiveProjectStatus => ARCHIVE_PROJECT_STATUS_OPERATION,
            Operation::DeleteProjectStatus => DELETE_PROJECT_STATUS_OPERATION,
            Operation::ListProjectStatuses => LIST_PROJECT_STATUSES_OPERATION,
            Operation::PutLabel => PUT_LABEL_OPERATION,
            Operation::ListLabels => LIST_LABELS_OPERATION,
            Operation::PutCycle => PUT_CYCLE_OPERATION,
            Operation::ListCycles => LIST_CYCLES_OPERATION,
            Operation::PutMilestone => PUT_MILESTONE_OPERATION,
            Operation::ListMilestones => LIST_MILESTONES_OPERATION,
        }
    }

    /// The contract of the operation.
    pub fn capability(self) -> (result: &'static str)
        ensures
            result@ == operation_capability(self),
    {
        match self {
            Operation::CreateProject => PROJECTS_CAPABILITY,
            Operation::GetProject => PROJECTS_CAPABILITY,
            Operation::ListProjects => PROJECTS_CAPABILITY,
            Operation::UpdateProject => PROJECTS_CAPABILITY,
            Operation::ArchiveProject => PROJECTS_CAPABILITY,
            Operation::CreateIssue => PROJECTS_CAPABILITY,
            Operation::GetIssue => PROJECTS_CAPABILITY,
            Operation::ListIssues => PROJECTS_CAPABILITY,
            Operation::UpdateIssue => PROJECTS_CAPABILITY,
            Operation::MoveIssue => PROJECTS_CAPABILITY,
            Operation::ArchiveIssue => PROJECTS_CAPABILITY,
            Operation::PutExternalLink => PROJECTS_CAPABILITY,
            Operation::ListActivity => PROJECTS_CAPABILITY,
            Operation::ListIssueWorkflowStates => PROJECTS_CAPABILITY,
            Operation::AddComment => COLLABORATION_CAPABILITY,
            Operation::UpdateComment => COLLABORATION_CAPABILITY,
            Operation::DeleteComment => COLLABORATION_CAPABILITY,
            Operation::ListComments => COLLABORATION_CAPABILITY,
            Operation::CreateProjectUpdate => COLLABORATION_CAPABILITY,
            Operation::ListProjectUpdates => COLLABORATION_CAPABILITY,
            Operation::AddIssueRelation => COLLABORATION_CAPABILITY,
            Operation::RemoveIssueRelation => COLLABORATION_CAPABILITY,
            Operation::GetIssueAssignee => COLLABORATION_CAPABILITY,
            Operation::SetIssueAssignee => COLLABORATION_CAPABILITY,
            Operation::PutTeam => ADMIN_CAPABILITY,
            Operation::ListTeams => ADMIN_CAPABILITY,
            Operation::SetTeamMember => ADMIN_CAPABILITY,
            Operation::PutWorkflowState => ADMIN_CAPABILITY,
            Operation::GetWorkflowState => ADMIN_CAPABILITY,
            Operation::ReorderWorkflowStates => ADMIN_CAPABILITY,
            Operation::ArchiveWorkflowState => ADMIN_CAPABILITY,
            Operation::DeleteWorkflowState => ADMIN_CAPABILITY,
            Operation::ListWorkflowStates => ADMIN_CAPABILITY,
            Operation::PutProjectStatus => ADMIN_CAPABILITY,
            Operation::GetProjectStatus => ADMIN_CAPABILITY,
            Operation::ReorderProjectStatuses => ADMIN_CAPABILITY,
            Operation::ArchiveProjectStatus => ADMIN_CAPABILITY,
            Operation::DeleteProjectStatus => ADMIN_CAPABILITY,
            Operation::ListProjectStatuses => ADMIN_CAPABILITY,
            Operation::PutLabel => ADMIN_CAPABILITY,
            Operation::ListLabels => ADMIN_CAPABILITY,
            Operation::PutCycle => ADMIN_CAPABILITY,
            Operation::ListCycles => ADMIN_CAPABILITY,
            Operation::PutMilestone => ADMIN_CAPABILITY,
            Operation::ListMilestones => ADMIN_CAPABILITY,
        }
    }

    /// The permission that the operation takes.
    pub fn permission(self) -> (result: &'static str)
        ensures
            result@ == operation_permission(self),
    {
        match self {
            Operation::CreateProject => WRITE_PERMISSION,
            Operation::GetProject => READ_PERMISSION,
            Operation::ListProjects => READ_PERMISSION,
            Operation::UpdateProject => WRITE_PERMISSION,
            Operation::ArchiveProject => WRITE_PERMISSION,
            Operation::CreateIssue => WRITE_PERMISSION,
            Operation::GetIssue => READ_PERMISSION,
            Operation::ListIssues => READ_PERMISSION,
            Operation::UpdateIssue => WRITE_PERMISSION,
            Operation::MoveIssue => WRITE_PERMISSION,
            Operation::ArchiveIssue => WRITE_PERMISSION,
            Operation::PutExternalLink => WRITE_PERMISSION,
            Operation::ListActivity => READ_PERMISSION,
            Operation::ListIssueWorkflowStates => READ_PERMISSION,
            Operation::AddComment => COLLABORATE_PERMISSION,
            Operation::UpdateComment => COLLABORATE_PERMISSION,
            Operation::DeleteComment => COLLABORATE_PERMISSION,
            Operation::ListComments => READ_PERMISSION,
            Operation::CreateProjectUpdate => COLLABORATE_PERMISSION,
            Operation::ListProjectUpdates => READ_PERMISSION,
            Operation::AddIssueRelation => COLLABORATE_PERMISSION,
            Operation::RemoveIssueRelation => COLLABORATE_PERMISSION,
            Operation::GetIssueAssignee => READ_PERMISSION,
            Operation::SetIssueAssignee => WRITE_PERMISSION,
            Operation::PutTeam => ADMIN_PERMISSION,
            Operation::ListTeams => ADMIN_PERMISSION,
            Operation::SetTeamMember => ADMIN_PERMISSION,
            Operation::PutWorkflowState => ADMIN_PERMISSION,
            Operation::GetWorkflowState => ADMIN_PERMISSION,
            Operation::ReorderWorkflowStates => ADMIN_PERMISSION,
            Operation::ArchiveWorkflowState => ADMIN_PERMISSION,
            Operation::DeleteWorkflowState => ADMIN_PERMISSION,
            Operation::ListWorkflowStates => ADMIN_PERMISSION,
            Operation::PutProjectStatus => ADMIN_PERMISSION,
            Operation::GetProjectStatus => ADMIN_PERMISSION,
            Operation::ReorderProjectStatuses => ADMIN_PERMISSION,
            Operation::ArchiveProjectStatus => ADMIN_PERMISSION,
            Operation::DeleteProjectStatus => ADMIN_PERMISSION,
            Operation::ListProjectStatuses => ADMIN_PERMISSION,
            Operation::PutLabel => ADMIN_PERMISSION,
            Operation::ListLabels => ADMIN_PERMISSION,
            Operation::PutCycle => ADMIN_PERMISSION,
            Operation::ListCycles => ADMIN_PERMISSION,
            Operation::PutMilestone => ADMIN_PERMISSION,
            Operation::ListMilestones => ADMIN_PERMISSION,
        }
    }

    /// The callers that may invoke the operation.
    pub fn callers(self, config: &ProjectsConfig) -> (callers: &Vec<String>)
        ensures
            *callers == operation_callers(self, *config),
    {
        proof {
            reveal_strlit("lenso.projects@1");
            reveal_strlit("lenso.projects-collaboration@1");
            reveal_strlit("lenso.projects-admin@1");
            assert(PROJECTS_CAPABILITY@.len() < ADMIN_CAPABILITY@.len());
            assert(ADMIN_CAPABILITY@.len() < COLLABORATION_CAPABILITY@.len());
        }
        match self {
            Operation::PutTeam => &config.admin_callers,
            Operation::ListTeams => &config.admin_callers,
            Operation::SetTeamMember => &config.admin_callers,
            Operation::PutWorkflowState => &config.admin_callers,
            Operation::GetWorkflowState => &config.admin_callers,
            Operation::ReorderWorkflowStates => &config.admin_callers,
            Operation::ArchiveWorkflowState => &config.admin_callers,
            Operation::DeleteWorkflowState => &config.admin_callers,
            Operation::ListWorkflowStates => &config.admin_callers,
            Operation::PutProjectStatus => &config.admin_callers,
            Operation::GetProjectStatus => &config.admin_callers,
            Operation::ReorderProjectStatuses => &config.admin_callers,
            Operation::ArchiveProjectStatus => &config.admin_callers,
            Operation::DeleteProjectStatus => &config.admin_callers,
            Operation::ListProjectStatuses => &config.admin_callers,
            Operation::PutLabel => &config.admin_callers,
            Operation::ListLabels => &config.admin_callers,
            Operation::PutCycle => &config.admin_callers,
            Operation::ListCycles => &config.admin_callers,
            Operation::PutMilestone => &config.admin_callers,
            Operation::ListMilestones => &config.admin_callers,
            _ => &config.project_callers,
        }
    }

    /// What an invocation of the operation on an organization asks for.
    pub fn access_request(self, organization_id: &str) -> (request: AccessRequest)
        ensures
            request.capability@ == operation_capability(self),
            request.operation@ == operation_name(self),
            request.organization_id@ == organization_id@,
            request.permission@ == operation_permission(self),
    {
        AccessRequest {
            capability: self.capability().to_owned(),
            operation: self.name().to_owned(),
            organization_id: organization_id.to_owned(),
            permission: self.permission().to_owned(),
        }
    }
}

/// The callers that may invoke an operation: the operations of the admin contract have their own.
pub open spec fn operation_callers(operation: Operation, config: ProjectsConfig) -> Vec<String> {
    if operation_capability(operation) == ADMIN_CAPABILITY@ {
        config.admin_callers
    } else {
        config.project_callers
    }
}

} // verus!
