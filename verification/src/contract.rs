//! The names of the capabilities, their operations and the permissions they need.
use vstd::prelude::*;

verus! {

/// The Projects contract.
pub const PROJECTS_CAPABILITY: &'static str = "lenso.projects@1";

/// The Projects Collaboration contract.
pub const COLLABORATION_CAPABILITY: &'static str = "lenso.projects-collaboration@1";

/// The Projects Admin contract.
pub const ADMIN_CAPABILITY: &'static str = "lenso.projects-admin@1";

/// The data export contract.
pub const EXPORT_CAPABILITY: &'static str = "lenso.data-export-source@1";

/// The retention contract.
pub const RETENTION_CAPABILITY: &'static str = "lenso.retention-participant@1";

/// The organization membership contract.
pub const MEMBERSHIP_CAPABILITY: &'static str = "lenso.organization-membership@1";

/// The access control contract.
pub const ACCESS_CAPABILITY: &'static str = "lenso.access-control@1";

/// The secrets contract.
pub const SECRETS_CAPABILITY: &'static str = "lenso.secrets@1";

/// The authentication contract.
pub const AUTH_CAPABILITY: &'static str = "lenso.auth@1";

/// The agent tool provider contract.
pub const TOOL_PROVIDER_CAPABILITY: &'static str = "lenso.agent.tool-provider@2";

/// The permission to read projects and issues.
pub const READ_PERMISSION: &'static str = "projects.read";

/// The permission to change projects and issues.
pub const WRITE_PERMISSION: &'static str = "projects.write";

/// The permission to comment, post updates and relate issues.
pub const COLLABORATE_PERMISSION: &'static str = "projects.collaborate";

/// The permission to administer teams and catalogs.
pub const ADMIN_PERMISSION: &'static str = "projects.admin";

/// The operation of the data export contract.
pub const COLLECT_EXPORT_OPERATION: &'static str = "collect_export";

/// The operation of the retention contract.
pub const APPLY_RETENTION_OPERATION: &'static str = "apply_retention";

/// An operation of the Projects contract.
pub const CREATE_PROJECT_OPERATION: &'static str = "create_project";

/// An operation of the Projects contract.
pub const GET_PROJECT_OPERATION: &'static str = "get_project";

/// An operation of the Projects contract.
pub const LIST_PROJECTS_OPERATION: &'static str = "list_projects";

/// An operation of the Projects contract.
pub const UPDATE_PROJECT_OPERATION: &'static str = "update_project";

/// An operation of the Projects contract.
pub const ARCHIVE_PROJECT_OPERATION: &'static str = "archive_project";

/// An operation of the Projects contract.
pub const CREATE_ISSUE_OPERATION: &'static str = "create_issue";

/// An operation of the Projects contract.
pub const GET_ISSUE_OPERATION: &'static str = "get_issue";

/// An operation of the Projects contract.
pub const LIST_ISSUES_OPERATION: &'static str = "list_issues";

/// An operation of the Projects contract.
pub const UPDATE_ISSUE_OPERATION: &'static str = "update_issue";

/// An operation of the Projects contract.
pub const MOVE_ISSUE_OPERATION: &'static str = "move_issue";

/// An operation of the Projects contract.
pub const ARCHIVE_ISSUE_OPERATION: &'static str = "archive_issue";

/// An operation of the Projects contract.
pub const PUT_EXTERNAL_LINK_OPERATION: &'static str = "put_external_link";

/// An operation of the Projects contract.
pub const LIST_ACTIVITY_OPERATION: &'static str = "list_activity";

/// An operation of the Projects contract.
pub const LIST_ISSUE_WORKFLOW_STATES_OPERATION: &'static str = "list_issue_workflow_states";

/// An operation of the Projects Collaboration contract.
pub const ADD_COMMENT_OPERATION: &'static str = "add_comment";

/// An operation of the Projects Collaboration contract.
pub const UPDATE_COMMENT_OPERATION: &'static str = "update_comment";

/// An operation of the Projects Collaboration contract.
pub const DELETE_COMMENT_OPERATION: &'static str = "delete_comment";

/// An operation of the Projects Collaboration contract.
pub const LIST_COMMENTS_OPERATION: &'static str = "list_comments";

/// An operation of the Projects Collaboration contract.
pub const CREATE_PROJECT_UPDATE_OPERATION: &'static str = "create_project_update";

/// An operation of the Projects Collaboration contract.
pub const LIST_PROJECT_UPDATES_OPERATION: &'static str = "list_project_updates";

/// An operation of the Projects Collaboration contract.
pub const ADD_ISSUE_RELATION_OPERATION: &'static str = "add_issue_relation";

/// An operation of the Projects Collaboration contract.
pub const REMOVE_ISSUE_RELATION_OPERATION: &'static str = "remove_issue_relation";

/// An operation of the Projects Collaboration contract.
pub const GET_ISSUE_ASSIGNEE_OPERATION: &'static str = "get_issue_assignee";

/// An operation of the Projects Collaboration contract.
pub const SET_ISSUE_ASSIGNEE_OPERATION: &'static str = "set_issue_assignee";

/// An operation of the Projects Admin contract.
pub const PUT_TEAM_OPERATION: &'static str = "put_team";

/// An operation of the Projects Admin contract.
pub const LIST_TEAMS_OPERATION: &'static str = "list_teams";

/// An operation of the Projects Admin contract.
pub const SET_TEAM_MEMBER_OPERATION: &'static str = "set_team_member";

/// An operation of the Projects Admin contract.
pub const PUT_WORKFLOW_STATE_OPERATION: &'static str = "put_workflow_state";

/// An operation of the Projects Admin contract.
pub const GET_WORKFLOW_STATE_OPERATION: &'static str = "get_workflow_state";

/// An operation of the Projects Admin contract.
pub const REORDER_WORKFLOW_STATES_OPERATION: &'static str = "reorder_workflow_states";

/// An operation of the Projects Admin contract.
pub const ARCHIVE_WORKFLOW_STATE_OPERATION: &'static str = "archive_workflow_state";

/// An operation of the Projects Admin contract.
pub const DELETE_WORKFLOW_STATE_OPERATION: &'static str = "delete_workflow_state";

/// An operation of the Projects Admin contract.
pub const LIST_WORKFLOW_STATES_OPERATION: &'static str = "list_workflow_states";

/// An operation of the Projects Admin contract.
pub const PUT_PROJECT_STATUS_OPERATION: &'static str = "put_project_status";

/// An operation of the Projects Admin contract.
pub const GET_PROJECT_STATUS_OPERATION: &'static str = "get_project_status";

/// An operation of the Projects Admin contract.
pub const REORDER_PROJECT_STATUSES_OPERATION: &'static str = "reorder_project_statuses";

/// An operation of the Projects Admin contract.
pub const ARCHIVE_PROJECT_STATUS_OPERATION: &'static str = "archive_project_status";

/// An operation of the Projects Admin contract.
pub const DELETE_PROJECT_STATUS_OPERATION: &'static str = "delete_project_status";

/// An operation of the Projects Admin contract.
pub const LIST_PROJECT_STATUSES_OPERATION: &'static str = "list_project_statuses";

/// An operation of the Projects Admin contract.
pub const PUT_LABEL_OPERATION: &'static str = "put_label";

/// An operation of the Projects Admin contract.
pub const LIST_LABELS_OPERATION: &'static str = "list_labels";

/// An operation of the Projects Admin contract.
pub const PUT_CYCLE_OPERATION: &'static str = "put_cycle";

/// An operation of the Projects Admin contract.
pub const LIST_CYCLES_OPERATION: &'static str = "list_cycles";

/// An operation of the Projects Admin contract.
pub const PUT_MILESTONE_OPERATION: &'static str = "put_milestone";

/// An operation of the Projects Admin contract.
pub const LIST_MILESTONES_OPERATION: &'static str = "list_milestones";

} // verus!
