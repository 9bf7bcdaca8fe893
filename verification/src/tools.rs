//! Agent-facing tools over the Projects contracts: their catalog, and how refusals reach an agent.
use crate::failure::{CollaborationError, PluginError, ProjectsError, RuntimeFailure};
use crate::json;
use crate::json::quoted;
use crate::operations::Operation;
use crate::text::same;
use vstd::prelude::*;

verus! {

/// The tool that invokes `list_projects`.
pub const LIST_PROJECTS_TOOL: &'static str = "projects_list_projects";

/// The tool that invokes `get_project`.
pub const GET_PROJECT_TOOL: &'static str = "projects_get_project";

/// The tool that invokes `list_issues`.
pub const LIST_ISSUES_TOOL: &'static str = "projects_list_issues";

/// The tool that invokes `get_issue`.
pub const GET_ISSUE_TOOL: &'static str = "projects_get_issue";

/// The tool that invokes `create_issue`.
pub const CREATE_ISSUE_TOOL: &'static str = "projects_create_issue";

/// The tool that invokes `update_issue`.
pub const UPDATE_ISSUE_TOOL: &'static str = "projects_update_issue";

/// The tool that invokes `move_issue`.
pub const MOVE_ISSUE_TOOL: &'static str = "projects_move_issue";

/// The tool that invokes `list_comments`.
pub const LIST_COMMENTS_TOOL: &'static str = "projects_list_comments";

/// The tool that invokes `add_comment`.
pub const ADD_COMMENT_TOOL: &'static str = "projects_add_comment";

/// What the arguments of `list_projects` look like.
pub const LIST_PROJECTS_SCHEMA: &'static str = "{\"type\":\"object\",\"required\":[\"organization_id\",\"include_archived\",\"limit\"],\"properties\":{\"organization_id\":{\"type\":\"string\"},\"team_id\":{\"type\":[\"string\",\"null\"]},\"include_archived\":{\"type\":\"boolean\"},\"limit\":{\"type\":\"integer\",\"minimum\":1,\"maximum\":100},\"after\":{\"type\":[\"string\",\"null\"]}},\"additionalProperties\":false}";

/// What the arguments of `get_project` look like.
pub const GET_PROJECT_SCHEMA: &'static str = "{\"type\":\"object\",\"required\":[\"organization_id\",\"project_id\"],\"properties\":{\"organization_id\":{\"type\":\"string\"},\"project_id\":{\"type\":\"string\"}},\"additionalProperties\":false}";

/// What the arguments of `list_issues` look like.
pub const LIST_ISSUES_SCHEMA: &'static str = "{\"type\":\"object\",\"required\":[\"organization_id\",\"include_archived\",\"limit\"],\"properties\":{\"organization_id\":{\"type\":\"string\"},\"project_id\":{\"type\":[\"string\",\"null\"]},\"team_id\":{\"type\":[\"string\",\"null\"]},\"workflow_state_id\":{\"type\":[\"string\",\"null\"]},\"include_archived\":{\"type\":\"boolean\"},\"limit\":{\"type\":\"integer\",\"minimum\":1,\"maximum\":100},\"after\":{\"type\":[\"string\",\"null\"]}},\"additionalProperties\":false}";

/// What the arguments of `get_issue` look like.
pub const GET_ISSUE_SCHEMA: &'static str = "{\"type\":\"object\",\"required\":[\"organization_id\",\"issue_ref\"],\"properties\":{\"organization_id\":{\"type\":\"string\"},\"issue_ref\":{\"type\":\"string\"}},\"additionalProperties\":false}";

/// What the arguments of `create_issue` look like.
pub const CREATE_ISSUE_SCHEMA: &'static str = "{\"type\":\"object\",\"required\":[\"idempotency_key\",\"organization_id\",\"issue_id\",\"project_id\",\"team_id\",\"title\",\"priority\",\"label_ids\"],\"properties\":{\"idempotency_key\":{\"type\":\"string\"},\"organization_id\":{\"type\":\"string\"},\"issue_id\":{\"type\":\"string\"},\"project_id\":{\"type\":\"string\"},\"team_id\":{\"type\":\"string\"},\"title\":{\"type\":\"string\"},\"description\":{\"type\":[\"string\",\"null\"]},\"priority\":{\"enum\":[\"none\",\"urgent\",\"high\",\"medium\",\"low\"]},\"workflow_state_id\":{\"type\":[\"string\",\"null\"]},\"cycle_id\":{\"type\":[\"string\",\"null\"]},\"milestone_id\":{\"type\":[\"string\",\"null\"]},\"parent_issue_id\":{\"type\":[\"string\",\"null\"]},\"label_ids\":{\"type\":\"array\",\"items\":{\"type\":\"string\"}}},\"additionalProperties\":false}";

/// What the arguments of `update_issue` look like.
pub const UPDATE_ISSUE_SCHEMA: &'static str = "{\"type\":\"object\",\"required\":[\"idempotency_key\",\"organization_id\",\"issue_id\",\"expected_revision\",\"title\",\"priority\",\"workflow_state_id\",\"label_ids\"],\"properties\":{\"idempotency_key\":{\"type\":\"string\"},\"organization_id\":{\"type\":\"string\"},\"issue_id\":{\"type\":\"string\"},\"expected_revision\":{\"type\":\"string\"},\"title\":{\"type\":\"string\"},\"description\":{\"type\":[\"string\",\"null\"]},\"priority\":{\"enum\":[\"none\",\"urgent\",\"high\",\"medium\",\"low\"]},\"workflow_state_id\":{\"type\":\"string\"},\"cycle_id\":{\"type\":[\"string\",\"null\"]},\"milestone_id\":{\"type\":[\"string\",\"null\"]},\"parent_issue_id\":{\"type\":[\"string\",\"null\"]},\"label_ids\":{\"type\":\"array\",\"items\":{\"type\":\"string\"}}},\"additionalProperties\":false}";

/// What the arguments of `move_issue` look like.
pub const MOVE_ISSUE_SCHEMA: &'static str = "{\"type\":\"object\",\"required\":[\"idempotency_key\",\"organization_id\",\"issue_id\",\"expected_revision\",\"team_id\",\"workflow_state_id\"],\"properties\":{\"idempotency_key\":{\"type\":\"string\"},\"organization_id\":{\"type\":\"string\"},\"issue_id\":{\"type\":\"string\"},\"expected_revision\":{\"type\":\"string\"},\"team_id\":{\"type\":\"string\"},\"workflow_state_id\":{\"type\":\"string\"}},\"additionalProperties\":false}";

/// What the arguments of `list_comments` look like.
pub const LIST_COMMENTS_SCHEMA: &'static str = "{\"type\":\"object\",\"required\":[\"organization_id\",\"issue_id\",\"limit\"],\"properties\":{\"organization_id\":{\"type\":\"string\"},\"issue_id\":{\"type\":\"string\"},\"limit\":{\"type\":\"integer\",\"minimum\":1,\"maximum\":100},\"after\":{\"type\":[\"string\",\"null\"]}},\"additionalProperties\":false}";

/// What the arguments of `add_comment` look like.
pub const ADD_COMMENT_SCHEMA: &'static str = "{\"type\":\"object\",\"required\":[\"idempotency_key\",\"organization_id\",\"issue_id\",\"comment_id\",\"body\"],\"properties\":{\"idempotency_key\":{\"type\":\"string\"},\"organization_id\":{\"type\":\"string\"},\"issue_id\":{\"type\":\"string\"},\"comment_id\":{\"type\":\"string\"},\"body\":{\"type\":\"string\"}},\"additionalProperties\":false}";

/// A tool.
#[derive(Clone, Copy, Debug, PartialEq, Eq, Structural)]
pub enum Tool {
    ListProjects,
    GetProject,
    ListIssues,
    GetIssue,
    CreateIssue,
    UpdateIssue,
    MoveIssue,
    ListComments,
    AddComment,
}

/// Whether an agent may run a tool beside others.
#[derive(Clone, Copy, Debug, PartialEq, Eq, Structural)]
pub enum ToolExecutionClass {
    ParallelSafe,
    Exclusive,
}

/// What an agent is told of a tool.
#[derive(Clone, Debug, PartialEq, Eq)]
pub struct ToolDefinition {
    pub name: String,
    pub description: String,
    pub input_schema_json: String,
    pub execution: ToolExecutionClass,
}

/// The name of a tool.
pub open spec fn tool_name(tool: Tool) -> Seq<char> {
    match tool {
        Tool::ListProjects => LIST_PROJECTS_TOOL@,
        Tool::GetProject => GET_PROJECT_TOOL@,
        Tool::ListIssues => LIST_ISSUES_TOOL@,
        Tool::GetIssue => GET_ISSUE_TOOL@,
        Tool::CreateIssue => CREATE_ISSUE_TOOL@,
        Tool::UpdateIssue => UPDATE_ISSUE_TOOL@,
        Tool::MoveIssue => MOVE_ISSUE_TOOL@,
        Tool::ListComments => LIST_COMMENTS_TOOL@,
        Tool::AddComment => ADD_COMMENT_TOOL@,
    }
}

/// What a tool does.
pub open spec fn tool_description(tool: Tool) -> Seq<char> {
    match tool {
        Tool::ListProjects => "List Projects visible to the current actor with bounded cursor pagination."@,
        Tool::GetProject => "Get one visible Project by its stable ID, including the current revision."@,
        Tool::ListIssues => "List visible Issues with optional Project, Team, and workflow-state filters."@,
        Tool::GetIssue => "Get one visible Issue by stable ID, current identifier, or historical identifier."@,
        Tool::CreateIssue => "Create one Issue. Supply a stable issue_id and reuse the same idempotency_key when retrying the same intent."@,
        Tool::UpdateIssue => "Replace the editable fields of one Issue using the revision returned by get_issue. Reuse the same idempotency_key for retries."@,
        Tool::MoveIssue => "Move one Issue to a Team and workflow state using its current revision. Reuse the same idempotency_key for retries."@,
        Tool::ListComments => "List visible comments for one Issue with bounded cursor pagination."@,
        Tool::AddComment => "Add one comment to an Issue. Supply a stable comment_id and reuse the same idempotency_key for retries."@,
    }
}

/// What the arguments of a tool look like.
pub open spec fn tool_schema(tool: Tool) -> Seq<char> {
    match tool {
        Tool::ListProjects => LIST_PROJECTS_SCHEMA@,
        Tool::GetProject => GET_PROJECT_SCHEMA@,
        Tool::ListIssues => LIST_ISSUES_SCHEMA@,
        Tool::GetIssue => GET_ISSUE_SCHEMA@,
        Tool::CreateIssue => CREATE_ISSUE_SCHEMA@,
        Tool::UpdateIssue => UPDATE_ISSUE_SCHEMA@,
        Tool::MoveIssue => MOVE_ISSUE_SCHEMA@,
        Tool::ListComments => LIST_COMMENTS_SCHEMA@,
        Tool::AddComment => ADD_COMMENT_SCHEMA@,
    }
}

/// Whether a tool may run beside others: the reading ones may.
pub open spec fn tool_class(tool: Tool) -> ToolExecutionClass {
    match tool {
        Tool::ListProjects => ToolExecutionClass::ParallelSafe,
        Tool::GetProject => ToolExecutionClass::ParallelSafe,
        Tool::ListIssues => ToolExecutionClass::ParallelSafe,
        Tool::GetIssue => ToolExecutionClass::ParallelSafe,
        Tool::CreateIssue => ToolExecutionClass::Exclusive,
        Tool::UpdateIssue => ToolExecutionClass::Exclusive,
        Tool::MoveIssue => ToolExecutionClass::Exclusive,
        Tool::ListComments => ToolExecutionClass::ParallelSafe,
        Tool::AddComment => ToolExecutionClass::Exclusive,
    }
}

/// The operation that a tool invokes.
pub open spec fn tool_operation(tool: Tool) -> Operation {
    match tool {
        Tool::ListProjects => Operation::ListProjects,
        Tool::GetProject => Operation::GetProject,
        Tool::ListIssues => Operation::ListIssues,
        Tool::GetIssue => Operation::GetIssue,
        Tool::CreateIssue => Operation::CreateIssue,
        Tool::UpdateIssue => Operation::UpdateIssue,
        Tool::MoveIssue => Operation::MoveIssue,
        Tool::ListComments => Operation::ListComments,
        Tool::AddComment => Operation::AddComment,
    }
}

/// The tools, in the order of the catalog.
pub open spec fn tool_order() -> Seq<Tool> {
    seq![
        Tool::ListProjects,
        Tool::GetProject,
        Tool::ListIssues,
        Tool::GetIssue,
        Tool::CreateIssue,
        Tool::UpdateIssue,
        Tool::MoveIssue,
        Tool::ListComments,
        Tool::AddComment,
    ]
}

impl Tool {
    /// The name of the tool.
    pub fn name(self) -> (result: &'static str)
        ensures
            result@ == tool_name(self),
    {
        match self {
            Tool::ListProjects => LIST_PROJECTS_TOOL,
            Tool::GetProject => GET_PROJECT_TOOL,
            Tool::ListIssues => LIST_ISSUES_TOOL,
            Tool::GetIssue => GET_ISSUE_TOOL,
            Tool::CreateIssue => CREATE_ISSUE_TOOL,
            Tool::UpdateIssue => UPDATE_ISSUE_TOOL,
            Tool::MoveIssue => MOVE_ISSUE_TOOL,
            Tool::ListComments => LIST_COMMENTS_TOOL,
            Tool::AddComment => ADD_COMMENT_TOOL,
        }
    }

    /// What the tool does.
    pub fn description(self) -> (result: &'static str)
        ensures
            result@ == tool_description(self),
    {
        match self {
            Tool::ListProjects => "List Projects visible to the current actor with bounded cursor pagination.",
            Tool::GetProject => "Get one visible Project by its stable ID, including the current revision.",
            Tool::ListIssues => "List visible Issues with optional Project, Team, and workflow-state filters.",
            Tool::GetIssue => "Get one visible Issue by stable ID, current identifier, or historical identifier.",
            Tool::CreateIssue => "Create one Issue. Supply a stable issue_id and reuse the same idempotency_key when retrying the same intent.",
            Tool::UpdateIssue => "Replace the editable fields of one Issue using the revision returned by get_issue. Reuse the same idempotency_key for retries.",
            Tool::MoveIssue => "Move one Issue to a Team and workflow state using its current revision. Reuse the same idempotency_key for retries.",
            Tool::ListComments => "List visible comments for one Issue with bounded cursor pagination.",
            Tool::AddComment => "Add one comment to an Issue. Supply a stable comment_id and reuse the same idempotency_key for retries.",
        }
    }

    /// What the arguments of the tool look like.
    pub fn schema(self) -> (result: &'static str)
        ensures
            result@ == tool_schema(self),
    {
        match self {
            Tool::ListProjects => LIST_PROJECTS_SCHEMA,
            Tool::GetProject => GET_PROJECT_SCHEMA,
            Tool::ListIssues => LIST_ISSUES_SCHEMA,
            Tool::GetIssue => GET_ISSUE_SCHEMA,
            Tool::CreateIssue => CREATE_ISSUE_SCHEMA,
            Tool::UpdateIssue => UPDATE_ISSUE_SCHEMA,
            Tool::MoveIssue => MOVE_ISSUE_SCHEMA,
            Tool::ListComments => LIST_COMMENTS_SCHEMA,
            Tool::AddComment => ADD_COMMENT_SCHEMA,
        }
    }

    /// Whether the tool may run beside others.
    pub fn execution(self) -> (result: ToolExecutionClass)
        ensures
            result == tool_class(self),
    {
        match self {
            Tool::ListProjects => ToolExecutionClass::ParallelSafe,
            Tool::GetProject => ToolExecutionClass::ParallelSafe,
            Tool::ListIssues => ToolExecutionClass::ParallelSafe,
            Tool::GetIssue => ToolExecutionClass::ParallelSafe,
            Tool::CreateIssue => ToolExecutionClass::Exclusive,
            Tool::UpdateIssue => ToolExecutionClass::Exclusive,
            Tool::MoveIssue => ToolExecutionClass::Exclusive,
            Tool::ListComments => ToolExecutionClass::ParallelSafe,
            Tool::AddComment => ToolExecutionClass::Exclusive,
        }
    }

    /// The operation that the tool invokes.
    pub fn operation(self) -> (result: Operation)
        ensures
            result == tool_operation(self),
    {
        match self {
            Tool::ListProjects => Operation::ListProjects,
            Tool::GetProject => Operation::GetProject,
            Tool::ListIssues => Operation::ListIssues,
            Tool::GetIssue => Operation::GetIssue,
            Tool::CreateIssue => Operation::CreateIssue,
            Tool::UpdateIssue => Operation::UpdateIssue,
            Tool::MoveIssue => Operation::MoveIssue,
            Tool::ListComments => Operation::ListComments,
            Tool::AddComment => Operation::AddComment,
        }
    }
}

/// Whether `definition` describes the tool.
pub open spec fn is_definition(definition: ToolDefinition, tool: Tool) -> bool {
    &&& definition.name@ == tool_name(tool)
    &&& definition.description@ == tool_description(tool)
    &&& definition.input_schema_json@ == tool_schema(tool)
    &&& definition.execution == tool_class(tool)
}

/// What an agent is told of the tool.
pub fn tool(which: Tool) -> (definition: ToolDefinition)
    ensures
        is_definition(definition, which),
{
    ToolDefinition {
        name: which.name().to_owned(),
        description: which.description().to_owned(),
        input_schema_json: which.schema().to_owned(),
        execution: which.execution(),
    }
}

/// The catalog: every tool once, in order.
pub fn tool_definitions() -> (tools: Vec<ToolDefinition>)
    ensures
        tools@.len() == tool_order().len(),
        forall|i: int|
            0 <= i < tools@.len() ==> is_definition(#[trigger] tools@[i], tool_order()[i]),
{
    let mut tools: Vec<ToolDefinition> = Vec::new();
    tools.push(tool(Tool::ListProjects));
    tools.push(tool(Tool::GetProject));
    tools.push(tool(Tool::ListIssues));
    tools.push(tool(Tool::GetIssue));
    tools.push(tool(Tool::CreateIssue));
    tools.push(tool(Tool::UpdateIssue));
    tools.push(tool(Tool::MoveIssue));
    tools.push(tool(Tool::ListComments));
    tools.push(tool(Tool::AddComment));
    tools
}

/// The tool with a name, if there is one.
pub fn find_tool(name: &str) -> (found: Option<Tool>)
    ensures
        match found {
            Some(tool) => tool_name(tool) == name@,
            None => forall|other: Tool| #[trigger] tool_name(other) != name@,
        },
{
    if same(name, LIST_PROJECTS_TOOL) {
        return Some(Tool::ListProjects);
    }
    if same(name, GET_PROJECT_TOOL) {
        return Some(Tool::GetProject);
    }
    if same(name, LIST_ISSUES_TOOL) {
        return Some(Tool::ListIssues);
    }
    if same(name, GET_ISSUE_TOOL) {
        return Some(Tool::GetIssue);
    }
    if same(name, CREATE_ISSUE_TOOL) {
        return Some(Tool::CreateIssue);
    }
    if same(name, UPDATE_ISSUE_TOOL) {
        return Some(Tool::UpdateIssue);
    }
    if same(name, MOVE_ISSUE_TOOL) {
        return Some(Tool::MoveIssue);
    }
    if same(name, LIST_COMMENTS_TOOL) {
        return Some(Tool::ListComments);
    }
    if same(name, ADD_COMMENT_TOOL) {
        return Some(Tool::AddComment);
    }
    None
}

/// Why an execution failed, in words for an agent.
#[derive(Clone, Debug, PartialEq, Eq)]
pub struct ExecutionFailedPayload {
    pub reason_code: String,
    pub message: String,
    pub details_json: String,
}

/// What the tool contract answers instead of a result.
#[derive(Clone, Debug, PartialEq, Eq)]
pub enum ExecuteError {
    InvalidArguments,
    PermissionDenied,
    NotFound,
    OutputLimitExceeded,
    ExecutionFailed { payload: ExecutionFailedPayload },
    Unknown,
}

/// The result of an execution: always text.
#[derive(Clone, Debug, PartialEq, Eq)]
pub struct ExecuteResponse {
    pub content: String,
    pub metadata_json: String,
}

/// Whether `error` reports the refusal with this code.
pub open spec fn is_rejected(error: ExecuteError, code: Seq<char>) -> bool {
    &&& error matches ExecuteError::ExecutionFailed { payload }
    &&& payload.reason_code@ == code
    &&& payload.message@ == "Projects rejected the requested operation."@
    &&& payload.details_json@ == "{\"domain_error\":"@ + json::json_string(code) + "}"@
}

/// Reports a refusal by its code.
pub fn rejected(reason_code: &str) -> (error: ExecuteError)
    ensures
        is_rejected(error, reason_code@),
{
    let mut details_json = "{\"domain_error\":".to_owned();
    details_json.append(quoted(reason_code).as_str());
    details_json.append("}");
    ExecuteError::ExecutionFailed {
        payload: ExecutionFailedPayload {
            reason_code: reason_code.to_owned(),
            message: "Projects rejected the requested operation.".to_owned(),
            details_json,
        },
    }
}

/// Whether `mapped` is what an agent is told of an answer of the Projects contract.
pub open spec fn is_project_tool_error(error: ProjectsError, mapped: ExecuteError) -> bool {
    match error {
        ProjectsError::InvalidRequest => mapped == ExecuteError::InvalidArguments,
        ProjectsError::NotFound => mapped == ExecuteError::NotFound,
        ProjectsError::Forbidden => mapped == ExecuteError::PermissionDenied,
        ProjectsError::PrivateTeam => mapped == ExecuteError::PermissionDenied,
        ProjectsError::Unauthenticated => mapped == ExecuteError::PermissionDenied,
        ProjectsError::CycleNotFound => is_rejected(mapped, "cycle_not_found"@),
        ProjectsError::IdempotencyConflict => is_rejected(mapped, "idempotency_conflict"@),
        ProjectsError::IdentifierConflict => is_rejected(mapped, "identifier_conflict"@),
        ProjectsError::LabelNotFound => is_rejected(mapped, "label_not_found"@),
        ProjectsError::MilestoneNotFound => is_rejected(mapped, "milestone_not_found"@),
        ProjectsError::ParentNotFound => is_rejected(mapped, "parent_not_found"@),
        ProjectsError::ProjectStatusNotFound => is_rejected(mapped, "project_status_not_found"@),
        ProjectsError::RevisionConflict => is_rejected(mapped, "revision_conflict"@),
        ProjectsError::TeamNotFound => is_rejected(mapped, "team_not_found"@),
        ProjectsError::WorkflowStateNotFound => is_rejected(mapped, "workflow_state_not_found"@),
        ProjectsError::Unknown => is_rejected(mapped, "unknown_domain_error"@),
    }
}

/// What an agent is told of an answer of the Projects contract.
pub fn project_tool_error(error: ProjectsError) -> (mapped: ExecuteError)
    ensures
        is_project_tool_error(error, mapped),
{
    match error {
        ProjectsError::InvalidRequest => ExecuteError::InvalidArguments,
        ProjectsError::NotFound => ExecuteError::NotFound,
        ProjectsError::Forbidden => ExecuteError::PermissionDenied,
        ProjectsError::PrivateTeam => ExecuteError::PermissionDenied,
        ProjectsError::Unauthenticated => ExecuteError::PermissionDenied,
        ProjectsError::CycleNotFound => rejected("cycle_not_found"),
        ProjectsError::IdempotencyConflict => rejected("idempotency_conflict"),
        ProjectsError::IdentifierConflict => rejected("identifier_conflict"),
        ProjectsError::LabelNotFound => rejected("label_not_found"),
        ProjectsError::MilestoneNotFound => rejected("milestone_not_found"),
        ProjectsError::ParentNotFound => rejected("parent_not_found"),
        ProjectsError::ProjectStatusNotFound => rejected("project_status_not_found"),
        ProjectsError::RevisionConflict => rejected("revision_conflict"),
        ProjectsError::TeamNotFound => rejected("team_not_found"),
        ProjectsError::WorkflowStateNotFound => rejected("workflow_state_not_found"),
        ProjectsError::Unknown => rejected("unknown_domain_error"),
    }
}

/// Whether `mapped` is what an agent is told of an answer of the Projects Collaboration contract.
pub open spec fn is_collaboration_tool_error(error: CollaborationError, mapped: ExecuteError) -> bool {
    match error {
        CollaborationError::InvalidRequest => mapped == ExecuteError::InvalidArguments,
        CollaborationError::NotFound => mapped == ExecuteError::NotFound,
        CollaborationError::AuthorRequired => mapped == ExecuteError::PermissionDenied,
        CollaborationError::Forbidden => mapped == ExecuteError::PermissionDenied,
        CollaborationError::PrivateTeam => mapped == ExecuteError::PermissionDenied,
        CollaborationError::Unauthenticated => mapped == ExecuteError::PermissionDenied,
        CollaborationError::CannotRelateSelf => is_rejected(mapped, "cannot_relate_self"@),
        CollaborationError::IdempotencyConflict => is_rejected(mapped, "idempotency_conflict"@),
        CollaborationError::RelationConflict => is_rejected(mapped, "relation_conflict"@),
        CollaborationError::RevisionConflict => is_rejected(mapped, "revision_conflict"@),
        CollaborationError::Unknown => is_rejected(mapped, "unknown_domain_error"@),
    }
}

/// What an agent is told of an answer of the Projects Collaboration contract.
pub fn collaboration_tool_error(error: CollaborationError) -> (mapped: ExecuteError)
    ensures
        is_collaboration_tool_error(error, mapped),
{
    match error {
        CollaborationError::InvalidRequest => ExecuteError::InvalidArguments,
        CollaborationError::NotFound => ExecuteError::NotFound,
        CollaborationError::AuthorRequired => ExecuteError::PermissionDenied,
        CollaborationError::Forbidden => ExecuteError::PermissionDenied,
        CollaborationError::PrivateTeam => ExecuteError::PermissionDenied,
        CollaborationError::Unauthenticated => ExecuteError::PermissionDenied,
        CollaborationError::CannotRelateSelf => rejected("cannot_relate_self"),
        CollaborationError::IdempotencyConflict => rejected("idempotency_conflict"),
        CollaborationError::RelationConflict => rejected("relation_conflict"),
        CollaborationError::RevisionConflict => rejected("revision_conflict"),
        CollaborationError::Unknown => rejected("unknown_domain_error"),
    }
}

/// Whether `response` carries the content of a tool's answer.
pub open spec fn is_success(response: ExecuteResponse, tool: Tool, content: Seq<char>) -> bool {
    &&& response.content@ == content
    &&& response.metadata_json@ == "{\"tool\":"@ + json::json_string(tool_name(tool)) + "}"@
}

/// The response that carries the content of a tool's answer.
pub fn success(tool: Tool, content: String) -> (response: ExecuteResponse)
    ensures
        is_success(response, tool, content@),
{
    let mut metadata_json = "{\"tool\":".to_owned();
    metadata_json.append(quoted(tool.name()).as_str());
    metadata_json.append("}");
    ExecuteResponse { content, metadata_json }
}

/// The failure of an answer that cannot be written as JSON.
pub fn unserializable(error: &str) -> (failure: RuntimeFailure)
    ensures
        failure matches RuntimeFailure::PluginFailure { detail } && detail@
            == "Projects Tool could not serialize its typed response: "@ + error@,
{
    let mut detail = "Projects Tool could not serialize its typed response: ".to_owned();
    detail.append(error);
    RuntimeFailure::PluginFailure { detail }
}

/// What an execution needs before anything is invoked: a known tool and arguments that fit it.
pub fn admit_execution(name: &str, decodes: bool) -> (result: Result<Tool, ExecuteError>)
    ensures
        match result {
            Ok(tool) => tool_name(tool) == name@ && decodes,
            Err(ExecuteError::NotFound) => forall|other: Tool| #[trigger] tool_name(other) != name@,
            Err(error) => error == ExecuteError::InvalidArguments && !decodes && exists|other: Tool|
                #[trigger] tool_name(other) == name@,
        },
{
    match find_tool(name) {
        Some(tool) => if decodes {
            Ok(tool)
        } else {
            assert(tool_name(tool) == name@);
            Err(ExecuteError::InvalidArguments)
        },
        None => Err(ExecuteError::NotFound),
    }
}

/// What an execution over the Projects contract comes to.
pub fn finish_project_tool(tool: Tool, answer: Result<String, PluginError<ProjectsError>>) -> (result:
    Result<ExecuteResponse, PluginError<ExecuteError>>)
    ensures
        match answer {
            Ok(content) => result matches Ok(response) && is_success(response, tool, content@),
            Err(PluginError::Domain(error)) => result matches Err(PluginError::Domain(mapped))
                && is_project_tool_error(error, mapped),
            Err(PluginError::Runtime(failure)) => result == Err::<
                ExecuteResponse,
                PluginError<ExecuteError>,
            >(PluginError::Runtime(failure)),
        },
{
    match answer {
        Ok(content) => Ok(success(tool, content)),
        Err(PluginError::Domain(error)) => Err(PluginError::Domain(project_tool_error(error))),
        Err(PluginError::Runtime(failure)) => Err(PluginError::Runtime(failure)),
    }
}

/// What an execution over the Projects Collaboration contract comes to.
pub fn finish_collaboration_tool(
    tool: Tool,
    answer: Result<String, PluginError<CollaborationError>>,
) -> (result: Result<ExecuteResponse, PluginError<ExecuteError>>)
    ensures
        match answer {
            Ok(content) => result matches Ok(response) && is_success(response, tool, content@),
            Err(PluginError::Domain(error)) => result matches Err(PluginError::Domain(mapped))
                && is_collaboration_tool_error(error, mapped),
            Err(PluginError::Runtime(failure)) => result == Err::<
                ExecuteResponse,
                PluginError<ExecuteError>,
            >(PluginError::Runtime(failure)),
        },
{
    match answer {
        Ok(content) => Ok(success(tool, content)),
        Err(PluginError::Domain(error)) => Err(
            PluginError::Domain(collaboration_tool_error(error)),
        ),
        Err(PluginError::Runtime(failure)) => Err(PluginError::Runtime(failure)),
    }
}

} // verus!
