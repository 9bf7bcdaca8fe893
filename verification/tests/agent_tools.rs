use lenso_projects::descriptor::agent_tools_descriptor;
use lenso_projects::failure::{CollaborationError, PluginError, ProjectsError, RuntimeFailure};
use lenso_projects::operations::Operation;
use lenso_projects::tools::{
    admit_execution, collaboration_tool_error, find_tool, finish_collaboration_tool,
    finish_project_tool, project_tool_error, rejected, tool_definitions, unserializable,
    ExecuteError, Tool, ToolExecutionClass, ADD_COMMENT_TOOL, CREATE_ISSUE_TOOL, GET_ISSUE_TOOL,
    LIST_PROJECTS_TOOL, MOVE_ISSUE_TOOL,
};
use std::collections::BTreeSet;

#[test]
fn descriptor_is_a_removable_adapter_with_two_business_requirements() {
    let descriptor = agent_tools_descriptor();
    assert_eq!(descriptor.plugin_id, "lenso.projects.agent-tools");
    assert_eq!(descriptor.provided.len(), 1);
    assert_eq!(descriptor.provided[0], "lenso.agent.tool-provider@2");
    let capabilities = descriptor.required.iter().copied().collect::<BTreeSet<_>>();
    assert_eq!(
        capabilities,
        BTreeSet::from(["lenso.projects-collaboration@1", "lenso.projects@1"])
    );
}

#[test]
fn catalog_has_five_parallel_reads_and_four_exclusive_mutations() {
    let tools = tool_definitions();
    assert_eq!(tools.len(), 9);
    assert_eq!(
        tools
            .iter()
            .filter(|tool| tool.execution == ToolExecutionClass::ParallelSafe)
            .count(),
        5
    );
    assert_eq!(
        tools
            .iter()
            .filter(|tool| tool.execution == ToolExecutionClass::Exclusive)
            .count(),
        4
    );
    assert!(tools.iter().all(|tool| {
        let schema: serde_json::Value = serde_json::from_str(&tool.input_schema_json).unwrap();
        schema["additionalProperties"] == false
    }));
}

#[test]
fn tools_are_found_by_name_only() {
    for definition in tool_definitions() {
        let tool = find_tool(&definition.name).unwrap();
        assert_eq!(tool.name(), definition.name);
    }
    assert_eq!(find_tool("projects_delete_everything"), None);
    assert_eq!(find_tool(CREATE_ISSUE_TOOL), Some(Tool::CreateIssue));
    assert_eq!(Tool::AddComment.operation(), Operation::AddComment);
    assert_eq!(Tool::MoveIssue.execution(), ToolExecutionClass::Exclusive);
    assert_eq!(Tool::ListComments.execution(), ToolExecutionClass::ParallelSafe);
    assert!(Tool::GetIssue.description().contains("historical identifier"));
    assert_eq!(MOVE_ISSUE_TOOL, "projects_move_issue");
    assert_eq!(ADD_COMMENT_TOOL, "projects_add_comment");
}

#[test]
fn an_execution_needs_a_known_tool_and_fitting_arguments() {
    assert_eq!(admit_execution(GET_ISSUE_TOOL, true), Ok(Tool::GetIssue));
    assert_eq!(admit_execution(GET_ISSUE_TOOL, false), Err(ExecuteError::InvalidArguments));
    assert_eq!(admit_execution("unknown", true), Err(ExecuteError::NotFound));
    assert_eq!(admit_execution("unknown", false), Err(ExecuteError::NotFound));
}

#[test]
fn authorization_and_revision_failures_remain_distinct() {
    assert_eq!(
        project_tool_error(ProjectsError::Forbidden),
        ExecuteError::PermissionDenied
    );
    assert_eq!(project_tool_error(ProjectsError::NotFound), ExecuteError::NotFound);
    let ExecuteError::ExecutionFailed { payload } =
        project_tool_error(ProjectsError::RevisionConflict)
    else {
        panic!("revision conflict must remain an execution failure");
    };
    assert_eq!(payload.reason_code, "revision_conflict");
}

#[test]
fn every_refusal_reaches_an_agent() {
    for (error, code) in [
        (ProjectsError::CycleNotFound, "cycle_not_found"),
        (ProjectsError::IdempotencyConflict, "idempotency_conflict"),
        (ProjectsError::IdentifierConflict, "identifier_conflict"),
        (ProjectsError::LabelNotFound, "label_not_found"),
        (ProjectsError::MilestoneNotFound, "milestone_not_found"),
        (ProjectsError::ParentNotFound, "parent_not_found"),
        (ProjectsError::ProjectStatusNotFound, "project_status_not_found"),
        (ProjectsError::TeamNotFound, "team_not_found"),
        (ProjectsError::WorkflowStateNotFound, "workflow_state_not_found"),
        (ProjectsError::Unknown, "unknown_domain_error"),
    ] {
        assert_eq!(project_tool_error(error), rejected(code));
    }
    for (error, code) in [
        (CollaborationError::CannotRelateSelf, "cannot_relate_self"),
        (CollaborationError::IdempotencyConflict, "idempotency_conflict"),
        (CollaborationError::RelationConflict, "relation_conflict"),
        (CollaborationError::RevisionConflict, "revision_conflict"),
        (CollaborationError::Unknown, "unknown_domain_error"),
    ] {
        assert_eq!(collaboration_tool_error(error), rejected(code));
    }
    for error in [
        CollaborationError::AuthorRequired,
        CollaborationError::Forbidden,
        CollaborationError::PrivateTeam,
        CollaborationError::Unauthenticated,
    ] {
        assert_eq!(collaboration_tool_error(error), ExecuteError::PermissionDenied);
    }
    assert_eq!(
        project_tool_error(ProjectsError::InvalidRequest),
        ExecuteError::InvalidArguments
    );
    let ExecuteError::ExecutionFailed { payload } = rejected("team_not_found") else {
        panic!("a refusal must be an execution failure");
    };
    assert_eq!(payload.message, "Projects rejected the requested operation.");
    assert_eq!(payload.details_json, r#"{"domain_error":"team_not_found"}"#);
}

#[test]
fn a_finished_tool_names_itself() {
    let done = finish_project_tool(Tool::ListProjects, Ok("{}".to_owned())).unwrap();
    assert_eq!(done.content, "{}");
    assert_eq!(done.metadata_json, format!("{{\"tool\":\"{LIST_PROJECTS_TOOL}\"}}"));
    assert_eq!(
        finish_collaboration_tool(
            Tool::AddComment,
            Err(PluginError::Domain(CollaborationError::NotFound))
        ),
        Err(PluginError::Domain(ExecuteError::NotFound))
    );
    let failure = RuntimeFailure::AdmissionClosed;
    assert_eq!(
        finish_project_tool(Tool::GetIssue, Err(PluginError::Runtime(failure.clone()))),
        Err(PluginError::Runtime(failure))
    );
    assert_eq!(
        unserializable("no"),
        RuntimeFailure::PluginFailure {
            detail: "Projects Tool could not serialize its typed response: no".to_owned()
        }
    );
}
