use lenso_projects::clock::{CalendarDate, Timestamp};
use lenso_projects::failure::{DomainFailure, RuntimeFailure, StorageError};
use lenso_projects::model::{
    Activity, ArchiveProjectStatusRequest, ArchiveWorkflowStateRequest, Completion,
    CreateIssueRequest, CreateProjectRequest, Cycle, DeleteProjectStatusRequest,
    DeleteWorkflowStateRequest, GetIssueAssigneeRequest, GetIssueRequest, GetProjectStatusRequest,
    GetWorkflowStateRequest, IdentifierAlias, Issue, IssueValue, Label,
    ListActivityRequest, ListIssueWorkflowStatesRequest, ListIssuesRequest,
    ListProjectStatusesRequest, ListWorkflowStatesRequest, Milestone, MoveIssueRequest, Priority,
    ProjectStatusCategory, PutProjectStatusRequest, PutTeamRequest, PutWorkflowStateRequest,
    ReorderItem, ReorderProjectStatusesRequest, ReorderWorkflowStatesRequest,
    SetIssueAssigneeRequest, SetTeamMemberRequest, TeamMember, TeamValue, UpdateProjectRequest,
    WorkflowCategory,
};
use lenso_projects::operations::Operation;
use lenso_projects::project_status::StatusIds;
use lenso_projects::service::ProjectsService;
use lenso_projects::store::{Invocation, Store};
use lenso_projects::table::Page;
use lenso_projects::text::sort_texts;
use lenso_projects::workflow::WorkflowIds;
use std::fmt::Debug;

/// 2026-09-15T00:00:00Z.
const EPOCH: i128 = 1_789_430_400_000_000_000;

/// 2020-01-01T00:00:00Z.
const OLD_EPOCH: i128 = 1_577_836_800_000_000_000;

fn call<R: Debug>(caller: &str, actor: &str, request: &R) -> Invocation {
    Invocation {
        caller: caller.to_owned(),
        actor: actor.to_owned(),
        request_json: format!("{request:?}"),
        now: Timestamp::new(EPOCH).unwrap(),
    }
}

fn admin<R: Debug>(request: &R) -> Invocation {
    call("admin-api", "usr_admin", request)
}

fn member<R: Debug>(request: &R) -> Invocation {
    call("projects-api", "usr_admin", request)
}

/// The value of a mutation that took effect, after its command was completed with that value.
fn fresh<T: Debug>(
    store: &mut Store,
    call: &Invocation,
    operation: Operation,
    key: &str,
    result: Result<Completion<T>, StorageError>,
) -> T {
    let Ok(Completion::Fresh(value)) = result else {
        panic!("the command must take effect: {result:?}");
    };
    store
        .complete_command(
            &call.caller,
            &call.actor,
            operation.name(),
            key,
            &format!("{value:?}"),
        )
        .unwrap();
    value
}

fn replayed<T: Debug>(result: Result<Completion<T>, StorageError>) -> String {
    let Ok(Completion::Replayed(text)) = result else {
        panic!("the command must be answered again: {result:?}");
    };
    text
}

fn refused<T: Debug>(result: Result<T, StorageError>) -> DomainFailure {
    let Err(StorageError::Domain(failure)) = result else {
        panic!("the command must be refused: {result:?}");
    };
    failure
}

fn ids() -> StatusIds {
    StatusIds::generate()
}

fn put_team_and_workflow(store: &mut Store, team_id: &str, key: &str, state_id: &str) -> TeamValue {
    let request = PutTeamRequest {
        idempotency_key: format!("put-{team_id}"),
        organization_id: "org_acme".to_owned(),
        team_id: team_id.to_owned(),
        key: key.to_owned(),
        name: key.to_owned(),
        description: None,
        private: false,
        default_workflow_state_id: None,
        expected_revision: None,
    };
    let invocation = admin(&request);
    let result = store.put_team(&invocation, &request, &ids(), &WorkflowIds::generate());
    let team = fresh(store, &invocation, Operation::PutTeam, &request.idempotency_key, result);
    let request = PutWorkflowStateRequest {
        idempotency_key: format!("put-{state_id}"),
        organization_id: "org_acme".to_owned(),
        state_id: state_id.to_owned(),
        team_id: team_id.to_owned(),
        name: "Started".to_owned(),
        category: WorkflowCategory::Started,
        color: "#3366FF".to_owned(),
        position: 1,
        expected_revision: None,
    };
    let invocation = admin(&request);
    let result = store.put_workflow_state(&invocation, &request);
    fresh(store, &invocation, Operation::PutWorkflowState, &request.idempotency_key, result);
    team
}

fn get_state(store: &Store, team_id: &str, state_id: &str) -> GetWorkflowStateRequest {
    assert!(store.find_team("org_acme", team_id).is_some());
    GetWorkflowStateRequest {
        organization_id: "org_acme".to_owned(),
        team_id: team_id.to_owned(),
        state_id: state_id.to_owned(),
    }
}

fn all_statuses() -> ListProjectStatusesRequest {
    ListProjectStatusesRequest { organization_id: "org_acme".to_owned(), after: None, limit: 100 }
}

fn get_status(status_id: &str) -> GetProjectStatusRequest {
    GetProjectStatusRequest {
        organization_id: "org_acme".to_owned(),
        status_id: status_id.to_owned(),
    }
}

fn archive_status(key: &str, status_id: &str, revision: &str) -> ArchiveProjectStatusRequest {
    ArchiveProjectStatusRequest {
        idempotency_key: key.to_owned(),
        organization_id: "org_acme".to_owned(),
        status_id: status_id.to_owned(),
        expected_revision: revision.to_owned(),
        archived: true,
    }
}

fn delete_status(key: &str, status_id: &str, revision: &str) -> DeleteProjectStatusRequest {
    DeleteProjectStatusRequest {
        idempotency_key: key.to_owned(),
        organization_id: "org_acme".to_owned(),
        status_id: status_id.to_owned(),
        expected_revision: revision.to_owned(),
    }
}

fn archive_state(key: &str, state_id: &str, revision: &str) -> ArchiveWorkflowStateRequest {
    ArchiveWorkflowStateRequest {
        idempotency_key: key.to_owned(),
        organization_id: "org_acme".to_owned(),
        state_id: state_id.to_owned(),
        expected_revision: revision.to_owned(),
        archived: true,
    }
}

fn delete_state(
    key: &str,
    team_id: &str,
    state_id: &str,
    revision: &str,
) -> DeleteWorkflowStateRequest {
    DeleteWorkflowStateRequest {
        idempotency_key: key.to_owned(),
        organization_id: "org_acme".to_owned(),
        team_id: team_id.to_owned(),
        state_id: state_id.to_owned(),
        expected_revision: revision.to_owned(),
    }
}

fn update_roadmap(
    key: &str,
    revision: &str,
    name: &str,
    teams: &[&str],
    status_id: &str,
) -> UpdateProjectRequest {
    UpdateProjectRequest {
        idempotency_key: key.to_owned(),
        organization_id: "org_acme".to_owned(),
        project_id: "project_roadmap".to_owned(),
        expected_revision: revision.to_owned(),
        name: name.to_owned(),
        summary: None,
        lead_team_id: "team_eng".to_owned(),
        team_ids: teams.iter().map(|team| (*team).to_owned()).collect(),
        status_id: status_id.to_owned(),
        milestone_id: None,
        start_date: None,
        target_date: None,
    }
}

fn issue_ref(reference: &str) -> GetIssueRequest {
    GetIssueRequest { organization_id: "org_acme".to_owned(), issue_ref: reference.to_owned() }
}

#[test]
fn concurrent_idempotency_identifier_history_activity_and_restart() {
    let mut store = Store::empty();
    let eng = put_team_and_workflow(&mut store, "team_eng", "ENG", "state_eng_started");
    let _ops = put_team_and_workflow(&mut store, "team_ops", "OPS", "state_ops_started");

    let workflow = store
        .list_workflow_states(&ListWorkflowStatesRequest {
            organization_id: "org_acme".to_owned(),
            team_id: "team_eng".to_owned(),
            after: None,
            limit: 100,
        })
        .unwrap();
    assert_eq!(workflow.items.len(), 6);
    let defaults = workflow
        .items
        .iter()
        .filter(|state| state.state_id != "state_eng_started")
        .collect::<Vec<_>>();
    assert_eq!(defaults.len(), 5);
    assert_eq!(
        defaults.iter().map(|state| state.name.as_str()).collect::<Vec<_>>(),
        vec!["Backlog", "Todo", "In Progress", "Done", "Canceled"]
    );
    assert_eq!(
        defaults
            .iter()
            .find(|state| state.state_id == eng.default_workflow_state_id)
            .unwrap()
            .category,
        WorkflowCategory::Unstarted
    );
    assert!(defaults.iter().all(|state| !state.archived));

    let todo = store
        .get_workflow_state(&get_state(&store, "team_eng", &eng.default_workflow_state_id))
        .unwrap();
    assert_eq!(todo.category, WorkflowCategory::Unstarted);
    assert_eq!(
        refused(store.get_workflow_state(&get_state(
            &store,
            "team_ops",
            &eng.default_workflow_state_id
        ))),
        DomainFailure::NotFound
    );

    let workflow_reorder_request = ReorderWorkflowStatesRequest {
        idempotency_key: "reorder-eng-workflow".to_owned(),
        organization_id: "org_acme".to_owned(),
        team_id: "team_eng".to_owned(),
        items: workflow
            .items
            .iter()
            .rev()
            .enumerate()
            .map(|(position, state)| ReorderItem {
                id: state.state_id.clone(),
                expected_revision: state.revision.clone(),
                position: i64::try_from(position).unwrap(),
            })
            .collect(),
    };
    let mut duplicate_workflow_positions = workflow_reorder_request.clone();
    duplicate_workflow_positions.idempotency_key = "duplicate-eng-workflow-order".to_owned();
    duplicate_workflow_positions.items[1].position = duplicate_workflow_positions.items[0].position;
    assert_eq!(
        refused(store.reorder_workflow_states(
            &admin(&duplicate_workflow_positions),
            &duplicate_workflow_positions
        )),
        DomainFailure::InvalidRequest
    );
    let mut cross_team_workflow = workflow_reorder_request.clone();
    cross_team_workflow.idempotency_key = "cross-team-workflow-order".to_owned();
    cross_team_workflow.items[0].id = "state_ops_started".to_owned();
    assert_eq!(
        refused(store.reorder_workflow_states(&admin(&cross_team_workflow), &cross_team_workflow)),
        DomainFailure::InvalidRequest
    );
    let mut partial_workflow = workflow_reorder_request.clone();
    partial_workflow.idempotency_key = "partial-eng-workflow-order".to_owned();
    partial_workflow.items.pop();
    assert_eq!(
        refused(store.reorder_workflow_states(&admin(&partial_workflow), &partial_workflow)),
        DomainFailure::InvalidRequest
    );
    let invocation = admin(&workflow_reorder_request);
    let result = store.reorder_workflow_states(&invocation, &workflow_reorder_request);
    let reordered_workflow = fresh(
        &mut store,
        &invocation,
        Operation::ReorderWorkflowStates,
        "reorder-eng-workflow",
        result,
    );
    assert_eq!(reordered_workflow.len(), 6);
    assert_eq!(
        format!("{reordered_workflow:?}"),
        replayed(store.reorder_workflow_states(&invocation, &workflow_reorder_request))
    );
    assert!(reordered_workflow.iter().enumerate().all(|(position, state)| state.position
        == i32::try_from(position).unwrap()
        && state.revision == "2"));
    let mut stale_workflow_items = reordered_workflow
        .iter()
        .map(|state| ReorderItem {
            id: state.state_id.clone(),
            expected_revision: state.revision.clone(),
            position: i64::from(state.position),
        })
        .collect::<Vec<_>>();
    stale_workflow_items[0].expected_revision = "1".to_owned();
    let unchanged_workflow = reordered_workflow[1].clone();
    let stale = ReorderWorkflowStatesRequest {
        idempotency_key: "stale-eng-workflow-reorder".to_owned(),
        organization_id: "org_acme".to_owned(),
        team_id: "team_eng".to_owned(),
        items: stale_workflow_items,
    };
    assert_eq!(
        refused(store.reorder_workflow_states(&admin(&stale), &stale)),
        DomainFailure::RevisionConflict
    );
    let after_stale_workflow = store
        .get_workflow_state(&get_state(&store, "team_eng", &unchanged_workflow.state_id))
        .unwrap();
    assert_eq!(after_stale_workflow.revision, unchanged_workflow.revision);
    assert_eq!(after_stale_workflow.position, unchanged_workflow.position);
    let default_workflow_revision = reordered_workflow
        .iter()
        .find(|state| state.state_id == eng.default_workflow_state_id)
        .unwrap()
        .revision
        .clone();
    let custom_workflow_revision = reordered_workflow
        .iter()
        .find(|state| state.state_id == "state_eng_started")
        .unwrap()
        .revision
        .clone();

    let statuses = store.list_project_statuses(&all_statuses(), &ids()).unwrap();
    assert_eq!(statuses.items.len(), 6);
    let default_status = statuses.items.iter().find(|status| status.is_default).unwrap();
    assert_eq!(default_status.name, "Backlog");
    assert_eq!(default_status.category, ProjectStatusCategory::Backlog);

    let create_roadmap = CreateProjectRequest {
        idempotency_key: "create-roadmap".to_owned(),
        organization_id: "org_acme".to_owned(),
        project_id: "project_roadmap".to_owned(),
        name: "Roadmap".to_owned(),
        summary: None,
        lead_team_id: "team_eng".to_owned(),
        team_ids: vec!["team_eng".to_owned(), "team_ops".to_owned()],
        status_id: None,
        milestone_id: None,
        start_date: None,
        target_date: None,
    };
    let invocation = member(&create_roadmap);
    let result = store.create_project(&invocation, &create_roadmap, &ids());
    let project =
        fresh(&mut store, &invocation, Operation::CreateProject, "create-roadmap", result);
    assert_eq!(project.revision, "1");
    assert_eq!(project.status_id, default_status.status_id);
    assert!(project.completed_at.is_none());
    assert!(project.canceled_at.is_none());

    let put_shipped = PutProjectStatusRequest {
        idempotency_key: "put-shipped-status".to_owned(),
        organization_id: "org_acme".to_owned(),
        status_id: "status_shipped".to_owned(),
        name: "Shipped".to_owned(),
        category: ProjectStatusCategory::Completed,
        color: "#00AA66".to_owned(),
        position: 10,
        expected_revision: None,
    };
    let invocation = admin(&put_shipped);
    let result = store.put_project_status(&invocation, &put_shipped, &ids());
    let completed_status =
        fresh(&mut store, &invocation, Operation::PutProjectStatus, "put-shipped-status", result);
    let fetched_completed = store
        .get_project_status(&get_status(&completed_status.status_id), &ids())
        .unwrap();
    assert_eq!(fetched_completed.category, ProjectStatusCategory::Completed);
    let statuses_for_reorder = store.list_project_statuses(&all_statuses(), &ids()).unwrap();
    let status_reorder_request = ReorderProjectStatusesRequest {
        idempotency_key: "reorder-project-statuses".to_owned(),
        organization_id: "org_acme".to_owned(),
        items: statuses_for_reorder
            .items
            .iter()
            .rev()
            .enumerate()
            .map(|(position, status)| ReorderItem {
                id: status.status_id.clone(),
                expected_revision: status.revision.clone(),
                position: i64::try_from(position).unwrap(),
            })
            .collect(),
    };
    let invocation = admin(&status_reorder_request);
    let result = store.reorder_project_statuses(&invocation, &status_reorder_request, &ids());
    let reordered_statuses = fresh(
        &mut store,
        &invocation,
        Operation::ReorderProjectStatuses,
        "reorder-project-statuses",
        result,
    );
    assert_eq!(reordered_statuses.len(), 7);
    assert_eq!(
        format!("{reordered_statuses:?}"),
        replayed(store.reorder_project_statuses(&invocation, &status_reorder_request, &ids()))
    );
    assert!(reordered_statuses.iter().enumerate().all(|(position, status)| status.position
        == i32::try_from(position).unwrap()
        && status.revision == "2"));
    let mut stale_status_items = reordered_statuses
        .iter()
        .map(|status| ReorderItem {
            id: status.status_id.clone(),
            expected_revision: status.revision.clone(),
            position: i64::from(status.position),
        })
        .collect::<Vec<_>>();
    stale_status_items[0].expected_revision = "1".to_owned();
    let unchanged_status = reordered_statuses[1].clone();
    let stale = ReorderProjectStatusesRequest {
        idempotency_key: "stale-project-status-reorder".to_owned(),
        organization_id: "org_acme".to_owned(),
        items: stale_status_items,
    };
    assert_eq!(
        refused(store.reorder_project_statuses(&admin(&stale), &stale, &ids())),
        DomainFailure::RevisionConflict
    );
    let after_stale_status = store
        .get_project_status(&get_status(&unchanged_status.status_id), &ids())
        .unwrap();
    assert_eq!(after_stale_status.revision, unchanged_status.revision);
    assert_eq!(after_stale_status.position, unchanged_status.position);
    let completed_status_revision = reordered_statuses
        .iter()
        .find(|status| status.status_id == completed_status.status_id)
        .unwrap()
        .revision
        .clone();
    let default_status_revision = reordered_statuses
        .iter()
        .find(|status| status.status_id == default_status.status_id)
        .unwrap()
        .revision
        .clone();
    let planned_status =
        reordered_statuses.iter().find(|status| status.name == "Planned").unwrap().clone();
    let complete = update_roadmap(
        "complete-roadmap",
        "1",
        "Roadmap",
        &["team_eng", "team_ops"],
        &completed_status.status_id,
    );
    let invocation = member(&complete);
    let result = store.update_project(&invocation, &complete, &ids());
    let completed_project =
        fresh(&mut store, &invocation, Operation::UpdateProject, "complete-roadmap", result);
    assert!(completed_project.completed_at.is_some());
    assert!(completed_project.canceled_at.is_none());

    let stale = update_roadmap(
        "stale-roadmap-update",
        "1",
        "Stale Roadmap",
        &["team_eng", "team_ops"],
        &completed_project.status_id,
    );
    assert_eq!(
        refused(store.update_project(&member(&stale), &stale, &ids())),
        DomainFailure::RevisionConflict
    );

    let archive = archive_status(
        "archive-shipped-status",
        &completed_status.status_id,
        &completed_status_revision,
    );
    assert_eq!(
        refused(store.archive_project_status(&admin(&archive), &archive, &ids())),
        DomainFailure::ActiveReference
    );
    let delete = delete_status(
        "delete-shipped-status",
        &completed_status.status_id,
        &completed_status_revision,
    );
    assert_eq!(
        refused(store.delete_project_status(&admin(&delete), &delete, &ids())),
        DomainFailure::ActiveReference
    );

    let request = CreateIssueRequest {
        idempotency_key: "create-first".to_owned(),
        organization_id: "org_acme".to_owned(),
        issue_id: "issue_first".to_owned(),
        project_id: "project_roadmap".to_owned(),
        team_id: "team_eng".to_owned(),
        title: "First issue".to_owned(),
        description: None,
        priority: Priority::High,
        workflow_state_id: None,
        cycle_id: None,
        milestone_id: None,
        parent_issue_id: None,
        label_ids: vec![],
    };
    let invocation = member(&request);
    let result = store.create_issue(&invocation, &request);
    let first = fresh(&mut store, &invocation, Operation::CreateIssue, "create-first", result);
    let replay = replayed(store.create_issue(&invocation, &request));
    assert_eq!(format!("{first:?}"), replay);
    assert_eq!(first.identifier, "ENG-1");
    assert_eq!(first.workflow_state_id, eng.default_workflow_state_id);
    let mut conflicting_replay = request.clone();
    conflicting_replay.title = "A different command".to_owned();
    assert_eq!(
        refused(store.create_issue(&member(&conflicting_replay), &conflicting_replay)),
        DomainFailure::IdempotencyConflict
    );

    let archive = archive_state(
        "archive-default-eng",
        &eng.default_workflow_state_id,
        &default_workflow_revision,
    );
    assert_eq!(
        refused(store.archive_workflow_state(&admin(&archive), &archive)),
        DomainFailure::DefaultStateInvalid
    );
    let archive = archive_status(
        "archive-default-status",
        &default_status.status_id,
        &default_status_revision,
    );
    assert_eq!(
        refused(store.archive_project_status(&admin(&archive), &archive, &ids())),
        DomainFailure::DefaultStateInvalid
    );
    let delete = delete_state(
        "delete-default-eng",
        "team_eng",
        &eng.default_workflow_state_id,
        &default_workflow_revision,
    );
    assert_eq!(
        refused(store.delete_workflow_state(&admin(&delete), &delete)),
        DomainFailure::DefaultStateInvalid
    );
    let delete = delete_status(
        "delete-default-status",
        &default_status.status_id,
        &default_status_revision,
    );
    assert_eq!(
        refused(store.delete_project_status(&admin(&delete), &delete, &ids())),
        DomainFailure::DefaultStateInvalid
    );
    let delete = delete_status(
        "delete-active-planned",
        &planned_status.status_id,
        &planned_status.revision,
    );
    assert_eq!(
        refused(store.delete_project_status(&admin(&delete), &delete, &ids())),
        DomainFailure::InvalidRequest
    );
    let archive = archive_status(
        "archive-planned-status",
        &planned_status.status_id,
        &planned_status.revision,
    );
    let invocation = admin(&archive);
    let result = store.archive_project_status(&invocation, &archive, &ids());
    let archived_planned = fresh(
        &mut store,
        &invocation,
        Operation::ArchiveProjectStatus,
        "archive-planned-status",
        result,
    );
    let delete_planned_request = delete_status(
        "delete-planned-status",
        &planned_status.status_id,
        &archived_planned.revision,
    );
    let invocation = admin(&delete_planned_request);
    let result = store.delete_project_status(&invocation, &delete_planned_request, &ids());
    let deleted_planned = fresh(
        &mut store,
        &invocation,
        Operation::DeleteProjectStatus,
        "delete-planned-status",
        result,
    );
    assert!(deleted_planned.deleted);
    assert_eq!(
        format!("{deleted_planned:?}"),
        replayed(store.delete_project_status(&invocation, &delete_planned_request, &ids()))
    );
    assert_eq!(
        refused(store.get_project_status(&get_status(&planned_status.status_id), &ids())),
        DomainFailure::NotFound
    );

    let move_first = MoveIssueRequest {
        idempotency_key: "move-first".to_owned(),
        organization_id: "org_acme".to_owned(),
        issue_id: "issue_first".to_owned(),
        expected_revision: "1".to_owned(),
        team_id: "team_ops".to_owned(),
        workflow_state_id: "state_ops_started".to_owned(),
    };
    let invocation = member(&move_first);
    let result = store.move_issue(&invocation, &move_first);
    let moved = fresh(&mut store, &invocation, Operation::MoveIssue, "move-first", result);
    assert_eq!(moved.identifier, "OPS-1");
    assert_eq!(moved.previous_identifiers, vec!["ENG-1"]);

    let detach = update_roadmap(
        "detach-active-issue-team",
        &completed_project.revision,
        "Roadmap",
        &["team_eng"],
        &completed_project.status_id,
    );
    assert_eq!(
        refused(store.update_project(&member(&detach), &detach, &ids())),
        DomainFailure::ActiveReference
    );

    let archive = archive_state("archive-referenced-ops", "state_ops_started", "1");
    assert_eq!(
        refused(store.archive_workflow_state(&admin(&archive), &archive)),
        DomainFailure::ActiveReference
    );
    let delete = delete_state("delete-referenced-ops", "team_ops", "state_ops_started", "1");
    assert_eq!(
        refused(store.delete_workflow_state(&admin(&delete), &delete)),
        DomainFailure::ActiveReference
    );

    let archive =
        archive_state("archive-unused-eng", "state_eng_started", &custom_workflow_revision);
    let invocation = admin(&archive);
    let result = store.archive_workflow_state(&invocation, &archive);
    let archived_workflow = fresh(
        &mut store,
        &invocation,
        Operation::ArchiveWorkflowState,
        "archive-unused-eng",
        result,
    );
    assert!(archived_workflow.archived);
    let archived_state_issue = CreateIssueRequest {
        idempotency_key: "create-with-archived-state".to_owned(),
        organization_id: "org_acme".to_owned(),
        issue_id: "issue_archived_state".to_owned(),
        project_id: "project_roadmap".to_owned(),
        team_id: "team_eng".to_owned(),
        title: "Must fail closed".to_owned(),
        description: None,
        priority: Priority::NoPriority,
        workflow_state_id: Some("state_eng_started".to_owned()),
        cycle_id: None,
        milestone_id: None,
        parent_issue_id: None,
        label_ids: vec![],
    };
    assert_eq!(
        refused(store.create_issue(&member(&archived_state_issue), &archived_state_issue)),
        DomainFailure::WorkflowStateNotFound
    );

    let delete_workflow_request = delete_state(
        "delete-unused-eng",
        "team_eng",
        "state_eng_started",
        &archived_workflow.revision,
    );
    let invocation = admin(&delete_workflow_request);
    let result = store.delete_workflow_state(&invocation, &delete_workflow_request);
    let deleted_workflow = fresh(
        &mut store,
        &invocation,
        Operation::DeleteWorkflowState,
        "delete-unused-eng",
        result,
    );
    assert!(deleted_workflow.deleted);
    assert_eq!(
        format!("{deleted_workflow:?}"),
        replayed(store.delete_workflow_state(&invocation, &delete_workflow_request))
    );
    assert_eq!(
        refused(store.get_workflow_state(&get_state(&store, "team_eng", "state_eng_started"))),
        DomainFailure::NotFound
    );

    let old_lookup = store.get_issue("usr_admin", &issue_ref("ENG-1")).unwrap();
    assert_eq!(old_lookup.issue_id, "issue_first");
    assert_eq!(old_lookup.identifier, "OPS-1");

    let mut feed = ListActivityRequest {
        organization_id: "org_acme".to_owned(),
        project_id: Some("project_roadmap".to_owned()),
        issue_id: None,
        after: None,
        limit: 100,
    };
    let activity = store.list_activity("usr_admin", &feed).unwrap();
    assert!(activity.items.len() >= 3);
    assert!(activity.items.windows(2).all(|pair| {
        pair[0].activity_id.parse::<i64>().unwrap() < pair[1].activity_id.parse::<i64>().unwrap()
    }));
    let checkpoint = activity.next_cursor.unwrap();
    assert_eq!(
        checkpoint,
        activity.items.last().unwrap().activity_id,
        "the durable cursor advances even when the page reaches the current end"
    );
    feed.after = Some(checkpoint.clone());
    let resumed = store.list_activity("usr_admin", &feed).unwrap();
    assert!(resumed.items.is_empty());
    assert_eq!(resumed.next_cursor, Some(checkpoint));

    let mut service = ProjectsService::new();
    service.activate(store);
    let mut restarted = service.deactivate().unwrap();
    let after_restart = restarted.get_issue("usr_admin", &issue_ref("issue_first")).unwrap();
    assert_eq!(after_restart.identifier, "OPS-1");

    let read_assignment = GetIssueAssigneeRequest {
        organization_id: "org_acme".into(),
        issue_id: "issue_first".into(),
    };
    let before = restarted.get_issue_assignee("usr_admin", &read_assignment).unwrap();
    assert_eq!(before.assignee_subject, None);
    let assignment = SetIssueAssigneeRequest {
        organization_id: "org_acme".into(),
        issue_id: "issue_first".into(),
        assignee_subject: Some("usr_admin".into()),
        expected_revision: before.revision,
        idempotency_key: "assign-first".into(),
    };
    let invocation = member(&assignment);
    let result = restarted.set_issue_assignee(&invocation, &assignment);
    let saved =
        fresh(&mut restarted, &invocation, Operation::SetIssueAssignee, "assign-first", result);
    assert_eq!(saved.assignee_subject.as_deref(), Some("usr_admin"));
    assert_eq!(
        format!("{saved:?}"),
        replayed(restarted.set_issue_assignee(&invocation, &assignment))
    );
    let mut stale = assignment.clone();
    stale.idempotency_key = "stale-assignment".into();
    assert_eq!(
        refused(restarted.set_issue_assignee(&member(&stale), &stale)),
        DomainFailure::RevisionConflict
    );
    let mut clear = assignment;
    clear.expected_revision = saved.revision;
    clear.idempotency_key = "clear-assignment".into();
    clear.assignee_subject = None;
    let invocation = member(&clear);
    let result = restarted.set_issue_assignee(&invocation, &clear);
    let cleared =
        fresh(&mut restarted, &invocation, Operation::SetIssueAssignee, "clear-assignment", result);
    assert_eq!(cleared.assignee_subject, None);
    let wrong_org = GetIssueAssigneeRequest {
        organization_id: "org_other".into(),
        ..read_assignment
    };
    assert_eq!(
        refused(restarted.get_issue_assignee("usr_admin", &wrong_org)),
        DomainFailure::NotFound
    );
}

#[test]
fn issue_workflow_catalog_preserves_team_visibility_and_pagination() {
    let mut store = Store::empty();
    put_team_and_workflow(&mut store, "team_eng", "ENG", "state_started");
    let mut request = ListIssueWorkflowStatesRequest {
        organization_id: "org_acme".into(),
        team_id: "team_eng".into(),
        after: None,
        limit: 2,
    };
    let first = store.list_issue_workflow_states("usr_member", &request).unwrap();
    assert_eq!(first.items.len(), 2);
    request.after = first.next_cursor.clone();
    assert!(request.after.is_some());
    let second = store.list_issue_workflow_states("usr_member", &request).unwrap();
    assert_eq!(second.items.len(), 2);
    assert!(second.items.iter().all(|state| {
        !first.items.iter().any(|previous| previous.state_id == state.state_id)
    }));
    let team = store.find_team("org_acme", "team_eng").unwrap();
    store.teams[team].private = true;
    assert_eq!(
        refused(store.list_issue_workflow_states("usr_member", &request)),
        DomainFailure::NotFound
    );
    let membership = SetTeamMemberRequest {
        idempotency_key: "membership".into(),
        organization_id: "org_acme".into(),
        team_id: "team_eng".into(),
        subject: "usr_member".into(),
        active: true,
    };
    let invocation = admin(&membership);
    let result = store.set_team_member(&invocation, &membership);
    fresh(&mut store, &invocation, Operation::SetTeamMember, "membership", result);
    assert_eq!(
        store.list_issue_workflow_states("usr_member", &request).unwrap().items.len(),
        2
    );
    request.team_id = "missing".into();
    assert_eq!(
        refused(store.list_issue_workflow_states("usr_member", &request)),
        DomainFailure::NotFound
    );
}

fn issue_page_request() -> ListIssuesRequest {
    ListIssuesRequest {
        organization_id: "org_acme".into(),
        project_id: None,
        team_id: None,
        workflow_state_id: None,
        include_archived: false,
        after: None,
        limit: 100,
    }
}

fn issue_row(store: &mut Store, id: &str, project: &str, team: &str, identifier: &str) -> Issue {
    let row_seq = store.next_row;
    store.next_row += 1;
    Issue {
        issue_id: id.to_owned(),
        organization_id: "org_acme".to_owned(),
        project_id: project.to_owned(),
        team_id: team.to_owned(),
        identifier: identifier.to_owned(),
        title: id.to_owned(),
        description: None,
        priority: Priority::High,
        workflow_state_id: "state_public".to_owned(),
        cycle_id: None,
        milestone_id: None,
        parent_issue_id: None,
        label_ids: vec![],
        assignee_subject: None,
        archived: false,
        revision: 1,
        created_at: Timestamp::new(EPOCH).unwrap(),
        updated_at: Timestamp::new(EPOCH).unwrap(),
        row_seq,
    }
}

fn alias(issue_id: &str, identifier: &str, at: i128) -> IdentifierAlias {
    IdentifierAlias {
        organization_id: "org_acme".to_owned(),
        identifier: identifier.to_owned(),
        issue_id: issue_id.to_owned(),
        created_at: Timestamp::new(at).unwrap(),
    }
}

fn date(julian_day: i32, text: &str) -> CalendarDate {
    CalendarDate { julian_day, text: text.to_owned() }
}

fn seed_issue_pages(store: &mut Store) -> Vec<String> {
    put_team_and_workflow(store, "team_public", "PUB", "state_public");
    put_team_and_workflow(store, "team_private", "PVT", "state_private");
    for (project, teams) in [
        ("project_public", vec!["team_public"]),
        ("project_private", vec!["team_private"]),
        ("project_mixed", vec!["team_public", "team_private"]),
    ] {
        let request = CreateProjectRequest {
            idempotency_key: project.into(),
            organization_id: "org_acme".into(),
            project_id: project.into(),
            name: project.into(),
            summary: None,
            lead_team_id: teams[0].into(),
            team_ids: teams.into_iter().map(str::to_owned).collect(),
            status_id: None,
            milestone_id: None,
            start_date: None,
            target_date: None,
        };
        let invocation = call("projects-api", "usr_creator", &request);
        let result = store.create_project(&invocation, &request, &ids());
        fresh(store, &invocation, Operation::CreateProject, project, result);
    }
    // IDs sort opposite to insertion order; the page must continue to follow the row sequence.
    let ids = (0..105).map(|i| format!("issue_{:03}", 105 - i)).collect::<Vec<_>>();
    for (i, id) in ids.iter().enumerate() {
        let mut row =
            issue_row(store, id, "project_public", "team_public", &format!("PUB-{}", i + 1));
        row.description = (i % 2 == 0).then_some("Description".to_owned());
        row.archived = i == 104;
        store.issues.push(row);
    }
    store.cycles.push(Cycle {
        cycle_id: "cycle_page".to_owned(),
        organization_id: "org_acme".to_owned(),
        team_id: "team_public".to_owned(),
        number: 1,
        name: None,
        starts_on: date(2_458_850, "2020-01-01"),
        ends_on: date(2_458_863, "2020-01-14"),
        revision: 1,
        row_seq: store.next_row,
    });
    store.milestones.push(Milestone {
        milestone_id: "milestone_page".to_owned(),
        organization_id: "org_acme".to_owned(),
        project_id: "project_public".to_owned(),
        name: "Page milestone".to_owned(),
        description: None,
        target_date: None,
        revision: 1,
        row_seq: store.next_row + 1,
    });
    store.next_row += 2;
    let first = store.find_issue("org_acme", &ids[0]).unwrap();
    store.issues[first].cycle_id = Some("cycle_page".to_owned());
    store.issues[first].milestone_id = Some("milestone_page".to_owned());
    store.issues[first].parent_issue_id = Some(ids[104].clone());
    store.issues[first].revision = 7;
    for (id, project, team, state, identifier) in [
        ("issue_private", "project_private", "team_private", "state_private", "PVT-1"),
        ("issue_mixed", "project_mixed", "team_public", "state_public", "PUB-106"),
    ] {
        let mut row = issue_row(store, id, project, team, identifier);
        row.priority = Priority::Low;
        row.workflow_state_id = state.to_owned();
        row.assignee_subject = Some("usr_assignee".to_owned());
        store.issues.push(row);
        let activity_id = store.next_activity;
        store.next_activity += 1;
        store.activity.push(Activity {
            activity_id,
            organization_id: "org_acme".to_owned(),
            project_id: Some(project.to_owned()),
            issue_id: Some(id.to_owned()),
            actor_subject: "usr_creator".to_owned(),
            operation: "create_issue".to_owned(),
            entity_kind: "issue".to_owned(),
            entity_id: id.to_owned(),
            revision: None,
            occurred_at: Timestamp::new(EPOCH).unwrap(),
        });
    }
    let private = store.find_team("org_acme", "team_private").unwrap();
    store.teams[private].private = true;
    for (subject, active) in [("usr_member", true), ("usr_inactive", false)] {
        store.team_members.push(TeamMember {
            organization_id: "org_acme".to_owned(),
            team_id: "team_private".to_owned(),
            subject: subject.to_owned(),
            active,
            revision: 1,
        });
    }
    for (label, name, color) in [("label_z", "Z", "#000000"), ("label_a", "A", "#ffffff")] {
        let row_seq = store.next_row;
        store.next_row += 1;
        store.labels.push(Label {
            label_id: label.to_owned(),
            organization_id: "org_acme".to_owned(),
            team_id: None,
            name: name.to_owned(),
            description: None,
            color: color.to_owned(),
            revision: 1,
            row_seq,
        });
    }
    let day = 86_400_000_000_000;
    for id in &ids[..2] {
        let row = store.find_issue("org_acme", id).unwrap();
        // Attached in the opposite of their order: an issue holds its labels sorted.
        store.issues[row].label_ids =
            sort_texts(&vec!["label_z".to_owned(), "label_a".to_owned()]);
        // Tie timestamps to prove identifier is the history tie-breaker, not insertion order.
        for (suffix, at) in [("Z", OLD_EPOCH + day), ("A", OLD_EPOCH + day), ("OLD", OLD_EPOCH)] {
            store.aliases.push(alias(id, &format!("{id}-{suffix}"), at));
        }
    }
    for row in &store.issues {
        store.aliases.push(alias(&row.issue_id, &row.identifier, EPOCH));
    }
    ids
}

fn assert_issue_page(
    store: &Store,
    actor: &str,
    request: &ListIssuesRequest,
    ids: &[String],
    has_more: bool,
) -> Page<IssueValue> {
    let page = store.list_issues(actor, request).unwrap();
    assert_eq!(
        page.items.iter().map(|item| &item.issue_id).collect::<Vec<_>>(),
        ids.iter().collect::<Vec<_>>()
    );
    // Reading each issue alone is the full response parity oracle.
    let mut expected = Vec::new();
    for id in ids {
        let issue = store
            .get_issue(
                actor,
                &GetIssueRequest {
                    organization_id: request.organization_id.clone(),
                    issue_ref: id.clone(),
                },
            )
            .unwrap();
        expected.push(issue);
    }
    let next_cursor = if has_more {
        let last = store.find_issue("org_acme", ids.last().unwrap()).unwrap();
        Some(store.issues[last].row_seq.to_string())
    } else {
        None
    };
    assert_eq!(page.items, expected);
    assert_eq!(page.next_cursor, next_cursor);
    page
}

#[test]
fn issue_pages_batch_visibility_associations_and_cursors() {
    let mut store = Store::empty();
    let ids = seed_issue_pages(&mut store);
    let mut request = issue_page_request();
    let first = assert_issue_page(&store, "usr_outsider", &request, &ids[..100], true);
    assert_eq!(
        first.items[0].previous_identifiers,
        vec!["issue_105-OLD", "issue_105-A", "issue_105-Z"]
    );
    assert_eq!(first.items[0].label_ids, vec!["label_a", "label_z"]);
    assert_eq!(first.items[0].cycle_id.as_deref(), Some("cycle_page"));
    assert_eq!(first.items[0].milestone_id.as_deref(), Some("milestone_page"));
    assert_eq!(first.items[0].parent_issue_id.as_deref(), Some(ids[104].as_str()));
    assert_eq!(first.items[0].revision, "7");
    assert_eq!(
        first.items[1].previous_identifiers,
        vec!["issue_104-OLD", "issue_104-A", "issue_104-Z"]
    );
    assert!(first.items[2].previous_identifiers.is_empty());
    assert!(first.items[2].label_ids.is_empty());
    request.limit = 1;
    assert_issue_page(&store, "usr_outsider", &request, &ids[..1], true);
    request.limit = 100;
    request.after = first.next_cursor;
    assert_issue_page(&store, "usr_outsider", &request, &ids[100..104], false);
    request.limit = 4; // Exactly full final page still has no cursor.
    assert_issue_page(&store, "usr_outsider", &request, &ids[100..104], false);
    request.include_archived = true;
    let late = assert_issue_page(&store, "usr_outsider", &request, &ids[100..104], true);
    request.after = late.next_cursor;
    assert_issue_page(&store, "usr_outsider", &request, &ids[104..], false);
    request.after = Some(i64::MAX.to_string());
    assert_issue_page(&store, "usr_member", &request, &[], false);
    request = issue_page_request();
    request.organization_id = "org_other".into();
    assert_issue_page(&store, "usr_member", &request, &[], false);
    request = issue_page_request();
    for (project, expected) in
        [("project_private", "issue_private"), ("project_mixed", "issue_mixed")]
    {
        request.project_id = Some(project.into());
        for actor in ["usr_outsider", "usr_inactive", "usr_creator", "usr_assignee"] {
            assert_issue_page(&store, actor, &request, &[], false);
        }
        assert_issue_page(&store, "usr_member", &request, &[expected.into()], false);
    }
    request.project_id = None;
    request.team_id = Some("team_private".into());
    assert_issue_page(&store, "usr_member", &request, &["issue_private".into()], false);
    request.workflow_state_id = Some("state_public".into());
    assert_issue_page(&store, "usr_member", &request, &[], false);
    request.team_id = Some("team_public".into());
    assert_issue_page(&store, "usr_outsider", &request, &ids[..100], true);
    for limit in [0, -1, 101, i64::MAX] {
        request.limit = limit;
        assert_eq!(
            refused(store.list_issues("usr_member", &request)),
            DomainFailure::InvalidRequest
        );
    }
    request.limit = 1;
    request.after = Some("invalid".into());
    assert_eq!(
        refused(store.list_issues("usr_member", &request)),
        DomainFailure::InvalidRequest
    );
}

/// A store with the issue pages, without some of the issues and what belongs to them.
fn store_without(gone: &[&String]) -> Store {
    let mut store = Store::empty();
    seed_issue_pages(&mut store);
    store.issues.retain(|row| !gone.contains(&&row.issue_id));
    store.aliases.retain(|row| !gone.contains(&&row.issue_id));
    store
}

#[test]
fn issue_pages_preserve_disappearing_row_behavior() {
    let mut seeded = Store::empty();
    let ids = seed_issue_pages(&mut seeded);
    let request = ListIssuesRequest { limit: 1, ..issue_page_request() };
    let selected = seeded.select_issues("usr_outsider", &request).unwrap();
    assert_eq!(selected.items, vec![ids[0].clone()]);
    let later = store_without(&[&ids[0]]);
    let result = later.read_issues(&later, "org_acme", selected);
    let Err(StorageError::Runtime(RuntimeFailure::PluginFailure { detail })) = result else {
        panic!("a page must fail where a selected issue disappeared: {result:?}");
    };
    assert_eq!(
        detail,
        "Projects PostgreSQL operation `load listed issue` failed: issue disappeared"
    );

    // Deletion after the issue row was read leaves its loaded fields intact and its
    // associations empty.
    let store = store_without(&[&ids[0]]);
    let mut expected = store.get_issue("usr_outsider", &issue_ref(&ids[1])).unwrap();
    assert!(!expected.previous_identifiers.is_empty());
    expected.previous_identifiers.clear();
    expected.label_ids.clear();
    let selected = store.select_issues("usr_outsider", &request).unwrap();
    let later = store_without(&[&ids[0], &ids[1]]);
    let page = store.read_issues(&later, "org_acme", selected).unwrap();
    assert_eq!(page.items[0], expected);
    assert!(page.next_cursor.is_some());

    // A disappearing lookahead row is not loaded and does not invalidate the page.
    let store = store_without(&[&ids[0], &ids[1]]);
    let selected = store.select_issues("usr_outsider", &request).unwrap();
    let later = store_without(&[&ids[0], &ids[1], &ids[3]]);
    let page = later.read_issues(&later, "org_acme", selected).unwrap();
    assert_eq!(page.items[0].issue_id, ids[2]);
    assert!(page.next_cursor.is_some());

    // From one store, selecting and reading is listing.
    let selected = store.select_issues("usr_outsider", &issue_page_request()).unwrap();
    let read = store.read_issues(&store, "org_acme", selected).unwrap();
    let listed = store.list_issues("usr_outsider", &issue_page_request()).unwrap();
    assert_eq!(read.items, listed.items);
    assert_eq!(read.next_cursor, listed.next_cursor);
}
