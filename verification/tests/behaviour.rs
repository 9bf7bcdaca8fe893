use lenso_projects::clock::Timestamp;
use lenso_projects::contract::UPDATE_ISSUE_OPERATION;
use lenso_projects::export::MAX_EXPORT_BYTES;
use lenso_projects::failure::{DomainFailure, RuntimeFailure, StorageError};
use lenso_projects::model::{
    AddCommentRequest, AddIssueRelationRequest, ApplyRetentionRequest, ArchiveIssueRequest,
    ArchiveProjectRequest, ArchiveWorkflowStateRequest, CollectExportRequest, Completion,
    CreateIssueRequest, CreateProjectRequest, CreateProjectUpdateRequest, DeleteCommentRequest,
    DeleteWorkflowStateRequest, GetIssueRequest, GetProjectRequest, Health, IssueValue,
    ListActivityRequest, ListCommentsRequest, ListCyclesRequest, ListIssuesRequest,
    ListLabelsRequest, ListMilestonesRequest, ListProjectStatusesRequest, ListProjectUpdatesRequest,
    ListProjectsRequest, MoveIssueRequest, Priority, ProjectStatusCategory, PutCycleRequest,
    PutExternalLinkRequest, PutLabelRequest, PutMilestoneRequest, PutProjectStatusRequest,
    PutTeamRequest, PutWorkflowStateRequest, RelationKind, RemoveIssueRelationRequest,
    RetentionMode, SetIssueAssigneeRequest, SetTeamMemberRequest, UpdateCommentRequest,
    UpdateIssueRequest, UpdateProjectRequest, WorkflowCategory,
};
use lenso_projects::project_status::StatusIds;
use lenso_projects::store::{Invocation, Store};
use lenso_projects::validate::valid_issue_update;
use lenso_projects::workflow::WorkflowIds;
use std::fmt::Debug;

const EPOCH: i128 = 1_789_430_400_000_000_000;

fn by<R: Debug>(actor: &str, request: &R) -> Invocation {
    Invocation {
        caller: "projects-api".to_owned(),
        actor: actor.to_owned(),
        request_json: format!("{request:?}"),
        now: Timestamp::new(EPOCH).unwrap(),
    }
}

fn done<T: Debug>(result: Result<Completion<T>, StorageError>) -> T {
    let Ok(Completion::Fresh(value)) = result else {
        panic!("the command must take effect: {result:?}");
    };
    value
}

fn refused<T: Debug>(result: Result<T, StorageError>) -> DomainFailure {
    let Err(StorageError::Domain(failure)) = result else {
        panic!("the command must be refused: {result:?}");
    };
    failure
}

fn fault<T: Debug>(result: Result<T, StorageError>) -> String {
    let Err(StorageError::Runtime(RuntimeFailure::PluginFailure { detail })) = result else {
        panic!("the command must fail: {result:?}");
    };
    detail
}

fn put_team(store: &mut Store, team_id: &str, key: &str, private: bool) -> String {
    let request = PutTeamRequest {
        idempotency_key: format!("put-{team_id}"),
        organization_id: "org_acme".to_owned(),
        team_id: team_id.to_owned(),
        key: key.to_owned(),
        name: key.to_owned(),
        description: None,
        private,
        default_workflow_state_id: None,
        expected_revision: None,
    };
    done(store.put_team(
        &by("usr_admin", &request),
        &request,
        &StatusIds::generate(),
        &WorkflowIds::generate(),
    ))
    .default_workflow_state_id
}

fn project_request(id: &str, teams: &[&str]) -> CreateProjectRequest {
    CreateProjectRequest {
        idempotency_key: format!("create-{id}"),
        organization_id: "org_acme".to_owned(),
        project_id: id.to_owned(),
        name: "Roadmap".to_owned(),
        summary: None,
        lead_team_id: teams[0].to_owned(),
        team_ids: teams.iter().map(|team| (*team).to_owned()).collect(),
        status_id: None,
        milestone_id: None,
        start_date: None,
        target_date: None,
    }
}

fn create_project(store: &mut Store, id: &str, teams: &[&str]) {
    let request = project_request(id, teams);
    done(store.create_project(&by("usr_admin", &request), &request, &StatusIds::generate()));
}

fn issue_request(id: &str, project: &str, team: &str, parent: Option<&str>) -> CreateIssueRequest {
    CreateIssueRequest {
        idempotency_key: format!("create-{id}"),
        organization_id: "org_acme".to_owned(),
        issue_id: id.to_owned(),
        project_id: project.to_owned(),
        team_id: team.to_owned(),
        title: "Title".to_owned(),
        description: None,
        priority: Priority::Medium,
        workflow_state_id: None,
        cycle_id: None,
        milestone_id: None,
        parent_issue_id: parent.map(str::to_owned),
        label_ids: vec![],
    }
}

fn create_issue(store: &mut Store, id: &str, parent: Option<&str>) -> IssueValue {
    let request = issue_request(id, "project_1", "team_eng", parent);
    done(store.create_issue(&by("usr_admin", &request), &request))
}

fn update_of(issue: &IssueValue, key: &str, parent: Option<&str>) -> UpdateIssueRequest {
    UpdateIssueRequest {
        idempotency_key: key.to_owned(),
        organization_id: "org_acme".to_owned(),
        issue_id: issue.issue_id.clone(),
        expected_revision: issue.revision.clone(),
        title: "Title".to_owned(),
        description: None,
        priority: Priority::Low,
        workflow_state_id: issue.workflow_state_id.clone(),
        cycle_id: None,
        milestone_id: None,
        parent_issue_id: parent.map(str::to_owned),
        label_ids: vec![],
    }
}

fn reference(text: &str) -> GetIssueRequest {
    GetIssueRequest { organization_id: "org_acme".to_owned(), issue_ref: text.to_owned() }
}

/// Two teams, one project of both, no issue.
fn workspace() -> Store {
    let mut store = Store::empty();
    put_team(&mut store, "team_eng", "ENG", false);
    put_team(&mut store, "team_ops", "OPS", false);
    create_project(&mut store, "project_1", &["team_eng", "team_ops"]);
    store
}

fn comment_request(id: &str, issue: &str) -> AddCommentRequest {
    AddCommentRequest {
        idempotency_key: format!("add-{id}"),
        organization_id: "org_acme".to_owned(),
        issue_id: issue.to_owned(),
        comment_id: id.to_owned(),
        body: "Hello".to_owned(),
    }
}

fn comments_of(issue: &str) -> ListCommentsRequest {
    ListCommentsRequest {
        organization_id: "org_acme".to_owned(),
        issue_id: issue.to_owned(),
        limit: 100,
        after: None,
    }
}

#[test]
fn identifiers_count_up_and_are_never_given_again() {
    let mut store = workspace();
    assert_eq!(create_issue(&mut store, "issue_1", None).identifier, "ENG-1");
    assert_eq!(create_issue(&mut store, "issue_2", None).identifier, "ENG-2");
    let state = store.teams[1].default_workflow_state_id.clone();
    let request = MoveIssueRequest {
        idempotency_key: "move".to_owned(),
        organization_id: "org_acme".to_owned(),
        issue_id: "issue_2".to_owned(),
        expected_revision: "1".to_owned(),
        team_id: "team_ops".to_owned(),
        workflow_state_id: state,
    };
    let moved = done(store.move_issue(&by("usr_admin", &request), &request));
    assert_eq!(moved.identifier, "OPS-1");
    assert_eq!(moved.revision, "2");
    assert_eq!(create_issue(&mut store, "issue_3", None).identifier, "ENG-3");
    for text in ["issue_2", "ENG-2", "OPS-1"] {
        assert_eq!(store.get_issue("usr_admin", &reference(text)).unwrap().issue_id, "issue_2");
    }
    assert_eq!(refused(store.get_issue("usr_admin", &reference("ENG-4"))), DomainFailure::NotFound);
}

#[test]
fn a_taken_id_is_refused_and_changes_nothing() {
    let mut store = workspace();
    create_issue(&mut store, "issue_1", None);
    let mut request = issue_request("issue_1", "project_1", "team_eng", None);
    request.idempotency_key = "again".to_owned();
    assert_eq!(
        refused(store.create_issue(&by("usr_admin", &request), &request)),
        DomainFailure::IdentifierConflict
    );
    assert_eq!(store.issues.len(), 1);
    assert_eq!(store.teams[0].next_issue_number, 2);
}

#[test]
fn parents_never_close_a_cycle() {
    let mut store = workspace();
    let first = create_issue(&mut store, "issue_1", None);
    create_issue(&mut store, "issue_2", Some("issue_1"));
    create_issue(&mut store, "issue_3", Some("issue_2"));
    let request = update_of(&first, "close", Some("issue_3"));
    assert_eq!(
        refused(store.update_issue(&by("usr_admin", &request), &request)),
        DomainFailure::InvalidRequest
    );
    let request = update_of(&first, "self", Some("issue_1"));
    assert!(!valid_issue_update(&request));
    let request = issue_request("issue_4", "project_1", "team_eng", Some("issue_9"));
    assert_eq!(
        refused(store.create_issue(&by("usr_admin", &request), &request)),
        DomainFailure::ParentNotFound
    );
}

#[test]
fn issues_need_their_dependencies() {
    let mut store = workspace();
    let base = issue_request("issue_1", "project_1", "team_eng", None);
    let mut request = base.clone();
    request.project_id = "project_9".to_owned();
    assert_eq!(
        refused(store.create_issue(&by("usr_admin", &request), &request)),
        DomainFailure::NotFound
    );
    let mut request = base.clone();
    request.team_id = "team_9".to_owned();
    assert_eq!(
        refused(store.create_issue(&by("usr_admin", &request), &request)),
        DomainFailure::TeamNotFound
    );
    let mut request = base.clone();
    request.cycle_id = Some("cycle_9".to_owned());
    assert_eq!(
        refused(store.create_issue(&by("usr_admin", &request), &request)),
        DomainFailure::CycleNotFound
    );
    let mut request = base.clone();
    request.milestone_id = Some("milestone_9".to_owned());
    assert_eq!(
        refused(store.create_issue(&by("usr_admin", &request), &request)),
        DomainFailure::MilestoneNotFound
    );
    let mut request = base.clone();
    request.label_ids = vec!["label_9".to_owned()];
    assert_eq!(
        refused(store.create_issue(&by("usr_admin", &request), &request)),
        DomainFailure::LabelNotFound
    );
    let mut request = base;
    request.workflow_state_id = Some("state_9".to_owned());
    assert_eq!(
        refused(store.create_issue(&by("usr_admin", &request), &request)),
        DomainFailure::WorkflowStateNotFound
    );
    assert!(store.issues.is_empty());
}

#[test]
fn every_change_advances_the_revision_once() {
    let mut store = workspace();
    let issue = create_issue(&mut store, "issue_1", None);
    assert_eq!(issue.revision, "1");
    let request = update_of(&issue, "update", None);
    assert_eq!(
        done(store.update_issue(&by("usr_admin", &request), &request)).revision,
        "2"
    );
    let stale = update_of(&issue, "stale", None);
    assert_eq!(
        refused(store.update_issue(&by("usr_admin", &stale), &stale)),
        DomainFailure::RevisionConflict
    );
    let mut request = ArchiveIssueRequest {
        idempotency_key: "archive".to_owned(),
        organization_id: "org_acme".to_owned(),
        issue_id: "issue_1".to_owned(),
        expected_revision: "2".to_owned(),
        archived: true,
    };
    let archived = done(store.archive_issue(&by("usr_admin", &request), &request));
    assert!(archived.archived);
    assert_eq!(archived.revision, "3");
    request.idempotency_key = "restore".to_owned();
    assert_eq!(
        refused(store.archive_issue(&by("usr_admin", &request), &request)),
        DomainFailure::RevisionConflict
    );
}

#[test]
fn a_pending_command_is_not_run_again() {
    let mut store = workspace();
    let request = issue_request("issue_1", "project_1", "team_eng", None);
    let invocation = by("usr_admin", &request);
    done(store.create_issue(&invocation, &request));
    assert_eq!(
        fault(store.create_issue(&invocation, &request)),
        "Projects PostgreSQL operation `read command replay` failed: completed response is missing"
    );
    store
        .complete_command("projects-api", "usr_admin", "create_issue", "create-issue_1", "{}")
        .unwrap();
    assert_eq!(
        store.create_issue(&invocation, &request),
        Ok(Completion::Replayed("{}".to_owned()))
    );
    assert_eq!(
        fault(store.complete_command(
            "projects-api",
            "usr_admin",
            "create_issue",
            "create-issue_1",
            "{}"
        )),
        "Projects PostgreSQL operation `complete command` failed: reserved command was not pending"
    );
    assert_eq!(store.issues.len(), 1);
}

#[test]
fn hidden_teams_hide_their_projects_and_issues() {
    let mut store = Store::empty();
    put_team(&mut store, "team_eng", "ENG", false);
    put_team(&mut store, "team_sec", "SEC", false);
    create_project(&mut store, "project_1", &["team_eng", "team_sec"]);
    create_issue(&mut store, "issue_1", None);
    store.teams[1].private = true;
    let list = ListProjectsRequest {
        organization_id: "org_acme".to_owned(),
        team_id: None,
        include_archived: false,
        limit: 10,
        after: None,
    };
    assert!(store.list_projects("usr_other", &list).unwrap().items.is_empty());
    let get = GetProjectRequest {
        organization_id: "org_acme".to_owned(),
        project_id: "project_1".to_owned(),
    };
    assert_eq!(refused(store.get_project("usr_other", &get)), DomainFailure::PrivateTeam);
    assert_eq!(
        refused(store.get_issue("usr_other", &reference("issue_1"))),
        DomainFailure::PrivateTeam
    );
    let comment = comment_request("comment_1", "issue_1");
    assert_eq!(
        refused(store.add_comment(&by("usr_other", &comment), &comment)),
        DomainFailure::PrivateTeam
    );
    let request = project_request("project_2", &["team_sec"]);
    assert_eq!(
        refused(store.create_project(
            &by("usr_other", &request),
            &request,
            &StatusIds::generate()
        )),
        DomainFailure::PrivateTeam
    );
    let mut membership = SetTeamMemberRequest {
        idempotency_key: "join".to_owned(),
        organization_id: "org_acme".to_owned(),
        team_id: "team_sec".to_owned(),
        subject: "usr_other".to_owned(),
        active: true,
    };
    let member = done(store.set_team_member(&by("usr_admin", &membership), &membership));
    assert!(member.changed);
    assert_eq!(store.list_projects("usr_other", &list).unwrap().items.len(), 1);
    membership.idempotency_key = "join-again".to_owned();
    let member = done(store.set_team_member(&by("usr_admin", &membership), &membership));
    assert!(!member.changed);
    membership.idempotency_key = "leave".to_owned();
    membership.active = false;
    done(store.set_team_member(&by("usr_admin", &membership), &membership));
    assert!(store.list_projects("usr_other", &list).unwrap().items.is_empty());
}

#[test]
fn only_whoever_sees_an_issue_is_assigned_to_it() {
    let mut store = workspace();
    create_issue(&mut store, "issue_1", None);
    store.teams[0].private = true;
    store.team_members.push(lenso_projects::model::TeamMember {
        organization_id: "org_acme".to_owned(),
        team_id: "team_eng".to_owned(),
        subject: "usr_admin".to_owned(),
        active: true,
        revision: 1,
    });
    let request = SetIssueAssigneeRequest {
        idempotency_key: "assign".to_owned(),
        organization_id: "org_acme".to_owned(),
        issue_id: "issue_1".to_owned(),
        assignee_subject: Some("usr_other".to_owned()),
        expected_revision: "1".to_owned(),
    };
    assert_eq!(
        refused(store.set_issue_assignee(&by("usr_admin", &request), &request)),
        DomainFailure::PrivateTeam
    );
}

#[test]
fn team_keys_belong_to_one_team() {
    let mut store = workspace();
    let mut request = PutTeamRequest {
        idempotency_key: "clash".to_owned(),
        organization_id: "org_acme".to_owned(),
        team_id: "team_3".to_owned(),
        key: "ENG".to_owned(),
        name: "Engineering".to_owned(),
        description: None,
        private: false,
        default_workflow_state_id: None,
        expected_revision: None,
    };
    let result = store.put_team(
        &by("usr_admin", &request),
        &request,
        &StatusIds::generate(),
        &WorkflowIds::generate(),
    );
    assert_eq!(refused(result), DomainFailure::KeyConflict);
    request.team_id = "team_eng".to_owned();
    request.idempotency_key = "default".to_owned();
    request.expected_revision = Some("1".to_owned());
    request.default_workflow_state_id = Some(store.teams[1].default_workflow_state_id.clone());
    let result = store.put_team(
        &by("usr_admin", &request),
        &request,
        &StatusIds::generate(),
        &WorkflowIds::generate(),
    );
    assert_eq!(refused(result), DomainFailure::DefaultStateInvalid);
}

#[test]
fn projects_keep_the_time_they_were_completed() {
    let mut store = workspace();
    let statuses = store
        .list_project_statuses(
            &ListProjectStatusesRequest {
                organization_id: "org_acme".to_owned(),
                limit: 100,
                after: None,
            },
            &StatusIds::generate(),
        )
        .unwrap();
    assert_eq!(
        statuses.items.iter().map(|status| status.name.as_str()).collect::<Vec<_>>(),
        vec!["Backlog", "Planned", "In Progress", "Paused", "Completed", "Canceled"]
    );
    assert_eq!(statuses.items.iter().filter(|status| status.is_default).count(), 1);
    let of = |category: ProjectStatusCategory| {
        statuses
            .items
            .iter()
            .find(|status| status.category == category)
            .unwrap()
            .status_id
            .clone()
    };
    let mut request = UpdateProjectRequest {
        idempotency_key: "complete".to_owned(),
        organization_id: "org_acme".to_owned(),
        project_id: "project_1".to_owned(),
        expected_revision: "1".to_owned(),
        name: "Roadmap".to_owned(),
        summary: None,
        lead_team_id: "team_eng".to_owned(),
        team_ids: vec!["team_eng".to_owned(), "team_ops".to_owned()],
        status_id: of(ProjectStatusCategory::Completed),
        milestone_id: None,
        start_date: Some("2026-01-01".to_owned()),
        target_date: Some("2026-12-31".to_owned()),
    };
    let ids = StatusIds::generate();
    let project = done(store.update_project(&by("usr_admin", &request), &request, &ids));
    assert_eq!(project.completed_at.as_deref(), Some("2026-09-15T00:00:00Z"));
    assert_eq!(project.canceled_at, None);
    assert_eq!(project.target_date.as_deref(), Some("2026-12-31"));
    request.idempotency_key = "cancel".to_owned();
    request.expected_revision = "2".to_owned();
    request.status_id = of(ProjectStatusCategory::Canceled);
    let project = done(store.update_project(&by("usr_admin", &request), &request, &ids));
    assert_eq!(project.completed_at, None);
    assert!(project.canceled_at.is_some());
    request.idempotency_key = "reopen".to_owned();
    request.expected_revision = "3".to_owned();
    request.status_id = of(ProjectStatusCategory::Planned);
    let project = done(store.update_project(&by("usr_admin", &request), &request, &ids));
    assert_eq!(project.canceled_at, None);
    request.idempotency_key = "unknown".to_owned();
    request.expected_revision = "4".to_owned();
    request.status_id = "status_9".to_owned();
    assert_eq!(
        refused(store.update_project(&by("usr_admin", &request), &request, &ids)),
        DomainFailure::ProjectStatusNotFound
    );
    let archive = ArchiveProjectRequest {
        idempotency_key: "archive".to_owned(),
        organization_id: "org_acme".to_owned(),
        project_id: "project_1".to_owned(),
        expected_revision: "4".to_owned(),
        archived: true,
    };
    assert!(done(store.archive_project(&by("usr_admin", &archive), &archive)).archived);
}

#[test]
fn statuses_are_created_and_replaced() {
    let mut store = workspace();
    let mut request = PutProjectStatusRequest {
        idempotency_key: "put".to_owned(),
        organization_id: "org_acme".to_owned(),
        status_id: "status_1".to_owned(),
        name: "Shipped".to_owned(),
        category: ProjectStatusCategory::Completed,
        color: "#00AA66".to_owned(),
        position: 10,
        expected_revision: None,
    };
    let ids = StatusIds::generate();
    let status = done(store.put_project_status(&by("usr_admin", &request), &request, &ids));
    assert!(!status.is_default);
    assert_eq!(status.revision, "1");
    request.idempotency_key = "replace".to_owned();
    request.expected_revision = Some("1".to_owned());
    request.name = "Delivered".to_owned();
    let status = done(store.put_project_status(&by("usr_admin", &request), &request, &ids));
    assert_eq!(status.name, "Delivered");
    assert_eq!(status.revision, "2");
    request.idempotency_key = "stale".to_owned();
    assert_eq!(
        refused(store.put_project_status(&by("usr_admin", &request), &request, &ids)),
        DomainFailure::RevisionConflict
    );
}

#[test]
fn comments_belong_to_their_author() {
    let mut store = workspace();
    create_issue(&mut store, "issue_1", None);
    let request = comment_request("comment_1", "issue_1");
    let comment = done(store.add_comment(&by("usr_alice", &request), &request));
    assert_eq!(comment.author_subject, "usr_alice");
    assert_eq!(comment.revision, "1");
    let mut update = UpdateCommentRequest {
        idempotency_key: "edit".to_owned(),
        organization_id: "org_acme".to_owned(),
        comment_id: "comment_1".to_owned(),
        expected_revision: "1".to_owned(),
        body: "Edited".to_owned(),
    };
    assert_eq!(
        refused(store.update_comment(&by("usr_bob", &update), &update)),
        DomainFailure::AuthorRequired
    );
    let edited = done(store.update_comment(&by("usr_alice", &update), &update));
    assert_eq!(edited.body, "Edited");
    assert_eq!(edited.revision, "2");
    let delete = DeleteCommentRequest {
        idempotency_key: "delete".to_owned(),
        organization_id: "org_acme".to_owned(),
        comment_id: "comment_1".to_owned(),
        expected_revision: "2".to_owned(),
    };
    let deleted = done(store.delete_comment(&by("usr_alice", &delete), &delete));
    assert!(deleted.deleted);
    assert_eq!(deleted.body, "");
    update.idempotency_key = "edit-deleted".to_owned();
    update.expected_revision = "3".to_owned();
    assert_eq!(
        refused(store.update_comment(&by("usr_alice", &update), &update)),
        DomainFailure::RevisionConflict
    );
    let page = store.list_comments("usr_bob", &comments_of("issue_1")).unwrap();
    assert_eq!(page.items.len(), 1);
    assert!(page.items[0].deleted);
    assert_eq!(page.next_cursor, None);
}

#[test]
fn comment_pages_continue_where_they_ended() {
    let mut store = workspace();
    create_issue(&mut store, "issue_1", None);
    for number in 1..=5 {
        let request = comment_request(&format!("comment_{number}"), "issue_1");
        done(store.add_comment(&by("usr_alice", &request), &request));
    }
    let mut request = comments_of("issue_1");
    request.limit = 2;
    let mut seen = Vec::new();
    loop {
        let page = store.list_comments("usr_alice", &request).unwrap();
        seen.extend(page.items.into_iter().map(|comment| comment.comment_id));
        if page.next_cursor.is_none() {
            break;
        }
        request.after = page.next_cursor;
    }
    assert_eq!(
        seen,
        vec!["comment_1", "comment_2", "comment_3", "comment_4", "comment_5"]
    );
}

#[test]
fn project_updates_are_posted_and_listed() {
    let mut store = workspace();
    let request = CreateProjectUpdateRequest {
        idempotency_key: "post".to_owned(),
        organization_id: "org_acme".to_owned(),
        project_id: "project_1".to_owned(),
        update_id: "update_1".to_owned(),
        body: "On it".to_owned(),
        health: Health::AtRisk,
    };
    done(store.create_project_update(&by("usr_alice", &request), &request));
    let page = store
        .list_project_updates(
            "usr_alice",
            &ListProjectUpdatesRequest {
                organization_id: "org_acme".to_owned(),
                project_id: "project_1".to_owned(),
                limit: 10,
                after: None,
            },
        )
        .unwrap();
    assert_eq!(page.items.len(), 1);
    assert_eq!(page.items[0].health, Health::AtRisk);
    assert_eq!(page.items[0].created_at, "2026-09-15T00:00:00Z");
}

#[test]
fn relations_join_two_different_issues() {
    let mut store = workspace();
    create_issue(&mut store, "issue_1", None);
    create_issue(&mut store, "issue_2", None);
    let mut request = AddIssueRelationRequest {
        idempotency_key: "relate".to_owned(),
        organization_id: "org_acme".to_owned(),
        relation_id: "relation_1".to_owned(),
        issue_id: "issue_1".to_owned(),
        related_issue_id: "issue_1".to_owned(),
        kind: RelationKind::Blocks,
    };
    assert_eq!(
        refused(store.add_issue_relation(&by("usr_alice", &request), &request)),
        DomainFailure::CannotRelateSelf
    );
    request.related_issue_id = "issue_2".to_owned();
    assert!(done(store.add_issue_relation(&by("usr_alice", &request), &request)).active);
    request.idempotency_key = "relate-again".to_owned();
    assert_eq!(
        refused(store.add_issue_relation(&by("usr_alice", &request), &request)),
        DomainFailure::RelationConflict
    );
    let remove = RemoveIssueRelationRequest {
        idempotency_key: "remove".to_owned(),
        organization_id: "org_acme".to_owned(),
        relation_id: "relation_1".to_owned(),
    };
    assert!(!done(store.remove_issue_relation(&by("usr_alice", &remove), &remove)).active);
}

#[test]
fn external_links_are_put_and_replaced() {
    let mut store = workspace();
    create_issue(&mut store, "issue_1", None);
    let mut request = PutExternalLinkRequest {
        idempotency_key: "link".to_owned(),
        organization_id: "org_acme".to_owned(),
        issue_id: "issue_1".to_owned(),
        provider: "github".to_owned(),
        external_key: "acme/repo#1".to_owned(),
        url: "https://example.com/1".to_owned(),
        title: None,
    };
    assert!(done(store.put_external_link(&by("usr_alice", &request), &request)).created);
    request.idempotency_key = "link-again".to_owned();
    request.url = "https://example.com/2".to_owned();
    let link = done(store.put_external_link(&by("usr_alice", &request), &request));
    assert!(!link.created);
    assert_eq!(link.url, "https://example.com/2");
    assert_eq!(store.links.len(), 1);
}

#[test]
fn plans_are_put_and_listed() {
    let mut store = workspace();
    let label = PutLabelRequest {
        idempotency_key: "label".to_owned(),
        organization_id: "org_acme".to_owned(),
        label_id: "label_1".to_owned(),
        team_id: None,
        name: "Bug".to_owned(),
        description: None,
        color: "#ff0000".to_owned(),
        expected_revision: None,
    };
    assert_eq!(done(store.put_label(&by("usr_admin", &label), &label)).revision, "1");
    let labels = store
        .list_labels(&ListLabelsRequest {
            organization_id: "org_acme".to_owned(),
            team_id: None,
            limit: 10,
            after: None,
        })
        .unwrap();
    assert_eq!(labels.items[0].name, "Bug");

    let mut cycle = PutCycleRequest {
        idempotency_key: "cycle".to_owned(),
        organization_id: "org_acme".to_owned(),
        cycle_id: "cycle_1".to_owned(),
        team_id: "team_eng".to_owned(),
        number: 1,
        name: None,
        starts_on: "2026-01-14".to_owned(),
        ends_on: "2026-01-01".to_owned(),
        expected_revision: None,
    };
    assert_eq!(
        refused(store.put_cycle(&by("usr_admin", &cycle), &cycle)),
        DomainFailure::InvalidRequest
    );
    cycle.starts_on = "2026-01-01".to_owned();
    cycle.ends_on = "2026-01-14".to_owned();
    assert_eq!(done(store.put_cycle(&by("usr_admin", &cycle), &cycle)).number, 1);
    let cycles = store
        .list_cycles(&ListCyclesRequest {
            organization_id: "org_acme".to_owned(),
            team_id: "team_eng".to_owned(),
            limit: 10,
            after: None,
        })
        .unwrap();
    assert_eq!(cycles.items[0].ends_on, "2026-01-14");

    let milestone = PutMilestoneRequest {
        idempotency_key: "milestone".to_owned(),
        organization_id: "org_acme".to_owned(),
        milestone_id: "milestone_1".to_owned(),
        project_id: "project_1".to_owned(),
        name: "Beta".to_owned(),
        description: None,
        target_date: Some("2026-06-30".to_owned()),
        expected_revision: None,
    };
    done(store.put_milestone(&by("usr_admin", &milestone), &milestone));
    let milestones = store
        .list_milestones(&ListMilestonesRequest {
            organization_id: "org_acme".to_owned(),
            project_id: "project_1".to_owned(),
            limit: 10,
            after: None,
        })
        .unwrap();
    assert_eq!(milestones.items[0].target_date.as_deref(), Some("2026-06-30"));

    let mut request = issue_request("issue_1", "project_1", "team_eng", None);
    request.label_ids = vec!["label_1".to_owned()];
    request.cycle_id = Some("cycle_1".to_owned());
    request.milestone_id = Some("milestone_1".to_owned());
    let issue = done(store.create_issue(&by("usr_admin", &request), &request));
    assert_eq!(issue.label_ids, vec!["label_1"]);
    assert_eq!(issue.cycle_id.as_deref(), Some("cycle_1"));
}

#[test]
fn moving_an_issue_drops_what_belongs_to_the_old_team() {
    let mut store = workspace();
    for (id, team) in [("label_all", None), ("label_eng", Some("team_eng"))] {
        let label = PutLabelRequest {
            idempotency_key: id.to_owned(),
            organization_id: "org_acme".to_owned(),
            label_id: id.to_owned(),
            team_id: team.map(str::to_owned),
            name: id.to_owned(),
            description: None,
            color: "#ff0000".to_owned(),
            expected_revision: None,
        };
        done(store.put_label(&by("usr_admin", &label), &label));
    }
    let mut request = issue_request("issue_1", "project_1", "team_eng", None);
    request.label_ids = vec!["label_eng".to_owned(), "label_all".to_owned()];
    let issue = done(store.create_issue(&by("usr_admin", &request), &request));
    assert_eq!(issue.label_ids, vec!["label_all", "label_eng"]);
    let request = MoveIssueRequest {
        idempotency_key: "move".to_owned(),
        organization_id: "org_acme".to_owned(),
        issue_id: "issue_1".to_owned(),
        expected_revision: "1".to_owned(),
        team_id: "team_ops".to_owned(),
        workflow_state_id: store.teams[1].default_workflow_state_id.clone(),
    };
    let moved = done(store.move_issue(&by("usr_admin", &request), &request));
    assert_eq!(moved.label_ids, vec!["label_all"]);
    assert_eq!(moved.cycle_id, None);
    assert_eq!(moved.previous_identifiers, vec!["ENG-1"]);
}

#[test]
fn the_feed_grows_at_its_end() {
    let mut store = workspace();
    let mut request = ListActivityRequest {
        organization_id: "org_acme".to_owned(),
        project_id: None,
        issue_id: None,
        limit: 100,
        after: None,
    };
    let before = store.list_activity("usr_admin", &request).unwrap();
    let checkpoint = before.next_cursor.clone().unwrap();
    create_issue(&mut store, "issue_1", None);
    request.after = Some(checkpoint.clone());
    let fresh = store.list_activity("usr_admin", &request).unwrap();
    assert_eq!(fresh.items.len(), 1);
    assert_eq!(fresh.items[0].operation, "create_issue");
    assert_eq!(fresh.items[0].entity_id, "issue_1");
    assert_eq!(fresh.items[0].revision.as_deref(), Some("1"));
    request.after = fresh.next_cursor.clone();
    let end = store.list_activity("usr_admin", &request).unwrap();
    assert!(end.items.is_empty());
    assert_eq!(end.next_cursor, fresh.next_cursor);
}

#[test]
fn retention_forgets_a_subject_once() {
    let mut store = workspace();
    create_issue(&mut store, "issue_1", None);
    let comment = comment_request("comment_1", "issue_1");
    done(store.add_comment(&by("usr_alice", &comment), &comment));
    let assign = SetIssueAssigneeRequest {
        idempotency_key: "assign".to_owned(),
        organization_id: "org_acme".to_owned(),
        issue_id: "issue_1".to_owned(),
        assignee_subject: Some("usr_alice".to_owned()),
        expected_revision: "1".to_owned(),
    };
    done(store.set_issue_assignee(&by("usr_admin", &assign), &assign));
    let export = CollectExportRequest {
        export_id: "export_1".to_owned(),
        scope_kind: "organization".to_owned(),
        scope_id: "org_acme".to_owned(),
        subject: "usr_alice".to_owned(),
    };
    let payload =
        store.collect_export(&export, MAX_EXPORT_BYTES).unwrap().items.remove(0).payload;
    assert!(payload.contains(r#""comment_id":"comment_1""#));
    assert!(payload.ends_with(r#""assigned_issue_ids":["issue_1"]}"#));

    let mut request = ApplyRetentionRequest {
        action_id: "action_1".to_owned(),
        scope_kind: "organization".to_owned(),
        scope_id: "org_acme".to_owned(),
        subject: "usr_alice".to_owned(),
        mode: RetentionMode::Anonymize,
        reason: "asked to".to_owned(),
    };
    let now = Timestamp::new(EPOCH).unwrap();
    let feed = store.activity.len();
    assert_eq!(
        store.apply_retention(&request, &now),
        Ok("projects-retention:action_1".to_owned())
    );
    assert_eq!(store.comments[0].author_subject, "privacy:action_1");
    assert_eq!(store.comments[0].body, "Hello");
    assert_eq!(store.issues[0].assignee_subject, None);
    assert_eq!(store.activity.len(), feed);
    let empty = store.collect_export(&export, MAX_EXPORT_BYTES).unwrap().items.remove(0).payload;
    assert!(empty.ends_with(
        r#""comments":[],"project_updates":[],"activity":[],"assigned_issue_ids":[]}"#
    ));
    assert_eq!(
        store.apply_retention(&request, &now),
        Ok("projects-retention:action_1".to_owned())
    );
    assert_eq!(store.receipts.len(), 1);
    request.mode = RetentionMode::Delete;
    assert_eq!(
        refused(store.apply_retention(&request, &now)),
        DomainFailure::IdempotencyConflict
    );
    request.action_id = "action_2".to_owned();
    request.subject = "privacy:action_1".to_owned();
    store.apply_retention(&request, &now).unwrap();
    assert_eq!(store.comments[0].body, "");
    assert_eq!(store.comments[0].author_subject, "privacy:action_2");
}

#[test]
fn only_the_numbers_that_an_operation_raises_count() {
    let mut store = workspace();
    let first = create_issue(&mut store, "issue_1", None);
    create_issue(&mut store, "issue_2", None);
    let full = "bigint out of range";
    store.issues[1].revision = i64::MAX;
    store.teams[1].next_issue_number = i64::MAX;
    let update = update_of(&first, "update", None);
    assert_eq!(done(store.update_issue(&by("usr_admin", &update), &update)).revision, "2");
    let mut late = update_of(&first, "late", None);
    late.issue_id = "issue_2".to_owned();
    late.expected_revision = i64::MAX.to_string();
    assert_eq!(
        fault(store.update_issue(&by("usr_admin", &late), &late)),
        format!("Projects PostgreSQL operation `update issue` failed: {full}")
    );
    assert_eq!(store.issues[1].revision, i64::MAX);
    let request = issue_request("issue_3", "project_1", "team_ops", None);
    assert_eq!(
        fault(store.create_issue(&by("usr_admin", &request), &request)),
        format!("Projects PostgreSQL operation `allocate issue identifier` failed: {full}")
    );
    store.next_row = i64::MAX;
    let comment = comment_request("comment_1", "issue_1");
    assert_eq!(
        fault(store.add_comment(&by("usr_admin", &comment), &comment)),
        format!("Projects PostgreSQL operation `insert comment` failed: {full}")
    );
    let mut membership = SetTeamMemberRequest {
        idempotency_key: "join".to_owned(),
        organization_id: "org_acme".to_owned(),
        team_id: "team_eng".to_owned(),
        subject: "usr_other".to_owned(),
        active: true,
    };
    assert!(done(store.set_team_member(&by("usr_admin", &membership), &membership)).changed);
    store.team_members[0].revision = i64::MAX;
    membership.idempotency_key = "again".to_owned();
    assert!(!done(store.set_team_member(&by("usr_admin", &membership), &membership)).changed);
    membership.idempotency_key = "leave".to_owned();
    membership.active = false;
    assert_eq!(
        fault(store.set_team_member(&by("usr_admin", &membership), &membership)),
        format!("Projects PostgreSQL operation `update team member` failed: {full}")
    );
    store.next_activity = i64::MAX;
    let link = PutExternalLinkRequest {
        idempotency_key: "link".to_owned(),
        organization_id: "org_acme".to_owned(),
        issue_id: "issue_1".to_owned(),
        provider: "github".to_owned(),
        external_key: "1".to_owned(),
        url: "https://example.com/1".to_owned(),
        title: None,
    };
    assert_eq!(
        fault(store.put_external_link(&by("usr_admin", &link), &link)),
        format!("Projects PostgreSQL operation `append activity` failed: {full}")
    );
    assert!(store.links.is_empty());
    store
        .complete_command("projects-api", "usr_admin", UPDATE_ISSUE_OPERATION, "update", "{}")
        .unwrap();
    assert!(matches!(
        store.update_issue(&by("usr_admin", &update), &update),
        Ok(Completion::Replayed(response)) if response == "{}"
    ));
}

#[test]
fn a_catalog_is_set_up_only_where_its_rows_can_be_numbered() {
    let mut store = Store::empty();
    store.next_row = i64::MAX - 5;
    let list = ListProjectStatusesRequest {
        organization_id: "org_acme".to_owned(),
        limit: 100,
        after: None,
    };
    let ids = StatusIds::generate();
    assert_eq!(
        fault(store.list_project_statuses(&list, &ids)),
        "Projects PostgreSQL operation `initialize project statuses` failed: bigint out of range"
    );
    assert!(store.project_statuses.is_empty());
    store.next_row = i64::MAX - 6;
    assert_eq!(store.list_project_statuses(&list, &ids).unwrap().items.len(), 6);
    assert_eq!(store.next_row, i64::MAX);
    assert_eq!(store.list_project_statuses(&list, &ids).unwrap().items.len(), 6);
}

#[test]
fn retention_revises_only_what_the_subject_has() {
    let mut store = workspace();
    create_issue(&mut store, "issue_1", None);
    for (id, author) in [("comment_1", "usr_a"), ("comment_2", "usr_b")] {
        let comment = comment_request(id, "issue_1");
        done(store.add_comment(&by(author, &comment), &comment));
    }
    store.comments[1].revision = i64::MAX;
    let mut request = ApplyRetentionRequest {
        action_id: "action_1".to_owned(),
        scope_kind: "organization".to_owned(),
        reason: "asked to".to_owned(),
        scope_id: "org_acme".to_owned(),
        subject: "usr_b".to_owned(),
        mode: RetentionMode::Anonymize,
    };
    let now = Timestamp::new(EPOCH).unwrap();
    assert_eq!(
        fault(store.apply_retention(&request, &now)),
        "Projects PostgreSQL operation `anonymize comments` failed: bigint out of range"
    );
    assert_eq!(store.comments[1].author_subject, "usr_b");
    assert!(store.receipts.is_empty());
    request.subject = "usr_a".to_owned();
    assert_eq!(store.apply_retention(&request, &now).unwrap(), "projects-retention:action_1");
    assert_eq!(store.comments[0].revision, 2);
    assert_eq!(store.comments[0].author_subject, "privacy:action_1");
}

#[test]
fn listings_take_any_limit_that_rows_can_be_read_with() {
    let mut store = workspace();
    create_issue(&mut store, "issue_1", None);
    for id in ["comment_1", "comment_2", "comment_3"] {
        let comment = comment_request(id, "issue_1");
        done(store.add_comment(&by("usr_admin", &comment), &comment));
    }
    let mut list = comments_of("issue_1");
    for (limit, shown, continues) in
        [(1000, 3, false), (3, 3, false), (2, 2, true), (0, 0, false), (-1, 0, false)]
    {
        list.limit = limit;
        let page = store.list_comments("usr_admin", &list).unwrap();
        assert_eq!(page.items.len(), shown);
        assert_eq!(page.next_cursor.is_some(), continues);
    }
    list.limit = -2;
    assert_eq!(
        fault(store.list_comments("usr_admin", &list)),
        "Projects PostgreSQL operation `list comments` failed: LIMIT must not be negative"
    );
    list.after = Some("0".to_owned());
    assert_eq!(refused(store.list_comments("usr_admin", &list)), DomainFailure::InvalidRequest);
    let mut feed = ListActivityRequest {
        organization_id: "org_acme".to_owned(),
        project_id: None,
        issue_id: None,
        limit: 0,
        after: Some("2".to_owned()),
    };
    let page = store.list_activity("usr_admin", &feed).unwrap();
    assert!(page.items.is_empty());
    assert_eq!(page.next_cursor.as_deref(), Some("2"));
    feed.limit = -2;
    assert_eq!(
        fault(store.list_activity("usr_admin", &feed)),
        "Projects PostgreSQL operation `list activity` failed: LIMIT must not be negative"
    );
    let statuses = ListProjectStatusesRequest {
        organization_id: "org_new".to_owned(),
        limit: -2,
        after: None,
    };
    assert_eq!(
        fault(store.list_project_statuses(&statuses, &StatusIds::generate())),
        "Projects PostgreSQL operation `list project statuses` failed: LIMIT must not be negative"
    );
    assert!(store.workspaces.iter().any(|row| row.organization_id == "org_new"));
}

#[test]
fn revisions_and_numbers_stay_positive_and_grow() {
    let mut store = workspace();
    let mut numbers = vec![];
    for id in ["issue_1", "issue_2", "issue_3"] {
        create_issue(&mut store, id, None);
        numbers.push(store.teams[0].next_issue_number);
        let archive = ArchiveIssueRequest {
            idempotency_key: format!("archive-{id}"),
            organization_id: "org_acme".to_owned(),
            issue_id: id.to_owned(),
            expected_revision: "1".to_owned(),
            archived: true,
        };
        done(store.archive_issue(&by("usr_admin", &archive), &archive));
    }
    assert_eq!(numbers, vec![2, 3, 4]);
    assert!(store.issues.iter().all(|row| row.revision == 2));
    assert!(store.teams.iter().all(|row| row.revision >= 1));
    assert!(store.project_statuses.iter().all(|row| row.revision == 1));
    assert!(store.workflow_states.iter().all(|row| row.revision == 1));
}

#[test]
fn labels_are_read_in_their_order() {
    let mut store = workspace();
    for id in ["label_z", "label_a"] {
        let label = PutLabelRequest {
            idempotency_key: id.to_owned(),
            organization_id: "org_acme".to_owned(),
            label_id: id.to_owned(),
            team_id: None,
            name: id.to_owned(),
            description: None,
            color: "#ff0000".to_owned(),
            expected_revision: None,
        };
        done(store.put_label(&by("usr_admin", &label), &label));
    }
    let mut request = issue_request("issue_1", "project_1", "team_eng", None);
    request.label_ids = vec!["label_z".to_owned(), "label_a".to_owned()];
    let created = done(store.create_issue(&by("usr_admin", &request), &request));
    assert_eq!(created.label_ids, vec!["label_a", "label_z"]);
    let read = store.get_issue("usr_admin", &reference("issue_1")).unwrap();
    assert_eq!(read.label_ids, vec!["label_a", "label_z"]);
    let mut update = update_of(&created, "update", None);
    update.label_ids = vec!["label_z".to_owned(), "label_a".to_owned()];
    let updated = done(store.update_issue(&by("usr_admin", &update), &update));
    assert_eq!(updated.label_ids, vec!["label_a", "label_z"]);
    let page = store
        .list_issues(
            "usr_admin",
            &ListIssuesRequest {
                organization_id: "org_acme".to_owned(),
                project_id: None,
                team_id: None,
                workflow_state_id: None,
                include_archived: false,
                limit: 10,
                after: None,
            },
        )
        .unwrap();
    assert_eq!(page.items[0].label_ids, vec!["label_a", "label_z"]);
}

fn ascending(numbers: Vec<i64>, next: i64) {
    assert!(numbers.windows(2).all(|pair| pair[0] < pair[1]), "{numbers:?}");
    assert!(numbers.iter().all(|number| 0 < *number && *number < next), "{numbers:?} {next}");
}

/// Fails where the rows are out of order, or point at what is not there.
fn assert_sound(store: &Store) {
    ascending(store.teams.iter().map(|row| row.row_seq).collect(), store.next_row);
    ascending(store.workflow_states.iter().map(|row| row.row_seq).collect(), store.next_row);
    ascending(store.project_statuses.iter().map(|row| row.row_seq).collect(), store.next_row);
    ascending(store.projects.iter().map(|row| row.row_seq).collect(), store.next_row);
    ascending(store.issues.iter().map(|row| row.row_seq).collect(), store.next_row);
    ascending(store.comments.iter().map(|row| row.row_seq).collect(), store.next_row);
    ascending(
        store.activity.iter().map(|row| row.activity_id).collect(),
        store.next_activity,
    );
    for team in &store.teams {
        assert!(store.workflow_states.iter().any(|state| {
            state.team_id == team.team_id
                && state.state_id == team.default_workflow_state_id
                && !state.archived
        }));
    }
    for workspace in &store.workspaces {
        let defaults = store
            .project_statuses
            .iter()
            .filter(|row| row.organization_id == workspace.organization_id && row.is_default)
            .map(|row| row.status_id.as_str())
            .collect::<Vec<_>>();
        assert_eq!(defaults, vec![workspace.default_project_status_id.as_str()]);
    }
    for project in &store.projects {
        let status = store
            .project_statuses
            .iter()
            .find(|row| row.status_id == project.status_id && !row.archived)
            .unwrap();
        assert_eq!(
            project.completed_at.is_some(),
            status.category == ProjectStatusCategory::Completed
        );
        assert_eq!(
            project.canceled_at.is_some(),
            status.category == ProjectStatusCategory::Canceled
        );
    }
    for issue in &store.issues {
        assert!(store.workflow_states.iter().any(|state| {
            state.team_id == issue.team_id
                && state.state_id == issue.workflow_state_id
                && !state.archived
        }));
        let project = store.projects.iter().find(|row| row.project_id == issue.project_id);
        assert!(project.unwrap().team_ids.contains(&issue.team_id));
        assert!(store.aliases.iter().any(|alias| {
            alias.identifier == issue.identifier && alias.issue_id == issue.issue_id
        }));
        let mut above = issue.parent_issue_id.clone();
        for _ in 0..store.issues.len() {
            above = above.and_then(|id| {
                let parent = store.issues.iter().find(|row| row.issue_id == id).unwrap();
                parent.parent_issue_id.clone()
            });
        }
        assert_eq!(above, None);
    }
    let distinct = |texts: Vec<&String>| {
        texts.iter().enumerate().all(|(i, text)| !texts[..i].contains(text))
    };
    assert!(distinct(store.issues.iter().map(|row| &row.issue_id).collect()));
    assert!(distinct(store.aliases.iter().map(|row| &row.identifier).collect()));
}

#[test]
fn a_history_keeps_the_store_sound() {
    let mut store = Store::empty();
    assert_sound(&store);
    put_team(&mut store, "team_eng", "ENG", false);
    assert_sound(&store);
    put_team(&mut store, "team_ops", "OPS", false);
    create_project(&mut store, "project_1", &["team_eng", "team_ops"]);
    assert_sound(&store);
    let state = PutWorkflowStateRequest {
        idempotency_key: "state".to_owned(),
        organization_id: "org_acme".to_owned(),
        team_id: "team_eng".to_owned(),
        state_id: "state_1".to_owned(),
        name: "Review".to_owned(),
        category: WorkflowCategory::Started,
        color: "#112233".to_owned(),
        position: 20,
        expected_revision: None,
    };
    done(store.put_workflow_state(&by("usr_admin", &state), &state));
    assert_sound(&store);
    let newest = store.next_row - 1;
    assert_eq!(store.workflow_states.last().unwrap().row_seq, newest);
    let archive = ArchiveWorkflowStateRequest {
        idempotency_key: "archive".to_owned(),
        organization_id: "org_acme".to_owned(),
        state_id: "state_1".to_owned(),
        expected_revision: "1".to_owned(),
        archived: true,
    };
    done(store.archive_workflow_state(&by("usr_admin", &archive), &archive));
    assert_sound(&store);
    let delete = DeleteWorkflowStateRequest {
        idempotency_key: "delete".to_owned(),
        organization_id: "org_acme".to_owned(),
        team_id: "team_eng".to_owned(),
        state_id: "state_1".to_owned(),
        expected_revision: "2".to_owned(),
    };
    done(store.delete_workflow_state(&by("usr_admin", &delete), &delete));
    assert_sound(&store);
    create_issue(&mut store, "issue_1", None);
    // The number of the deleted row is not given again.
    assert_eq!(store.issues[0].row_seq, newest + 1);
    assert_sound(&store);
    let child = create_issue(&mut store, "issue_2", Some("issue_1"));
    let comment = comment_request("comment_1", "issue_2");
    done(store.add_comment(&by("usr_admin", &comment), &comment));
    assert_sound(&store);
    let update = update_of(&child, "detach", None);
    let child = done(store.update_issue(&by("usr_admin", &update), &update));
    let grandchild = create_issue(&mut store, "issue_3", Some("issue_2"));
    let update = update_of(&child, "attach", Some("issue_1"));
    done(store.update_issue(&by("usr_admin", &update), &update));
    assert_sound(&store);
    let parent = store.get_issue("usr_admin", &reference("issue_1")).unwrap();
    let update = update_of(&parent, "close", Some(&grandchild.issue_id));
    assert_eq!(
        refused(store.update_issue(&by("usr_admin", &update), &update)),
        DomainFailure::InvalidRequest
    );
    assert_sound(&store);
    let request = MoveIssueRequest {
        idempotency_key: "move".to_owned(),
        organization_id: "org_acme".to_owned(),
        issue_id: "issue_3".to_owned(),
        expected_revision: "1".to_owned(),
        team_id: "team_ops".to_owned(),
        workflow_state_id: store.teams[1].default_workflow_state_id.clone(),
    };
    done(store.move_issue(&by("usr_admin", &request), &request));
    assert_sound(&store);
    for active in [true, false, true] {
        let member = SetTeamMemberRequest {
            idempotency_key: format!("member-{}", store.activity.len()),
            organization_id: "org_acme".to_owned(),
            team_id: "team_eng".to_owned(),
            subject: "usr_1".to_owned(),
            active,
        };
        done(store.set_team_member(&by("usr_admin", &member), &member));
        assert_eq!(store.team_members.len(), 1);
        assert_eq!(store.team_members[0].active, active);
    }
    let retention = ApplyRetentionRequest {
        action_id: "action_1".to_owned(),
        scope_kind: "organization".to_owned(),
        scope_id: "org_acme".to_owned(),
        subject: "usr_admin".to_owned(),
        mode: RetentionMode::Anonymize,
        reason: "left".to_owned(),
    };
    store.apply_retention(&retention, &Timestamp::new(EPOCH).unwrap()).unwrap();
    assert_sound(&store);
}
