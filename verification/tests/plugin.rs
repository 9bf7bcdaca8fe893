use lenso_auth_sdk::{
    audience, ActorAssertion, ActorAssertionIssuer, ActorAssertionVerifier, ActorProjectionError,
    FixedClock, TypedActor, Validity,
};
use lenso_kernel::{CancellationToken, InvocationContext};
use lenso_projects::access::{
    actor_checked, authorize, begin_access, membership_checked, permission_checked, AccessRequest,
    AccessStep, ActorReply, AuthorizationFailure, Authorized, PortReply,
};
use lenso_projects::clock::Timestamp;
use lenso_projects::config::{secret_rejected, validate_config, ProjectsConfig, ProjectsConfigError};
use lenso_projects::contract::{
    ACCESS_CAPABILITY, ADMIN_CAPABILITY, COLLABORATION_CAPABILITY, EXPORT_CAPABILITY,
    GET_PROJECT_OPERATION, MEMBERSHIP_CAPABILITY, PROJECTS_CAPABILITY, RETENTION_CAPABILITY,
    SECRETS_CAPABILITY,
};
use lenso_projects::descriptor::projects_descriptor;
use lenso_projects::failure::{
    admin_error, answer_governance, collaboration_error, project_error, AdminError,
    CollaborationError, DomainFailure, GovernanceError, PluginError, ProjectsError, RuntimeFailure,
    StorageError,
};
use lenso_projects::model::{
    ApplyRetentionRequest, CollectExportRequest, CreateIssueRequest, CreateProjectRequest,
    GetProjectRequest, ListTeamsRequest, Priority, PutTeamRequest, RetentionMode,
    SetIssueAssigneeRequest,
};
use lenso_projects::operations::Operation;
use lenso_projects::project_status::StatusIds;
use lenso_projects::service::ProjectsService;
use lenso_projects::store::Store;
use lenso_projects::validate::{valid_issue_create, valid_project_create};
use lenso_projects::workflow::WorkflowIds;
use std::collections::{BTreeMap, BTreeSet};
use time::{Duration, OffsetDateTime};

fn config() -> ProjectsConfig {
    let issuer = ActorAssertionIssuer::new("auth.users", b"projects-test-key");
    ProjectsConfig::new(
        "projects",
        "projects/database-url",
        "auth.users",
        &issuer.public_key_base64(),
        vec!["projects-api".to_owned()],
        vec!["projects-admin-api".to_owned()],
        vec!["privacy-service".to_owned()],
    )
    .unwrap()
}

fn context(caller: &str) -> InvocationContext {
    InvocationContext::new(1, None, CancellationToken::new()).with_caller_instance(caller)
}

fn create_project_request() -> CreateProjectRequest {
    CreateProjectRequest {
        idempotency_key: "create-acme".to_owned(),
        organization_id: "org_acme".to_owned(),
        project_id: "project_roadmap".to_owned(),
        name: "Roadmap".to_owned(),
        summary: None,
        lead_team_id: "team_eng".to_owned(),
        team_ids: vec!["team_eng".to_owned()],
        status_id: None,
        milestone_id: None,
        start_date: None,
        target_date: None,
    }
}

fn now() -> Timestamp {
    Timestamp::new(1_789_430_400_000_000_000).unwrap()
}

#[derive(Debug)]
struct ProjectsActor {
    subject: String,
}

impl TypedActor for ProjectsActor {
    fn from_assertion(assertion: &ActorAssertion) -> Result<Self, ActorProjectionError> {
        Ok(Self { subject: assertion.subject().to_owned() })
    }
}

fn verified(context: &InvocationContext, step: &AccessStep, at: OffsetDateTime) -> ActorReply {
    let AccessStep::VerifyActor { capability, operation, .. } = step else {
        panic!("the caller is not allowed");
    };
    let config = config();
    let verifier = ActorAssertionVerifier::from_public_key_base64(
        config.auth_issuer.clone(),
        &config.auth_assertion_public_key,
    )
    .unwrap();
    match verifier.project_context::<ProjectsActor>(
        context,
        capability,
        operation,
        &FixedClock::new(at),
    ) {
        Ok(actor) => ActorReply::Verified { subject: actor.subject },
        Err(_) => ActorReply::Rejected,
    }
}

fn assertion_for(operation: &str, at: OffsetDateTime) -> ActorAssertion {
    ActorAssertionIssuer::new("auth.users", b"projects-test-key").issue(
        "usr_admin",
        "user",
        "strong",
        [audience(PROJECTS_CAPABILITY, operation)],
        Validity::new(at - Duration::seconds(1), at + Duration::minutes(1)).unwrap(),
        BTreeMap::new(),
    )
}

#[test]
fn descriptor_exposes_three_product_roles_and_governance_roles() {
    let descriptor = projects_descriptor();
    let provided = descriptor.provided.iter().copied().collect::<BTreeSet<_>>();
    assert_eq!(
        provided,
        BTreeSet::from([
            PROJECTS_CAPABILITY,
            COLLABORATION_CAPABILITY,
            ADMIN_CAPABILITY,
            EXPORT_CAPABILITY,
            RETENTION_CAPABILITY,
        ])
    );
    let required = descriptor.required.iter().copied().collect::<BTreeSet<_>>();
    assert_eq!(
        required,
        BTreeSet::from([SECRETS_CAPABILITY, MEMBERSHIP_CAPABILITY, ACCESS_CAPABILITY])
    );
}

#[test]
fn capability_names_are_those_of_the_contracts() {
    assert_eq!(EXPORT_CAPABILITY, lenso_capability_data_export_source::CAPABILITY_ID);
    assert_eq!(RETENTION_CAPABILITY, lenso_capability_retention_participant::CAPABILITY_ID);
    assert_eq!(MEMBERSHIP_CAPABILITY, lenso_capability_organization_membership::CAPABILITY_ID);
    assert_eq!(ACCESS_CAPABILITY, lenso_capability_access_control::CAPABILITY_ID);
    assert_eq!(SECRETS_CAPABILITY, lenso_capability_secrets::CAPABILITY_ID);
}

#[test]
fn configuration_rejects_duplicate_authority() {
    let mut invalid = config();
    invalid.project_callers.push("projects-api".to_owned());
    assert_eq!(invalid.validate(), Err(ProjectsConfigError::InvalidProjectCallers));
}

#[test]
fn configuration_names_its_first_fault() {
    let valid = config();
    assert_eq!(validate_config(&valid), Ok(()));
    assert_eq!(valid.verification_key(), Ok(()));

    let mut faulty = valid.clone();
    faulty.governance_callers.clear();
    assert_eq!(faulty.validate(), Err(ProjectsConfigError::InvalidGovernanceCallers));
    faulty.admin_callers.clear();
    assert_eq!(faulty.validate(), Err(ProjectsConfigError::InvalidAdminCallers));
    faulty.project_callers.clear();
    assert_eq!(faulty.validate(), Err(ProjectsConfigError::InvalidProjectCallers));
    faulty.auth_assertion_public_key = "not a key".to_owned();
    assert_eq!(faulty.validate(), Err(ProjectsConfigError::InvalidAuthPublicKey));
    assert_eq!(faulty.validate_with(true), Err(ProjectsConfigError::InvalidProjectCallers));
    assert_eq!(
        faulty.verification_key(),
        Err(RuntimeFailure::InvalidResolvedPlan {
            detail: "Projects Auth verification key is invalid".to_owned()
        })
    );
    faulty.auth_issuer = "auth users".to_owned();
    assert_eq!(faulty.validate(), Err(ProjectsConfigError::InvalidAuthIssuer));
    faulty.database_url_secret = "../secret".to_owned();
    assert_eq!(faulty.validate(), Err(ProjectsConfigError::InvalidSecretReference));
    faulty.schema = "public".to_owned();
    assert_eq!(faulty.validate(), Err(ProjectsConfigError::InvalidSchema));
    assert_eq!(
        validate_config(&faulty),
        Err(RuntimeFailure::InvalidResolvedPlan {
            detail: "Projects configuration is invalid: invalid owned PostgreSQL schema".to_owned()
        })
    );
}

#[test]
fn refusals_of_a_configuration_read_well() {
    assert_eq!(
        ProjectsConfigError::InvalidProjectCallers.message(),
        "project_callers must contain 1 to 64 unique Instance keys"
    );
    assert_eq!(
        ProjectsConfigError::InvalidAuthPublicKey.message(),
        "invalid Auth assertion public key"
    );
    assert_eq!(
        secret_rejected("projects/database-url"),
        RuntimeFailure::PluginFailure {
            detail: "secret `projects/database-url` was rejected".to_owned()
        }
    );
}

#[test]
fn untrusted_caller_is_rejected_before_assertion_ports_or_storage() {
    let context = context("unknown-api");
    let config = config();
    let operation = Operation::CreateProject;
    let caller = context.caller_instance().map(ToOwned::to_owned);
    let step = begin_access(
        &caller,
        operation.callers(&config),
        &operation.access_request("org_acme"),
    );
    let AccessStep::Denied(failure) = step else {
        panic!("an unknown caller must be denied at once");
    };
    let mut service = ProjectsService::new();
    let result = service.create_project(
        Err(failure),
        &create_project_request(),
        "{}",
        &now(),
        &StatusIds::generate(),
    );
    assert_eq!(result, Err(PluginError::Domain(ProjectsError::Forbidden)));
}

#[test]
fn trusted_caller_still_requires_exact_operation_audience() {
    let at = OffsetDateTime::now_utc();
    let assertion = assertion_for(GET_PROJECT_OPERATION, at);
    let context = assertion.attach(context("projects-api")).unwrap();
    let config = config();
    let operation = Operation::CreateProject;
    let request = operation.access_request("org_acme");
    let caller = context.caller_instance().map(ToOwned::to_owned);
    let step = begin_access(&caller, operation.callers(&config), &request);
    let AccessStep::Denied(failure) =
        actor_checked("projects-api", &request, verified(&context, &step, at))
    else {
        panic!("an assertion for another operation must not be enough");
    };
    let mut service = ProjectsService::new();
    let result = service.create_project(
        Err(failure),
        &create_project_request(),
        "{}",
        &now(),
        &StatusIds::generate(),
    );
    assert_eq!(result, Err(PluginError::Domain(ProjectsError::Unauthenticated)));
}

#[test]
fn exact_audience_is_asked_about_membership_and_permission() {
    let at = OffsetDateTime::now_utc();
    let assertion = assertion_for(GET_PROJECT_OPERATION, at);
    let context = assertion.attach(context("projects-api")).unwrap();
    let operation = Operation::GetProject;
    let request = operation.access_request("org_acme");
    let caller = context.caller_instance().map(ToOwned::to_owned);
    let step = begin_access(&caller, operation.callers(&config()), &request);
    let step = actor_checked("projects-api", &request, verified(&context, &step, at));
    assert_eq!(
        step,
        AccessStep::CheckMembership {
            caller: "projects-api".to_owned(),
            organization_id: "org_acme".to_owned(),
            subject: "usr_admin".to_owned(),
        }
    );
    let step = membership_checked("projects-api", "usr_admin", &request, PortReply::Answered(true));
    assert_eq!(
        step,
        AccessStep::CheckPermission {
            caller: "projects-api".to_owned(),
            subject: "usr_admin".to_owned(),
            scope_kind: "organization".to_owned(),
            scope_id: "org_acme".to_owned(),
            permission: "projects.read".to_owned(),
        }
    );
    assert_eq!(
        permission_checked("projects-api", "usr_admin", PortReply::Answered(true)),
        AccessStep::Granted(Authorized {
            caller: "projects-api".to_owned(),
            actor: "usr_admin".to_owned(),
        })
    );
}

#[test]
fn every_answer_on_the_way_can_deny() {
    let request = AccessRequest {
        capability: PROJECTS_CAPABILITY.to_owned(),
        operation: GET_PROJECT_OPERATION.to_owned(),
        organization_id: "org_acme".to_owned(),
        permission: "projects.read".to_owned(),
    };
    let caller = Some("projects-api".to_owned());
    let allowed = vec!["projects-api".to_owned()];
    let actor = ActorReply::Verified { subject: "usr_admin".to_owned() };
    let yes = PortReply::Answered(true);
    let no = PortReply::Answered(false);
    let down = RuntimeFailure::Unavailable { capability: MEMBERSHIP_CAPABILITY.to_owned() };
    let run = |actor: &ActorReply, member: &PortReply, permitted: &PortReply| {
        authorize(&caller, &allowed, &request, actor.clone(), member.clone(), permitted.clone())
    };
    assert_eq!(
        run(&actor, &yes, &yes),
        Ok(Authorized { caller: "projects-api".to_owned(), actor: "usr_admin".to_owned() })
    );
    assert_eq!(run(&ActorReply::Rejected, &yes, &yes), Err(AuthorizationFailure::Unauthenticated));
    assert_eq!(
        run(&ActorReply::Verified { subject: "not an id".to_owned() }, &yes, &yes),
        Err(AuthorizationFailure::Forbidden)
    );
    assert_eq!(run(&actor, &no, &yes), Err(AuthorizationFailure::Forbidden));
    assert_eq!(run(&actor, &yes, &no), Err(AuthorizationFailure::Forbidden));
    assert_eq!(
        run(&actor, &PortReply::Failed(down.clone()), &yes),
        Err(AuthorizationFailure::Runtime(down.clone()))
    );
    assert_eq!(
        run(&ActorReply::Failed(down.clone()), &yes, &yes),
        Err(AuthorizationFailure::Runtime(down))
    );
    assert_eq!(
        run(&actor, &PortReply::Refused, &yes),
        Err(AuthorizationFailure::Runtime(RuntimeFailure::ProtocolViolation {
            capability: MEMBERSHIP_CAPABILITY.to_owned()
        }))
    );
    assert_eq!(
        run(&actor, &yes, &PortReply::Refused),
        Err(AuthorizationFailure::Runtime(RuntimeFailure::ProtocolViolation {
            capability: ACCESS_CAPABILITY.to_owned()
        }))
    );
    assert_eq!(
        authorize(&None, &allowed, &request, actor, yes.clone(), yes),
        Err(AuthorizationFailure::Forbidden)
    );
}

#[test]
fn validation_enforces_multi_team_lead_and_unique_labels() {
    let mut project = create_project_request();
    project.lead_team_id = "team_product".to_owned();
    assert!(!valid_project_create(&project));

    let mut issue = CreateIssueRequest {
        idempotency_key: "create-issue".to_owned(),
        organization_id: "org_acme".to_owned(),
        issue_id: "issue_1".to_owned(),
        project_id: "project_roadmap".to_owned(),
        team_id: "team_eng".to_owned(),
        title: "Ship it".to_owned(),
        description: None,
        priority: Priority::High,
        workflow_state_id: Some("state_started".to_owned()),
        cycle_id: None,
        milestone_id: None,
        parent_issue_id: None,
        label_ids: vec!["label_bug".to_owned(), "label_bug".to_owned()],
    };
    assert!(!valid_issue_create(&issue));
    issue.label_ids.pop();
    assert!(valid_issue_create(&issue));
}

#[test]
fn operations_know_their_contract_permission_and_callers() {
    let config = config();
    assert_eq!(Operation::MoveIssue.capability(), PROJECTS_CAPABILITY);
    assert_eq!(Operation::MoveIssue.name(), "move_issue");
    assert_eq!(Operation::MoveIssue.permission(), "projects.write");
    assert_eq!(Operation::ListActivity.permission(), "projects.read");
    assert_eq!(Operation::AddComment.capability(), COLLABORATION_CAPABILITY);
    assert_eq!(Operation::AddComment.permission(), "projects.collaborate");
    assert_eq!(Operation::ListComments.permission(), "projects.read");
    assert_eq!(Operation::GetIssueAssignee.permission(), "projects.read");
    assert_eq!(Operation::SetIssueAssignee.permission(), "projects.write");
    assert_eq!(Operation::PutTeam.capability(), ADMIN_CAPABILITY);
    assert_eq!(Operation::PutTeam.permission(), "projects.admin");
    assert_eq!(Operation::PutTeam.callers(&config), &config.admin_callers);
    assert_eq!(Operation::AddComment.callers(&config), &config.project_callers);
    assert_eq!(Operation::GetProject.callers(&config), &config.project_callers);
}

fn admitted() -> Result<Authorized, AuthorizationFailure> {
    Ok(Authorized { caller: "projects-api".to_owned(), actor: "usr_admin".to_owned() })
}

fn team_request() -> PutTeamRequest {
    PutTeamRequest {
        idempotency_key: "put-team".to_owned(),
        organization_id: "org_acme".to_owned(),
        team_id: "team_eng".to_owned(),
        key: "ENG".to_owned(),
        name: "Engineering".to_owned(),
        description: None,
        private: false,
        default_workflow_state_id: None,
        expected_revision: None,
    }
}

#[test]
fn handlers_validate_before_they_ask_for_the_store() {
    let mut service = ProjectsService::new();
    let mut invalid = create_project_request();
    invalid.name = "  ".to_owned();
    assert_eq!(
        service.create_project(admitted(), &invalid, "{}", &now(), &StatusIds::generate()),
        Err(PluginError::Domain(ProjectsError::InvalidRequest))
    );
    assert_eq!(
        service.create_project(
            admitted(),
            &create_project_request(),
            "{}",
            &now(),
            &StatusIds::generate()
        ),
        Err(PluginError::Runtime(RuntimeFailure::PluginFailure {
            detail: "Projects Plugin is not prepared".to_owned()
        }))
    );
}

#[test]
fn handlers_turn_to_the_store_once_it_is_there() {
    let mut service = ProjectsService::new();
    service.activate(Store::empty());
    let team = service.put_team(
        admitted(),
        &team_request(),
        "{}",
        &now(),
        &StatusIds::generate(),
        &WorkflowIds::generate(),
    );
    assert!(team.is_ok());
    let listed = service
        .list_teams(
            admitted(),
            &ListTeamsRequest { organization_id: "org_acme".to_owned(), limit: 10, after: None },
        )
        .unwrap();
    assert_eq!(listed.items.len(), 1);
    assert_eq!(listed.items[0].key, "ENG");
    assert_eq!(
        service.get_project(
            admitted(),
            &GetProjectRequest {
                organization_id: "org_acme".to_owned(),
                project_id: "project_missing".to_owned()
            }
        ),
        Err(PluginError::Domain(ProjectsError::NotFound))
    );
    assert!(service
        .create_project(
            admitted(),
            &create_project_request(),
            "{}",
            &now(),
            &StatusIds::generate()
        )
        .is_ok());
    assert!(service.deactivate().is_some());
    assert!(service.deactivate().is_none());
}

#[test]
fn a_mutation_that_cannot_be_numbered_changes_nothing() {
    let mut full = Store::empty();
    full.next_activity = i64::MAX;
    let mut service = ProjectsService::new();
    service.activate(full);
    let result = service.put_team(
        admitted(),
        &team_request(),
        "{}",
        &now(),
        &StatusIds::generate(),
        &WorkflowIds::generate(),
    );
    assert_eq!(
        result,
        Err(PluginError::Runtime(RuntimeFailure::PluginFailure {
            detail: "Projects PostgreSQL operation `append activity` failed: bigint out of range"
                .to_owned()
        }))
    );
    assert!(service.store.unwrap().teams.is_empty());
}

#[test]
fn an_assignee_must_be_an_active_member() {
    let mut service = ProjectsService::new();
    service.activate(Store::empty());
    let request = SetIssueAssigneeRequest {
        idempotency_key: "assign".to_owned(),
        organization_id: "org_acme".to_owned(),
        issue_id: "issue_1".to_owned(),
        assignee_subject: Some("usr_other".to_owned()),
        expected_revision: "1".to_owned(),
    };
    assert_eq!(
        service.set_issue_assignee(admitted(), PortReply::Answered(false), &request, "{}", &now()),
        Err(PluginError::Domain(CollaborationError::Forbidden))
    );
    assert_eq!(
        service.set_issue_assignee(admitted(), PortReply::Answered(true), &request, "{}", &now()),
        Err(PluginError::Domain(CollaborationError::NotFound))
    );
}

#[test]
fn governance_has_callers_of_its_own() {
    let config = config();
    let mut service = ProjectsService::new();
    let export = CollectExportRequest {
        export_id: "export_1".to_owned(),
        scope_kind: "organization".to_owned(),
        scope_id: "org_acme".to_owned(),
        subject: "usr_alice".to_owned(),
    };
    let privacy = Some("privacy-service".to_owned());
    assert_eq!(
        service.collect_export(&config, &Some("projects-api".to_owned()), &export),
        Err(PluginError::Domain(GovernanceError::Forbidden))
    );
    let mut invalid = export.clone();
    invalid.scope_kind = "team".to_owned();
    assert_eq!(
        service.collect_export(&config, &privacy, &invalid),
        Err(PluginError::Domain(GovernanceError::InvalidRequest))
    );
    assert!(matches!(
        service.collect_export(&config, &privacy, &export),
        Err(PluginError::Runtime(RuntimeFailure::PluginFailure { .. }))
    ));
    service.activate(Store::empty());
    assert_eq!(service.collect_export(&config, &privacy, &export).unwrap().items.len(), 1);

    let retention = ApplyRetentionRequest {
        action_id: "action_1".to_owned(),
        scope_kind: "organization".to_owned(),
        scope_id: "org_acme".to_owned(),
        subject: "usr_alice".to_owned(),
        mode: RetentionMode::Delete,
        reason: "asked to".to_owned(),
    };
    assert_eq!(
        service.apply_retention(&config, &None, &retention, &now()),
        Err(PluginError::Domain(GovernanceError::Forbidden))
    );
    assert_eq!(
        service.apply_retention(&config, &privacy, &retention, &now()),
        Ok("projects-retention:action_1".to_owned())
    );
    let mut other = retention.clone();
    other.mode = RetentionMode::Anonymize;
    assert_eq!(
        service.apply_retention(&config, &privacy, &other, &now()),
        Err(PluginError::Domain(GovernanceError::InvalidRequest))
    );
}

#[test]
fn refusals_map_to_what_each_contract_knows() {
    assert_eq!(project_error(DomainFailure::RevisionConflict), ProjectsError::RevisionConflict);
    assert_eq!(project_error(DomainFailure::PrivateTeam), ProjectsError::PrivateTeam);
    assert_eq!(project_error(DomainFailure::ActiveReference), ProjectsError::InvalidRequest);
    assert_eq!(
        collaboration_error(DomainFailure::IdentifierConflict),
        CollaborationError::RelationConflict
    );
    assert_eq!(
        collaboration_error(DomainFailure::AuthorRequired),
        CollaborationError::AuthorRequired
    );
    assert_eq!(admin_error(DomainFailure::DefaultStateInvalid), AdminError::DefaultStateInvalid);
    assert_eq!(admin_error(DomainFailure::KeyConflict), AdminError::KeyConflict);
    assert_eq!(admin_error(DomainFailure::PrivateTeam), AdminError::InvalidRequest);
    assert_eq!(
        answer_governance::<()>(Err(StorageError::Domain(DomainFailure::IdempotencyConflict))),
        Err(PluginError::Domain(GovernanceError::InvalidRequest))
    );
}
