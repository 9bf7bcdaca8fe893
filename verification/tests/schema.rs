use lenso_postgres_kit::{Migration, SchemaPlan};
use lenso_projects::schema::{
    migrations, valid_schema_name, ADD_ASSIGNEE_SQL, CREATE_PROJECTS_SQL,
};

const STEPS: &[Migration] = &[
    Migration::new(1, "create-projects", CREATE_PROJECTS_SQL),
    Migration::new(2, "add-issue-assignee", ADD_ASSIGNEE_SQL),
];

#[test]
fn migration_encodes_core_linear_like_invariants() {
    let steps = migrations();
    let sql = steps[0].sql();
    assert!(sql.contains("PRIMARY KEY (caller_instance, actor_subject, operation, idempotency_key)"));
    assert!(sql.contains("UNIQUE (organization_id, team_key)"));
    assert!(sql.contains("next_issue_number BIGINT NOT NULL"));
    assert!(sql.contains("default_workflow_state_id TEXT NOT NULL"));
    assert!(sql.contains("project_workspaces"));
    assert!(sql.contains("project_statuses_one_default"));
    assert!(sql.contains("archived_at TIMESTAMPTZ"));
    assert!(sql.contains("completed_at TIMESTAMPTZ"));
    assert!(sql.contains("canceled_at TIMESTAMPTZ"));
    assert!(sql.contains("issue_identifier_aliases"));
    assert!(sql.contains("FOREIGN KEY (organization_id, team_id, workflow_state_id)"));
    assert!(sql.contains("FOREIGN KEY (organization_id, project_id, team_id)"));
    assert!(sql.contains("FOREIGN KEY (organization_id, project_id, milestone_id)"));
    assert!(sql.contains("project_activity"));
    assert!(sql.contains("GENERATED ALWAYS AS IDENTITY"));
}

#[test]
fn steps_count_up_from_one() {
    let steps = migrations();
    assert_eq!(steps.len(), 2);
    assert_eq!((steps[0].version, steps[0].name), (1, "create-projects"));
    assert_eq!((steps[1].version, steps[1].name), (2, "add-issue-assignee"));
    assert!(steps[1].sql().contains("ADD COLUMN assignee_subject TEXT"));
}

#[test]
fn schema_names_are_those_that_the_schema_plan_accepts() {
    let long = "a".repeat(63);
    let longer = "a".repeat(64);
    for name in [
        "projects", "p", "p_1", &long, &longer, "", "public", "information_schema", "pg_toast",
        "pgx", "Projects", "1projects", "_projects", "projects-1", "projécts",
    ] {
        assert_eq!(
            valid_schema_name(name),
            SchemaPlan::new(name.to_owned(), STEPS).is_ok(),
            "{name}"
        );
    }
    assert!(valid_schema_name("projects"));
    assert!(!valid_schema_name("public"));
}
