//! The owned database schema: its migrations and its name.
use crate::text::{chars_of, same};
use vstd::prelude::*;

verus! {

/// Creates every table of the schema.
pub const CREATE_PROJECTS_SQL: &'static str = "CREATE TABLE project_workspaces (
    organization_id TEXT PRIMARY KEY,
    default_project_status_id TEXT NOT NULL
);

CREATE TABLE project_statuses (
    status_id TEXT PRIMARY KEY,
    organization_id TEXT NOT NULL,
    name TEXT NOT NULL,
    category TEXT NOT NULL CHECK (category IN ('backlog', 'planned', 'started', 'paused', 'completed', 'canceled')),
    color TEXT NOT NULL,
    position INTEGER NOT NULL,
    is_default BOOLEAN NOT NULL DEFAULT FALSE,
    archived BOOLEAN NOT NULL DEFAULT FALSE,
    archived_at TIMESTAMPTZ,
    revision BIGINT NOT NULL DEFAULT 1,
    row_seq BIGINT GENERATED ALWAYS AS IDENTITY,
    UNIQUE (organization_id, status_id)
);
CREATE UNIQUE INDEX project_statuses_one_default ON project_statuses (organization_id) WHERE is_default;
ALTER TABLE project_workspaces
    ADD FOREIGN KEY (organization_id, default_project_status_id)
    REFERENCES project_statuses (organization_id, status_id) DEFERRABLE INITIALLY DEFERRED;

CREATE TABLE teams (
    team_id TEXT PRIMARY KEY,
    organization_id TEXT NOT NULL,
    team_key TEXT NOT NULL,
    name TEXT NOT NULL,
    description TEXT,
    private BOOLEAN NOT NULL DEFAULT FALSE,
    default_workflow_state_id TEXT NOT NULL,
    next_issue_number BIGINT NOT NULL DEFAULT 1,
    revision BIGINT NOT NULL DEFAULT 1,
    created_at TIMESTAMPTZ NOT NULL DEFAULT transaction_timestamp(),
    updated_at TIMESTAMPTZ NOT NULL DEFAULT transaction_timestamp(),
    row_seq BIGINT GENERATED ALWAYS AS IDENTITY,
    UNIQUE (organization_id, team_id),
    UNIQUE (organization_id, team_key)
);

CREATE TABLE team_members (
    organization_id TEXT NOT NULL,
    team_id TEXT NOT NULL,
    subject TEXT NOT NULL,
    active BOOLEAN NOT NULL,
    revision BIGINT NOT NULL DEFAULT 1,
    PRIMARY KEY (organization_id, team_id, subject),
    FOREIGN KEY (organization_id, team_id) REFERENCES teams (organization_id, team_id)
);

CREATE TABLE workflow_states (
    state_id TEXT PRIMARY KEY,
    organization_id TEXT NOT NULL,
    team_id TEXT NOT NULL,
    name TEXT NOT NULL,
    category TEXT NOT NULL CHECK (category IN ('backlog', 'unstarted', 'started', 'completed', 'canceled')),
    color TEXT NOT NULL,
    position INTEGER NOT NULL,
    archived BOOLEAN NOT NULL DEFAULT FALSE,
    archived_at TIMESTAMPTZ,
    revision BIGINT NOT NULL DEFAULT 1,
    row_seq BIGINT GENERATED ALWAYS AS IDENTITY,
    UNIQUE (organization_id, team_id, state_id),
    FOREIGN KEY (organization_id, team_id) REFERENCES teams (organization_id, team_id) DEFERRABLE INITIALLY DEFERRED
);
ALTER TABLE teams
    ADD FOREIGN KEY (organization_id, team_id, default_workflow_state_id)
    REFERENCES workflow_states (organization_id, team_id, state_id) DEFERRABLE INITIALLY DEFERRED;

CREATE TABLE projects (
    project_id TEXT PRIMARY KEY,
    organization_id TEXT NOT NULL,
    name TEXT NOT NULL,
    summary TEXT,
    lead_team_id TEXT NOT NULL,
    status_id TEXT NOT NULL,
    milestone_id TEXT,
    starts_on DATE,
    target_date DATE,
    completed_at TIMESTAMPTZ,
    canceled_at TIMESTAMPTZ,
    archived BOOLEAN NOT NULL DEFAULT FALSE,
    revision BIGINT NOT NULL DEFAULT 1,
    created_at TIMESTAMPTZ NOT NULL DEFAULT transaction_timestamp(),
    updated_at TIMESTAMPTZ NOT NULL DEFAULT transaction_timestamp(),
    row_seq BIGINT GENERATED ALWAYS AS IDENTITY,
    UNIQUE (organization_id, project_id),
    FOREIGN KEY (organization_id, status_id) REFERENCES project_statuses (organization_id, status_id)
);

CREATE TABLE project_teams (
    organization_id TEXT NOT NULL,
    project_id TEXT NOT NULL,
    team_id TEXT NOT NULL,
    PRIMARY KEY (organization_id, project_id, team_id),
    FOREIGN KEY (organization_id, project_id) REFERENCES projects (organization_id, project_id) ON DELETE CASCADE,
    FOREIGN KEY (organization_id, team_id) REFERENCES teams (organization_id, team_id)
);
ALTER TABLE projects
    ADD FOREIGN KEY (organization_id, project_id, lead_team_id)
    REFERENCES project_teams (organization_id, project_id, team_id) DEFERRABLE INITIALLY DEFERRED;

CREATE TABLE cycles (
    cycle_id TEXT PRIMARY KEY,
    organization_id TEXT NOT NULL,
    team_id TEXT NOT NULL,
    number INTEGER NOT NULL,
    name TEXT,
    starts_on DATE NOT NULL,
    ends_on DATE NOT NULL CHECK (ends_on >= starts_on),
    revision BIGINT NOT NULL DEFAULT 1,
    row_seq BIGINT GENERATED ALWAYS AS IDENTITY,
    UNIQUE (organization_id, team_id, cycle_id),
    FOREIGN KEY (organization_id, team_id) REFERENCES teams (organization_id, team_id)
);

CREATE TABLE milestones (
    milestone_id TEXT PRIMARY KEY,
    organization_id TEXT NOT NULL,
    project_id TEXT NOT NULL,
    name TEXT NOT NULL,
    description TEXT,
    target_date DATE,
    revision BIGINT NOT NULL DEFAULT 1,
    row_seq BIGINT GENERATED ALWAYS AS IDENTITY,
    UNIQUE (organization_id, project_id, milestone_id),
    FOREIGN KEY (organization_id, project_id) REFERENCES projects (organization_id, project_id)
);
ALTER TABLE projects
    ADD FOREIGN KEY (organization_id, project_id, milestone_id)
    REFERENCES milestones (organization_id, project_id, milestone_id) DEFERRABLE INITIALLY DEFERRED;

CREATE TABLE labels (
    label_id TEXT PRIMARY KEY,
    organization_id TEXT NOT NULL,
    team_id TEXT,
    name TEXT NOT NULL,
    description TEXT,
    color TEXT NOT NULL,
    revision BIGINT NOT NULL DEFAULT 1,
    row_seq BIGINT GENERATED ALWAYS AS IDENTITY,
    UNIQUE (organization_id, label_id),
    FOREIGN KEY (organization_id, team_id) REFERENCES teams (organization_id, team_id)
);

CREATE TABLE issues (
    issue_id TEXT PRIMARY KEY,
    organization_id TEXT NOT NULL,
    project_id TEXT NOT NULL,
    team_id TEXT NOT NULL,
    identifier TEXT NOT NULL,
    title TEXT NOT NULL,
    description TEXT,
    priority TEXT NOT NULL CHECK (priority IN ('none', 'urgent', 'high', 'medium', 'low')),
    workflow_state_id TEXT NOT NULL,
    cycle_id TEXT,
    milestone_id TEXT,
    parent_issue_id TEXT,
    archived BOOLEAN NOT NULL DEFAULT FALSE,
    revision BIGINT NOT NULL DEFAULT 1,
    created_at TIMESTAMPTZ NOT NULL DEFAULT transaction_timestamp(),
    updated_at TIMESTAMPTZ NOT NULL DEFAULT transaction_timestamp(),
    row_seq BIGINT GENERATED ALWAYS AS IDENTITY,
    UNIQUE (organization_id, issue_id),
    UNIQUE (organization_id, identifier),
    FOREIGN KEY (organization_id, team_id, workflow_state_id)
        REFERENCES workflow_states (organization_id, team_id, state_id),
    FOREIGN KEY (organization_id, project_id, team_id)
        REFERENCES project_teams (organization_id, project_id, team_id) DEFERRABLE INITIALLY DEFERRED,
    FOREIGN KEY (organization_id, project_id, milestone_id)
        REFERENCES milestones (organization_id, project_id, milestone_id),
    FOREIGN KEY (organization_id, team_id, cycle_id) REFERENCES cycles (organization_id, team_id, cycle_id),
    FOREIGN KEY (organization_id, parent_issue_id) REFERENCES issues (organization_id, issue_id)
);

CREATE TABLE issue_identifier_aliases (
    organization_id TEXT NOT NULL,
    identifier TEXT NOT NULL,
    issue_id TEXT NOT NULL,
    created_at TIMESTAMPTZ NOT NULL DEFAULT transaction_timestamp(),
    PRIMARY KEY (organization_id, identifier),
    FOREIGN KEY (organization_id, issue_id) REFERENCES issues (organization_id, issue_id) ON DELETE CASCADE
);

CREATE TABLE issue_labels (
    organization_id TEXT NOT NULL,
    issue_id TEXT NOT NULL,
    label_id TEXT NOT NULL,
    PRIMARY KEY (organization_id, issue_id, label_id),
    FOREIGN KEY (organization_id, issue_id) REFERENCES issues (organization_id, issue_id) ON DELETE CASCADE,
    FOREIGN KEY (organization_id, label_id) REFERENCES labels (organization_id, label_id)
);

CREATE TABLE issue_external_links (
    organization_id TEXT NOT NULL,
    issue_id TEXT NOT NULL,
    provider TEXT NOT NULL,
    external_key TEXT NOT NULL,
    url TEXT NOT NULL,
    title TEXT,
    PRIMARY KEY (organization_id, provider, external_key),
    FOREIGN KEY (organization_id, issue_id) REFERENCES issues (organization_id, issue_id) ON DELETE CASCADE
);

CREATE TABLE issue_relations (
    relation_id TEXT PRIMARY KEY,
    organization_id TEXT NOT NULL,
    issue_id TEXT NOT NULL,
    related_issue_id TEXT NOT NULL CHECK (related_issue_id <> issue_id),
    kind TEXT NOT NULL,
    active BOOLEAN NOT NULL DEFAULT TRUE,
    FOREIGN KEY (organization_id, issue_id) REFERENCES issues (organization_id, issue_id) ON DELETE CASCADE,
    FOREIGN KEY (organization_id, related_issue_id) REFERENCES issues (organization_id, issue_id) ON DELETE CASCADE
);

CREATE TABLE comments (
    comment_id TEXT PRIMARY KEY,
    organization_id TEXT NOT NULL,
    issue_id TEXT NOT NULL,
    author_subject TEXT NOT NULL,
    body TEXT NOT NULL,
    deleted BOOLEAN NOT NULL DEFAULT FALSE,
    revision BIGINT NOT NULL DEFAULT 1,
    created_at TIMESTAMPTZ NOT NULL DEFAULT transaction_timestamp(),
    updated_at TIMESTAMPTZ NOT NULL DEFAULT transaction_timestamp(),
    row_seq BIGINT GENERATED ALWAYS AS IDENTITY,
    FOREIGN KEY (organization_id, issue_id) REFERENCES issues (organization_id, issue_id) ON DELETE CASCADE
);

CREATE TABLE project_updates (
    update_id TEXT PRIMARY KEY,
    organization_id TEXT NOT NULL,
    project_id TEXT NOT NULL,
    author_subject TEXT NOT NULL,
    body TEXT NOT NULL,
    health TEXT NOT NULL CHECK (health IN ('on_track', 'at_risk', 'off_track')),
    created_at TIMESTAMPTZ NOT NULL DEFAULT transaction_timestamp(),
    row_seq BIGINT GENERATED ALWAYS AS IDENTITY,
    FOREIGN KEY (organization_id, project_id) REFERENCES projects (organization_id, project_id)
);

CREATE TABLE project_activity (
    activity_id BIGINT GENERATED ALWAYS AS IDENTITY PRIMARY KEY,
    organization_id TEXT NOT NULL,
    project_id TEXT,
    issue_id TEXT,
    actor_subject TEXT NOT NULL,
    operation TEXT NOT NULL,
    entity_kind TEXT NOT NULL,
    entity_id TEXT NOT NULL,
    revision BIGINT,
    occurred_at TIMESTAMPTZ NOT NULL DEFAULT transaction_timestamp()
);

CREATE TABLE project_commands (
    caller_instance TEXT NOT NULL,
    actor_subject TEXT NOT NULL,
    operation TEXT NOT NULL,
    idempotency_key TEXT NOT NULL,
    request JSONB NOT NULL,
    response JSONB,
    PRIMARY KEY (caller_instance, actor_subject, operation, idempotency_key)
);

CREATE TABLE project_retention_receipts (
    action_id TEXT PRIMARY KEY,
    organization_id TEXT NOT NULL,
    subject TEXT NOT NULL,
    mode TEXT NOT NULL,
    receipt TEXT NOT NULL
);
";

/// Gives every issue a nullable assignee.
pub const ADD_ASSIGNEE_SQL: &'static str = "ALTER TABLE issues ADD COLUMN assignee_subject TEXT;
CREATE INDEX issues_by_assignee ON issues (organization_id, assignee_subject, issue_id);
";

/// One step of the schema's history.
#[derive(Clone, Copy, Debug)]
pub struct SchemaStep {
    pub version: u64,
    pub name: &'static str,
    pub sql: &'static str,
}

impl SchemaStep {
    /// The statements of the step.
    pub fn sql(&self) -> (sql: &'static str)
        ensures
            sql@ == self.sql@,
    {
        self.sql
    }
}

/// The history of the schema: its steps have the versions from one on, without a gap.
pub fn migrations() -> (steps: Vec<SchemaStep>)
    ensures
        steps@.len() == 2,
        forall|i: int| 0 <= i < steps@.len() ==> (#[trigger] steps@[i]).version == i + 1,
        steps@[0].name@ == "create-projects"@,
        steps@[0].sql@ == CREATE_PROJECTS_SQL@,
        steps@[1].name@ == "add-issue-assignee"@,
        steps@[1].sql@ == ADD_ASSIGNEE_SQL@,
{
    let create = SchemaStep { version: 1, name: "create-projects", sql: CREATE_PROJECTS_SQL };
    let assign = SchemaStep { version: 2, name: "add-issue-assignee", sql: ADD_ASSIGNEE_SQL };
    vec![create, assign]
}

/// Whether a character may stand in a schema name.
pub open spec fn is_schema_char(c: char) -> bool {
    'a' <= c <= 'z' || '0' <= c <= '9' || c == '_'
}

/// Whether a schema with this name can be owned: up to 63 lower-case letters, digits and
/// underscores that start with a letter, and none of the names that the database keeps for itself.
pub open spec fn is_schema_name(name: Seq<char>) -> bool {
    &&& 1 <= name.len() <= 63
    &&& 'a' <= name[0] <= 'z'
    &&& forall|i: int| 0 <= i < name.len() ==> is_schema_char(#[trigger] name[i])
    &&& name != "public"@
    &&& name != "information_schema"@
    &&& !(name.len() >= 3 && name.take(3) == "pg_"@)
}

/// Whether a schema with this name can be owned.
pub fn valid_schema_name(name: &str) -> (answer: bool)
    ensures
        answer == is_schema_name(name@),
{
    let chars = chars_of(name);
    if chars.len() == 0 || chars.len() > 63 {
        return false;
    }
    if !('a' <= chars[0] && chars[0] <= 'z') {
        return false;
    }
    let mut i: usize = 0;
    while i < chars.len()
        invariant
            i <= chars.len(),
            chars@ == name@,
            forall|k: int| 0 <= k < i ==> is_schema_char(#[trigger] name@[k]),
        decreases chars.len() - i,
    {
        let c = chars[i];
        if !('a' <= c && c <= 'z' || '0' <= c && c <= '9' || c == '_') {
            return false;
        }
        i = i + 1;
    }
    if same(name, "public") || same(name, "information_schema") {
        return false;
    }
    proof {
        reveal_strlit("pg_");
        if chars.len() >= 3 && chars@[0] == 'p' && chars@[1] == 'g' && chars@[2] == '_' {
            assert(name@.take(3) =~= "pg_"@);
        } else if chars.len() >= 3 {
            assert(name@.take(3)[0] == chars@[0]);
            assert(name@.take(3)[1] == chars@[1]);
            assert(name@.take(3)[2] == chars@[2]);
        }
    }
    !(chars.len() >= 3 && chars[0] == 'p' && chars[1] == 'g' && chars[2] == '_')
}

} // verus!
