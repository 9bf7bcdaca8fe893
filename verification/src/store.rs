//! The rows of every organization, and what all operations share: lookups, visibility, command
//! receipts and the activity stream.
use crate::clock::{Timestamp};
use crate::failure;
use crate::failure::{runtime, DomainFailure, StorageError};
use crate::model::{
    Activity, Command, Comment, Completion, Cycle, ExternalLink, IdentifierAlias, Issue,
    IssueRelation, Label, Milestone, Project, ProjectStatus, ProjectUpdate, RetentionReceipt, Team,
    TeamMember, WorkflowState, Workspace,
};
use crate::table;
use crate::table::{any_row, find_row};
use crate::text;
use crate::validate;
use crate::validate::parse_cursor;
use vstd::prelude::*;

verus! {

/// Everything that is stored. Rows stand in the order in which they were inserted.
#[derive(Debug)]
pub struct Store {
    pub teams: Vec<Team>,
    pub team_members: Vec<TeamMember>,
    pub workflow_states: Vec<WorkflowState>,
    pub workspaces: Vec<Workspace>,
    pub project_statuses: Vec<ProjectStatus>,
    pub projects: Vec<Project>,
    pub issues: Vec<Issue>,
    pub aliases: Vec<IdentifierAlias>,
    pub links: Vec<ExternalLink>,
    pub cycles: Vec<Cycle>,
    pub milestones: Vec<Milestone>,
    pub labels: Vec<Label>,
    pub comments: Vec<Comment>,
    pub project_updates: Vec<ProjectUpdate>,
    pub relations: Vec<IssueRelation>,
    pub activity: Vec<Activity>,
    pub commands: Vec<Command>,
    pub receipts: Vec<RetentionReceipt>,
    /// The sequence number that the next listed row gets.
    pub next_row: i64,
    /// The number that the next activity record gets.
    pub next_activity: i64,
}

/// One authorized call: who makes it, for whom, the request as it is compared on a retry, and the
/// time at which it runs.
#[derive(Debug)]
pub struct Invocation {
    pub caller: String,
    pub actor: String,
    pub request_json: String,
    pub now: Timestamp,
}

/// How a mutation must end, before its effects are considered.
pub enum Verdict {
    /// It takes effect.
    Proceed,
    /// It is refused.
    Refuse(DomainFailure),
    /// The storage operation named first fails for the reason named second.
    Fault(Seq<char>, Seq<char>),
    /// An earlier run of the same command is answered again with this response.
    Replay(Seq<char>),
}

impl Verdict {
    /// This verdict, unless it lets the mutation proceed: then the next one.
    pub open spec fn and(self, next: Verdict) -> Verdict {
        match self {
            Verdict::Proceed => next,
            _ => self,
        }
    }
}

/// The verdict of a check that may refuse.
pub open spec fn unless(refusal: Option<DomainFailure>) -> Verdict {
    match refusal {
        Some(failure) => Verdict::Refuse(failure),
        None => Verdict::Proceed,
    }
}

/// The verdict that a condition must hold.
pub open spec fn demand(condition: bool, failure: DomainFailure) -> Verdict {
    if condition {
        Verdict::Proceed
    } else {
        Verdict::Refuse(failure)
    }
}

/// The verdict that the statement can raise a number by `step`.
pub open spec fn grows(number: i64, step: int, statement: Seq<char>) -> Verdict {
    if number + step <= i64::MAX {
        Verdict::Proceed
    } else {
        Verdict::Fault(statement, "bigint out of range"@)
    }
}

/// The verdict that one more activity record can be numbered.
pub open spec fn appends(s: Store) -> Verdict {
    grows(s.next_activity, 1, "append activity"@)
}

/// The verdict that the statement can revise a row, and that this can be recorded.
pub open spec fn revises(s: Store, revision: i64, statement: Seq<char>) -> Verdict {
    grows(revision, 1, statement).and(appends(s))
}

/// The verdict on the limit of a listing, which reads one row beyond it: a negative number of rows
/// cannot be read.
pub open spec fn limited(limit: i64, statement: Seq<char>) -> Verdict {
    if limit < -1 {
        Verdict::Fault(statement, "LIMIT must not be negative"@)
    } else {
        Verdict::Proceed
    }
}

/// How a listing starts: its cursor must be a number, and its limit one that rows can be read with.
pub open spec fn listing(limit: i64, after: Option<String>, statement: Seq<char>) -> Verdict {
    demand(
        validate::cursor_value(text::text_of(after)) is Some,
        DomainFailure::InvalidRequest,
    ).and(limited(limit, statement))
}

/// Whether `error` is the failure that the verdict asks for.
pub open spec fn fails(verdict: Verdict, error: StorageError) -> bool {
    match verdict {
        Verdict::Refuse(failure) => error == StorageError::Domain(failure),
        Verdict::Fault(operation, source) => failure::is_runtime(error, operation, source),
        _ => false,
    }
}

/// Fails where the statement cannot raise a number by `step`.
pub(crate) fn check_growth(number: i64, step: i64, statement: &str) -> (result: Result<
    (),
    StorageError,
>)
    requires
        0 <= step,
    ensures
        match result {
            Ok(_) => grows(number, step as int, statement@) is Proceed,
            Err(error) => fails(grows(number, step as int, statement@), error),
        },
{
    if number <= i64::MAX - step {
        Ok(())
    } else {
        Err(runtime(statement, "bigint out of range"))
    }
}

/// Reads where a listing starts.
pub(crate) fn start_listing(limit: i64, after: &Option<String>, statement: &str) -> (result: Result<
    i64,
    StorageError,
>)
    ensures
        match result {
            Ok(start) => {
                &&& listing(limit, *after, statement@) is Proceed
                &&& validate::cursor_value(text::text_of(*after)) == Some(start as int)
            },
            Err(error) => fails(listing(limit, *after, statement@), error),
        },
{
    match parse_cursor(after) {
        Ok(start) => if limit < -1 {
            Err(runtime(statement, "LIMIT must not be negative"))
        } else {
            Ok(start)
        },
        Err(failure) => Err(StorageError::Domain(failure)),
    }
}

/// Whether `result` is what a mutation with this verdict answers. A mutation that proceeds answers
/// with a fresh value.
pub open spec fn settles<T>(verdict: Verdict, result: Result<Completion<T>, StorageError>) -> bool {
    match verdict {
        Verdict::Proceed => result matches Ok(Completion::Fresh(_)),
        Verdict::Refuse(failure) => result == Err::<Completion<T>, StorageError>(
            StorageError::Domain(failure),
        ),
        Verdict::Fault(operation, source) => result matches Err(error) && failure::is_runtime(
            error,
            operation,
            source,
        ),
        Verdict::Replay(response) => result matches Ok(Completion::Replayed(text)) && text@
            == response,
    }
}

/// The fresh value of a mutation that took effect.
pub open spec fn fresh<T>(result: Result<Completion<T>, StorageError>) -> T
    recommends
        result matches Ok(Completion::Fresh(_)),
{
    result->Ok_0->Fresh_0
}

/// What one activity record says.
pub struct ActivityEntry {
    pub organization: Seq<char>,
    pub project: Option<Seq<char>>,
    pub issue: Option<Seq<char>>,
    pub operation: Seq<char>,
    pub kind: Seq<char>,
    pub entity: Seq<char>,
    pub revision: Option<int>,
}

/// Whether `row` records `entry` as done by `actor` at `now`, under the number `id`.
pub open spec fn is_activity(
    row: Activity,
    id: int,
    entry: ActivityEntry,
    actor: Seq<char>,
    now: Timestamp,
) -> bool {
    &&& row.activity_id == id
    &&& row.organization_id@ == entry.organization
    &&& text::text_of(row.project_id) == entry.project
    &&& text::text_of(row.issue_id) == entry.issue
    &&& row.actor_subject@ == actor
    &&& row.operation@ == entry.operation
    &&& row.entity_kind@ == entry.kind
    &&& row.entity_id@ == entry.entity
    &&& match (row.revision, entry.revision) {
        (Some(stored), Some(revision)) => stored == revision,
        (None, None) => true,
        _ => false,
    }
    &&& row.occurred_at == now
}

/// Whether `row` is the pending receipt of a command.
pub open spec fn is_pending(
    row: Command,
    caller: Seq<char>,
    actor: Seq<char>,
    operation: Seq<char>,
    key: Seq<char>,
    request: Seq<char>,
) -> bool {
    &&& row.caller@ == caller
    &&& row.actor@ == actor
    &&& row.operation@ == operation
    &&& row.idempotency_key@ == key
    &&& row.request@ == request
    &&& row.response is None
}

/// Whether `after` holds, beyond `before`, exactly one activity record and the pending receipt of
/// the command.
pub open spec fn recorded(
    before: Store,
    after: Store,
    call: Invocation,
    key: Seq<char>,
    entry: ActivityEntry,
) -> bool {
    &&& after.activity@.len() == before.activity@.len() + 1
    &&& after.activity@.drop_last() == before.activity@
    &&& is_activity(
        after.activity@.last(),
        before.next_activity as int,
        entry,
        call.actor@,
        call.now,
    )
    &&& after.next_activity == before.next_activity + 1
    &&& after.commands@.len() == before.commands@.len() + 1
    &&& after.commands@.drop_last() == before.commands@
    &&& is_pending(
        after.commands@.last(),
        call.caller@,
        call.actor@,
        entry.operation,
        key,
        call.request_json@,
    )
}

/// Picks the team by its key.
pub open spec fn is_team(organization: Seq<char>, id: Seq<char>) -> spec_fn(Team) -> bool {
    |row: Team| row.organization_id@ == organization && row.team_id@ == id
}

/// Picks the workflow state by its key.
pub open spec fn is_workflow_state(organization: Seq<char>, id: Seq<char>) -> spec_fn(WorkflowState) -> bool {
    |row: WorkflowState| row.organization_id@ == organization && row.state_id@ == id
}

/// Picks the workflow state of the team by its key.
pub open spec fn is_team_state(organization: Seq<char>, team: Seq<char>, id: Seq<char>) -> spec_fn(WorkflowState) -> bool {
    |row: WorkflowState| row.organization_id@ == organization && row.team_id@ == team && row.state_id@ == id
}

/// Picks the workspace record by its key.
pub open spec fn is_workspace(organization: Seq<char>) -> spec_fn(Workspace) -> bool {
    |row: Workspace| row.organization_id@ == organization
}

/// Picks the project status by its key.
pub open spec fn is_project_status(organization: Seq<char>, id: Seq<char>) -> spec_fn(ProjectStatus) -> bool {
    |row: ProjectStatus| row.organization_id@ == organization && row.status_id@ == id
}

/// Picks the project by its key.
pub open spec fn is_project(organization: Seq<char>, id: Seq<char>) -> spec_fn(Project) -> bool {
    |row: Project| row.organization_id@ == organization && row.project_id@ == id
}

/// Picks the issue by its key.
pub open spec fn is_issue(organization: Seq<char>, id: Seq<char>) -> spec_fn(Issue) -> bool {
    |row: Issue| row.organization_id@ == organization && row.issue_id@ == id
}

/// Picks the identifier by its key.
pub open spec fn is_alias(organization: Seq<char>, identifier: Seq<char>) -> spec_fn(IdentifierAlias) -> bool {
    |row: IdentifierAlias| row.organization_id@ == organization && row.identifier@ == identifier
}

/// Picks the issue that now has the identifier by its key.
pub open spec fn is_identified(organization: Seq<char>, identifier: Seq<char>) -> spec_fn(Issue) -> bool {
    |row: Issue| row.organization_id@ == organization && row.identifier@ == identifier
}

/// Picks the external association by its key.
pub open spec fn is_link(organization: Seq<char>, provider: Seq<char>, key: Seq<char>) -> spec_fn(ExternalLink) -> bool {
    |row: ExternalLink| row.organization_id@ == organization && row.provider@ == provider && row.external_key@ == key
}

/// Picks the cycle of the team by its key.
pub open spec fn is_cycle(organization: Seq<char>, team: Seq<char>, id: Seq<char>) -> spec_fn(Cycle) -> bool {
    |row: Cycle| row.organization_id@ == organization && row.team_id@ == team && row.cycle_id@ == id
}

/// Picks the milestone of the project by its key.
pub open spec fn is_milestone(organization: Seq<char>, project: Seq<char>, id: Seq<char>) -> spec_fn(Milestone) -> bool {
    |row: Milestone| row.organization_id@ == organization && row.project_id@ == project && row.milestone_id@ == id
}

/// Picks the label by its key.
pub open spec fn is_label(organization: Seq<char>, id: Seq<char>) -> spec_fn(Label) -> bool {
    |row: Label| row.organization_id@ == organization && row.label_id@ == id
}

/// Picks the comment by its key.
pub open spec fn is_comment(organization: Seq<char>, id: Seq<char>) -> spec_fn(Comment) -> bool {
    |row: Comment| row.organization_id@ == organization && row.comment_id@ == id
}

/// Picks the relation by its key.
pub open spec fn is_relation(organization: Seq<char>, id: Seq<char>) -> spec_fn(IssueRelation) -> bool {
    |row: IssueRelation| row.organization_id@ == organization && row.relation_id@ == id
}

/// Picks the membership by its key.
pub open spec fn is_member(organization: Seq<char>, team: Seq<char>, subject: Seq<char>) -> spec_fn(TeamMember) -> bool {
    |row: TeamMember| row.organization_id@ == organization && row.team_id@ == team && row.subject@ == subject
}

/// Picks the receipt of the command by its key.
pub open spec fn is_command(caller: Seq<char>, actor: Seq<char>, operation: Seq<char>, key: Seq<char>) -> spec_fn(Command) -> bool {
    |row: Command| row.caller@ == caller && row.actor@ == actor && row.operation@ == operation && row.idempotency_key@ == key
}

/// Picks the receipt of the retention action by its key.
pub open spec fn is_receipt(action: Seq<char>) -> spec_fn(RetentionReceipt) -> bool {
    |row: RetentionReceipt| row.action_id@ == action
}

/// Picks rows by their `team_id`, whatever their organization.
pub open spec fn has_team_id(id: Seq<char>) -> spec_fn(Team) -> bool {
    |row: Team| row.team_id@ == id
}

/// Picks rows by their `state_id`, whatever their organization.
pub open spec fn has_state_id(id: Seq<char>) -> spec_fn(WorkflowState) -> bool {
    |row: WorkflowState| row.state_id@ == id
}

/// Picks rows by their `status_id`, whatever their organization.
pub open spec fn has_status_id(id: Seq<char>) -> spec_fn(ProjectStatus) -> bool {
    |row: ProjectStatus| row.status_id@ == id
}

/// Picks rows by their `project_id`, whatever their organization.
pub open spec fn has_project_id(id: Seq<char>) -> spec_fn(Project) -> bool {
    |row: Project| row.project_id@ == id
}

/// Picks rows by their `issue_id`, whatever their organization.
pub open spec fn has_issue_id(id: Seq<char>) -> spec_fn(Issue) -> bool {
    |row: Issue| row.issue_id@ == id
}

/// Picks rows by their `cycle_id`, whatever their organization.
pub open spec fn has_cycle_id(id: Seq<char>) -> spec_fn(Cycle) -> bool {
    |row: Cycle| row.cycle_id@ == id
}

/// Picks rows by their `milestone_id`, whatever their organization.
pub open spec fn has_milestone_id(id: Seq<char>) -> spec_fn(Milestone) -> bool {
    |row: Milestone| row.milestone_id@ == id
}

/// Picks rows by their `label_id`, whatever their organization.
pub open spec fn has_label_id(id: Seq<char>) -> spec_fn(Label) -> bool {
    |row: Label| row.label_id@ == id
}

/// Picks rows by their `comment_id`, whatever their organization.
pub open spec fn has_comment_id(id: Seq<char>) -> spec_fn(Comment) -> bool {
    |row: Comment| row.comment_id@ == id
}

/// Picks rows by their `update_id`, whatever their organization.
pub open spec fn has_update_id(id: Seq<char>) -> spec_fn(ProjectUpdate) -> bool {
    |row: ProjectUpdate| row.update_id@ == id
}

/// Picks rows by their `relation_id`, whatever their organization.
pub open spec fn has_relation_id(id: Seq<char>) -> spec_fn(IssueRelation) -> bool {
    |row: IssueRelation| row.relation_id@ == id
}

/// Picks the active membership of a subject in a team.
pub open spec fn is_active_member(organization: Seq<char>, team: Seq<char>, subject: Seq<char>) -> spec_fn(TeamMember) -> bool {
    |row: TeamMember|
        row.organization_id@ == organization && row.team_id@ == team && row.subject@ == subject
            && row.active
}

impl Store {
    /// Where the team stands.
    pub open spec fn team_at(self, organization: Seq<char>, id: Seq<char>) -> Option<int> {
        table::first_where(self.teams@, is_team(organization, id))
    }

    /// Where the workflow state stands.
    pub open spec fn workflow_state_at(self, organization: Seq<char>, id: Seq<char>) -> Option<int> {
        table::first_where(self.workflow_states@, is_workflow_state(organization, id))
    }

    /// Where the workflow state of the team stands.
    pub open spec fn team_state_at(self, organization: Seq<char>, team: Seq<char>, id: Seq<char>) -> Option<int> {
        table::first_where(self.workflow_states@, is_team_state(organization, team, id))
    }

    /// Where the workspace record stands.
    pub open spec fn workspace_at(self, organization: Seq<char>) -> Option<int> {
        table::first_where(self.workspaces@, is_workspace(organization))
    }

    /// Where the project status stands.
    pub open spec fn project_status_at(self, organization: Seq<char>, id: Seq<char>) -> Option<int> {
        table::first_where(self.project_statuses@, is_project_status(organization, id))
    }

    /// Where the project stands.
    pub open spec fn project_at(self, organization: Seq<char>, id: Seq<char>) -> Option<int> {
        table::first_where(self.projects@, is_project(organization, id))
    }

    /// Where the issue stands.
    pub open spec fn issue_at(self, organization: Seq<char>, id: Seq<char>) -> Option<int> {
        table::first_where(self.issues@, is_issue(organization, id))
    }

    /// Where the identifier stands.
    pub open spec fn alias_at(self, organization: Seq<char>, identifier: Seq<char>) -> Option<int> {
        table::first_where(self.aliases@, is_alias(organization, identifier))
    }

    /// Where the issue that now has the identifier stands.
    pub open spec fn identified_at(self, organization: Seq<char>, identifier: Seq<char>) -> Option<int> {
        table::first_where(self.issues@, is_identified(organization, identifier))
    }

    /// Where the external association stands.
    pub open spec fn link_at(self, organization: Seq<char>, provider: Seq<char>, key: Seq<char>) -> Option<int> {
        table::first_where(self.links@, is_link(organization, provider, key))
    }

    /// Where the cycle of the team stands.
    pub open spec fn cycle_at(self, organization: Seq<char>, team: Seq<char>, id: Seq<char>) -> Option<int> {
        table::first_where(self.cycles@, is_cycle(organization, team, id))
    }

    /// Where the milestone of the project stands.
    pub open spec fn milestone_at(self, organization: Seq<char>, project: Seq<char>, id: Seq<char>) -> Option<int> {
        table::first_where(self.milestones@, is_milestone(organization, project, id))
    }

    /// Where the label stands.
    pub open spec fn label_at(self, organization: Seq<char>, id: Seq<char>) -> Option<int> {
        table::first_where(self.labels@, is_label(organization, id))
    }

    /// Where the comment stands.
    pub open spec fn comment_at(self, organization: Seq<char>, id: Seq<char>) -> Option<int> {
        table::first_where(self.comments@, is_comment(organization, id))
    }

    /// Where the relation stands.
    pub open spec fn relation_at(self, organization: Seq<char>, id: Seq<char>) -> Option<int> {
        table::first_where(self.relations@, is_relation(organization, id))
    }

    /// Where the membership stands.
    pub open spec fn member_at(self, organization: Seq<char>, team: Seq<char>, subject: Seq<char>) -> Option<int> {
        table::first_where(self.team_members@, is_member(organization, team, subject))
    }

    /// Where the receipt of the command stands.
    pub open spec fn command_at(self, caller: Seq<char>, actor: Seq<char>, operation: Seq<char>, key: Seq<char>) -> Option<int> {
        table::first_where(self.commands@, is_command(caller, actor, operation, key))
    }

    /// Where the receipt of the retention action stands.
    pub open spec fn receipt_at(self, action: Seq<char>) -> Option<int> {
        table::first_where(self.receipts@, is_receipt(action))
    }

    /// Finds the team.
    pub fn find_team(&self, organization: &str, id: &str) -> (found: Option<usize>)
        ensures
            table::index_of(found) == self.team_at(organization@, id@),
            found matches Some(i) ==> i < self.teams.len() && is_team(organization@, id@)(
                self.teams@[i as int],
            ),
    {
        proof {
            table::lemma_first_where(self.teams@, is_team(organization@, id@));
        }
        find_row(
            &self.teams,
            |row: &Team| -> (hit: bool)
                ensures
                    hit == is_team(organization@, id@)(*row)
            { text::same(row.organization_id.as_str(), organization) && text::same(row.team_id.as_str(), id) },
            Ghost(is_team(organization@, id@)),
        )
    }

    /// Finds the workflow state.
    pub fn find_workflow_state(&self, organization: &str, id: &str) -> (found: Option<usize>)
        ensures
            table::index_of(found) == self.workflow_state_at(organization@, id@),
            found matches Some(i) ==> i < self.workflow_states.len() && is_workflow_state(organization@, id@)(
                self.workflow_states@[i as int],
            ),
    {
        proof {
            table::lemma_first_where(self.workflow_states@, is_workflow_state(organization@, id@));
        }
        find_row(
            &self.workflow_states,
            |row: &WorkflowState| -> (hit: bool)
                ensures
                    hit == is_workflow_state(organization@, id@)(*row)
            { text::same(row.organization_id.as_str(), organization) && text::same(row.state_id.as_str(), id) },
            Ghost(is_workflow_state(organization@, id@)),
        )
    }

    /// Finds the workflow state of the team.
    pub fn find_team_state(&self, organization: &str, team: &str, id: &str) -> (found: Option<usize>)
        ensures
            table::index_of(found) == self.team_state_at(organization@, team@, id@),
            found matches Some(i) ==> i < self.workflow_states.len() && is_team_state(organization@, team@, id@)(
                self.workflow_states@[i as int],
            ),
    {
        proof {
            table::lemma_first_where(self.workflow_states@, is_team_state(organization@, team@, id@));
        }
        find_row(
            &self.workflow_states,
            |row: &WorkflowState| -> (hit: bool)
                ensures
                    hit == is_team_state(organization@, team@, id@)(*row)
            { text::same(row.organization_id.as_str(), organization) && text::same(row.team_id.as_str(), team) && text::same(row.state_id.as_str(), id) },
            Ghost(is_team_state(organization@, team@, id@)),
        )
    }

    /// Finds the workspace record.
    pub fn find_workspace(&self, organization: &str) -> (found: Option<usize>)
        ensures
            table::index_of(found) == self.workspace_at(organization@),
            found matches Some(i) ==> i < self.workspaces.len() && is_workspace(organization@)(
                self.workspaces@[i as int],
            ),
    {
        proof {
            table::lemma_first_where(self.workspaces@, is_workspace(organization@));
        }
        find_row(
            &self.workspaces,
            |row: &Workspace| -> (hit: bool)
                ensures
                    hit == is_workspace(organization@)(*row)
            { text::same(row.organization_id.as_str(), organization) },
            Ghost(is_workspace(organization@)),
        )
    }

    /// Finds the project status.
    pub fn find_project_status(&self, organization: &str, id: &str) -> (found: Option<usize>)
        ensures
            table::index_of(found) == self.project_status_at(organization@, id@),
            found matches Some(i) ==> i < self.project_statuses.len() && is_project_status(organization@, id@)(
                self.project_statuses@[i as int],
            ),
    {
        proof {
            table::lemma_first_where(self.project_statuses@, is_project_status(organization@, id@));
        }
        find_row(
            &self.project_statuses,
            |row: &ProjectStatus| -> (hit: bool)
                ensures
                    hit == is_project_status(organization@, id@)(*row)
            { text::same(row.organization_id.as_str(), organization) && text::same(row.status_id.as_str(), id) },
            Ghost(is_project_status(organization@, id@)),
        )
    }

    /// Finds the project.
    pub fn find_project(&self, organization: &str, id: &str) -> (found: Option<usize>)
        ensures
            table::index_of(found) == self.project_at(organization@, id@),
            found matches Some(i) ==> i < self.projects.len() && is_project(organization@, id@)(
                self.projects@[i as int],
            ),
    {
        proof {
            table::lemma_first_where(self.projects@, is_project(organization@, id@));
        }
        find_row(
            &self.projects,
            |row: &Project| -> (hit: bool)
                ensures
                    hit == is_project(organization@, id@)(*row)
            { text::same(row.organization_id.as_str(), organization) && text::same(row.project_id.as_str(), id) },
            Ghost(is_project(organization@, id@)),
        )
    }

    /// Finds the issue.
    pub fn find_issue(&self, organization: &str, id: &str) -> (found: Option<usize>)
        ensures
            table::index_of(found) == self.issue_at(organization@, id@),
            found matches Some(i) ==> i < self.issues.len() && is_issue(organization@, id@)(
                self.issues@[i as int],
            ),
    {
        proof {
            table::lemma_first_where(self.issues@, is_issue(organization@, id@));
        }
        find_row(
            &self.issues,
            |row: &Issue| -> (hit: bool)
                ensures
                    hit == is_issue(organization@, id@)(*row)
            { text::same(row.organization_id.as_str(), organization) && text::same(row.issue_id.as_str(), id) },
            Ghost(is_issue(organization@, id@)),
        )
    }

    /// Finds the identifier.
    pub fn find_alias(&self, organization: &str, identifier: &str) -> (found: Option<usize>)
        ensures
            table::index_of(found) == self.alias_at(organization@, identifier@),
            found matches Some(i) ==> i < self.aliases.len() && is_alias(organization@, identifier@)(
                self.aliases@[i as int],
            ),
    {
        proof {
            table::lemma_first_where(self.aliases@, is_alias(organization@, identifier@));
        }
        find_row(
            &self.aliases,
            |row: &IdentifierAlias| -> (hit: bool)
                ensures
                    hit == is_alias(organization@, identifier@)(*row)
            { text::same(row.organization_id.as_str(), organization) && text::same(row.identifier.as_str(), identifier) },
            Ghost(is_alias(organization@, identifier@)),
        )
    }

    /// Finds the issue that now has the identifier.
    pub fn find_identified(&self, organization: &str, identifier: &str) -> (found: Option<usize>)
        ensures
            table::index_of(found) == self.identified_at(organization@, identifier@),
            found matches Some(i) ==> i < self.issues.len() && is_identified(organization@, identifier@)(
                self.issues@[i as int],
            ),
    {
        proof {
            table::lemma_first_where(self.issues@, is_identified(organization@, identifier@));
        }
        find_row(
            &self.issues,
            |row: &Issue| -> (hit: bool)
                ensures
                    hit == is_identified(organization@, identifier@)(*row)
            { text::same(row.organization_id.as_str(), organization) && text::same(row.identifier.as_str(), identifier) },
            Ghost(is_identified(organization@, identifier@)),
        )
    }

    /// Finds the external association.
    pub fn find_link(&self, organization: &str, provider: &str, key: &str) -> (found: Option<usize>)
        ensures
            table::index_of(found) == self.link_at(organization@, provider@, key@),
            found matches Some(i) ==> i < self.links.len() && is_link(organization@, provider@, key@)(
                self.links@[i as int],
            ),
    {
        proof {
            table::lemma_first_where(self.links@, is_link(organization@, provider@, key@));
        }
        find_row(
            &self.links,
            |row: &ExternalLink| -> (hit: bool)
                ensures
                    hit == is_link(organization@, provider@, key@)(*row)
            { text::same(row.organization_id.as_str(), organization) && text::same(row.provider.as_str(), provider) && text::same(row.external_key.as_str(), key) },
            Ghost(is_link(organization@, provider@, key@)),
        )
    }

    /// Finds the cycle of the team.
    pub fn find_cycle(&self, organization: &str, team: &str, id: &str) -> (found: Option<usize>)
        ensures
            table::index_of(found) == self.cycle_at(organization@, team@, id@),
            found matches Some(i) ==> i < self.cycles.len() && is_cycle(organization@, team@, id@)(
                self.cycles@[i as int],
            ),
    {
        proof {
            table::lemma_first_where(self.cycles@, is_cycle(organization@, team@, id@));
        }
        find_row(
            &self.cycles,
            |row: &Cycle| -> (hit: bool)
                ensures
                    hit == is_cycle(organization@, team@, id@)(*row)
            { text::same(row.organization_id.as_str(), organization) && text::same(row.team_id.as_str(), team) && text::same(row.cycle_id.as_str(), id) },
            Ghost(is_cycle(organization@, team@, id@)),
        )
    }

    /// Finds the milestone of the project.
    pub fn find_milestone(&self, organization: &str, project: &str, id: &str) -> (found: Option<usize>)
        ensures
            table::index_of(found) == self.milestone_at(organization@, project@, id@),
            found matches Some(i) ==> i < self.milestones.len() && is_milestone(organization@, project@, id@)(
                self.milestones@[i as int],
            ),
    {
        proof {
            table::lemma_first_where(self.milestones@, is_milestone(organization@, project@, id@));
        }
        find_row(
            &self.milestones,
            |row: &Milestone| -> (hit: bool)
                ensures
                    hit == is_milestone(organization@, project@, id@)(*row)
            { text::same(row.organization_id.as_str(), organization) && text::same(row.project_id.as_str(), project) && text::same(row.milestone_id.as_str(), id) },
            Ghost(is_milestone(organization@, project@, id@)),
        )
    }

    /// Finds the label.
    pub fn find_label(&self, organization: &str, id: &str) -> (found: Option<usize>)
        ensures
            table::index_of(found) == self.label_at(organization@, id@),
            found matches Some(i) ==> i < self.labels.len() && is_label(organization@, id@)(
                self.labels@[i as int],
            ),
    {
        proof {
            table::lemma_first_where(self.labels@, is_label(organization@, id@));
        }
        find_row(
            &self.labels,
            |row: &Label| -> (hit: bool)
                ensures
                    hit == is_label(organization@, id@)(*row)
            { text::same(row.organization_id.as_str(), organization) && text::same(row.label_id.as_str(), id) },
            Ghost(is_label(organization@, id@)),
        )
    }

    /// Finds the comment.
    pub fn find_comment(&self, organization: &str, id: &str) -> (found: Option<usize>)
        ensures
            table::index_of(found) == self.comment_at(organization@, id@),
            found matches Some(i) ==> i < self.comments.len() && is_comment(organization@, id@)(
                self.comments@[i as int],
            ),
    {
        proof {
            table::lemma_first_where(self.comments@, is_comment(organization@, id@));
        }
        find_row(
            &self.comments,
            |row: &Comment| -> (hit: bool)
                ensures
                    hit == is_comment(organization@, id@)(*row)
            { text::same(row.organization_id.as_str(), organization) && text::same(row.comment_id.as_str(), id) },
            Ghost(is_comment(organization@, id@)),
        )
    }

    /// Finds the relation.
    pub fn find_relation(&self, organization: &str, id: &str) -> (found: Option<usize>)
        ensures
            table::index_of(found) == self.relation_at(organization@, id@),
            found matches Some(i) ==> i < self.relations.len() && is_relation(organization@, id@)(
                self.relations@[i as int],
            ),
    {
        proof {
            table::lemma_first_where(self.relations@, is_relation(organization@, id@));
        }
        find_row(
            &self.relations,
            |row: &IssueRelation| -> (hit: bool)
                ensures
                    hit == is_relation(organization@, id@)(*row)
            { text::same(row.organization_id.as_str(), organization) && text::same(row.relation_id.as_str(), id) },
            Ghost(is_relation(organization@, id@)),
        )
    }

    /// Finds the membership.
    pub fn find_member(&self, organization: &str, team: &str, subject: &str) -> (found: Option<usize>)
        ensures
            table::index_of(found) == self.member_at(organization@, team@, subject@),
            found matches Some(i) ==> i < self.team_members.len() && is_member(organization@, team@, subject@)(
                self.team_members@[i as int],
            ),
    {
        proof {
            table::lemma_first_where(self.team_members@, is_member(organization@, team@, subject@));
        }
        find_row(
            &self.team_members,
            |row: &TeamMember| -> (hit: bool)
                ensures
                    hit == is_member(organization@, team@, subject@)(*row)
            { text::same(row.organization_id.as_str(), organization) && text::same(row.team_id.as_str(), team) && text::same(row.subject.as_str(), subject) },
            Ghost(is_member(organization@, team@, subject@)),
        )
    }

    /// Finds the receipt of the command.
    pub fn find_command(&self, caller: &str, actor: &str, operation: &str, key: &str) -> (found: Option<usize>)
        ensures
            table::index_of(found) == self.command_at(caller@, actor@, operation@, key@),
            found matches Some(i) ==> i < self.commands.len() && is_command(caller@, actor@, operation@, key@)(
                self.commands@[i as int],
            ),
    {
        proof {
            table::lemma_first_where(self.commands@, is_command(caller@, actor@, operation@, key@));
        }
        find_row(
            &self.commands,
            |row: &Command| -> (hit: bool)
                ensures
                    hit == is_command(caller@, actor@, operation@, key@)(*row)
            { text::same(row.caller.as_str(), caller) && text::same(row.actor.as_str(), actor) && text::same(row.operation.as_str(), operation) && text::same(row.idempotency_key.as_str(), key) },
            Ghost(is_command(caller@, actor@, operation@, key@)),
        )
    }

    /// Finds the receipt of the retention action.
    pub fn find_receipt(&self, action: &str) -> (found: Option<usize>)
        ensures
            table::index_of(found) == self.receipt_at(action@),
            found matches Some(i) ==> i < self.receipts.len() && is_receipt(action@)(
                self.receipts@[i as int],
            ),
    {
        proof {
            table::lemma_first_where(self.receipts@, is_receipt(action@));
        }
        find_row(
            &self.receipts,
            |row: &RetentionReceipt| -> (hit: bool)
                ensures
                    hit == is_receipt(action@)(*row)
            { text::same(row.action_id.as_str(), action) },
            Ghost(is_receipt(action@)),
        )
    }

    /// Whether some row of any organization already has this `team_id`.
    pub fn taken_team_id(&self, id: &str) -> (answer: bool)
        ensures
            answer == table::some_row(self.teams@, has_team_id(id@)),
    {
        any_row(
            &self.teams,
            |row: &Team| -> (hit: bool)
                ensures
                    hit == has_team_id(id@)(*row)
            { text::same(row.team_id.as_str(), id) },
            Ghost(has_team_id(id@)),
        )
    }

    /// Whether some row of any organization already has this `state_id`.
    pub fn taken_state_id(&self, id: &str) -> (answer: bool)
        ensures
            answer == table::some_row(self.workflow_states@, has_state_id(id@)),
    {
        any_row(
            &self.workflow_states,
            |row: &WorkflowState| -> (hit: bool)
                ensures
                    hit == has_state_id(id@)(*row)
            { text::same(row.state_id.as_str(), id) },
            Ghost(has_state_id(id@)),
        )
    }

    /// Whether some row of any organization already has this `status_id`.
    pub fn taken_status_id(&self, id: &str) -> (answer: bool)
        ensures
            answer == table::some_row(self.project_statuses@, has_status_id(id@)),
    {
        any_row(
            &self.project_statuses,
            |row: &ProjectStatus| -> (hit: bool)
                ensures
                    hit == has_status_id(id@)(*row)
            { text::same(row.status_id.as_str(), id) },
            Ghost(has_status_id(id@)),
        )
    }

    /// Whether some row of any organization already has this `project_id`.
    pub fn taken_project_id(&self, id: &str) -> (answer: bool)
        ensures
            answer == table::some_row(self.projects@, has_project_id(id@)),
    {
        any_row(
            &self.projects,
            |row: &Project| -> (hit: bool)
                ensures
                    hit == has_project_id(id@)(*row)
            { text::same(row.project_id.as_str(), id) },
            Ghost(has_project_id(id@)),
        )
    }

    /// Whether some row of any organization already has this `issue_id`.
    pub fn taken_issue_id(&self, id: &str) -> (answer: bool)
        ensures
            answer == table::some_row(self.issues@, has_issue_id(id@)),
    {
        any_row(
            &self.issues,
            |row: &Issue| -> (hit: bool)
                ensures
                    hit == has_issue_id(id@)(*row)
            { text::same(row.issue_id.as_str(), id) },
            Ghost(has_issue_id(id@)),
        )
    }

    /// Whether some row of any organization already has this `cycle_id`.
    pub fn taken_cycle_id(&self, id: &str) -> (answer: bool)
        ensures
            answer == table::some_row(self.cycles@, has_cycle_id(id@)),
    {
        any_row(
            &self.cycles,
            |row: &Cycle| -> (hit: bool)
                ensures
                    hit == has_cycle_id(id@)(*row)
            { text::same(row.cycle_id.as_str(), id) },
            Ghost(has_cycle_id(id@)),
        )
    }

    /// Whether some row of any organization already has this `milestone_id`.
    pub fn taken_milestone_id(&self, id: &str) -> (answer: bool)
        ensures
            answer == table::some_row(self.milestones@, has_milestone_id(id@)),
    {
        any_row(
            &self.milestones,
            |row: &Milestone| -> (hit: bool)
                ensures
                    hit == has_milestone_id(id@)(*row)
            { text::same(row.milestone_id.as_str(), id) },
            Ghost(has_milestone_id(id@)),
        )
    }

    /// Whether some row of any organization already has this `label_id`.
    pub fn taken_label_id(&self, id: &str) -> (answer: bool)
        ensures
            answer == table::some_row(self.labels@, has_label_id(id@)),
    {
        any_row(
            &self.labels,
            |row: &Label| -> (hit: bool)
                ensures
                    hit == has_label_id(id@)(*row)
            { text::same(row.label_id.as_str(), id) },
            Ghost(has_label_id(id@)),
        )
    }

    /// Whether some row of any organization already has this `comment_id`.
    pub fn taken_comment_id(&self, id: &str) -> (answer: bool)
        ensures
            answer == table::some_row(self.comments@, has_comment_id(id@)),
    {
        any_row(
            &self.comments,
            |row: &Comment| -> (hit: bool)
                ensures
                    hit == has_comment_id(id@)(*row)
            { text::same(row.comment_id.as_str(), id) },
            Ghost(has_comment_id(id@)),
        )
    }

    /// Whether some row of any organization already has this `update_id`.
    pub fn taken_update_id(&self, id: &str) -> (answer: bool)
        ensures
            answer == table::some_row(self.project_updates@, has_update_id(id@)),
    {
        any_row(
            &self.project_updates,
            |row: &ProjectUpdate| -> (hit: bool)
                ensures
                    hit == has_update_id(id@)(*row)
            { text::same(row.update_id.as_str(), id) },
            Ghost(has_update_id(id@)),
        )
    }

    /// Whether some row of any organization already has this `relation_id`.
    pub fn taken_relation_id(&self, id: &str) -> (answer: bool)
        ensures
            answer == table::some_row(self.relations@, has_relation_id(id@)),
    {
        any_row(
            &self.relations,
            |row: &IssueRelation| -> (hit: bool)
                ensures
                    hit == has_relation_id(id@)(*row)
            { text::same(row.relation_id.as_str(), id) },
            Ghost(has_relation_id(id@)),
        )
    }

    /// Fails where no further activity record can be numbered.
    pub(crate) fn check_append(&self) -> (result: Result<(), StorageError>)
        ensures
            match result {
                Ok(_) => appends(*self) is Proceed,
                Err(error) => fails(appends(*self), error),
            },
    {
        check_growth(self.next_activity, 1, "append activity")
    }

    /// Fails where the statement cannot revise a row, or this cannot be recorded.
    pub(crate) fn check_revise(&self, revision: i64, statement: &str) -> (result: Result<
        (),
        StorageError,
    >)
        ensures
            match result {
                Ok(_) => revises(*self, revision, statement@) is Proceed,
                Err(error) => fails(revises(*self, revision, statement@), error),
            },
    {
        match check_growth(revision, 1, statement) {
            Ok(_) => self.check_append(),
            Err(error) => Err(error),
        }
    }

    /// Whether the subject is an active member of the team.
    pub open spec fn member(self, organization: Seq<char>, team: Seq<char>, subject: Seq<char>) -> bool {
        table::some_row(self.team_members@, is_active_member(organization, team, subject))
    }

    /// Whether the team is private and the subject is not one of its active members.
    pub open spec fn hidden_team(self, organization: Seq<char>, team: Seq<char>, subject: Seq<char>) -> bool {
        match self.team_at(organization, team) {
            Some(i) => self.teams@[i].private && !self.member(organization, team, subject),
            None => false,
        }
    }

    /// Whether one of the teams is hidden from the subject.
    pub open spec fn hidden_among(
        self,
        organization: Seq<char>,
        teams: Seq<String>,
        subject: Seq<char>,
    ) -> bool {
        exists|k: int|
            0 <= k < teams.len() && self.hidden_team(
                organization,
                (#[trigger] teams[k])@,
                subject,
            )
    }

    /// Whether a project has a team that is hidden from the subject.
    pub open spec fn hidden_project(
        self,
        organization: Seq<char>,
        project: Seq<char>,
        subject: Seq<char>,
    ) -> bool {
        match self.project_at(organization, project) {
            Some(i) => self.hidden_among(organization, self.projects@[i].team_ids@, subject),
            None => false,
        }
    }

    /// Whether the subject can see the project; none where there is no such project.
    pub open spec fn project_visible(
        self,
        organization: Seq<char>,
        project: Seq<char>,
        subject: Seq<char>,
    ) -> Option<bool> {
        match self.project_at(organization, project) {
            Some(_) => Some(!self.hidden_project(organization, project, subject)),
            None => None,
        }
    }

    /// Whether the subject can see an issue that is in this project and team.
    pub open spec fn sees_issue(self, row: Issue, subject: Seq<char>) -> bool {
        &&& !self.hidden_team(row.organization_id@, row.team_id@, subject)
        &&& !self.hidden_project(row.organization_id@, row.project_id@, subject)
    }

    /// Whether the subject can see the issue; none where there is no such issue in a team.
    pub open spec fn issue_visible(
        self,
        organization: Seq<char>,
        issue: Seq<char>,
        subject: Seq<char>,
    ) -> Option<bool> {
        match self.issue_at(organization, issue) {
            Some(i) => if self.team_at(organization, self.issues@[i].team_id@) is Some {
                Some(self.sees_issue(self.issues@[i], subject))
            } else {
                None
            },
            None => None,
        }
    }

    /// Why the subject cannot use the project, if that is so.
    pub open spec fn project_refusal(
        self,
        organization: Seq<char>,
        project: Seq<char>,
        subject: Seq<char>,
    ) -> Option<DomainFailure> {
        refusal_of(self.project_visible(organization, project, subject))
    }

    /// Why the subject cannot use the issue, if that is so.
    pub open spec fn issue_refusal(
        self,
        organization: Seq<char>,
        issue: Seq<char>,
        subject: Seq<char>,
    ) -> Option<DomainFailure> {
        refusal_of(self.issue_visible(organization, issue, subject))
    }

    /// How a command starts: it is new, an earlier run of it is answered again, or its key was used
    /// for another request.
    pub open spec fn command_verdict(
        self,
        call: Invocation,
        operation: Seq<char>,
        key: Seq<char>,
    ) -> Verdict {
        match self.command_at(call.caller@, call.actor@, operation, key) {
            Some(i) => if self.commands@[i].request@ != call.request_json@ {
                Verdict::Refuse(DomainFailure::IdempotencyConflict)
            } else {
                match self.commands@[i].response {
                    Some(response) => Verdict::Replay(response@),
                    None => Verdict::Fault(
                        "read command replay"@,
                        "completed response is missing"@,
                    ),
                }
            },
            None => Verdict::Proceed,
        }
    }

    /// Whether the subject is an active member of the team.
    pub fn is_member(&self, organization: &str, team: &str, subject: &str) -> (answer: bool)
        ensures
            answer == self.member(organization@, team@, subject@),
    {
        any_row(
            &self.team_members,
            |row: &TeamMember| -> (hit: bool)
                ensures
                    hit == is_active_member(organization@, team@, subject@)(*row)
                {
                    text::same(row.organization_id.as_str(), organization) && text::same(
                        row.team_id.as_str(),
                        team,
                    ) && text::same(row.subject.as_str(), subject) && row.active
                },
            Ghost(is_active_member(organization@, team@, subject@)),
        )
    }

    /// Whether the team is private and the subject is not one of its active members.
    pub fn is_hidden_team(&self, organization: &str, team: &str, subject: &str) -> (answer: bool)
        ensures
            answer == self.hidden_team(organization@, team@, subject@),
    {
        match self.find_team(organization, team) {
            Some(i) => self.teams[i].private && !self.is_member(organization, team, subject),
            None => false,
        }
    }

    /// Whether one of the teams is hidden from the subject.
    pub fn is_hidden_among(&self, organization: &str, teams: &Vec<String>, subject: &str) -> (answer:
        bool)
        ensures
            answer == self.hidden_among(organization@, teams@, subject@),
    {
        let mut k: usize = 0;
        while k < teams.len()
            invariant
                k <= teams.len(),
                forall|j: int|
                    0 <= j < k ==> !self.hidden_team(
                        organization@,
                        (#[trigger] teams@[j])@,
                        subject@,
                    ),
            decreases teams.len() - k,
        {
            if self.is_hidden_team(organization, teams[k].as_str(), subject) {
                assert(self.hidden_team(organization@, teams@[k as int]@, subject@));
                return true;
            }
            k = k + 1;
        }
        false
    }

    /// Whether a project has a team that is hidden from the subject.
    pub fn is_hidden_project(&self, organization: &str, project: &str, subject: &str) -> (answer: bool)
        ensures
            answer == self.hidden_project(organization@, project@, subject@),
    {
        match self.find_project(organization, project) {
            Some(i) => self.is_hidden_among(organization, &self.projects[i].team_ids, subject),
            None => false,
        }
    }

    /// Whether the subject can see the project; none where there is no such project.
    pub fn project_visibility(&self, organization: &str, project: &str, subject: &str) -> (visible:
        Option<bool>)
        ensures
            visible == self.project_visible(organization@, project@, subject@),
    {
        match self.find_project(organization, project) {
            Some(_) => Some(!self.is_hidden_project(organization, project, subject)),
            None => None,
        }
    }

    /// Whether the subject can see an issue that is in this project and team.
    pub fn can_see_issue(&self, row: &Issue, subject: &str) -> (answer: bool)
        ensures
            answer == self.sees_issue(*row, subject@),
    {
        !self.is_hidden_team(row.organization_id.as_str(), row.team_id.as_str(), subject)
            && !self.is_hidden_project(row.organization_id.as_str(), row.project_id.as_str(), subject)
    }

    /// Whether the subject can see the issue; none where there is no such issue in a team.
    pub fn issue_visibility(&self, organization: &str, issue: &str, subject: &str) -> (visible:
        Option<bool>)
        ensures
            visible == self.issue_visible(organization@, issue@, subject@),
    {
        match self.find_issue(organization, issue) {
            Some(i) => if self.find_team(organization, self.issues[i].team_id.as_str()).is_some() {
                Some(self.can_see_issue(&self.issues[i], subject))
            } else {
                None
            },
            None => None,
        }
    }

    /// Why the subject cannot use the project, if that is so.
    pub fn check_project(&self, organization: &str, project: &str, subject: &str) -> (refusal: Option<
        DomainFailure,
    >)
        ensures
            refusal == self.project_refusal(organization@, project@, subject@),
    {
        match self.project_visibility(organization, project, subject) {
            Some(true) => None,
            Some(false) => Some(DomainFailure::PrivateTeam),
            None => Some(DomainFailure::NotFound),
        }
    }

    /// Why the subject cannot use the issue, if that is so.
    pub fn check_issue(&self, organization: &str, issue: &str, subject: &str) -> (refusal: Option<
        DomainFailure,
    >)
        ensures
            refusal == self.issue_refusal(organization@, issue@, subject@),
    {
        match self.issue_visibility(organization, issue, subject) {
            Some(true) => None,
            Some(false) => Some(DomainFailure::PrivateTeam),
            None => Some(DomainFailure::NotFound),
        }
    }

    /// The answer to a command that does not start anew.
    pub fn command_answer<T>(&self, call: &Invocation, operation: &str, key: &str) -> (answer: Option<
        Result<Completion<T>, StorageError>,
    >)
        ensures
            match answer {
                None => self.command_verdict(*call, operation@, key@) is Proceed,
                Some(result) => self.command_verdict(*call, operation@, key@) !is Proceed && settles(
                    self.command_verdict(*call, operation@, key@),
                    result,
                ),
            },
    {
        match self.find_command(call.caller.as_str(), call.actor.as_str(), operation, key) {
            Some(i) => if !text::same(
                self.commands[i].request.as_str(),
                call.request_json.as_str(),
            ) {
                Some(Err(StorageError::Domain(DomainFailure::IdempotencyConflict)))
            } else {
                match &self.commands[i].response {
                    Some(response) => Some(Ok(Completion::Replayed(response.clone()))),
                    None => Some(
                        Err(runtime("read command replay", "completed response is missing")),
                    ),
                }
            },
            None => None,
        }
    }

    /// Reserves a command: appends its pending receipt.
    pub fn reserve_command(&mut self, call: &Invocation, operation: &str, key: &str)
        ensures
            final(self).commands@.len() == old(self).commands@.len() + 1,
            final(self).commands@.drop_last() == old(self).commands@,
            is_pending(
                final(self).commands@.last(),
                call.caller@,
                call.actor@,
                operation@,
                key@,
                call.request_json@,
            ),
            *final(self) == (Store { commands: final(self).commands, ..*old(self) }),
    {
        self.commands.push(
            Command {
                caller: call.caller.clone(),
                actor: call.actor.clone(),
                operation: operation.to_owned(),
                idempotency_key: key.to_owned(),
                request: call.request_json.clone(),
                response: None,
            },
        );
        assert(self.commands@.drop_last() =~= old(self).commands@);
    }

    /// Completes a reserved command with its response. Fails where the command is not pending.
    pub fn complete_command(
        &mut self,
        caller: &str,
        actor: &str,
        operation: &str,
        key: &str,
        response: &str,
    ) -> (result: Result<(), StorageError>)
        ensures
            complete_command_outcome(
                *old(self),
                *final(self),
                caller@,
                actor@,
                operation@,
                key@,
                response@,
                result,
            ),
    {
        match self.find_command(caller, actor, operation, key) {
            Some(i) => if self.commands[i].response.is_none() {
                self.commands[i].response = Some(response.to_owned());
                Ok(())
            } else {
                Err(runtime("complete command", "reserved command was not pending"))
            },
            None => Err(runtime("complete command", "reserved command was not pending")),
        }
    }

    /// Appends one activity record.
    pub fn append_activity(
        &mut self,
        organization: &str,
        project: Option<String>,
        issue: Option<String>,
        actor: &str,
        operation: &str,
        kind: &str,
        entity: &str,
        revision: Option<i64>,
        now: &Timestamp,
    )
        requires
            old(self).next_activity < i64::MAX,
        ensures
            final(self).activity@.len() == old(self).activity@.len() + 1,
            final(self).activity@.drop_last() == old(self).activity@,
            is_activity(
                final(self).activity@.last(),
                old(self).next_activity as int,
                (ActivityEntry {
                    organization: organization@,
                    project: text::text_of(project),
                    issue: text::text_of(issue),
                    operation: operation@,
                    kind: kind@,
                    entity: entity@,
                    revision: match revision {
                        Some(revision) => Some(revision as int),
                        None => None,
                    },
                }),
                actor@,
                *now,
            ),
            *final(self) == (Store {
                activity: final(self).activity,
                next_activity: (old(self).next_activity + 1) as i64,
                ..*old(self)
            }),
    {
        self.activity.push(
            Activity {
                activity_id: self.next_activity,
                organization_id: organization.to_owned(),
                project_id: project,
                issue_id: issue,
                actor_subject: actor.to_owned(),
                operation: operation.to_owned(),
                entity_kind: kind.to_owned(),
                entity_id: entity.to_owned(),
                revision,
                occurred_at: now.clone(),
            },
        );
        self.next_activity = self.next_activity + 1;
        assert(self.activity@.drop_last() =~= old(self).activity@);
    }

    /// Records a mutation: appends its activity and reserves its command.
    pub fn record(
        &mut self,
        call: &Invocation,
        key: &str,
        organization: &str,
        project: Option<String>,
        issue: Option<String>,
        operation: &str,
        kind: &str,
        entity: &str,
        revision: Option<i64>,
    )
        requires
            old(self).next_activity < i64::MAX,
        ensures
            recorded(
                *old(self),
                *final(self),
                *call,
                key@,
                (ActivityEntry {
                    organization: organization@,
                    project: text::text_of(project),
                    issue: text::text_of(issue),
                    operation: operation@,
                    kind: kind@,
                    entity: entity@,
                    revision: match revision {
                        Some(revision) => Some(revision as int),
                        None => None,
                    },
                }),
            ),
            *final(self) == (Store {
                activity: final(self).activity,
                commands: final(self).commands,
                next_activity: final(self).next_activity,
                ..*old(self)
            }),
    {
        self.append_activity(
            organization,
            project,
            issue,
            call.actor.as_str(),
            operation,
            kind,
            entity,
            revision,
            &call.now,
        );
        self.reserve_command(call, operation, key);
    }

    /// An empty store.
    pub fn empty() -> (store: Store)
        ensures
            is_empty(store),
    {
        Store {
            teams: Vec::new(),
            team_members: Vec::new(),
            workflow_states: Vec::new(),
            workspaces: Vec::new(),
            project_statuses: Vec::new(),
            projects: Vec::new(),
            issues: Vec::new(),
            aliases: Vec::new(),
            links: Vec::new(),
            cycles: Vec::new(),
            milestones: Vec::new(),
            labels: Vec::new(),
            comments: Vec::new(),
            project_updates: Vec::new(),
            relations: Vec::new(),
            activity: Vec::new(),
            commands: Vec::new(),
            receipts: Vec::new(),
            next_row: 1,
            next_activity: 1,
        }
    }
}

/// Whether nothing is stored, and no number was given yet.
pub open spec fn is_empty(s: Store) -> bool {
    &&& s.teams@.len() == 0
    &&& s.team_members@.len() == 0
    &&& s.workflow_states@.len() == 0
    &&& s.workspaces@.len() == 0
    &&& s.project_statuses@.len() == 0
    &&& s.projects@.len() == 0
    &&& s.issues@.len() == 0
    &&& s.aliases@.len() == 0
    &&& s.links@.len() == 0
    &&& s.cycles@.len() == 0
    &&& s.milestones@.len() == 0
    &&& s.labels@.len() == 0
    &&& s.comments@.len() == 0
    &&& s.project_updates@.len() == 0
    &&& s.relations@.len() == 0
    &&& s.activity@.len() == 0
    &&& s.commands@.len() == 0
    &&& s.receipts@.len() == 0
    &&& s.next_row == 1
    &&& s.next_activity == 1
}

/// Why something cannot be used, given whether it can be seen.
pub open spec fn refusal_of(visible: Option<bool>) -> Option<DomainFailure> {
    match visible {
        Some(true) => None,
        Some(false) => Some(DomainFailure::PrivateTeam),
        None => Some(DomainFailure::NotFound),
    }
}

/// What the completion of a command does and answers: a pending receipt keeps the response.
pub open spec fn complete_command_outcome(
    before: Store,
    after: Store,
    caller: Seq<char>,
    actor: Seq<char>,
    operation: Seq<char>,
    key: Seq<char>,
    response: Seq<char>,
    result: Result<(), StorageError>,
) -> bool {
    let found = before.command_at(caller, actor, operation, key);
    let i = found->0;
    if found is Some && before.commands@[i].response is None {
        &&& result is Ok
        &&& after.commands@.len() == before.commands@.len()
        &&& after.commands@[i].response matches Some(text) && text@ == response
        &&& after.commands@ == before.commands@.update(
            i,
            Command { response: after.commands@[i].response, ..before.commands@[i] },
        )
        &&& after == (Store { commands: after.commands, ..before })
    } else {
        not_pending(result) && after == before
    }
}

/// Whether the completion of a command failed because the command was not pending.
pub open spec fn not_pending(result: Result<(), StorageError>) -> bool {
    result matches Err(error) && failure::is_runtime(
        error,
        "complete command"@,
        "reserved command was not pending"@,
    )
}

} // verus!
