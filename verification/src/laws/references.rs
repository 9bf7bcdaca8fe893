//! What issues and projects refer to is there: nothing that is in use is archived or taken away.
use crate::failure::StorageError;
use crate::issues;
use crate::laws::history;
use crate::laws::history::{History, Step};
use crate::laws::identifiers;
use crate::model::{
    ArchiveProjectStatusRequest, ArchiveWorkflowStateRequest, Completion, CreateIssueRequest,
    CreateProjectRequest, DeleteProjectStatusRequest, DeleteWorkflowStateRequest,
    DeletedProjectStatus, DeletedWorkflowState, Issue, IssueValue, MoveIssueRequest, Project,
    ProjectStatus, ProjectStatusValue, ProjectValue, PutProjectStatusRequest, PutTeamRequest,
    PutWorkflowStateRequest, ReorderProjectStatusesRequest, ReorderWorkflowStatesRequest,
    TeamValue, UpdateIssueRequest, UpdateProjectRequest, WorkflowState, WorkflowStateValue,
};
use crate::project_status;
use crate::project_status::StatusIds;
use crate::projects;
use crate::store;
use crate::store::{Invocation, Store};
use crate::table;
use crate::teams;
use crate::text;
use crate::workflow;
use crate::workflow::WorkflowIds;
use vstd::prelude::*;

verus! {

/// Whether the workflow state is the one that the issue is in, and active.
pub open spec fn is_state_of(state: WorkflowState, row: Issue) -> bool {
    &&& state.organization_id@ == row.organization_id@
    &&& state.team_id@ == row.team_id@
    &&& state.state_id@ == row.workflow_state_id@
    &&& !state.archived
}

/// Whether the issue is in an active workflow state of its own team.
pub open spec fn in_active_state(s: Store, row: Issue) -> bool {
    exists|k: int|
        0 <= k < s.workflow_states@.len() && is_state_of(#[trigger] s.workflow_states@[k], row)
}

/// Whether the team of the issue is one of its project's teams.
pub open spec fn in_project_team(s: Store, row: Issue) -> bool {
    s.attached(row.organization_id@, row.project_id@, row.team_id@)
}

/// Whether every issue is in an active workflow state of its team, and its team in its project.
pub open spec fn issues_placed(s: Store) -> bool {
    forall|i: int|
        0 <= i < s.issues@.len() ==> #[trigger] in_active_state(s, s.issues@[i])
            && in_project_team(s, s.issues@[i])
}

/// Whether the status is the one that the project has, and active.
pub open spec fn is_status_of(status: ProjectStatus, row: Project) -> bool {
    &&& status.organization_id@ == row.organization_id@
    &&& status.status_id@ == row.status_id@
    &&& !status.archived
}

/// Whether the project has an active status of its organization.
pub open spec fn in_active_status(s: Store, row: Project) -> bool {
    exists|k: int|
        0 <= k < s.project_statuses@.len() && is_status_of(#[trigger] s.project_statuses@[k], row)
}

/// Whether every project has an active status of its organization.
pub open spec fn projects_placed(s: Store) -> bool {
    forall|i: int| 0 <= i < s.projects@.len() ==> #[trigger] in_active_status(s, s.projects@[i])
}

/// A store without issues and projects has nothing out of place.
pub proof fn law_empty_store_is_placed(s: Store)
    requires
        s.issues@.len() == 0,
        s.projects@.len() == 0,
    ensures
        issues_placed(s),
        projects_placed(s),
{
}

proof fn lemma_same_states(before: Store, after: Store, row: Issue)
    requires
        in_active_state(before, row),
        after.workflow_states == before.workflow_states,
    ensures
        in_active_state(after, row),
{
    let k = choose|k: int|
        0 <= k < before.workflow_states@.len() && is_state_of(
            #[trigger] before.workflow_states@[k],
            row,
        );
    assert(is_state_of(after.workflow_states@[k], row));
}

proof fn lemma_resolved(s: Store, row: Issue, requested: Option<Seq<char>>)
    requires
        s.resolved_state(row.organization_id@, row.team_id@, requested) is Some,
        row.workflow_state_id@ == s.workflow_states@[s.resolved_state(
            row.organization_id@,
            row.team_id@,
            requested,
        )->0].state_id@,
    ensures
        in_active_state(s, row),
{
    let t = s.team_at(row.organization_id@, row.team_id@)->0;
    let id = match requested {
        Some(id) => id,
        None => s.teams@[t].default_workflow_state_id@,
    };
    table::lemma_first_where(
        s.workflow_states@,
        store::is_team_state(row.organization_id@, row.team_id@, id),
    );
    let k = s.team_state_at(row.organization_id@, row.team_id@, id)->0;
    assert(is_state_of(s.workflow_states@[k], row));
}

/// A created issue is in its place, and so are all others.
pub proof fn law_creation_keeps_issues_placed(
    before: Store,
    after: Store,
    call: Invocation,
    r: CreateIssueRequest,
    value: IssueValue,
)
    requires
        issues_placed(before),
        identifiers::created(before, after, call, r, value),
    ensures
        issues_placed(after),
{
    let n = before.issues@.len() as int;
    assert forall|i: int| 0 <= i < after.issues@.len() implies #[trigger] in_active_state(
        after,
        after.issues@[i],
    ) && in_project_team(after, after.issues@[i]) by {
        if i < n {
            assert(after.issues@.drop_last()[i] == after.issues@[i]);
            assert(in_active_state(before, before.issues@[i]));
        } else {
            lemma_resolved(before, after.issues@[i], text::text_of(r.workflow_state_id));
        }
        lemma_same_states(before, after, after.issues@[i]);
    }
}

/// A changed issue is in its place, and so are all others.
pub proof fn law_update_keeps_issues_placed(
    before: Store,
    after: Store,
    call: Invocation,
    r: UpdateIssueRequest,
    value: IssueValue,
)
    requires
        issues_placed(before),
        issues::update_issue_outcome(
            before,
            after,
            call,
            r,
            Ok::<Completion<IssueValue>, StorageError>(Completion::Fresh(value)),
        ),
    ensures
        issues_placed(after),
{
    let changed = before.issue_at(r.organization_id@, r.issue_id@)->0;
    table::lemma_first_where(before.issues@, store::is_issue(r.organization_id@, r.issue_id@));
    assert forall|i: int| 0 <= i < after.issues@.len() implies #[trigger] in_active_state(
        after,
        after.issues@[i],
    ) && in_project_team(after, after.issues@[i]) by {
        assert(in_active_state(before, before.issues@[i]));
        if i == changed {
            let row = after.issues@[i];
            table::lemma_first_where(
                before.workflow_states@,
                store::is_team_state(row.organization_id@, row.team_id@, r.workflow_state_id@),
            );
            lemma_resolved(before, row, Some(r.workflow_state_id@));
        }
        lemma_same_states(before, after, after.issues@[i]);
    }
}

/// A moved issue is in its place, and so are all others.
pub proof fn law_move_keeps_issues_placed(
    before: Store,
    after: Store,
    call: Invocation,
    r: MoveIssueRequest,
    value: IssueValue,
)
    requires
        issues_placed(before),
        identifiers::moved(before, after, call, r, value),
    ensures
        issues_placed(after),
{
    let changed = before.issue_at(r.organization_id@, r.issue_id@)->0;
    table::lemma_first_where(before.issues@, store::is_issue(r.organization_id@, r.issue_id@));
    assert forall|i: int| 0 <= i < after.issues@.len() implies #[trigger] in_active_state(
        after,
        after.issues@[i],
    ) && in_project_team(after, after.issues@[i]) by {
        assert(in_active_state(before, before.issues@[i]));
        if i == changed {
            let row = after.issues@[i];
            table::lemma_first_where(
                before.workflow_states@,
                store::is_team_state(row.organization_id@, row.team_id@, r.workflow_state_id@),
            );
            lemma_resolved(before, row, Some(r.workflow_state_id@));
        }
        lemma_same_states(before, after, after.issues@[i]);
    }
}

/// Sorting texts neither loses nor adds one.
proof fn lemma_sorted_has(sorted: Seq<String>, list: Seq<String>, wanted: Seq<char>)
    requires
        text::sorted_from(sorted, list),
        text::has_text(list, wanted),
    ensures
        text::has_text(sorted, wanted),
{
    let k = choose|k: int| 0 <= k < list.len() && (#[trigger] list[k])@ == wanted;
    assert(text::texts(list)[k] == wanted);
    text::texts(list).to_multiset_ensures();
    text::texts(sorted).to_multiset_ensures();
    assert(text::texts(list).to_multiset().count(wanted) > 0);
    assert(text::texts(sorted).contains(wanted));
    let j = choose|j: int|
        0 <= j < text::texts(sorted).len() && #[trigger] text::texts(sorted)[j] == wanted;
    assert(sorted[j]@ == wanted);
}

/// A changed project keeps the teams of its issues, so every issue stays in its place.
pub proof fn law_project_update_keeps_issues_placed(
    before: Store,
    after: Store,
    call: Invocation,
    r: UpdateProjectRequest,
    ids: StatusIds,
    value: ProjectValue,
)
    requires
        issues_placed(before),
        projects::update_project_outcome(
            before,
            after,
            call,
            r,
            ids,
            Ok::<Completion<ProjectValue>, StorageError>(Completion::Fresh(value)),
        ),
    ensures
        issues_placed(after),
{
    let ready = choose|ready: Store|
        {
            &&& #[trigger] project_status::catalog_ready(before, ready, r.organization_id@, ids)
            &&& projects::update_project_verdict(ready, r) is Proceed
            &&& projects::update_project_effect(ready, after, call, r, value)
        };
    let p = ready.project_at(r.organization_id@, r.project_id@)->0;
    table::lemma_first_where(ready.projects@, store::is_project(r.organization_id@, r.project_id@));
    assert forall|i: int| 0 <= i < after.issues@.len() implies #[trigger] in_active_state(
        after,
        after.issues@[i],
    ) && in_project_team(after, after.issues@[i]) by {
        let row = before.issues@[i];
        assert(in_active_state(before, before.issues@[i]));
        lemma_same_states(before, after, row);
        let keep = store::is_project(row.organization_id@, row.project_id@);
        table::lemma_first_where(ready.projects@, keep);
        table::lemma_first_update(ready.projects@, keep, p, after.projects@[p]);
        let at = ready.project_at(row.organization_id@, row.project_id@)->0;
        if at == p {
            assert(projects::stays_covered(r.organization_id@, r.project_id@, r.team_ids@)(row));
            lemma_sorted_has(after.projects@[p].team_ids@, r.team_ids@, row.team_id@);
        }
    }
}

/// A new project takes no issue out of its place.
pub proof fn law_project_creation_keeps_issues_placed(
    before: Store,
    after: Store,
    call: Invocation,
    r: CreateProjectRequest,
    ids: StatusIds,
    value: ProjectValue,
)
    requires
        issues_placed(before),
        projects::create_project_outcome(
            before,
            after,
            call,
            r,
            ids,
            Ok::<Completion<ProjectValue>, StorageError>(Completion::Fresh(value)),
        ),
    ensures
        issues_placed(after),
{
    let ready = choose|ready: Store|
        {
            &&& #[trigger] project_status::catalog_ready(before, ready, r.organization_id@, ids)
            &&& projects::create_project_verdict(ready, r) is Proceed
            &&& projects::create_project_effect(ready, after, call, r, value)
        };
    assert forall|i: int| 0 <= i < after.issues@.len() implies #[trigger] in_active_state(
        after,
        after.issues@[i],
    ) && in_project_team(after, after.issues@[i]) by {
        let row = before.issues@[i];
        assert(in_active_state(before, before.issues@[i]));
        lemma_same_states(before, after, row);
        let keep = store::is_project(row.organization_id@, row.project_id@);
        assert(table::first_where(after.projects@.drop_last(), keep) is Some);
        table::lemma_first_where(ready.projects@, keep);
        let at = ready.project_at(row.organization_id@, row.project_id@)->0;
        assert(after.projects@.drop_last()[at] == after.projects@[at]);
    }
}

proof fn lemma_kept_states(before: Store, after: Store)
    requires
        issues_placed(before),
        after.issues == before.issues,
        after.projects == before.projects,
        states_kept(before, after),
    ensures
        issues_placed(after),
{
    assert forall|i: int| 0 <= i < after.issues@.len() implies #[trigger] in_active_state(
        after,
        after.issues@[i],
    ) && in_project_team(after, after.issues@[i]) by {
        let row = before.issues@[i];
        assert(in_active_state(before, before.issues@[i]));
        let k = choose|k: int|
            0 <= k < before.workflow_states@.len() && is_state_of(
                #[trigger] before.workflow_states@[k],
                row,
            );
        assert(is_state_of(after.workflow_states@[k], row));
    }
}

/// Whether every workflow state of `before` is still there: at its place, with its category and
/// archival.
pub open spec fn states_kept(before: Store, after: Store) -> bool {
    forall|k: int|
        0 <= k < before.workflow_states@.len() ==> k < after.workflow_states@.len() && same_state(
            #[trigger] before.workflow_states@[k],
            after.workflow_states@[k],
        )
}

/// Whether both rows are the same state, with the same category and archival.
pub open spec fn same_state(a: WorkflowState, b: WorkflowState) -> bool {
    &&& b.organization_id@ == a.organization_id@
    &&& b.team_id@ == a.team_id@
    &&& b.state_id@ == a.state_id@
    &&& b.category == a.category
    &&& b.archived == a.archived
}

/// Putting a workflow state takes no issue out of its place, and keeps the category of every state.
pub proof fn law_put_workflow_state_keeps_issues_placed(
    before: Store,
    after: Store,
    call: Invocation,
    r: PutWorkflowStateRequest,
    value: WorkflowStateValue,
)
    requires
        issues_placed(before),
        workflow::put_workflow_state_outcome(
            before,
            after,
            call,
            r,
            Ok::<Completion<WorkflowStateValue>, StorageError>(Completion::Fresh(value)),
        ),
    ensures
        issues_placed(after),
        states_kept(before, after),
{
    table::lemma_first_where(
        before.workflow_states@,
        store::is_team_state(r.organization_id@, r.team_id@, r.state_id@),
    );
    assert forall|k: int| 0 <= k < before.workflow_states@.len() implies k
        < after.workflow_states@.len() && same_state(
        #[trigger] before.workflow_states@[k],
        after.workflow_states@[k],
    ) by {
        if r.expected_revision is None {
            assert(after.workflow_states@.drop_last()[k] == after.workflow_states@[k]);
        }
    }
    lemma_kept_states(before, after);
}

/// Reordering a workflow takes no issue out of its place.
pub proof fn law_reorder_keeps_issues_placed(
    before: Store,
    after: Store,
    call: Invocation,
    r: ReorderWorkflowStatesRequest,
    values: Vec<WorkflowStateValue>,
)
    requires
        issues_placed(before),
        workflow::reorder_workflow_states_outcome(
            before,
            after,
            call,
            r,
            Ok::<Completion<Vec<WorkflowStateValue>>, StorageError>(Completion::Fresh(values)),
        ),
    ensures
        issues_placed(after),
{
    assert(states_kept(before, after));
    lemma_kept_states(before, after);
}

/// Putting a team takes no issue out of its place.
pub proof fn law_put_team_keeps_issues_placed(
    before: Store,
    after: Store,
    call: Invocation,
    r: PutTeamRequest,
    ids: StatusIds,
    states: WorkflowIds,
    value: TeamValue,
)
    requires
        issues_placed(before),
        teams::put_team_outcome(
            before,
            after,
            call,
            r,
            ids,
            states,
            Ok::<Completion<TeamValue>, StorageError>(Completion::Fresh(value)),
        ),
    ensures
        issues_placed(after),
{
    let ready = choose|ready: Store|
        {
            &&& #[trigger] project_status::catalog_ready(before, ready, r.organization_id@, ids)
            &&& teams::put_team_verdict(ready, r, states) is Proceed
            &&& teams::put_team_effect(ready, after, call, r, states, value)
        };
    let n = before.workflow_states@.len() as int;
    assert forall|k: int| 0 <= k < n implies k < after.workflow_states@.len() && same_state(
        #[trigger] before.workflow_states@[k],
        after.workflow_states@[k],
    ) by {
        if r.expected_revision is None {
            assert(after.workflow_states@.take(n)[k] == after.workflow_states@[k]);
        }
    }
    lemma_kept_states(before, after);
}

/// A state that an issue is in is not archived, so every issue stays in its place.
pub proof fn law_archive_workflow_state_keeps_issues_placed(
    before: Store,
    after: Store,
    call: Invocation,
    r: ArchiveWorkflowStateRequest,
    value: WorkflowStateValue,
)
    requires
        issues_placed(before),
        workflow::archive_workflow_state_outcome(
            before,
            after,
            call,
            r,
            Ok::<Completion<WorkflowStateValue>, StorageError>(Completion::Fresh(value)),
        ),
    ensures
        issues_placed(after),
{
    let changed = before.workflow_state_at(r.organization_id@, r.state_id@)->0;
    table::lemma_first_where(
        before.workflow_states@,
        store::is_workflow_state(r.organization_id@, r.state_id@),
    );
    assert forall|i: int| 0 <= i < after.issues@.len() implies #[trigger] in_active_state(
        after,
        after.issues@[i],
    ) && in_project_team(after, after.issues@[i]) by {
        let row = before.issues@[i];
        assert(in_active_state(before, before.issues@[i]));
        let k = choose|k: int|
            0 <= k < before.workflow_states@.len() && is_state_of(
                #[trigger] before.workflow_states@[k],
                row,
            );
        if k == changed {
            assert(workflow::uses_state(r.organization_id@, r.state_id@)(before.issues@[i]));
        }
        assert(is_state_of(after.workflow_states@[k], row));
    }
}

/// A state that an issue is in is not deleted, so every issue stays in its place. What is deleted
/// was archived and no team's default.
pub proof fn law_delete_workflow_state_keeps_issues_placed(
    before: Store,
    after: Store,
    call: Invocation,
    r: DeleteWorkflowStateRequest,
    value: DeletedWorkflowState,
)
    requires
        issues_placed(before),
        workflow::delete_workflow_state_outcome(
            before,
            after,
            call,
            r,
            Ok::<Completion<DeletedWorkflowState>, StorageError>(Completion::Fresh(value)),
        ),
    ensures
        issues_placed(after),
        ({
            let i = before.team_state_at(r.organization_id@, r.team_id@, r.state_id@)->0;
            &&& before.workflow_states@[i].archived
            &&& !workflow::is_default_state(before, r.organization_id@, r.team_id@, r.state_id@)
        }),
{
    let gone = before.team_state_at(r.organization_id@, r.team_id@, r.state_id@)->0;
    table::lemma_first_where(
        before.workflow_states@,
        store::is_team_state(r.organization_id@, r.team_id@, r.state_id@),
    );
    assert forall|i: int| 0 <= i < after.issues@.len() implies #[trigger] in_active_state(
        after,
        after.issues@[i],
    ) && in_project_team(after, after.issues@[i]) by {
        let row = before.issues@[i];
        assert(in_active_state(before, before.issues@[i]));
        let k = choose|k: int|
            0 <= k < before.workflow_states@.len() && is_state_of(
                #[trigger] before.workflow_states@[k],
                row,
            );
        assert(k != gone);
        let j = if k < gone {
            k
        } else {
            k - 1
        };
        assert(after.workflow_states@[j] == before.workflow_states@[k]);
        assert(is_state_of(after.workflow_states@[j], row));
    }
}

/// Whether every status of `before` is still there: at its place, with its category and archival.
pub open spec fn statuses_kept(before: Store, after: Store) -> bool {
    forall|k: int|
        0 <= k < before.project_statuses@.len() ==> k < after.project_statuses@.len()
            && same_status(#[trigger] before.project_statuses@[k], after.project_statuses@[k])
}

/// Whether both rows are the same status, with the same category and archival.
pub open spec fn same_status(a: ProjectStatus, b: ProjectStatus) -> bool {
    &&& b.organization_id@ == a.organization_id@
    &&& b.status_id@ == a.status_id@
    &&& b.category == a.category
    &&& b.archived == a.archived
}

proof fn lemma_kept_status(before: Store, after: Store, row: Project)
    requires
        in_active_status(before, row),
        statuses_kept(before, after),
    ensures
        in_active_status(after, row),
{
    let k = choose|k: int|
        0 <= k < before.project_statuses@.len() && is_status_of(
            #[trigger] before.project_statuses@[k],
            row,
        );
    assert(is_status_of(after.project_statuses@[k], row));
}

proof fn lemma_ready_keeps_statuses(
    before: Store,
    ready: Store,
    organization: Seq<char>,
    ids: StatusIds,
)
    requires
        project_status::catalog_ready(before, ready, organization, ids),
    ensures
        statuses_kept(before, ready),
{
    let n = before.project_statuses@.len() as int;
    assert forall|k: int| 0 <= k < n implies k < ready.project_statuses@.len() && same_status(
        #[trigger] before.project_statuses@[k],
        ready.project_statuses@[k],
    ) by {
        if before.workspace_at(organization) is None {
            assert(ready.project_statuses@.take(n)[k] == ready.project_statuses@[k]);
        }
    }
}

proof fn lemma_resolved_status(s: Store, row: Project, requested: Option<Seq<char>>)
    requires
        project_status::resolved_status(s, row.organization_id@, requested) is Some,
        row.status_id@ == s.project_statuses@[project_status::resolved_status(
            s,
            row.organization_id@,
            requested,
        )->0].status_id@,
    ensures
        in_active_status(s, row),
{
    let id = match requested {
        Some(id) => id,
        None => project_status::default_status(s, row.organization_id@),
    };
    table::lemma_first_where(
        s.project_statuses@,
        store::is_project_status(row.organization_id@, id),
    );
    let k = s.project_status_at(row.organization_id@, id)->0;
    assert(is_status_of(s.project_statuses@[k], row));
}

/// A created project has an active status, and so have all others.
pub proof fn law_creation_keeps_projects_placed(
    before: Store,
    after: Store,
    call: Invocation,
    r: CreateProjectRequest,
    ids: StatusIds,
    value: ProjectValue,
)
    requires
        projects_placed(before),
        projects::create_project_outcome(
            before,
            after,
            call,
            r,
            ids,
            Ok::<Completion<ProjectValue>, StorageError>(Completion::Fresh(value)),
        ),
    ensures
        projects_placed(after),
{
    let ready = choose|ready: Store|
        {
            &&& #[trigger] project_status::catalog_ready(before, ready, r.organization_id@, ids)
            &&& projects::create_project_verdict(ready, r) is Proceed
            &&& projects::create_project_effect(ready, after, call, r, value)
        };
    lemma_ready_keeps_statuses(before, ready, r.organization_id@, ids);
    let n = before.projects@.len() as int;
    assert forall|i: int| 0 <= i < after.projects@.len() implies #[trigger] in_active_status(
        after,
        after.projects@[i],
    ) by {
        if i < n {
            assert(after.projects@.drop_last()[i] == after.projects@[i]);
            assert(in_active_status(before, before.projects@[i]));
            lemma_kept_status(before, ready, before.projects@[i]);
        } else {
            lemma_resolved_status(ready, after.projects@[i], text::text_of(r.status_id));
        }
        lemma_kept_status(ready, after, after.projects@[i]);
    }
}

/// A changed project has an active status, and so have all others.
pub proof fn law_update_keeps_projects_placed(
    before: Store,
    after: Store,
    call: Invocation,
    r: UpdateProjectRequest,
    ids: StatusIds,
    value: ProjectValue,
)
    requires
        projects_placed(before),
        projects::update_project_outcome(
            before,
            after,
            call,
            r,
            ids,
            Ok::<Completion<ProjectValue>, StorageError>(Completion::Fresh(value)),
        ),
    ensures
        projects_placed(after),
{
    let ready = choose|ready: Store|
        {
            &&& #[trigger] project_status::catalog_ready(before, ready, r.organization_id@, ids)
            &&& projects::update_project_verdict(ready, r) is Proceed
            &&& projects::update_project_effect(ready, after, call, r, value)
        };
    lemma_ready_keeps_statuses(before, ready, r.organization_id@, ids);
    let p = ready.project_at(r.organization_id@, r.project_id@)->0;
    table::lemma_first_where(ready.projects@, store::is_project(r.organization_id@, r.project_id@));
    assert forall|i: int| 0 <= i < after.projects@.len() implies #[trigger] in_active_status(
        after,
        after.projects@[i],
    ) by {
        assert(in_active_status(before, before.projects@[i]));
        if i == p {
            table::lemma_first_where(
                ready.project_statuses@,
                store::is_project_status(r.organization_id@, r.status_id@),
            );
            lemma_resolved_status(ready, after.projects@[i], Some(r.status_id@));
        } else {
            lemma_kept_status(before, ready, before.projects@[i]);
        }
        lemma_kept_status(ready, after, after.projects@[i]);
    }
}

/// Putting a status leaves every project its status, and keeps the category of every status.
pub proof fn law_put_project_status_keeps_projects_placed(
    before: Store,
    after: Store,
    call: Invocation,
    r: PutProjectStatusRequest,
    ids: StatusIds,
    value: ProjectStatusValue,
)
    requires
        projects_placed(before),
        project_status::put_project_status_outcome(
            before,
            after,
            call,
            r,
            ids,
            Ok::<Completion<ProjectStatusValue>, StorageError>(Completion::Fresh(value)),
        ),
    ensures
        projects_placed(after),
        statuses_kept(before, after),
{
    let ready = choose|ready: Store|
        {
            &&& #[trigger] project_status::catalog_ready(before, ready, r.organization_id@, ids)
            &&& project_status::put_project_status_verdict(ready, r) is Proceed
            &&& project_status::put_project_status_effect(ready, after, call, r, value)
        };
    lemma_ready_keeps_statuses(before, ready, r.organization_id@, ids);
    table::lemma_first_where(
        ready.project_statuses@,
        store::is_project_status(r.organization_id@, r.status_id@),
    );
    assert forall|k: int| 0 <= k < ready.project_statuses@.len() implies k
        < after.project_statuses@.len() && same_status(
        #[trigger] ready.project_statuses@[k],
        after.project_statuses@[k],
    ) by {
        if r.expected_revision is None {
            assert(after.project_statuses@.drop_last()[k] == after.project_statuses@[k]);
        }
    }
    assert forall|k: int| 0 <= k < before.project_statuses@.len() implies k
        < after.project_statuses@.len() && same_status(
        #[trigger] before.project_statuses@[k],
        after.project_statuses@[k],
    ) by {
        assert(same_status(ready.project_statuses@[k], after.project_statuses@[k]));
    }
    assert forall|i: int| 0 <= i < after.projects@.len() implies #[trigger] in_active_status(
        after,
        after.projects@[i],
    ) by {
        assert(in_active_status(before, before.projects@[i]));
        lemma_kept_status(before, after, before.projects@[i]);
    }
}

/// Reordering the statuses leaves every project its status.
pub proof fn law_reorder_keeps_projects_placed(
    before: Store,
    after: Store,
    call: Invocation,
    r: ReorderProjectStatusesRequest,
    ids: StatusIds,
    values: Vec<ProjectStatusValue>,
)
    requires
        projects_placed(before),
        project_status::reorder_project_statuses_outcome(
            before,
            after,
            call,
            r,
            ids,
            Ok::<Completion<Vec<ProjectStatusValue>>, StorageError>(Completion::Fresh(values)),
        ),
    ensures
        projects_placed(after),
{
    let ready = choose|ready: Store|
        {
            &&& #[trigger] project_status::catalog_ready(before, ready, r.organization_id@, ids)
            &&& project_status::reorder_project_statuses_verdict(ready, call, r) is Proceed
            &&& project_status::reorder_project_statuses_effect(ready, after, call, r, values@)
        };
    lemma_ready_keeps_statuses(before, ready, r.organization_id@, ids);
    assert forall|k: int| 0 <= k < ready.project_statuses@.len() implies k
        < after.project_statuses@.len() && same_status(
        #[trigger] ready.project_statuses@[k],
        after.project_statuses@[k],
    ) by {}
    assert forall|i: int| 0 <= i < after.projects@.len() implies #[trigger] in_active_status(
        after,
        after.projects@[i],
    ) by {
        assert(in_active_status(before, before.projects@[i]));
        lemma_kept_status(before, ready, before.projects@[i]);
        lemma_kept_status(ready, after, before.projects@[i]);
    }
}

/// A status that a project has is not archived, so every project keeps an active status.
pub proof fn law_archive_project_status_keeps_projects_placed(
    before: Store,
    after: Store,
    call: Invocation,
    r: ArchiveProjectStatusRequest,
    ids: StatusIds,
    value: ProjectStatusValue,
)
    requires
        projects_placed(before),
        project_status::archive_project_status_outcome(
            before,
            after,
            call,
            r,
            ids,
            Ok::<Completion<ProjectStatusValue>, StorageError>(Completion::Fresh(value)),
        ),
    ensures
        projects_placed(after),
        r.archived ==> !table::some_row(
            after.projects@,
            project_status::uses_status(r.organization_id@, r.status_id@),
        ),
{
    let ready = choose|ready: Store|
        {
            &&& #[trigger] project_status::catalog_ready(before, ready, r.organization_id@, ids)
            &&& project_status::archive_project_status_verdict(ready, r) is Proceed
            &&& project_status::archive_project_status_effect(ready, after, call, r, value)
        };
    lemma_ready_keeps_statuses(before, ready, r.organization_id@, ids);
    let changed = ready.project_status_at(r.organization_id@, r.status_id@)->0;
    table::lemma_first_where(
        ready.project_statuses@,
        store::is_project_status(r.organization_id@, r.status_id@),
    );
    assert forall|i: int| 0 <= i < after.projects@.len() implies #[trigger] in_active_status(
        after,
        after.projects@[i],
    ) by {
        let row = before.projects@[i];
        assert(in_active_status(before, row));
        lemma_kept_status(before, ready, row);
        let k = choose|k: int|
            0 <= k < ready.project_statuses@.len() && is_status_of(
                #[trigger] ready.project_statuses@[k],
                row,
            );
        if k == changed {
            assert(project_status::uses_status(r.organization_id@, r.status_id@)(
                ready.projects@[i],
            ));
        }
        assert(is_status_of(after.project_statuses@[k], row));
    }
}

/// A status that a project has is not deleted, so every project keeps an active status. What is
/// deleted was archived and no default.
pub proof fn law_delete_project_status_keeps_projects_placed(
    before: Store,
    after: Store,
    call: Invocation,
    r: DeleteProjectStatusRequest,
    ids: StatusIds,
    value: DeletedProjectStatus,
)
    requires
        projects_placed(before),
        project_status::delete_project_status_outcome(
            before,
            after,
            call,
            r,
            ids,
            Ok::<Completion<DeletedProjectStatus>, StorageError>(Completion::Fresh(value)),
        ),
    ensures
        projects_placed(after),
        ({
            let i = before.project_status_at(r.organization_id@, r.status_id@)->0;
            before.project_statuses@[i].archived && !before.project_statuses@[i].is_default
        }),
{
    let ready = choose|ready: Store|
        {
            &&& #[trigger] project_status::catalog_ready(before, ready, r.organization_id@, ids)
            &&& project_status::delete_project_status_verdict(ready, call, r) is Proceed
            &&& project_status::delete_project_status_effect(ready, after, call, r, value)
        };
    lemma_ready_keeps_statuses(before, ready, r.organization_id@, ids);
    let keep = store::is_project_status(r.organization_id@, r.status_id@);
    let gone = ready.project_status_at(r.organization_id@, r.status_id@)->0;
    let n = before.project_statuses@.len() as int;
    table::lemma_first_where(ready.project_statuses@, keep);
    table::lemma_first_where(before.project_statuses@, keep);
    assert(gone < n && ready.project_statuses@[gone] == before.project_statuses@[gone]) by {
        if before.workspace_at(r.organization_id@) is None {
            if gone >= n {
                let fresh = ready.project_statuses@.skip(n);
                assert(ready.project_statuses@[gone] == fresh[gone - n]);
                assert(!fresh[gone - n].archived);
            }
            assert(ready.project_statuses@.take(n)[gone] == ready.project_statuses@[gone]);
        }
    }
    assert(before.project_status_at(r.organization_id@, r.status_id@) == Some(gone)) by {
        assert(keep(before.project_statuses@[gone]));
        let found = before.project_status_at(r.organization_id@, r.status_id@)->0;
        if found < gone {
            assert(same_status(before.project_statuses@[found], ready.project_statuses@[found]));
            assert(keep(ready.project_statuses@[found]));
        }
    }
    assert forall|i: int| 0 <= i < after.projects@.len() implies #[trigger] in_active_status(
        after,
        after.projects@[i],
    ) by {
        let row = before.projects@[i];
        assert(in_active_status(before, row));
        lemma_kept_status(before, ready, row);
        let k = choose|k: int|
            0 <= k < ready.project_statuses@.len() && is_status_of(
                #[trigger] ready.project_statuses@[k],
                row,
            );
        assert(k != gone);
        let j = if k < gone {
            k
        } else {
            k - 1
        };
        assert(after.project_statuses@[j] == ready.project_statuses@[k]);
        assert(is_status_of(after.project_statuses@[j], row));
    }
}

/// Whether both rows stand in the same place: project, team and workflow state.
pub open spec fn same_place(a: Issue, b: Issue) -> bool {
    &&& b.organization_id@ == a.organization_id@
    &&& b.project_id@ == a.project_id@
    &&& b.team_id@ == a.team_id@
    &&& b.workflow_state_id@ == a.workflow_state_id@
}

/// Whether both rows are the same project, with the same teams and the same status.
pub open spec fn same_project(a: Project, b: Project) -> bool {
    &&& b.organization_id@ == a.organization_id@
    &&& b.project_id@ == a.project_id@
    &&& b.team_ids@ == a.team_ids@
    &&& b.status_id@ == a.status_id@
}

/// Whether every project is still there, with its teams and its status.
pub open spec fn projects_kept(before: Store, after: Store) -> bool {
    &&& after.projects@.len() == before.projects@.len()
    &&& forall|i: int|
        0 <= i < before.projects@.len() ==> same_project(
            before.projects@[i],
            #[trigger] after.projects@[i],
        )
}

proof fn lemma_same_places(before: Store, after: Store)
    requires
        issues_placed(before),
        after.workflow_states == before.workflow_states,
        after.issues@.len() == before.issues@.len(),
        forall|i: int|
            0 <= i < before.issues@.len() ==> same_place(
                before.issues@[i],
                #[trigger] after.issues@[i],
            ),
        projects_kept(before, after),
    ensures
        issues_placed(after),
{
    assert forall|i: int| 0 <= i < after.issues@.len() implies #[trigger] in_active_state(
        after,
        after.issues@[i],
    ) && in_project_team(after, after.issues@[i]) by {
        let row = before.issues@[i];
        assert(same_place(row, after.issues@[i]));
        assert(in_active_state(before, before.issues@[i]));
        let k = choose|k: int|
            0 <= k < before.workflow_states@.len() && is_state_of(
                #[trigger] before.workflow_states@[k],
                row,
            );
        assert(is_state_of(after.workflow_states@[k], after.issues@[i]));
        let keep = store::is_project(row.organization_id@, row.project_id@);
        assert forall|p: int| 0 <= p < before.projects@.len() implies keep(
            #[trigger] after.projects@[p],
        ) == keep(before.projects@[p]) by {
            assert(same_project(before.projects@[p], after.projects@[p]));
        }
        table::lemma_search_goes_on(before.projects@, after.projects@, keep);
        table::lemma_first_where(before.projects@, keep);
        let at = before.project_at(row.organization_id@, row.project_id@)->0;
        assert(same_project(before.projects@[at], after.projects@[at]));
    }
}

proof fn lemma_same_statuses(before: Store, after: Store)
    requires
        projects_placed(before),
        statuses_kept(before, after),
        projects_kept(before, after),
    ensures
        projects_placed(after),
{
    assert forall|i: int| 0 <= i < after.projects@.len() implies #[trigger] in_active_status(
        after,
        after.projects@[i],
    ) by {
        let row = before.projects@[i];
        assert(same_project(row, after.projects@[i]));
        assert(in_active_status(before, before.projects@[i]));
        let k = choose|k: int|
            0 <= k < before.project_statuses@.len() && is_status_of(
                #[trigger] before.project_statuses@[k],
                row,
            );
        assert(is_status_of(after.project_statuses@[k], after.projects@[i]));
    }
}

/// No operation leaves an issue outside an active state of its team, or its team outside its project.
#[verifier::spinoff_prover]
#[verifier::rlimit(60)]
pub proof fn law_every_operation_keeps_issues_placed(before: Store, after: Store, step: Step)
    requires
        issues_placed(before),
        history::takes(before, after, step),
    ensures
        issues_placed(after),
{
    match step {
        Step::CreateIssue { call, r, result } => {
            if let Ok(Completion::Fresh(value)) = result {
                law_creation_keeps_issues_placed(before, after, call, r, value);
            }
        },
        Step::UpdateIssue { call, r, result } => {
            if let Ok(Completion::Fresh(value)) = result {
                law_update_keeps_issues_placed(before, after, call, r, value);
            }
        },
        Step::MoveIssue { call, r, result } => {
            if let Ok(Completion::Fresh(value)) = result {
                law_move_keeps_issues_placed(before, after, call, r, value);
            }
        },
        Step::CreateProject { call, r, ids, result } => {
            if let Ok(Completion::Fresh(value)) = result {
                law_project_creation_keeps_issues_placed(before, after, call, r, ids, value);
            }
        },
        Step::UpdateProject { call, r, ids, result } => {
            if let Ok(Completion::Fresh(value)) = result {
                law_project_update_keeps_issues_placed(before, after, call, r, ids, value);
            }
        },
        Step::PutTeam { call, r, ids, states, result } => {
            if let Ok(Completion::Fresh(value)) = result {
                law_put_team_keeps_issues_placed(before, after, call, r, ids, states, value);
            }
        },
        Step::PutWorkflowState { call, r, result } => {
            if let Ok(Completion::Fresh(value)) = result {
                law_put_workflow_state_keeps_issues_placed(before, after, call, r, value);
            }
        },
        Step::ReorderWorkflowStates { call, r, result } => {
            if let Ok(Completion::Fresh(value)) = result {
                law_reorder_keeps_issues_placed(before, after, call, r, value);
            }
        },
        Step::ArchiveWorkflowState { call, r, result } => {
            if let Ok(Completion::Fresh(value)) = result {
                law_archive_workflow_state_keeps_issues_placed(before, after, call, r, value);
            }
        },
        Step::DeleteWorkflowState { call, r, result } => {
            if let Ok(Completion::Fresh(value)) = result {
                law_delete_workflow_state_keeps_issues_placed(before, after, call, r, value);
            }
        },
        Step::ArchiveIssue { r, .. } => {
            table::lemma_first_where(
                before.issues@,
                store::is_issue(r.organization_id@, r.issue_id@),
            );
            lemma_same_places(before, after);
        },
        Step::SetIssueAssignee { r, .. } => {
            table::lemma_first_where(
                before.issues@,
                store::is_issue(r.organization_id@, r.issue_id@),
            );
            lemma_same_places(before, after);
        },
        Step::ArchiveProject { r, .. } => {
            table::lemma_first_where(
                before.projects@,
                store::is_project(r.organization_id@, r.project_id@),
            );
            lemma_same_places(before, after);
        },
        _ => lemma_same_places(before, after),
    }
}

/// Over any operations from an empty store, every issue is in its place.
pub proof fn law_issues_are_always_placed(history: History, k: int)
    requires
        history.starts_empty(),
        0 <= k < history.stores.len(),
    ensures
        issues_placed(history.stores[k]),
    decreases k,
{
    if k == 0 {
        law_empty_store_is_placed(history.stores[0]);
    } else {
        law_issues_are_always_placed(history, k - 1);
        assert(history.steps_on(k - 1));
        law_every_operation_keeps_issues_placed(
            history.stores[k - 1],
            history.stores[k],
            history.steps[k - 1],
        );
    }
}

/// No operation leaves a project without an active status of its organization.
#[verifier::spinoff_prover]
#[verifier::rlimit(60)]
pub proof fn law_every_operation_keeps_projects_placed(before: Store, after: Store, step: Step)
    requires
        projects_placed(before),
        history::takes(before, after, step),
    ensures
        projects_placed(after),
{
    match step {
        Step::CreateProject { call, r, ids, result } => {
            if let Ok(Completion::Fresh(value)) = result {
                law_creation_keeps_projects_placed(before, after, call, r, ids, value);
            }
        },
        Step::UpdateProject { call, r, ids, result } => {
            if let Ok(Completion::Fresh(value)) = result {
                law_update_keeps_projects_placed(before, after, call, r, ids, value);
            }
        },
        Step::PutProjectStatus { call, r, ids, result } => {
            if let Ok(Completion::Fresh(value)) = result {
                law_put_project_status_keeps_projects_placed(before, after, call, r, ids, value);
            }
        },
        Step::ArchiveProjectStatus { call, r, ids, result } => {
            if let Ok(Completion::Fresh(value)) = result {
                law_archive_project_status_keeps_projects_placed(
                    before,
                    after,
                    call,
                    r,
                    ids,
                    value,
                );
            }
        },
        Step::ReorderProjectStatuses { call, r, ids, result } => {
            if let Ok(Completion::Fresh(value)) = result {
                law_reorder_keeps_projects_placed(
                    before,
                    after,
                    call,
                    r,
                    ids,
                    value,
                );
            } else if after != before {
                assert(project_status::catalog_ready(before, after, r.organization_id@, ids));
                lemma_ready_keeps_statuses(before, after, r.organization_id@, ids);
                lemma_same_statuses(before, after);
            }
        },
        Step::DeleteProjectStatus { call, r, ids, result } => {
            if let Ok(Completion::Fresh(value)) = result {
                law_delete_project_status_keeps_projects_placed(
                    before,
                    after,
                    call,
                    r,
                    ids,
                    value,
                );
            } else if after != before {
                assert(project_status::catalog_ready(before, after, r.organization_id@, ids));
                lemma_ready_keeps_statuses(before, after, r.organization_id@, ids);
                lemma_same_statuses(before, after);
            }
        },
        Step::GetProjectStatus { r, ids, .. } => {
            if after != before {
                assert(project_status::catalog_ready(before, after, r.organization_id@, ids));
                lemma_ready_keeps_statuses(before, after, r.organization_id@, ids);
                lemma_same_statuses(before, after);
            }
        },
        Step::ListProjectStatuses { r, ids, .. } => {
            if after != before {
                assert(project_status::catalog_ready(before, after, r.organization_id@, ids));
                lemma_ready_keeps_statuses(before, after, r.organization_id@, ids);
                lemma_same_statuses(before, after);
            }
        },
        Step::PutTeam { call, r, ids, states, result } => {
            if let Ok(Completion::Fresh(value)) = result {
                let ready = choose|ready: Store|
                    {
                        &&& #[trigger] project_status::catalog_ready(
                            before,
                            ready,
                            r.organization_id@,
                            ids,
                        )
                        &&& teams::put_team_effect(ready, after, call, r, states, value)
                    };
                lemma_ready_keeps_statuses(before, ready, r.organization_id@, ids);
                assert(statuses_kept(before, after)) by {
                    assert(after.project_statuses == ready.project_statuses);
                }
                lemma_same_statuses(before, after);
            }
        },
        Step::ArchiveProject { r, .. } => {
            table::lemma_first_where(
                before.projects@,
                store::is_project(r.organization_id@, r.project_id@),
            );
            lemma_same_statuses(before, after);
        },
        _ => lemma_same_statuses(before, after),
    }
}

/// Over any operations from an empty store, every project has an active status.
pub proof fn law_projects_are_always_placed(history: History, k: int)
    requires
        history.starts_empty(),
        0 <= k < history.stores.len(),
    ensures
        projects_placed(history.stores[k]),
    decreases k,
{
    if k == 0 {
        law_empty_store_is_placed(history.stores[0]);
    } else {
        law_projects_are_always_placed(history, k - 1);
        assert(history.steps_on(k - 1));
        law_every_operation_keeps_projects_placed(
            history.stores[k - 1],
            history.stores[k],
            history.steps[k - 1],
        );
    }
}

} // verus!
