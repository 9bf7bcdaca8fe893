//! Listed rows stand in the order of their sequence numbers, which are never given twice.
use crate::clock::Timestamp;
use crate::collaboration;
use crate::failure::StorageError;
use crate::issues;
use crate::laws::history;
use crate::laws::history::{History, Step};
use crate::laws::identifiers;
use crate::laws::pages;
use crate::model::{
    AddCommentRequest, ApplyRetentionRequest, ArchiveIssueRequest, ArchiveProjectRequest,
    ArchiveProjectStatusRequest, ArchiveWorkflowStateRequest, AssigneeValue, CommentValue,
    Completion, CreateIssueRequest, CreateProjectRequest, CreateProjectUpdateRequest, CycleValue,
    DeleteCommentRequest, DeleteProjectStatusRequest, DeleteWorkflowStateRequest,
    DeletedProjectStatus, DeletedWorkflowState, GetProjectStatusRequest, IssueValue, LabelValue,
    ListProjectStatusesRequest, MilestoneValue, MoveIssueRequest, ProjectStatusValue,
    ProjectUpdateValue, ProjectValue, PutCycleRequest, PutLabelRequest, PutMilestoneRequest,
    PutProjectStatusRequest, PutTeamRequest, PutWorkflowStateRequest,
    ReorderProjectStatusesRequest, ReorderWorkflowStatesRequest, SetIssueAssigneeRequest,
    TeamValue, UpdateCommentRequest, UpdateIssueRequest, UpdateProjectRequest, WorkflowState,
    WorkflowStateValue,
};
use crate::planning;
use crate::project_status;
use crate::project_status::StatusIds;
use crate::projects;
use crate::retention;
use crate::store;
use crate::store::{Invocation, Store};
use crate::table;
use crate::table::Page;
use crate::teams;
use crate::workflow;
use crate::workflow::WorkflowIds;
use vstd::prelude::*;

verus! {

/// Whether the rows stand under ascending positive numbers below the next one.
pub open spec fn numbered<T>(rows: Seq<T>, seq_of: spec_fn(T) -> int, next: int) -> bool {
    &&& pages::ascending(rows, seq_of)
    &&& forall|i: int| 0 <= i < rows.len() ==> 0 < seq_of(#[trigger] rows[i]) < next
}

/// Appending a row under the next number keeps the rows numbered.
pub proof fn law_appended_row_comes_last<T>(
    before: Seq<T>,
    after: Seq<T>,
    seq_of: spec_fn(T) -> int,
    next: int,
)
    requires
        numbered(before, seq_of, next),
        0 < next,
        after.len() == before.len() + 1,
        after.drop_last() == before,
        seq_of(after.last()) == next,
    ensures
        numbered(after, seq_of, next + 1),
{
    let n = before.len() as int;
    assert forall|i: int| 0 <= i < n implies #[trigger] after[i] == before[i] by {
        assert(after.drop_last()[i] == after[i]);
    }
    assert forall|i: int, j: int| 0 <= i < j < after.len() implies seq_of(#[trigger] after[i])
        < seq_of(#[trigger] after[j]) by {
        assert(after[i] == before[i]);
        if j < n {
            assert(after[j] == before[j]);
        }
    }
    assert forall|i: int| 0 <= i < after.len() implies 0 < seq_of(#[trigger] after[i]) < next + 1 by {
        if i < n {
            assert(after[i] == before[i]);
        }
    }
}

/// Replacing a row under its own number keeps the rows numbered.
pub proof fn law_replaced_row_keeps_its_place<T>(
    rows: Seq<T>,
    seq_of: spec_fn(T) -> int,
    next: int,
    i: int,
    row: T,
)
    requires
        numbered(rows, seq_of, next),
        0 <= i < rows.len(),
        seq_of(row) == seq_of(rows[i]),
    ensures
        numbered(rows.update(i, row), seq_of, next),
{
    let changed = rows.update(i, row);
    assert forall|a: int, b: int| 0 <= a < b < changed.len() implies seq_of(#[trigger] changed[a])
        < seq_of(#[trigger] changed[b]) by {
        assert(seq_of(rows[a]) < seq_of(rows[b]));
    }
    assert forall|a: int| 0 <= a < changed.len() implies 0 < seq_of(#[trigger] changed[a]) < next by {
        assert(0 < seq_of(rows[a]) < next);
    }
}

/// Creating an issue keeps the issues in the order in which they were created.
pub proof fn law_creation_keeps_issues_numbered(
    before: Store,
    after: Store,
    call: Invocation,
    r: CreateIssueRequest,
    value: IssueValue,
)
    requires
        0 < before.next_row,
        numbered(before.issues@, issues::issue_seq(), before.next_row as int),
        identifiers::created(before, after, call, r, value),
    ensures
        numbered(after.issues@, issues::issue_seq(), after.next_row as int),
{
    law_appended_row_comes_last(
        before.issues@,
        after.issues@,
        issues::issue_seq(),
        before.next_row as int,
    );
}

/// Creating an issue keeps the ids of issues unique.
pub proof fn law_creation_keeps_issue_ids_unique(
    before: Store,
    after: Store,
    call: Invocation,
    r: CreateIssueRequest,
    value: IssueValue,
)
    requires
        pages::issue_ids_unique(before),
        identifiers::created(before, after, call, r, value),
    ensures
        pages::issue_ids_unique(after),
{
    let n = before.issues@.len() as int;
    assert forall|i: int, j: int| 0 <= i < j < after.issues@.len() implies (
    #[trigger] after.issues@[i]).issue_id@ != (#[trigger] after.issues@[j]).issue_id@ by {
        assert(after.issues@.drop_last()[i] == after.issues@[i]);
        if j < n {
            assert(after.issues@.drop_last()[j] == after.issues@[j]);
        } else {
            assert(!store::has_issue_id(r.issue_id@)(before.issues@[i]));
        }
    }
}

/// Moving an issue keeps its place among the issues.
pub proof fn law_move_keeps_issues_numbered(
    before: Store,
    after: Store,
    call: Invocation,
    r: MoveIssueRequest,
    value: IssueValue,
)
    requires
        numbered(before.issues@, issues::issue_seq(), before.next_row as int),
        identifiers::moved(before, after, call, r, value),
    ensures
        numbered(after.issues@, issues::issue_seq(), after.next_row as int),
{
    let i = before.issue_at(r.organization_id@, r.issue_id@)->0;
    table::lemma_first_where(before.issues@, store::is_issue(r.organization_id@, r.issue_id@));
    law_replaced_row_keeps_its_place(
        before.issues@,
        issues::issue_seq(),
        before.next_row as int,
        i,
        after.issues@[i],
    );
}

/// Updating an issue keeps its place among the issues.
pub proof fn law_update_keeps_issues_numbered(
    before: Store,
    after: Store,
    call: Invocation,
    r: UpdateIssueRequest,
    value: IssueValue,
)
    requires
        numbered(before.issues@, issues::issue_seq(), before.next_row as int),
        issues::update_issue_outcome(
            before,
            after,
            call,
            r,
            Ok::<Completion<IssueValue>, StorageError>(Completion::Fresh(value)),
        ),
    ensures
        numbered(after.issues@, issues::issue_seq(), after.next_row as int),
{
    let i = before.issue_at(r.organization_id@, r.issue_id@)->0;
    table::lemma_first_where(before.issues@, store::is_issue(r.organization_id@, r.issue_id@));
    law_replaced_row_keeps_its_place(
        before.issues@,
        issues::issue_seq(),
        before.next_row as int,
        i,
        after.issues@[i],
    );
}

/// Creating a project keeps the projects in the order in which they were created.
pub proof fn law_creation_keeps_projects_numbered(
    before: Store,
    after: Store,
    call: Invocation,
    r: CreateProjectRequest,
    ids: StatusIds,
    value: ProjectValue,
)
    requires
        0 < before.next_row,
        numbered(before.projects@, projects::project_seq(), before.next_row as int),
        projects::create_project_outcome(
            before,
            after,
            call,
            r,
            ids,
            Ok::<Completion<ProjectValue>, StorageError>(Completion::Fresh(value)),
        ),
    ensures
        numbered(after.projects@, projects::project_seq(), after.next_row as int),
{
    let ready = choose|ready: Store|
        {
            &&& #[trigger] project_status::catalog_ready(before, ready, r.organization_id@, ids)
            &&& projects::create_project_verdict(ready, r) is Proceed
            &&& projects::create_project_effect(ready, after, call, r, value)
        };
    assert(before.next_row <= ready.next_row);
    assert forall|i: int| 0 <= i < ready.projects@.len() implies 0 < projects::project_seq()(
        #[trigger] ready.projects@[i],
    ) < ready.next_row as int by {
        assert(0 < projects::project_seq()(before.projects@[i]) < before.next_row as int);
    }
    law_appended_row_comes_last(
        ready.projects@,
        after.projects@,
        projects::project_seq(),
        ready.next_row as int,
    );
}

/// Adding a comment keeps the comments in the order in which they were added.
pub proof fn law_adding_keeps_comments_numbered(
    before: Store,
    after: Store,
    call: Invocation,
    r: AddCommentRequest,
    value: CommentValue,
)
    requires
        0 < before.next_row,
        numbered(before.comments@, collaboration::comment_seq(), before.next_row as int),
        collaboration::add_comment_outcome(
            before,
            after,
            call,
            r,
            Ok::<Completion<CommentValue>, StorageError>(Completion::Fresh(value)),
        ),
    ensures
        numbered(after.comments@, collaboration::comment_seq(), after.next_row as int),
{
    law_appended_row_comes_last(
        before.comments@,
        after.comments@,
        collaboration::comment_seq(),
        before.next_row as int,
    );
}

/// Whether the listed rows of every table stand under ascending positive numbers below the next one.
pub open spec fn rows_numbered(s: Store) -> bool {
    &&& 0 < s.next_row
    &&& numbered(s.teams@, teams::team_seq(), s.next_row as int)
    &&& numbered(s.workflow_states@, workflow::state_seq(), s.next_row as int)
    &&& numbered(s.project_statuses@, project_status::status_seq(), s.next_row as int)
    &&& numbered(s.projects@, projects::project_seq(), s.next_row as int)
    &&& numbered(s.issues@, issues::issue_seq(), s.next_row as int)
    &&& numbered(s.cycles@, planning::cycle_seq(), s.next_row as int)
    &&& numbered(s.milestones@, planning::milestone_seq(), s.next_row as int)
    &&& numbered(s.labels@, planning::label_seq(), s.next_row as int)
    &&& numbered(s.comments@, collaboration::comment_seq(), s.next_row as int)
    &&& numbered(s.project_updates@, collaboration::update_seq(), s.next_row as int)
}

/// Whether every row keeps its number, and those that follow have ascending numbers from `from` on and
/// below `to`.
pub open spec fn goes_on<T>(
    before: Seq<T>,
    after: Seq<T>,
    seq_of: spec_fn(T) -> int,
    from: int,
    to: int,
) -> bool {
    &&& before.len() <= after.len()
    &&& forall|i: int| 0 <= i < before.len() ==> seq_of(#[trigger] after[i]) == seq_of(before[i])
    &&& forall|i: int| before.len() <= i < after.len() ==> from <= seq_of(#[trigger] after[i]) < to
    &&& forall|i: int, j: int|
        before.len() <= i < j < after.len() ==> seq_of(#[trigger] after[i]) < seq_of(
            #[trigger] after[j],
        )
}

/// Whether `after` lacks exactly one of the rows.
pub open spec fn one_removed<T>(before: Seq<T>, after: Seq<T>) -> bool {
    exists|i: int| 0 <= i < before.len() && after == #[trigger] before.remove(i)
}

proof fn lemma_removed<T>(before: Seq<T>, after: Seq<T>, i: int)
    requires
        0 <= i < before.len(),
        after == before.remove(i),
    ensures
        one_removed(before, after),
{
}

/// Whether the rows of a table go on, or lack one.
pub open spec fn table_moves<T>(
    before: Seq<T>,
    after: Seq<T>,
    seq_of: spec_fn(T) -> int,
    from: int,
    to: int,
) -> bool {
    goes_on(before, after, seq_of, from, to) || one_removed(before, after)
}

/// Rows stay numbered where they keep their numbers and what follows has later ones, and where one of
/// them is removed.
proof fn lemma_numbered_goes_on<T>(
    before: Seq<T>,
    after: Seq<T>,
    seq_of: spec_fn(T) -> int,
    from: int,
    to: int,
)
    requires
        numbered(before, seq_of, from),
        0 < from <= to,
        table_moves(before, after, seq_of, from, to),
    ensures
        numbered(after, seq_of, to),
{
    let n = before.len() as int;
    if goes_on(before, after, seq_of, from, to) {
        assert forall|i: int| 0 <= i < after.len() implies 0 < seq_of(#[trigger] after[i]) < to by {
            if i < n {
                assert(0 < seq_of(before[i]) < from);
            }
        }
        assert forall|i: int, j: int| 0 <= i < j < after.len() implies seq_of(#[trigger] after[i])
            < seq_of(#[trigger] after[j]) by {
            if i < n {
                assert(0 < seq_of(before[i]) < from);
                if j < n {
                    assert(seq_of(before[i]) < seq_of(before[j]));
                }
            }
        }
    } else {
        let gone = choose|i: int| 0 <= i < before.len() && after == #[trigger] before.remove(i);
        assert forall|i: int| 0 <= i < after.len() implies 0 < seq_of(#[trigger] after[i]) < to by {
            let c = if i < gone {
                i
            } else {
                i + 1
            };
            assert(after[i] == before[c]);
            assert(0 < seq_of(before[c]) < from);
        }
        assert forall|i: int, j: int| 0 <= i < j < after.len() implies seq_of(#[trigger] after[i])
            < seq_of(#[trigger] after[j]) by {
            let c = if i < gone {
                i
            } else {
                i + 1
            };
            let d = if j < gone {
                j
            } else {
                j + 1
            };
            assert(after[i] == before[c] && after[j] == before[d]);
            assert(seq_of(before[c]) < seq_of(before[d]));
        }
    }
}

proof fn lemma_rows_go_on(before: Store, after: Store)
    requires
        rows_numbered(before),
        before.next_row <= after.next_row,
        table_moves(
            before.teams@,
            after.teams@,
            teams::team_seq(),
            before.next_row as int,
            after.next_row as int,
        ),
        table_moves(
            before.workflow_states@,
            after.workflow_states@,
            workflow::state_seq(),
            before.next_row as int,
            after.next_row as int,
        ),
        table_moves(
            before.project_statuses@,
            after.project_statuses@,
            project_status::status_seq(),
            before.next_row as int,
            after.next_row as int,
        ),
        table_moves(
            before.projects@,
            after.projects@,
            projects::project_seq(),
            before.next_row as int,
            after.next_row as int,
        ),
        table_moves(
            before.issues@,
            after.issues@,
            issues::issue_seq(),
            before.next_row as int,
            after.next_row as int,
        ),
        table_moves(
            before.cycles@,
            after.cycles@,
            planning::cycle_seq(),
            before.next_row as int,
            after.next_row as int,
        ),
        table_moves(
            before.milestones@,
            after.milestones@,
            planning::milestone_seq(),
            before.next_row as int,
            after.next_row as int,
        ),
        table_moves(
            before.labels@,
            after.labels@,
            planning::label_seq(),
            before.next_row as int,
            after.next_row as int,
        ),
        table_moves(
            before.comments@,
            after.comments@,
            collaboration::comment_seq(),
            before.next_row as int,
            after.next_row as int,
        ),
        table_moves(
            before.project_updates@,
            after.project_updates@,
            collaboration::update_seq(),
            before.next_row as int,
            after.next_row as int,
        ),
    ensures
        rows_numbered(after),
{
    let from = before.next_row as int;
    let to = after.next_row as int;
    lemma_numbered_goes_on(before.teams@, after.teams@, teams::team_seq(), from, to);
    lemma_numbered_goes_on(
        before.workflow_states@,
        after.workflow_states@,
        workflow::state_seq(),
        from,
        to,
    );
    lemma_numbered_goes_on(
        before.project_statuses@,
        after.project_statuses@,
        project_status::status_seq(),
        from,
        to,
    );
    lemma_numbered_goes_on(before.projects@, after.projects@, projects::project_seq(), from, to);
    lemma_numbered_goes_on(before.issues@, after.issues@, issues::issue_seq(), from, to);
    lemma_numbered_goes_on(before.cycles@, after.cycles@, planning::cycle_seq(), from, to);
    lemma_numbered_goes_on(
        before.milestones@,
        after.milestones@,
        planning::milestone_seq(),
        from,
        to,
    );
    lemma_numbered_goes_on(before.labels@, after.labels@, planning::label_seq(), from, to);
    lemma_numbered_goes_on(
        before.comments@,
        after.comments@,
        collaboration::comment_seq(),
        from,
        to,
    );
    lemma_numbered_goes_on(
        before.project_updates@,
        after.project_updates@,
        collaboration::update_seq(),
        from,
        to,
    );
}

/// A team's default states take the next five numbers.
proof fn lemma_default_states_are_numbered(
    before: Seq<WorkflowState>,
    after: Seq<WorkflowState>,
    organization: Seq<char>,
    team: Seq<char>,
    states: WorkflowIds,
    first: int,
)
    requires
        after.len() == before.len() + 5,
        after.take(before.len() as int) == before,
        workflow::are_default_states(
            after.skip(before.len() as int),
            organization,
            team,
            states,
            first,
        ),
    ensures
        goes_on(before, after, workflow::state_seq(), first, first + 5),
{
    let n = before.len() as int;
    assert forall|i: int| 0 <= i < n implies #[trigger] after[i] == before[i] by {
        assert(after.take(n)[i] == after[i]);
    }
    assert forall|i: int| n <= i < n + 5 implies workflow::state_seq()(#[trigger] after[i]) == first
        + (i - n) by {
        assert(after[i] == after.skip(n)[i - n]);
    }
}

/// The default statuses take the next six numbers.
proof fn lemma_catalog_keeps_rows_numbered(
    before: Store,
    after: Store,
    organization: Seq<char>,
    ids: StatusIds,
)
    requires
        rows_numbered(before),
        project_status::catalog_verdict(before, organization, ids) is Proceed,
        project_status::catalog_ready(before, after, organization, ids),
    ensures
        rows_numbered(after),
{
    if before.workspace_at(organization) is None {
        let n = before.project_statuses@.len() as int;
        let old = before.project_statuses@;
        let new = after.project_statuses@;
        assert forall|i: int| 0 <= i < n implies #[trigger] new[i] == old[i] by {
            assert(new.take(n)[i] == new[i]);
        }
        assert forall|i: int| n <= i < n + 6 implies project_status::status_seq()(
            #[trigger] new[i],
        ) == before.next_row + (i - n) by {
            assert(new[i] == new.skip(n)[i - n]);
        }
        lemma_rows_go_on(before, after);
    }
}

proof fn lemma_rows_after_add_comment(
    before: Store,
    after: Store,
    call: Invocation,
    r: AddCommentRequest,
    result: Result<Completion<CommentValue>, StorageError>,
)
    requires
        rows_numbered(before),
        collaboration::add_comment_outcome(before, after, call, r, result),
    ensures
        rows_numbered(after),
{
    if result matches Ok(Completion::Fresh(_)) {
        table::lemma_appended(before.comments@, after.comments@);
    }
    lemma_rows_go_on(before, after);
}

proof fn lemma_rows_after_update_comment(
    before: Store,
    after: Store,
    call: Invocation,
    r: UpdateCommentRequest,
    result: Result<Completion<CommentValue>, StorageError>,
)
    requires
        rows_numbered(before),
        collaboration::update_comment_outcome(before, after, call, r, result),
    ensures
        rows_numbered(after),
{
    table::lemma_first_where(
        before.comments@,
        store::is_comment(r.organization_id@, r.comment_id@),
    );
    lemma_rows_go_on(before, after);
}

proof fn lemma_rows_after_delete_comment(
    before: Store,
    after: Store,
    call: Invocation,
    r: DeleteCommentRequest,
    result: Result<Completion<CommentValue>, StorageError>,
)
    requires
        rows_numbered(before),
        collaboration::delete_comment_outcome(before, after, call, r, result),
    ensures
        rows_numbered(after),
{
    table::lemma_first_where(
        before.comments@,
        store::is_comment(r.organization_id@, r.comment_id@),
    );
    lemma_rows_go_on(before, after);
}

proof fn lemma_rows_after_create_project_update(
    before: Store,
    after: Store,
    call: Invocation,
    r: CreateProjectUpdateRequest,
    result: Result<Completion<ProjectUpdateValue>, StorageError>,
)
    requires
        rows_numbered(before),
        collaboration::create_project_update_outcome(before, after, call, r, result),
    ensures
        rows_numbered(after),
{
    if result matches Ok(Completion::Fresh(_)) {
        table::lemma_appended(before.project_updates@, after.project_updates@);
    }
    lemma_rows_go_on(before, after);
}

proof fn lemma_rows_after_create_issue(
    before: Store,
    after: Store,
    call: Invocation,
    r: CreateIssueRequest,
    result: Result<Completion<IssueValue>, StorageError>,
)
    requires
        rows_numbered(before),
        issues::create_issue_outcome(before, after, call, r, result),
    ensures
        rows_numbered(after),
{
    table::lemma_first_where(before.teams@, store::is_team(r.organization_id@, r.team_id@));
    if result matches Ok(Completion::Fresh(_)) {
        table::lemma_appended(before.issues@, after.issues@);
    }
    lemma_rows_go_on(before, after);
}

proof fn lemma_rows_after_update_issue(
    before: Store,
    after: Store,
    call: Invocation,
    r: UpdateIssueRequest,
    result: Result<Completion<IssueValue>, StorageError>,
)
    requires
        rows_numbered(before),
        issues::update_issue_outcome(before, after, call, r, result),
    ensures
        rows_numbered(after),
{
    table::lemma_first_where(before.issues@, store::is_issue(r.organization_id@, r.issue_id@));
    lemma_rows_go_on(before, after);
}

proof fn lemma_rows_after_move_issue(
    before: Store,
    after: Store,
    call: Invocation,
    r: MoveIssueRequest,
    result: Result<Completion<IssueValue>, StorageError>,
)
    requires
        rows_numbered(before),
        issues::move_issue_outcome(before, after, call, r, result),
    ensures
        rows_numbered(after),
{
    table::lemma_first_where(before.teams@, store::is_team(r.organization_id@, r.team_id@));
    table::lemma_first_where(before.issues@, store::is_issue(r.organization_id@, r.issue_id@));
    lemma_rows_go_on(before, after);
}

proof fn lemma_rows_after_archive_issue(
    before: Store,
    after: Store,
    call: Invocation,
    r: ArchiveIssueRequest,
    result: Result<Completion<IssueValue>, StorageError>,
)
    requires
        rows_numbered(before),
        issues::archive_issue_outcome(before, after, call, r, result),
    ensures
        rows_numbered(after),
{
    table::lemma_first_where(before.issues@, store::is_issue(r.organization_id@, r.issue_id@));
    lemma_rows_go_on(before, after);
}

proof fn lemma_rows_after_set_issue_assignee(
    before: Store,
    after: Store,
    call: Invocation,
    r: SetIssueAssigneeRequest,
    result: Result<Completion<AssigneeValue>, StorageError>,
)
    requires
        rows_numbered(before),
        issues::set_issue_assignee_outcome(before, after, call, r, result),
    ensures
        rows_numbered(after),
{
    table::lemma_first_where(before.issues@, store::is_issue(r.organization_id@, r.issue_id@));
    lemma_rows_go_on(before, after);
}

proof fn lemma_rows_after_put_label(
    before: Store,
    after: Store,
    call: Invocation,
    r: PutLabelRequest,
    result: Result<Completion<LabelValue>, StorageError>,
)
    requires
        rows_numbered(before),
        planning::put_label_outcome(before, after, call, r, result),
    ensures
        rows_numbered(after),
{
    table::lemma_first_where(before.labels@, store::is_label(r.organization_id@, r.label_id@));
    if r.expected_revision is None && result matches Ok(Completion::Fresh(_)) {
        table::lemma_appended(before.labels@, after.labels@);
    }
    lemma_rows_go_on(before, after);
}

proof fn lemma_rows_after_put_cycle(
    before: Store,
    after: Store,
    call: Invocation,
    r: PutCycleRequest,
    result: Result<Completion<CycleValue>, StorageError>,
)
    requires
        rows_numbered(before),
        planning::put_cycle_outcome(before, after, call, r, result),
    ensures
        rows_numbered(after),
{
    table::lemma_first_where(
        before.cycles@,
        store::is_cycle(r.organization_id@, r.team_id@, r.cycle_id@),
    );
    if r.expected_revision is None && result matches Ok(Completion::Fresh(_)) {
        table::lemma_appended(before.cycles@, after.cycles@);
    }
    lemma_rows_go_on(before, after);
}

proof fn lemma_rows_after_put_milestone(
    before: Store,
    after: Store,
    call: Invocation,
    r: PutMilestoneRequest,
    result: Result<Completion<MilestoneValue>, StorageError>,
)
    requires
        rows_numbered(before),
        planning::put_milestone_outcome(before, after, call, r, result),
    ensures
        rows_numbered(after),
{
    table::lemma_first_where(
        before.milestones@,
        store::is_milestone(r.organization_id@, r.project_id@, r.milestone_id@),
    );
    if r.expected_revision is None && result matches Ok(Completion::Fresh(_)) {
        table::lemma_appended(before.milestones@, after.milestones@);
    }
    lemma_rows_go_on(before, after);
}

proof fn lemma_rows_after_put_project_status(
    before: Store,
    after: Store,
    call: Invocation,
    r: PutProjectStatusRequest,
    ids: StatusIds,
    result: Result<Completion<ProjectStatusValue>, StorageError>,
)
    requires
        rows_numbered(before),
        project_status::put_project_status_outcome(before, after, call, r, ids, result),
    ensures
        rows_numbered(after),
{
    if after != before {
        let ready = choose|ready: Store|
            {
                let verdict = project_status::put_project_status_verdict(ready, r);
                &&& #[trigger] project_status::catalog_ready(before, ready, r.organization_id@, ids)
                &&& after != ready ==> {
                    &&& verdict is Proceed
                    &&& project_status::put_project_status_effect(
                        ready,
                        after,
                        call,
                        r,
                        store::fresh(result),
                    )
                }
            };
        lemma_catalog_keeps_rows_numbered(before, ready, r.organization_id@, ids);
        table::lemma_first_where(
            ready.project_statuses@,
            store::is_project_status(r.organization_id@, r.status_id@),
        );
        if r.expected_revision is None && after != ready {
            table::lemma_appended(ready.project_statuses@, after.project_statuses@);
        }
        lemma_rows_go_on(ready, after);
    }
}

proof fn lemma_rows_after_get_project_status(
    before: Store,
    after: Store,
    r: GetProjectStatusRequest,
    ids: StatusIds,
    result: Result<ProjectStatusValue, StorageError>,
)
    requires
        rows_numbered(before),
        project_status::get_project_status_outcome(before, after, r, ids, result),
    ensures
        rows_numbered(after),
{
    if after != before {
        lemma_catalog_keeps_rows_numbered(before, after, r.organization_id@, ids);
    }
}

proof fn lemma_rows_after_reorder_project_statuses(
    before: Store,
    after: Store,
    call: Invocation,
    r: ReorderProjectStatusesRequest,
    ids: StatusIds,
    result: Result<Completion<Vec<ProjectStatusValue>>, StorageError>,
)
    requires
        rows_numbered(before),
        project_status::reorder_project_statuses_outcome(before, after, call, r, ids, result),
    ensures
        rows_numbered(after),
{
    if after != before {
        let ready = choose|ready: Store|
            {
                let verdict = project_status::reorder_project_statuses_verdict(ready, call, r);
                &&& #[trigger] project_status::catalog_ready(before, ready, r.organization_id@, ids)
                &&& after != ready ==> {
                    &&& verdict is Proceed
                    &&& project_status::reorder_project_statuses_effect(
                        ready,
                        after,
                        call,
                        r,
                        store::fresh(result)@,
                    )
                }
            };
        lemma_catalog_keeps_rows_numbered(before, ready, r.organization_id@, ids);
        lemma_rows_go_on(ready, after);
    }
}

proof fn lemma_rows_after_archive_project_status(
    before: Store,
    after: Store,
    call: Invocation,
    r: ArchiveProjectStatusRequest,
    ids: StatusIds,
    result: Result<Completion<ProjectStatusValue>, StorageError>,
)
    requires
        rows_numbered(before),
        project_status::archive_project_status_outcome(before, after, call, r, ids, result),
    ensures
        rows_numbered(after),
{
    if after != before {
        let ready = choose|ready: Store|
            {
                let verdict = project_status::archive_project_status_verdict(ready, r);
                &&& #[trigger] project_status::catalog_ready(before, ready, r.organization_id@, ids)
                &&& after != ready ==> {
                    &&& verdict is Proceed
                    &&& project_status::archive_project_status_effect(
                        ready,
                        after,
                        call,
                        r,
                        store::fresh(result),
                    )
                }
            };
        lemma_catalog_keeps_rows_numbered(before, ready, r.organization_id@, ids);
        table::lemma_first_where(
            ready.project_statuses@,
            store::is_project_status(r.organization_id@, r.status_id@),
        );
        lemma_rows_go_on(ready, after);
    }
}

proof fn lemma_rows_after_delete_project_status(
    before: Store,
    after: Store,
    call: Invocation,
    r: DeleteProjectStatusRequest,
    ids: StatusIds,
    result: Result<Completion<DeletedProjectStatus>, StorageError>,
)
    requires
        rows_numbered(before),
        project_status::delete_project_status_outcome(before, after, call, r, ids, result),
    ensures
        rows_numbered(after),
{
    if after != before {
        let ready = choose|ready: Store|
            {
                let verdict = project_status::delete_project_status_verdict(ready, call, r);
                &&& #[trigger] project_status::catalog_ready(before, ready, r.organization_id@, ids)
                &&& after != ready ==> {
                    &&& verdict is Proceed
                    &&& project_status::delete_project_status_effect(
                        ready,
                        after,
                        call,
                        r,
                        store::fresh(result),
                    )
                }
            };
        lemma_catalog_keeps_rows_numbered(before, ready, r.organization_id@, ids);
        table::lemma_first_where(
            ready.project_statuses@,
            store::is_project_status(r.organization_id@, r.status_id@),
        );
        if after != ready {
            lemma_removed(
                ready.project_statuses@,
                after.project_statuses@,
                ready.project_status_at(r.organization_id@, r.status_id@)->0,
            );
        }
        lemma_rows_go_on(ready, after);
    }
}

proof fn lemma_rows_after_list_project_statuses(
    before: Store,
    after: Store,
    r: ListProjectStatusesRequest,
    ids: StatusIds,
    result: Result<Page<ProjectStatusValue>, StorageError>,
)
    requires
        rows_numbered(before),
        project_status::list_project_statuses_outcome(before, after, r, ids, result),
    ensures
        rows_numbered(after),
{
    if after != before {
        lemma_catalog_keeps_rows_numbered(before, after, r.organization_id@, ids);
    }
}

proof fn lemma_rows_after_create_project(
    before: Store,
    after: Store,
    call: Invocation,
    r: CreateProjectRequest,
    ids: StatusIds,
    result: Result<Completion<ProjectValue>, StorageError>,
)
    requires
        rows_numbered(before),
        projects::create_project_outcome(before, after, call, r, ids, result),
    ensures
        rows_numbered(after),
{
    if after != before {
        let ready = choose|ready: Store|
            {
                &&& #[trigger] project_status::catalog_ready(before, ready, r.organization_id@, ids)
                &&& after == ready || projects::create_project_effect(
                    ready,
                    after,
                    call,
                    r,
                    store::fresh(result),
                )
            };
        lemma_catalog_keeps_rows_numbered(before, ready, r.organization_id@, ids);
        if after != ready {
            table::lemma_appended(ready.projects@, after.projects@);
        }
        lemma_rows_go_on(ready, after);
    }
}

proof fn lemma_rows_after_update_project(
    before: Store,
    after: Store,
    call: Invocation,
    r: UpdateProjectRequest,
    ids: StatusIds,
    result: Result<Completion<ProjectValue>, StorageError>,
)
    requires
        rows_numbered(before),
        projects::update_project_outcome(before, after, call, r, ids, result),
    ensures
        rows_numbered(after),
{
    if after != before {
        let ready = choose|ready: Store|
            {
                &&& #[trigger] project_status::catalog_ready(before, ready, r.organization_id@, ids)
                &&& after == ready || projects::update_project_effect(
                    ready,
                    after,
                    call,
                    r,
                    store::fresh(result),
                )
            };
        lemma_catalog_keeps_rows_numbered(before, ready, r.organization_id@, ids);
        table::lemma_first_where(
            ready.projects@,
            store::is_project(r.organization_id@, r.project_id@),
        );
        lemma_rows_go_on(ready, after);
    }
}

proof fn lemma_rows_after_archive_project(
    before: Store,
    after: Store,
    call: Invocation,
    r: ArchiveProjectRequest,
    result: Result<Completion<ProjectValue>, StorageError>,
)
    requires
        rows_numbered(before),
        projects::archive_project_outcome(before, after, call, r, result),
    ensures
        rows_numbered(after),
{
    table::lemma_first_where(
        before.projects@,
        store::is_project(r.organization_id@, r.project_id@),
    );
    lemma_rows_go_on(before, after);
}

proof fn lemma_rows_after_retention(
    before: Store,
    after: Store,
    r: ApplyRetentionRequest,
    now: Timestamp,
    result: Result<String, StorageError>,
)
    requires
        rows_numbered(before),
        retention::retention_outcome(before, after, r, now, result),
    ensures
        rows_numbered(after),
{
    lemma_rows_go_on(before, after);
}

proof fn lemma_rows_after_put_team(
    before: Store,
    after: Store,
    call: Invocation,
    r: PutTeamRequest,
    ids: StatusIds,
    states: WorkflowIds,
    result: Result<Completion<TeamValue>, StorageError>,
)
    requires
        rows_numbered(before),
        teams::put_team_outcome(before, after, call, r, ids, states, result),
    ensures
        rows_numbered(after),
{
    if after != before {
        let ready = choose|ready: Store|
            {
                &&& #[trigger] project_status::catalog_ready(before, ready, r.organization_id@, ids)
                &&& after == ready || teams::put_team_effect(
                    ready,
                    after,
                    call,
                    r,
                    states,
                    store::fresh(result),
                )
            };
        lemma_catalog_keeps_rows_numbered(before, ready, r.organization_id@, ids);
        table::lemma_first_where(ready.teams@, store::is_team(r.organization_id@, r.team_id@));
        if r.expected_revision is None && after != ready {
            table::lemma_appended(ready.teams@, after.teams@);
            lemma_default_states_are_numbered(
                ready.workflow_states@,
                after.workflow_states@,
                r.organization_id@,
                r.team_id@,
                states,
                ready.next_row + 1,
            );
        }
        lemma_rows_go_on(ready, after);
    }
}

proof fn lemma_rows_after_put_workflow_state(
    before: Store,
    after: Store,
    call: Invocation,
    r: PutWorkflowStateRequest,
    result: Result<Completion<WorkflowStateValue>, StorageError>,
)
    requires
        rows_numbered(before),
        workflow::put_workflow_state_outcome(before, after, call, r, result),
    ensures
        rows_numbered(after),
{
    table::lemma_first_where(
        before.workflow_states@,
        store::is_team_state(r.organization_id@, r.team_id@, r.state_id@),
    );
    if r.expected_revision is None && result matches Ok(Completion::Fresh(_)) {
        table::lemma_appended(before.workflow_states@, after.workflow_states@);
    }
    lemma_rows_go_on(before, after);
}

proof fn lemma_rows_after_reorder_workflow_states(
    before: Store,
    after: Store,
    call: Invocation,
    r: ReorderWorkflowStatesRequest,
    result: Result<Completion<Vec<WorkflowStateValue>>, StorageError>,
)
    requires
        rows_numbered(before),
        workflow::reorder_workflow_states_outcome(before, after, call, r, result),
    ensures
        rows_numbered(after),
{
    lemma_rows_go_on(before, after);
}

proof fn lemma_rows_after_archive_workflow_state(
    before: Store,
    after: Store,
    call: Invocation,
    r: ArchiveWorkflowStateRequest,
    result: Result<Completion<WorkflowStateValue>, StorageError>,
)
    requires
        rows_numbered(before),
        workflow::archive_workflow_state_outcome(before, after, call, r, result),
    ensures
        rows_numbered(after),
{
    table::lemma_first_where(
        before.workflow_states@,
        store::is_workflow_state(r.organization_id@, r.state_id@),
    );
    lemma_rows_go_on(before, after);
}

proof fn lemma_rows_after_delete_workflow_state(
    before: Store,
    after: Store,
    call: Invocation,
    r: DeleteWorkflowStateRequest,
    result: Result<Completion<DeletedWorkflowState>, StorageError>,
)
    requires
        rows_numbered(before),
        workflow::delete_workflow_state_outcome(before, after, call, r, result),
    ensures
        rows_numbered(after),
{
    table::lemma_first_where(
        before.workflow_states@,
        store::is_team_state(r.organization_id@, r.team_id@, r.state_id@),
    );
    if after != before {
        lemma_removed(
            before.workflow_states@,
            after.workflow_states@,
            before.team_state_at(r.organization_id@, r.team_id@, r.state_id@)->0,
        );
    }
    lemma_rows_go_on(before, after);
}

/// No operation gives a row a number that is not above all earlier ones of its table, or moves a row.
#[verifier::spinoff_prover]
#[verifier::rlimit(60)]
pub proof fn law_every_operation_keeps_rows_numbered(before: Store, after: Store, step: Step)
    requires
        rows_numbered(before),
        history::takes(before, after, step),
    ensures
        rows_numbered(after),
{
    match step {
        Step::AddComment { call, r, result } => {
            lemma_rows_after_add_comment(before, after, call, r, result)
        },
        Step::UpdateComment { call, r, result } => {
            lemma_rows_after_update_comment(before, after, call, r, result)
        },
        Step::DeleteComment { call, r, result } => {
            lemma_rows_after_delete_comment(before, after, call, r, result)
        },
        Step::CreateProjectUpdate { call, r, result } => {
            lemma_rows_after_create_project_update(before, after, call, r, result)
        },
        Step::CreateIssue { call, r, result } => {
            lemma_rows_after_create_issue(before, after, call, r, result)
        },
        Step::UpdateIssue { call, r, result } => {
            lemma_rows_after_update_issue(before, after, call, r, result)
        },
        Step::MoveIssue { call, r, result } => {
            lemma_rows_after_move_issue(before, after, call, r, result)
        },
        Step::ArchiveIssue { call, r, result } => {
            lemma_rows_after_archive_issue(before, after, call, r, result)
        },
        Step::SetIssueAssignee { call, r, result } => {
            lemma_rows_after_set_issue_assignee(before, after, call, r, result)
        },
        Step::PutLabel { call, r, result } => {
            lemma_rows_after_put_label(before, after, call, r, result)
        },
        Step::PutCycle { call, r, result } => {
            lemma_rows_after_put_cycle(before, after, call, r, result)
        },
        Step::PutMilestone { call, r, result } => {
            lemma_rows_after_put_milestone(before, after, call, r, result)
        },
        Step::PutProjectStatus { call, r, ids, result } => {
            lemma_rows_after_put_project_status(before, after, call, r, ids, result)
        },
        Step::GetProjectStatus { r, ids, result } => {
            lemma_rows_after_get_project_status(before, after, r, ids, result)
        },
        Step::ReorderProjectStatuses { call, r, ids, result } => {
            lemma_rows_after_reorder_project_statuses(before, after, call, r, ids, result)
        },
        Step::ArchiveProjectStatus { call, r, ids, result } => {
            lemma_rows_after_archive_project_status(before, after, call, r, ids, result)
        },
        Step::DeleteProjectStatus { call, r, ids, result } => {
            lemma_rows_after_delete_project_status(before, after, call, r, ids, result)
        },
        Step::ListProjectStatuses { r, ids, result } => {
            lemma_rows_after_list_project_statuses(before, after, r, ids, result)
        },
        Step::CreateProject { call, r, ids, result } => {
            lemma_rows_after_create_project(before, after, call, r, ids, result)
        },
        Step::UpdateProject { call, r, ids, result } => {
            lemma_rows_after_update_project(before, after, call, r, ids, result)
        },
        Step::ArchiveProject { call, r, result } => {
            lemma_rows_after_archive_project(before, after, call, r, result)
        },
        Step::ApplyRetention { r, now, result } => {
            lemma_rows_after_retention(before, after, r, now, result)
        },
        Step::PutTeam { call, r, ids, states, result } => {
            lemma_rows_after_put_team(before, after, call, r, ids, states, result)
        },
        Step::PutWorkflowState { call, r, result } => {
            lemma_rows_after_put_workflow_state(before, after, call, r, result)
        },
        Step::ReorderWorkflowStates { call, r, result } => {
            lemma_rows_after_reorder_workflow_states(before, after, call, r, result)
        },
        Step::ArchiveWorkflowState { call, r, result } => {
            lemma_rows_after_archive_workflow_state(before, after, call, r, result)
        },
        Step::DeleteWorkflowState { call, r, result } => {
            lemma_rows_after_delete_workflow_state(before, after, call, r, result)
        },
        _ => lemma_rows_go_on(before, after),
    }
}

/// An empty store has its rows in order.
pub proof fn law_empty_store_is_numbered(s: Store)
    requires
        store::is_empty(s),
    ensures
        rows_numbered(s),
        pages::issue_ids_unique(s),
{
}

/// Over any operations from an empty store, the rows of every table stand in the order of their
/// numbers: so every listing continues where its last page ended.
pub proof fn law_rows_are_always_numbered(history: History, k: int)
    requires
        history.starts_empty(),
        0 <= k < history.stores.len(),
    ensures
        rows_numbered(history.stores[k]),
        pages::ascending(history.stores[k].issues@, issues::issue_seq()),
        pages::ascending(history.stores[k].projects@, projects::project_seq()),
        pages::ascending(history.stores[k].comments@, collaboration::comment_seq()),
    decreases k,
{
    if k == 0 {
        law_empty_store_is_numbered(history.stores[0]);
    } else {
        law_rows_are_always_numbered(history, k - 1);
        assert(history.steps_on(k - 1));
        law_every_operation_keeps_rows_numbered(
            history.stores[k - 1],
            history.stores[k],
            history.steps[k - 1],
        );
    }
}

/// No operation gives two issues the same id.
pub proof fn law_every_operation_keeps_issue_ids_unique(before: Store, after: Store, step: Step)
    requires
        pages::issue_ids_unique(before),
        history::takes(before, after, step),
    ensures
        pages::issue_ids_unique(after),
{
    identifiers::law_every_operation_keeps_issues_and_records(before, after, step);
    let n = before.issues@.len() as int;
    assert forall|i: int, j: int| 0 <= i < j < after.issues@.len() implies (
    #[trigger] after.issues@[i]).issue_id@ != (#[trigger] after.issues@[j]).issue_id@ by {
        assert(identifiers::same_issue(before.issues@[i], after.issues@[i]));
        if j < n {
            assert(identifiers::same_issue(before.issues@[j], after.issues@[j]));
        } else {
            lemma_new_issue_id_is_unused(before, after, step, i);
        }
    }
}

/// A created issue has an id that no issue had.
proof fn lemma_new_issue_id_is_unused(before: Store, after: Store, step: Step, i: int)
    requires
        history::takes(before, after, step),
        before.issues@.len() < after.issues@.len(),
        0 <= i < before.issues@.len(),
    ensures
        after.issues@.last().issue_id@ != before.issues@[i].issue_id@,
{
    identifiers::law_every_operation_keeps_issues_and_records(before, after, step);
    match step {
        Step::CreateIssue { r, .. } => {
            assert(!store::has_issue_id(r.issue_id@)(before.issues@[i]));
        },
        _ => {},
    }
}

/// Over any operations from an empty store, no two issues have the same id.
pub proof fn law_issue_ids_are_always_unique(history: History, k: int)
    requires
        history.starts_empty(),
        0 <= k < history.stores.len(),
    ensures
        pages::issue_ids_unique(history.stores[k]),
    decreases k,
{
    if k == 0 {
        law_empty_store_is_numbered(history.stores[0]);
    } else {
        law_issue_ids_are_always_unique(history, k - 1);
        assert(history.steps_on(k - 1));
        law_every_operation_keeps_issue_ids_unique(
            history.stores[k - 1],
            history.stores[k],
            history.steps[k - 1],
        );
    }
}

} // verus!
