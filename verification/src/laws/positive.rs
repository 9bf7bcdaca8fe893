//! Revisions are positive, and stay so.
use crate::clock::Timestamp;
use crate::collaboration;
use crate::failure::StorageError;
use crate::issues;
use crate::laws::history;
use crate::laws::history::{History, Step};
use crate::model::{
    AddCommentRequest, ApplyRetentionRequest, ArchiveIssueRequest, ArchiveProjectRequest,
    ArchiveProjectStatusRequest, ArchiveWorkflowStateRequest, AssigneeValue, CommentValue,
    Completion, CreateIssueRequest, CreateProjectRequest, CycleValue, DeleteCommentRequest,
    DeleteProjectStatusRequest, DeleteWorkflowStateRequest, DeletedProjectStatus,
    DeletedWorkflowState, GetProjectStatusRequest, IssueValue, LabelValue,
    ListProjectStatusesRequest, MilestoneValue, MoveIssueRequest, ProjectStatusValue, ProjectValue,
    PutCycleRequest, PutLabelRequest, PutMilestoneRequest, PutProjectStatusRequest, PutTeamRequest,
    PutWorkflowStateRequest, ReorderProjectStatusesRequest, ReorderWorkflowStatesRequest,
    SetIssueAssigneeRequest, SetTeamMemberRequest, TeamMemberValue, TeamValue,
    UpdateCommentRequest, UpdateIssueRequest, UpdateProjectRequest, WorkflowStateValue,
};
use crate::planning;
use crate::project_status;
use crate::project_status::StatusIds;
use crate::projects;
use crate::retention;
use crate::store;
use crate::store::{Invocation, Store};
use crate::table;
use crate::table::Page;
use crate::teams;
use crate::workflow;
use crate::workflow::WorkflowIds;
use vstd::prelude::*;

verus! {

/// Whether every revision in the store is at least 1.
pub open spec fn revisions_positive(s: Store) -> bool {
    &&& forall|i: int|
        0 <= i < s.teams@.len() ==> (#[trigger] s.teams@[i]).revision >= 1
    &&& forall|i: int|
        0 <= i < s.team_members@.len() ==> (#[trigger] s.team_members@[i]).revision >= 1
    &&& forall|i: int|
        0 <= i < s.workflow_states@.len() ==> (#[trigger] s.workflow_states@[i]).revision >= 1
    &&& forall|i: int|
        0 <= i < s.project_statuses@.len() ==> (#[trigger] s.project_statuses@[i]).revision >= 1
    &&& forall|i: int|
        0 <= i < s.projects@.len() ==> (#[trigger] s.projects@[i]).revision >= 1
    &&& forall|i: int|
        0 <= i < s.issues@.len() ==> (#[trigger] s.issues@[i]).revision >= 1
    &&& forall|i: int|
        0 <= i < s.cycles@.len() ==> (#[trigger] s.cycles@[i]).revision >= 1
    &&& forall|i: int|
        0 <= i < s.milestones@.len() ==> (#[trigger] s.milestones@[i]).revision >= 1
    &&& forall|i: int|
        0 <= i < s.labels@.len() ==> (#[trigger] s.labels@[i]).revision >= 1
    &&& forall|i: int|
        0 <= i < s.comments@.len() ==> (#[trigger] s.comments@[i]).revision >= 1
}

/// Rows that were there before others were appended stay in their places.
proof fn lemma_extended<T>(before: Seq<T>, after: Seq<T>)
    requires
        before.len() <= after.len(),
        after.take(before.len() as int) == before,
    ensures
        forall|k: int| 0 <= k < before.len() ==> #[trigger] after[k] == before[k],
        forall|k: int|
            before.len() <= k < after.len() ==> #[trigger] after[k] == after.skip(
                before.len() as int,
            )[k - before.len()],
{
    assert forall|k: int| 0 <= k < before.len() implies #[trigger] after[k] == before[k] by {
        assert(after.take(before.len() as int)[k] == after[k]);
    }
}

/// Setting up the status catalog keeps revisions positive.
proof fn lemma_positive_after_catalog(
    before: Store,
    after: Store,
    organization: Seq<char>,
    ids: StatusIds,
)
    requires
        revisions_positive(before),
        project_status::catalog_ready(before, after, organization, ids),
    ensures
        revisions_positive(after),
{
    if before.workspace_at(organization) is None {
        lemma_extended(before.project_statuses@, after.project_statuses@);
    }
}

proof fn lemma_positive_after_add_comment(
    before: Store,
    after: Store,
    call: Invocation,
    r: AddCommentRequest,
    result: Result<Completion<CommentValue>, StorageError>,
)
    requires
        revisions_positive(before),
        collaboration::add_comment_outcome(before, after, call, r, result),
    ensures
        revisions_positive(after),
{
    if result matches Ok(Completion::Fresh(_)) {
        table::lemma_appended(before.comments@, after.comments@);
    }
}

proof fn lemma_positive_after_update_comment(
    before: Store,
    after: Store,
    call: Invocation,
    r: UpdateCommentRequest,
    result: Result<Completion<CommentValue>, StorageError>,
)
    requires
        revisions_positive(before),
        collaboration::update_comment_outcome(before, after, call, r, result),
    ensures
        revisions_positive(after),
{
    table::lemma_first_where(
        before.comments@,
        store::is_comment(r.organization_id@, r.comment_id@),
    );
}

proof fn lemma_positive_after_delete_comment(
    before: Store,
    after: Store,
    call: Invocation,
    r: DeleteCommentRequest,
    result: Result<Completion<CommentValue>, StorageError>,
)
    requires
        revisions_positive(before),
        collaboration::delete_comment_outcome(before, after, call, r, result),
    ensures
        revisions_positive(after),
{
    table::lemma_first_where(
        before.comments@,
        store::is_comment(r.organization_id@, r.comment_id@),
    );
}

proof fn lemma_positive_after_create_issue(
    before: Store,
    after: Store,
    call: Invocation,
    r: CreateIssueRequest,
    result: Result<Completion<IssueValue>, StorageError>,
)
    requires
        revisions_positive(before),
        issues::create_issue_outcome(before, after, call, r, result),
    ensures
        revisions_positive(after),
{
    table::lemma_first_where(before.teams@, store::is_team(r.organization_id@, r.team_id@));
    if result matches Ok(Completion::Fresh(_)) {
        table::lemma_appended(before.issues@, after.issues@);
    }
}

proof fn lemma_positive_after_update_issue(
    before: Store,
    after: Store,
    call: Invocation,
    r: UpdateIssueRequest,
    result: Result<Completion<IssueValue>, StorageError>,
)
    requires
        revisions_positive(before),
        issues::update_issue_outcome(before, after, call, r, result),
    ensures
        revisions_positive(after),
{
    table::lemma_first_where(before.issues@, store::is_issue(r.organization_id@, r.issue_id@));
}

proof fn lemma_positive_after_move_issue(
    before: Store,
    after: Store,
    call: Invocation,
    r: MoveIssueRequest,
    result: Result<Completion<IssueValue>, StorageError>,
)
    requires
        revisions_positive(before),
        issues::move_issue_outcome(before, after, call, r, result),
    ensures
        revisions_positive(after),
{
    table::lemma_first_where(before.teams@, store::is_team(r.organization_id@, r.team_id@));
    table::lemma_first_where(before.issues@, store::is_issue(r.organization_id@, r.issue_id@));
}

proof fn lemma_positive_after_archive_issue(
    before: Store,
    after: Store,
    call: Invocation,
    r: ArchiveIssueRequest,
    result: Result<Completion<IssueValue>, StorageError>,
)
    requires
        revisions_positive(before),
        issues::archive_issue_outcome(before, after, call, r, result),
    ensures
        revisions_positive(after),
{
    table::lemma_first_where(before.issues@, store::is_issue(r.organization_id@, r.issue_id@));
}

proof fn lemma_positive_after_set_issue_assignee(
    before: Store,
    after: Store,
    call: Invocation,
    r: SetIssueAssigneeRequest,
    result: Result<Completion<AssigneeValue>, StorageError>,
)
    requires
        revisions_positive(before),
        issues::set_issue_assignee_outcome(before, after, call, r, result),
    ensures
        revisions_positive(after),
{
    table::lemma_first_where(before.issues@, store::is_issue(r.organization_id@, r.issue_id@));
}

proof fn lemma_positive_after_put_label(
    before: Store,
    after: Store,
    call: Invocation,
    r: PutLabelRequest,
    result: Result<Completion<LabelValue>, StorageError>,
)
    requires
        revisions_positive(before),
        planning::put_label_outcome(before, after, call, r, result),
    ensures
        revisions_positive(after),
{
    table::lemma_first_where(before.labels@, store::is_label(r.organization_id@, r.label_id@));
    if r.expected_revision is None && result matches Ok(Completion::Fresh(_)) {
        table::lemma_appended(before.labels@, after.labels@);
    }
}

proof fn lemma_positive_after_put_cycle(
    before: Store,
    after: Store,
    call: Invocation,
    r: PutCycleRequest,
    result: Result<Completion<CycleValue>, StorageError>,
)
    requires
        revisions_positive(before),
        planning::put_cycle_outcome(before, after, call, r, result),
    ensures
        revisions_positive(after),
{
    table::lemma_first_where(
        before.cycles@,
        store::is_cycle(r.organization_id@, r.team_id@, r.cycle_id@),
    );
    if r.expected_revision is None && result matches Ok(Completion::Fresh(_)) {
        table::lemma_appended(before.cycles@, after.cycles@);
    }
}

proof fn lemma_positive_after_put_milestone(
    before: Store,
    after: Store,
    call: Invocation,
    r: PutMilestoneRequest,
    result: Result<Completion<MilestoneValue>, StorageError>,
)
    requires
        revisions_positive(before),
        planning::put_milestone_outcome(before, after, call, r, result),
    ensures
        revisions_positive(after),
{
    table::lemma_first_where(
        before.milestones@,
        store::is_milestone(r.organization_id@, r.project_id@, r.milestone_id@),
    );
    if r.expected_revision is None && result matches Ok(Completion::Fresh(_)) {
        table::lemma_appended(before.milestones@, after.milestones@);
    }
}

proof fn lemma_positive_after_put_project_status(
    before: Store,
    after: Store,
    call: Invocation,
    r: PutProjectStatusRequest,
    ids: StatusIds,
    result: Result<Completion<ProjectStatusValue>, StorageError>,
)
    requires
        revisions_positive(before),
        project_status::put_project_status_outcome(before, after, call, r, ids, result),
    ensures
        revisions_positive(after),
{
    if after != before {
        let ready = choose|ready: Store|
            {
                let verdict = project_status::put_project_status_verdict(ready, r);
                &&& #[trigger] project_status::catalog_ready(before, ready, r.organization_id@, ids)
                &&& after != ready ==> {
                    &&& verdict is Proceed
                    &&& project_status::put_project_status_effect(
                        ready,
                        after,
                        call,
                        r,
                        store::fresh(result),
                    )
                }
            };
        lemma_positive_after_catalog(before, ready, r.organization_id@, ids);
        table::lemma_first_where(
            ready.project_statuses@,
            store::is_project_status(r.organization_id@, r.status_id@),
        );
        if r.expected_revision is None && after != ready {
            table::lemma_appended(ready.project_statuses@, after.project_statuses@);
        }
    }
}

proof fn lemma_positive_after_get_project_status(
    before: Store,
    after: Store,
    r: GetProjectStatusRequest,
    ids: StatusIds,
    result: Result<ProjectStatusValue, StorageError>,
)
    requires
        revisions_positive(before),
        project_status::get_project_status_outcome(before, after, r, ids, result),
    ensures
        revisions_positive(after),
{
    if after != before {
        lemma_positive_after_catalog(before, after, r.organization_id@, ids);
    }
}

proof fn lemma_positive_after_reorder_project_statuses(
    before: Store,
    after: Store,
    call: Invocation,
    r: ReorderProjectStatusesRequest,
    ids: StatusIds,
    result: Result<Completion<Vec<ProjectStatusValue>>, StorageError>,
)
    requires
        revisions_positive(before),
        project_status::reorder_project_statuses_outcome(before, after, call, r, ids, result),
    ensures
        revisions_positive(after),
{
    if after != before {
        let ready = choose|ready: Store|
            {
                let verdict = project_status::reorder_project_statuses_verdict(ready, call, r);
                &&& #[trigger] project_status::catalog_ready(before, ready, r.organization_id@, ids)
                &&& after != ready ==> {
                    &&& verdict is Proceed
                    &&& project_status::reorder_project_statuses_effect(
                        ready,
                        after,
                        call,
                        r,
                        store::fresh(result)@,
                    )
                }
            };
        lemma_positive_after_catalog(before, ready, r.organization_id@, ids);
        if after != ready {
            assert forall|i: int| 0 <= i < after.project_statuses@.len() implies (
            #[trigger] after.project_statuses@[i]).revision >= 1 by {
                let row = ready.project_statuses@[i];
                assert(project_status::is_revisable_status(r.organization_id@)(row));
            }
        }
    }
}

proof fn lemma_positive_after_archive_project_status(
    before: Store,
    after: Store,
    call: Invocation,
    r: ArchiveProjectStatusRequest,
    ids: StatusIds,
    result: Result<Completion<ProjectStatusValue>, StorageError>,
)
    requires
        revisions_positive(before),
        project_status::archive_project_status_outcome(before, after, call, r, ids, result),
    ensures
        revisions_positive(after),
{
    if after != before {
        let ready = choose|ready: Store|
            {
                let verdict = project_status::archive_project_status_verdict(ready, r);
                &&& #[trigger] project_status::catalog_ready(before, ready, r.organization_id@, ids)
                &&& after != ready ==> {
                    &&& verdict is Proceed
                    &&& project_status::archive_project_status_effect(
                        ready,
                        after,
                        call,
                        r,
                        store::fresh(result),
                    )
                }
            };
        lemma_positive_after_catalog(before, ready, r.organization_id@, ids);
        table::lemma_first_where(
            ready.project_statuses@,
            store::is_project_status(r.organization_id@, r.status_id@),
        );
    }
}

proof fn lemma_positive_after_delete_project_status(
    before: Store,
    after: Store,
    call: Invocation,
    r: DeleteProjectStatusRequest,
    ids: StatusIds,
    result: Result<Completion<DeletedProjectStatus>, StorageError>,
)
    requires
        revisions_positive(before),
        project_status::delete_project_status_outcome(before, after, call, r, ids, result),
    ensures
        revisions_positive(after),
{
    if after != before {
        let ready = choose|ready: Store|
            {
                let verdict = project_status::delete_project_status_verdict(ready, call, r);
                &&& #[trigger] project_status::catalog_ready(before, ready, r.organization_id@, ids)
                &&& after != ready ==> {
                    &&& verdict is Proceed
                    &&& project_status::delete_project_status_effect(
                        ready,
                        after,
                        call,
                        r,
                        store::fresh(result),
                    )
                }
            };
        lemma_positive_after_catalog(before, ready, r.organization_id@, ids);
        table::lemma_first_where(
            ready.project_statuses@,
            store::is_project_status(r.organization_id@, r.status_id@),
        );
    }
}

proof fn lemma_positive_after_list_project_statuses(
    before: Store,
    after: Store,
    r: ListProjectStatusesRequest,
    ids: StatusIds,
    result: Result<Page<ProjectStatusValue>, StorageError>,
)
    requires
        revisions_positive(before),
        project_status::list_project_statuses_outcome(before, after, r, ids, result),
    ensures
        revisions_positive(after),
{
    if after != before {
        lemma_positive_after_catalog(before, after, r.organization_id@, ids);
    }
}

proof fn lemma_positive_after_create_project(
    before: Store,
    after: Store,
    call: Invocation,
    r: CreateProjectRequest,
    ids: StatusIds,
    result: Result<Completion<ProjectValue>, StorageError>,
)
    requires
        revisions_positive(before),
        projects::create_project_outcome(before, after, call, r, ids, result),
    ensures
        revisions_positive(after),
{
    if after != before {
        let ready = choose|ready: Store|
            {
                &&& #[trigger] project_status::catalog_ready(before, ready, r.organization_id@, ids)
                &&& after == ready || projects::create_project_effect(
                    ready,
                    after,
                    call,
                    r,
                    store::fresh(result),
                )
            };
        lemma_positive_after_catalog(before, ready, r.organization_id@, ids);
        if after != ready {
            table::lemma_appended(ready.projects@, after.projects@);
        }
    }
}

proof fn lemma_positive_after_update_project(
    before: Store,
    after: Store,
    call: Invocation,
    r: UpdateProjectRequest,
    ids: StatusIds,
    result: Result<Completion<ProjectValue>, StorageError>,
)
    requires
        revisions_positive(before),
        projects::update_project_outcome(before, after, call, r, ids, result),
    ensures
        revisions_positive(after),
{
    if after != before {
        let ready = choose|ready: Store|
            {
                &&& #[trigger] project_status::catalog_ready(before, ready, r.organization_id@, ids)
                &&& after == ready || projects::update_project_effect(
                    ready,
                    after,
                    call,
                    r,
                    store::fresh(result),
                )
            };
        lemma_positive_after_catalog(before, ready, r.organization_id@, ids);
        table::lemma_first_where(
            ready.projects@,
            store::is_project(r.organization_id@, r.project_id@),
        );
    }
}

proof fn lemma_positive_after_archive_project(
    before: Store,
    after: Store,
    call: Invocation,
    r: ArchiveProjectRequest,
    result: Result<Completion<ProjectValue>, StorageError>,
)
    requires
        revisions_positive(before),
        projects::archive_project_outcome(before, after, call, r, result),
    ensures
        revisions_positive(after),
{
    table::lemma_first_where(
        before.projects@,
        store::is_project(r.organization_id@, r.project_id@),
    );
}

proof fn lemma_positive_after_retention(
    before: Store,
    after: Store,
    r: ApplyRetentionRequest,
    now: Timestamp,
    result: Result<String, StorageError>,
)
    requires
        revisions_positive(before),
        retention::retention_outcome(before, after, r, now, result),
    ensures
        revisions_positive(after),
{
}

proof fn lemma_positive_after_put_team(
    before: Store,
    after: Store,
    call: Invocation,
    r: PutTeamRequest,
    ids: StatusIds,
    states: WorkflowIds,
    result: Result<Completion<TeamValue>, StorageError>,
)
    requires
        revisions_positive(before),
        teams::put_team_outcome(before, after, call, r, ids, states, result),
    ensures
        revisions_positive(after),
{
    if after != before {
        let ready = choose|ready: Store|
            {
                &&& #[trigger] project_status::catalog_ready(before, ready, r.organization_id@, ids)
                &&& after == ready || teams::put_team_effect(
                    ready,
                    after,
                    call,
                    r,
                    states,
                    store::fresh(result),
                )
            };
        lemma_positive_after_catalog(before, ready, r.organization_id@, ids);
        table::lemma_first_where(ready.teams@, store::is_team(r.organization_id@, r.team_id@));
        if r.expected_revision is None && after != ready {
            table::lemma_appended(ready.teams@, after.teams@);
            lemma_extended(ready.workflow_states@, after.workflow_states@);
        }
    }
}

proof fn lemma_positive_after_set_team_member(
    before: Store,
    after: Store,
    call: Invocation,
    r: SetTeamMemberRequest,
    result: Result<Completion<TeamMemberValue>, StorageError>,
)
    requires
        revisions_positive(before),
        teams::set_team_member_outcome(before, after, call, r, result),
    ensures
        revisions_positive(after),
{
    table::lemma_first_where(
        before.team_members@,
        store::is_member(r.organization_id@, r.team_id@, r.subject@),
    );
    if before.member_at(r.organization_id@, r.team_id@, r.subject@) is None && result matches Ok(
        Completion::Fresh(_),
    ) {
        table::lemma_appended(before.team_members@, after.team_members@);
    }
}

proof fn lemma_positive_after_put_workflow_state(
    before: Store,
    after: Store,
    call: Invocation,
    r: PutWorkflowStateRequest,
    result: Result<Completion<WorkflowStateValue>, StorageError>,
)
    requires
        revisions_positive(before),
        workflow::put_workflow_state_outcome(before, after, call, r, result),
    ensures
        revisions_positive(after),
{
    table::lemma_first_where(
        before.workflow_states@,
        store::is_team_state(r.organization_id@, r.team_id@, r.state_id@),
    );
    if r.expected_revision is None && result matches Ok(Completion::Fresh(_)) {
        table::lemma_appended(before.workflow_states@, after.workflow_states@);
    }
}

proof fn lemma_positive_after_reorder_workflow_states(
    before: Store,
    after: Store,
    call: Invocation,
    r: ReorderWorkflowStatesRequest,
    result: Result<Completion<Vec<WorkflowStateValue>>, StorageError>,
)
    requires
        revisions_positive(before),
        workflow::reorder_workflow_states_outcome(before, after, call, r, result),
    ensures
        revisions_positive(after),
{
}

proof fn lemma_positive_after_archive_workflow_state(
    before: Store,
    after: Store,
    call: Invocation,
    r: ArchiveWorkflowStateRequest,
    result: Result<Completion<WorkflowStateValue>, StorageError>,
)
    requires
        revisions_positive(before),
        workflow::archive_workflow_state_outcome(before, after, call, r, result),
    ensures
        revisions_positive(after),
{
    table::lemma_first_where(
        before.workflow_states@,
        store::is_workflow_state(r.organization_id@, r.state_id@),
    );
}

proof fn lemma_positive_after_delete_workflow_state(
    before: Store,
    after: Store,
    call: Invocation,
    r: DeleteWorkflowStateRequest,
    result: Result<Completion<DeletedWorkflowState>, StorageError>,
)
    requires
        revisions_positive(before),
        workflow::delete_workflow_state_outcome(before, after, call, r, result),
    ensures
        revisions_positive(after),
{
    table::lemma_first_where(
        before.workflow_states@,
        store::is_team_state(r.organization_id@, r.team_id@, r.state_id@),
    );
}

/// No operation gives a row a revision below 1.
#[verifier::spinoff_prover]
#[verifier::rlimit(60)]
pub proof fn law_every_operation_keeps_revisions_positive(before: Store, after: Store, step: Step)
    requires
        history::takes(before, after, step),
        revisions_positive(before),
    ensures
        revisions_positive(after),
{
    match step {
        Step::AddComment { call, r, result } => {
            lemma_positive_after_add_comment(before, after, call, r, result)
        },
        Step::UpdateComment { call, r, result } => {
            lemma_positive_after_update_comment(before, after, call, r, result)
        },
        Step::DeleteComment { call, r, result } => {
            lemma_positive_after_delete_comment(before, after, call, r, result)
        },
        Step::CreateIssue { call, r, result } => {
            lemma_positive_after_create_issue(before, after, call, r, result)
        },
        Step::UpdateIssue { call, r, result } => {
            lemma_positive_after_update_issue(before, after, call, r, result)
        },
        Step::MoveIssue { call, r, result } => {
            lemma_positive_after_move_issue(before, after, call, r, result)
        },
        Step::ArchiveIssue { call, r, result } => {
            lemma_positive_after_archive_issue(before, after, call, r, result)
        },
        Step::SetIssueAssignee { call, r, result } => {
            lemma_positive_after_set_issue_assignee(before, after, call, r, result)
        },
        Step::PutLabel { call, r, result } => {
            lemma_positive_after_put_label(before, after, call, r, result)
        },
        Step::PutCycle { call, r, result } => {
            lemma_positive_after_put_cycle(before, after, call, r, result)
        },
        Step::PutMilestone { call, r, result } => {
            lemma_positive_after_put_milestone(before, after, call, r, result)
        },
        Step::PutProjectStatus { call, r, ids, result } => {
            lemma_positive_after_put_project_status(before, after, call, r, ids, result)
        },
        Step::GetProjectStatus { r, ids, result } => {
            lemma_positive_after_get_project_status(before, after, r, ids, result)
        },
        Step::ReorderProjectStatuses { call, r, ids, result } => {
            lemma_positive_after_reorder_project_statuses(before, after, call, r, ids, result)
        },
        Step::ArchiveProjectStatus { call, r, ids, result } => {
            lemma_positive_after_archive_project_status(before, after, call, r, ids, result)
        },
        Step::DeleteProjectStatus { call, r, ids, result } => {
            lemma_positive_after_delete_project_status(before, after, call, r, ids, result)
        },
        Step::ListProjectStatuses { r, ids, result } => {
            lemma_positive_after_list_project_statuses(before, after, r, ids, result)
        },
        Step::CreateProject { call, r, ids, result } => {
            lemma_positive_after_create_project(before, after, call, r, ids, result)
        },
        Step::UpdateProject { call, r, ids, result } => {
            lemma_positive_after_update_project(before, after, call, r, ids, result)
        },
        Step::ArchiveProject { call, r, result } => {
            lemma_positive_after_archive_project(before, after, call, r, result)
        },
        Step::ApplyRetention { r, now, result } => {
            lemma_positive_after_retention(before, after, r, now, result)
        },
        Step::PutTeam { call, r, ids, states, result } => {
            lemma_positive_after_put_team(before, after, call, r, ids, states, result)
        },
        Step::SetTeamMember { call, r, result } => {
            lemma_positive_after_set_team_member(before, after, call, r, result)
        },
        Step::PutWorkflowState { call, r, result } => {
            lemma_positive_after_put_workflow_state(before, after, call, r, result)
        },
        Step::ReorderWorkflowStates { call, r, result } => {
            lemma_positive_after_reorder_workflow_states(before, after, call, r, result)
        },
        Step::ArchiveWorkflowState { call, r, result } => {
            lemma_positive_after_archive_workflow_state(before, after, call, r, result)
        },
        Step::DeleteWorkflowState { call, r, result } => {
            lemma_positive_after_delete_workflow_state(before, after, call, r, result)
        },
        _ => {},
    }
}

/// An empty store has positive revisions.
pub proof fn law_empty_store_has_positive_revisions(s: Store)
    requires
        s.teams@.len() == 0,
        s.team_members@.len() == 0,
        s.workflow_states@.len() == 0,
        s.project_statuses@.len() == 0,
        s.projects@.len() == 0,
        s.issues@.len() == 0,
        s.cycles@.len() == 0,
        s.milestones@.len() == 0,
        s.labels@.len() == 0,
        s.comments@.len() == 0,
    ensures
        revisions_positive(s),
{
}

/// Over any operations from a store whose revisions are positive, all of them stay so.
pub proof fn law_revisions_stay_positive(history: History, k: int)
    requires
        history.holds(),
        revisions_positive(history.stores[0]),
        0 <= k < history.stores.len(),
    ensures
        revisions_positive(history.stores[k]),
    decreases k,
{
    if k > 0 {
        law_revisions_stay_positive(history, k - 1);
        assert(history.steps_on(k - 1));
        law_every_operation_keeps_revisions_positive(
            history.stores[k - 1],
            history.stores[k],
            history.steps[k - 1],
        );
    }
}

/// Over any operations from an empty store, every revision is positive.
pub proof fn law_revisions_are_always_positive(history: History, k: int)
    requires
        history.starts_empty(),
        0 <= k < history.stores.len(),
    ensures
        revisions_positive(history.stores[k]),
{
    law_empty_store_has_positive_revisions(history.stores[0]);
    law_revisions_stay_positive(history, k);
}

} // verus!
