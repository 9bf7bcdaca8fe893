//! How the changes of catalogs and projects end, and how readings and listings are answered.
use crate::activity;
use crate::clock;
use crate::collaboration;
use crate::failure::{DomainFailure, StorageError};
use crate::issues;
use crate::laws::answers;
use crate::laws::catalogs;
use crate::laws::listings;
use crate::laws::seen;
use crate::model::{
    ActivityValue, ArchiveProjectStatusRequest, ArchiveWorkflowStateRequest, AssigneeValue,
    CommentValue, Completion, CreateProjectRequest, Cycle, CycleValue, DeleteProjectStatusRequest,
    DeleteWorkflowStateRequest, DeletedProjectStatus, DeletedWorkflowState, GetIssueAssigneeRequest,
    GetIssueRequest, GetProjectRequest, GetProjectStatusRequest, GetWorkflowStateRequest,
    IssueValue, Label, LabelValue, ListActivityRequest, ListCommentsRequest, ListCyclesRequest,
    ListIssueWorkflowStatesRequest, ListIssuesRequest, ListLabelsRequest, ListMilestonesRequest,
    ListProjectUpdatesRequest, ListProjectsRequest, ListTeamsRequest, ListWorkflowStatesRequest,
    Milestone, MilestoneValue, ProjectStatus, ProjectStatusValue, ProjectUpdateValue, ProjectValue,
    PutCycleRequest, PutLabelRequest, PutMilestoneRequest, PutProjectStatusRequest, PutTeamRequest,
    PutWorkflowStateRequest, SetTeamMemberRequest, TeamMember, TeamMemberValue, TeamValue,
    UpdateProjectRequest, WorkflowCategory, WorkflowState, WorkflowStateValue, Workspace,
};
use crate::planning;
use crate::project_status::StatusIds;
use crate::project_status;
use crate::projects;
use crate::store::{Invocation, Store};
use crate::store;
use crate::table::Page;
use crate::table;
use crate::teams;
use crate::text;
use crate::validate;
use crate::workflow::WorkflowIds;
use crate::workflow;
use vstd::prelude::*;

verus! {

/// Whether this is the first label under this key.
pub open spec fn label_row(s: Store, k: int, organization: Seq<char>, id: Seq<char>) -> bool {
    &&& 0 <= k < s.labels@.len()
    &&& s.labels@[k].organization_id@ == organization
    &&& s.labels@[k].label_id@ == id
    &&& forall|u: int|
        0 <= u < k ==> !((#[trigger] s.labels@[u]).organization_id@ == organization && (#[trigger] s.labels@[u]).label_id@ == id)
}

/// Whether there is one.
pub open spec fn label_exists(s: Store, organization: Seq<char>, id: Seq<char>) -> bool {
    exists|k: int| #[trigger] label_row(s, k, organization, id)
}

/// The label under this key.
pub open spec fn the_label(s: Store, organization: Seq<char>, id: Seq<char>) -> Label {
    s.labels@[choose|k: int| #[trigger] label_row(s, k, organization, id)]
}

pub proof fn lemma_label_found(s: Store, organization: Seq<char>, id: Seq<char>)
    ensures
        s.label_at(organization, id) is Some == label_exists(s, organization, id),
        s.label_at(organization, id) is Some ==> the_label(s, organization, id) == s.labels@[s.label_at(organization, id)->0],
        s.label_at(organization, id) is Some ==> label_row(s, s.label_at(organization, id)->0, organization, id),
{
    let keep = store::is_label(organization, id);
    table::lemma_first_where(s.labels@, keep);
    assert forall|k: int| #[trigger] label_row(s, k, organization, id) implies s.label_at(organization, id) == Some(k) by {
        assert(keep(s.labels@[k]));
        let f = s.label_at(organization, id)->0;
        if f < k {
            assert(keep(s.labels@[f]));
        }
    }
    if let Some(k) = s.label_at(organization, id) {
        assert(keep(s.labels@[k]));
        assert forall|u: int| 0 <= u < k implies !((#[trigger] s.labels@[u]).organization_id@ == organization && (#[trigger] s.labels@[u]).label_id@ == id) by {
            assert(!keep(s.labels@[u]));
        }
        assert(label_row(s, k, organization, id));
    }
}

/// Whether this is the first cycle under this key.
pub open spec fn cycle_row(s: Store, k: int, organization: Seq<char>, team: Seq<char>, id: Seq<char>) -> bool {
    &&& 0 <= k < s.cycles@.len()
    &&& s.cycles@[k].organization_id@ == organization
    &&& s.cycles@[k].team_id@ == team
    &&& s.cycles@[k].cycle_id@ == id
    &&& forall|u: int|
        0 <= u < k ==> !((#[trigger] s.cycles@[u]).organization_id@ == organization && (#[trigger] s.cycles@[u]).team_id@ == team && (#[trigger] s.cycles@[u]).cycle_id@ == id)
}

/// Whether there is one.
pub open spec fn cycle_exists(s: Store, organization: Seq<char>, team: Seq<char>, id: Seq<char>) -> bool {
    exists|k: int| #[trigger] cycle_row(s, k, organization, team, id)
}

/// The cycle under this key.
pub open spec fn the_cycle(s: Store, organization: Seq<char>, team: Seq<char>, id: Seq<char>) -> Cycle {
    s.cycles@[choose|k: int| #[trigger] cycle_row(s, k, organization, team, id)]
}

pub proof fn lemma_cycle_found(s: Store, organization: Seq<char>, team: Seq<char>, id: Seq<char>)
    ensures
        s.cycle_at(organization, team, id) is Some == cycle_exists(s, organization, team, id),
        s.cycle_at(organization, team, id) is Some ==> the_cycle(s, organization, team, id) == s.cycles@[s.cycle_at(organization, team, id)->0],
        s.cycle_at(organization, team, id) is Some ==> cycle_row(s, s.cycle_at(organization, team, id)->0, organization, team, id),
{
    let keep = store::is_cycle(organization, team, id);
    table::lemma_first_where(s.cycles@, keep);
    assert forall|k: int| #[trigger] cycle_row(s, k, organization, team, id) implies s.cycle_at(organization, team, id) == Some(k) by {
        assert(keep(s.cycles@[k]));
        let f = s.cycle_at(organization, team, id)->0;
        if f < k {
            assert(keep(s.cycles@[f]));
        }
    }
    if let Some(k) = s.cycle_at(organization, team, id) {
        assert(keep(s.cycles@[k]));
        assert forall|u: int| 0 <= u < k implies !((#[trigger] s.cycles@[u]).organization_id@ == organization && (#[trigger] s.cycles@[u]).team_id@ == team && (#[trigger] s.cycles@[u]).cycle_id@ == id) by {
            assert(!keep(s.cycles@[u]));
        }
        assert(cycle_row(s, k, organization, team, id));
    }
}

/// Whether this is the first milestone under this key.
pub open spec fn milestone_row(s: Store, k: int, organization: Seq<char>, project: Seq<char>, id: Seq<char>) -> bool {
    &&& 0 <= k < s.milestones@.len()
    &&& s.milestones@[k].organization_id@ == organization
    &&& s.milestones@[k].project_id@ == project
    &&& s.milestones@[k].milestone_id@ == id
    &&& forall|u: int|
        0 <= u < k ==> !((#[trigger] s.milestones@[u]).organization_id@ == organization && (#[trigger] s.milestones@[u]).project_id@ == project && (#[trigger] s.milestones@[u]).milestone_id@ == id)
}

/// Whether there is one.
pub open spec fn milestone_exists(s: Store, organization: Seq<char>, project: Seq<char>, id: Seq<char>) -> bool {
    exists|k: int| #[trigger] milestone_row(s, k, organization, project, id)
}

/// The milestone under this key.
pub open spec fn the_milestone(s: Store, organization: Seq<char>, project: Seq<char>, id: Seq<char>) -> Milestone {
    s.milestones@[choose|k: int| #[trigger] milestone_row(s, k, organization, project, id)]
}

pub proof fn lemma_milestone_found(s: Store, organization: Seq<char>, project: Seq<char>, id: Seq<char>)
    ensures
        s.milestone_at(organization, project, id) is Some == milestone_exists(s, organization, project, id),
        s.milestone_at(organization, project, id) is Some ==> the_milestone(s, organization, project, id) == s.milestones@[s.milestone_at(organization, project, id)->0],
        s.milestone_at(organization, project, id) is Some ==> milestone_row(s, s.milestone_at(organization, project, id)->0, organization, project, id),
{
    let keep = store::is_milestone(organization, project, id);
    table::lemma_first_where(s.milestones@, keep);
    assert forall|k: int| #[trigger] milestone_row(s, k, organization, project, id) implies s.milestone_at(organization, project, id) == Some(k) by {
        assert(keep(s.milestones@[k]));
        let f = s.milestone_at(organization, project, id)->0;
        if f < k {
            assert(keep(s.milestones@[f]));
        }
    }
    if let Some(k) = s.milestone_at(organization, project, id) {
        assert(keep(s.milestones@[k]));
        assert forall|u: int| 0 <= u < k implies !((#[trigger] s.milestones@[u]).organization_id@ == organization && (#[trigger] s.milestones@[u]).project_id@ == project && (#[trigger] s.milestones@[u]).milestone_id@ == id) by {
            assert(!keep(s.milestones@[u]));
        }
        assert(milestone_row(s, k, organization, project, id));
    }
}

/// Whether this is the first team_state under this key.
pub open spec fn team_state_row(s: Store, k: int, organization: Seq<char>, team: Seq<char>, id: Seq<char>) -> bool {
    &&& 0 <= k < s.workflow_states@.len()
    &&& s.workflow_states@[k].organization_id@ == organization
    &&& s.workflow_states@[k].team_id@ == team
    &&& s.workflow_states@[k].state_id@ == id
    &&& forall|u: int|
        0 <= u < k ==> !((#[trigger] s.workflow_states@[u]).organization_id@ == organization && (#[trigger] s.workflow_states@[u]).team_id@ == team && (#[trigger] s.workflow_states@[u]).state_id@ == id)
}

/// Whether there is one.
pub open spec fn team_state_exists(s: Store, organization: Seq<char>, team: Seq<char>, id: Seq<char>) -> bool {
    exists|k: int| #[trigger] team_state_row(s, k, organization, team, id)
}

/// The team_state under this key.
pub open spec fn the_team_state(s: Store, organization: Seq<char>, team: Seq<char>, id: Seq<char>) -> WorkflowState {
    s.workflow_states@[choose|k: int| #[trigger] team_state_row(s, k, organization, team, id)]
}

pub proof fn lemma_team_state_found(s: Store, organization: Seq<char>, team: Seq<char>, id: Seq<char>)
    ensures
        s.team_state_at(organization, team, id) is Some == team_state_exists(s, organization, team, id),
        s.team_state_at(organization, team, id) is Some ==> the_team_state(s, organization, team, id) == s.workflow_states@[s.team_state_at(organization, team, id)->0],
        s.team_state_at(organization, team, id) is Some ==> team_state_row(s, s.team_state_at(organization, team, id)->0, organization, team, id),
{
    let keep = store::is_team_state(organization, team, id);
    table::lemma_first_where(s.workflow_states@, keep);
    assert forall|k: int| #[trigger] team_state_row(s, k, organization, team, id) implies s.team_state_at(organization, team, id) == Some(k) by {
        assert(keep(s.workflow_states@[k]));
        let f = s.team_state_at(organization, team, id)->0;
        if f < k {
            assert(keep(s.workflow_states@[f]));
        }
    }
    if let Some(k) = s.team_state_at(organization, team, id) {
        assert(keep(s.workflow_states@[k]));
        assert forall|u: int| 0 <= u < k implies !((#[trigger] s.workflow_states@[u]).organization_id@ == organization && (#[trigger] s.workflow_states@[u]).team_id@ == team && (#[trigger] s.workflow_states@[u]).state_id@ == id) by {
            assert(!keep(s.workflow_states@[u]));
        }
        assert(team_state_row(s, k, organization, team, id));
    }
}

/// Whether this is the first any_state under this key.
pub open spec fn any_state_row(s: Store, k: int, organization: Seq<char>, id: Seq<char>) -> bool {
    &&& 0 <= k < s.workflow_states@.len()
    &&& s.workflow_states@[k].organization_id@ == organization
    &&& s.workflow_states@[k].state_id@ == id
    &&& forall|u: int|
        0 <= u < k ==> !((#[trigger] s.workflow_states@[u]).organization_id@ == organization && (#[trigger] s.workflow_states@[u]).state_id@ == id)
}

/// Whether there is one.
pub open spec fn any_state_exists(s: Store, organization: Seq<char>, id: Seq<char>) -> bool {
    exists|k: int| #[trigger] any_state_row(s, k, organization, id)
}

/// The any_state under this key.
pub open spec fn the_any_state(s: Store, organization: Seq<char>, id: Seq<char>) -> WorkflowState {
    s.workflow_states@[choose|k: int| #[trigger] any_state_row(s, k, organization, id)]
}

pub proof fn lemma_any_state_found(s: Store, organization: Seq<char>, id: Seq<char>)
    ensures
        s.workflow_state_at(organization, id) is Some == any_state_exists(s, organization, id),
        s.workflow_state_at(organization, id) is Some ==> the_any_state(s, organization, id) == s.workflow_states@[s.workflow_state_at(organization, id)->0],
        s.workflow_state_at(organization, id) is Some ==> any_state_row(s, s.workflow_state_at(organization, id)->0, organization, id),
{
    let keep = store::is_workflow_state(organization, id);
    table::lemma_first_where(s.workflow_states@, keep);
    assert forall|k: int| #[trigger] any_state_row(s, k, organization, id) implies s.workflow_state_at(organization, id) == Some(k) by {
        assert(keep(s.workflow_states@[k]));
        let f = s.workflow_state_at(organization, id)->0;
        if f < k {
            assert(keep(s.workflow_states@[f]));
        }
    }
    if let Some(k) = s.workflow_state_at(organization, id) {
        assert(keep(s.workflow_states@[k]));
        assert forall|u: int| 0 <= u < k implies !((#[trigger] s.workflow_states@[u]).organization_id@ == organization && (#[trigger] s.workflow_states@[u]).state_id@ == id) by {
            assert(!keep(s.workflow_states@[u]));
        }
        assert(any_state_row(s, k, organization, id));
    }
}

/// Whether this is the first status under this key.
pub open spec fn status_row(s: Store, k: int, organization: Seq<char>, id: Seq<char>) -> bool {
    &&& 0 <= k < s.project_statuses@.len()
    &&& s.project_statuses@[k].organization_id@ == organization
    &&& s.project_statuses@[k].status_id@ == id
    &&& forall|u: int|
        0 <= u < k ==> !((#[trigger] s.project_statuses@[u]).organization_id@ == organization && (#[trigger] s.project_statuses@[u]).status_id@ == id)
}

/// Whether there is one.
pub open spec fn status_exists(s: Store, organization: Seq<char>, id: Seq<char>) -> bool {
    exists|k: int| #[trigger] status_row(s, k, organization, id)
}

/// The status under this key.
pub open spec fn the_status(s: Store, organization: Seq<char>, id: Seq<char>) -> ProjectStatus {
    s.project_statuses@[choose|k: int| #[trigger] status_row(s, k, organization, id)]
}

pub proof fn lemma_status_found(s: Store, organization: Seq<char>, id: Seq<char>)
    ensures
        s.project_status_at(organization, id) is Some == status_exists(s, organization, id),
        s.project_status_at(organization, id) is Some ==> the_status(s, organization, id) == s.project_statuses@[s.project_status_at(organization, id)->0],
        s.project_status_at(organization, id) is Some ==> status_row(s, s.project_status_at(organization, id)->0, organization, id),
{
    let keep = store::is_project_status(organization, id);
    table::lemma_first_where(s.project_statuses@, keep);
    assert forall|k: int| #[trigger] status_row(s, k, organization, id) implies s.project_status_at(organization, id) == Some(k) by {
        assert(keep(s.project_statuses@[k]));
        let f = s.project_status_at(organization, id)->0;
        if f < k {
            assert(keep(s.project_statuses@[f]));
        }
    }
    if let Some(k) = s.project_status_at(organization, id) {
        assert(keep(s.project_statuses@[k]));
        assert forall|u: int| 0 <= u < k implies !((#[trigger] s.project_statuses@[u]).organization_id@ == organization && (#[trigger] s.project_statuses@[u]).status_id@ == id) by {
            assert(!keep(s.project_statuses@[u]));
        }
        assert(status_row(s, k, organization, id));
    }
}

/// Whether this is the first membership under this key.
pub open spec fn membership_row(s: Store, k: int, organization: Seq<char>, team: Seq<char>, subject: Seq<char>) -> bool {
    &&& 0 <= k < s.team_members@.len()
    &&& s.team_members@[k].organization_id@ == organization
    &&& s.team_members@[k].team_id@ == team
    &&& s.team_members@[k].subject@ == subject
    &&& forall|u: int|
        0 <= u < k ==> !((#[trigger] s.team_members@[u]).organization_id@ == organization && (#[trigger] s.team_members@[u]).team_id@ == team && (#[trigger] s.team_members@[u]).subject@ == subject)
}

/// Whether there is one.
pub open spec fn membership_exists(s: Store, organization: Seq<char>, team: Seq<char>, subject: Seq<char>) -> bool {
    exists|k: int| #[trigger] membership_row(s, k, organization, team, subject)
}

/// The membership under this key.
pub open spec fn the_membership(s: Store, organization: Seq<char>, team: Seq<char>, subject: Seq<char>) -> TeamMember {
    s.team_members@[choose|k: int| #[trigger] membership_row(s, k, organization, team, subject)]
}

pub proof fn lemma_membership_found(s: Store, organization: Seq<char>, team: Seq<char>, subject: Seq<char>)
    ensures
        s.member_at(organization, team, subject) is Some == membership_exists(s, organization, team, subject),
        s.member_at(organization, team, subject) is Some ==> the_membership(s, organization, team, subject) == s.team_members@[s.member_at(organization, team, subject)->0],
        s.member_at(organization, team, subject) is Some ==> membership_row(s, s.member_at(organization, team, subject)->0, organization, team, subject),
{
    let keep = store::is_member(organization, team, subject);
    table::lemma_first_where(s.team_members@, keep);
    assert forall|k: int| #[trigger] membership_row(s, k, organization, team, subject) implies s.member_at(organization, team, subject) == Some(k) by {
        assert(keep(s.team_members@[k]));
        let f = s.member_at(organization, team, subject)->0;
        if f < k {
            assert(keep(s.team_members@[f]));
        }
    }
    if let Some(k) = s.member_at(organization, team, subject) {
        assert(keep(s.team_members@[k]));
        assert forall|u: int| 0 <= u < k implies !((#[trigger] s.team_members@[u]).organization_id@ == organization && (#[trigger] s.team_members@[u]).team_id@ == team && (#[trigger] s.team_members@[u]).subject@ == subject) by {
            assert(!keep(s.team_members@[u]));
        }
        assert(membership_row(s, k, organization, team, subject));
    }
}

/// Whether this is the first workspace under this key.
pub open spec fn workspace_row(s: Store, k: int, organization: Seq<char>) -> bool {
    &&& 0 <= k < s.workspaces@.len()
    &&& s.workspaces@[k].organization_id@ == organization
    &&& forall|u: int|
        0 <= u < k ==> !((#[trigger] s.workspaces@[u]).organization_id@ == organization)
}

/// Whether there is one.
pub open spec fn workspace_exists(s: Store, organization: Seq<char>) -> bool {
    exists|k: int| #[trigger] workspace_row(s, k, organization)
}

/// The workspace under this key.
pub open spec fn the_workspace(s: Store, organization: Seq<char>) -> Workspace {
    s.workspaces@[choose|k: int| #[trigger] workspace_row(s, k, organization)]
}

pub proof fn lemma_workspace_found(s: Store, organization: Seq<char>)
    ensures
        s.workspace_at(organization) is Some == workspace_exists(s, organization),
        s.workspace_at(organization) is Some ==> the_workspace(s, organization) == s.workspaces@[s.workspace_at(organization)->0],
        s.workspace_at(organization) is Some ==> workspace_row(s, s.workspace_at(organization)->0, organization),
{
    let keep = store::is_workspace(organization);
    table::lemma_first_where(s.workspaces@, keep);
    assert forall|k: int| #[trigger] workspace_row(s, k, organization) implies s.workspace_at(organization) == Some(k) by {
        assert(keep(s.workspaces@[k]));
        let f = s.workspace_at(organization)->0;
        if f < k {
            assert(keep(s.workspaces@[f]));
        }
    }
    if let Some(k) = s.workspace_at(organization) {
        assert(keep(s.workspaces@[k]));
        assert forall|u: int| 0 <= u < k implies !((#[trigger] s.workspaces@[u]).organization_id@ == organization) by {
            assert(!keep(s.workspaces@[u]));
        }
        assert(workspace_row(s, k, organization));
    }
}

/// Putting a label ends as its first unmet condition says, and takes effect where all are met; what
/// does not take effect changes nothing. In their order: the team that it is for exists; the key was
/// not used; one that is replaced exists and has the expected revision; a new one has a free id.
#[verifier::rlimit(40)]
pub proof fn law_put_label_answers(
    before: Store,
    after: Store,
    call: Invocation,
    r: PutLabelRequest,
    result: Result<Completion<LabelValue>, StorageError>,
)
    requires
        planning::put_label_outcome(before, after, call, r, result),
    ensures
        ({
            let row = the_label(before, r.organization_id@, r.label_id@);
            if (r.team_id matches Some(team) && !seen::team_exists(before, r.organization_id@, team@)) {
                answers::refused(result, DomainFailure::NotFound)
            } else if answers::key_used(before, call, "put_label"@, r.idempotency_key@) {
                answers::answered_before(before, call, "put_label"@, r.idempotency_key@, result)
            } else if (r.expected_revision matches Some(expected) && validate::revision_value(expected@) is None) {
                answers::refused(result, DomainFailure::InvalidRequest)
            } else if (r.expected_revision matches Some(expected) && (!label_exists(before, r.organization_id@, r.label_id@)
                || validate::revision_value(expected@) != Some(row.revision as int))) {
                answers::refused(result, DomainFailure::RevisionConflict)
            } else if r.expected_revision is Some && row.revision == i64::MAX {
                answers::faulted(result)
            } else if r.expected_revision is None && before.next_row == i64::MAX {
                answers::faulted(result)
            } else if r.expected_revision is None && (exists|j: int|
                0 <= j < before.labels@.len() && (#[trigger] before.labels@[j]).label_id@ == r.label_id@) {
                answers::refused(result, DomainFailure::KeyConflict)
            } else if before.next_activity == i64::MAX {
                answers::faulted(result)
            } else {
                answers::took_effect(result)
            }
        }),
        !answers::took_effect(result) ==> after == before,
{
    answers::lemma_key_used(before, call, "put_label"@, r.idempotency_key@, result);
    lemma_label_found(before, r.organization_id@, r.label_id@);
    if let Some(team) = r.team_id {
        seen::lemma_team_row(before, r.organization_id@, team@);
    }
    let taken = store::has_label_id(r.label_id@);
    if table::some_row(before.labels@, taken) {
        let j = choose|j: int| 0 <= j < before.labels@.len() && taken(#[trigger] before.labels@[j]);
        assert(before.labels@[j].label_id@ == r.label_id@);
    }
    assert forall|j: int|
        0 <= j < before.labels@.len() && (#[trigger] before.labels@[j]).label_id@ == r.label_id@ implies table::some_row(
        before.labels@,
        taken,
    ) by {
        assert(taken(before.labels@[j]));
    }
}

/// Putting a cycle ends as its first unmet condition says, and takes effect where all are met; what
/// does not take effect changes nothing. In their order: the team exists; both days are dates, the
/// first not after the last; the key was not used; one that is replaced exists and has the expected
/// revision; a new one has a free id.
#[verifier::rlimit(40)]
pub proof fn law_put_cycle_answers(
    before: Store,
    after: Store,
    call: Invocation,
    r: PutCycleRequest,
    result: Result<Completion<CycleValue>, StorageError>,
)
    requires
        planning::put_cycle_outcome(before, after, call, r, result),
    ensures
        ({
            let row = the_cycle(before, r.organization_id@, r.team_id@, r.cycle_id@);
            let first = clock::iso_date(r.starts_on@);
            let last = clock::iso_date(r.ends_on@);
            if !seen::team_exists(before, r.organization_id@, r.team_id@) {
                answers::refused(result, DomainFailure::NotFound)
            } else if first is None || last is None || (first->0).0 > (last->0).0 {
                answers::refused(result, DomainFailure::InvalidRequest)
            } else if answers::key_used(before, call, "put_cycle"@, r.idempotency_key@) {
                answers::answered_before(before, call, "put_cycle"@, r.idempotency_key@, result)
            } else if (r.expected_revision matches Some(expected) && validate::revision_value(expected@) is None) {
                answers::refused(result, DomainFailure::InvalidRequest)
            } else if (r.expected_revision matches Some(expected) && (!cycle_exists(before, r.organization_id@, r.team_id@, r.cycle_id@)
                || validate::revision_value(expected@) != Some(row.revision as int))) {
                answers::refused(result, DomainFailure::RevisionConflict)
            } else if !(i32::MIN <= r.number <= i32::MAX) {
                answers::faulted(result)
            } else if r.expected_revision is Some && row.revision == i64::MAX {
                answers::faulted(result)
            } else if r.expected_revision is None && before.next_row == i64::MAX {
                answers::faulted(result)
            } else if r.expected_revision is None && (exists|j: int|
                0 <= j < before.cycles@.len() && (#[trigger] before.cycles@[j]).cycle_id@ == r.cycle_id@) {
                answers::refused(result, DomainFailure::KeyConflict)
            } else if before.next_activity == i64::MAX {
                answers::faulted(result)
            } else {
                answers::took_effect(result)
            }
        }),
        !answers::took_effect(result) ==> after == before,
{
    answers::lemma_key_used(before, call, "put_cycle"@, r.idempotency_key@, result);
    lemma_cycle_found(before, r.organization_id@, r.team_id@, r.cycle_id@);
    seen::lemma_team_row(before, r.organization_id@, r.team_id@);
    let taken = store::has_cycle_id(r.cycle_id@);
    if table::some_row(before.cycles@, taken) {
        let j = choose|j: int| 0 <= j < before.cycles@.len() && taken(#[trigger] before.cycles@[j]);
        assert(before.cycles@[j].cycle_id@ == r.cycle_id@);
    }
    assert forall|j: int|
        0 <= j < before.cycles@.len() && (#[trigger] before.cycles@[j]).cycle_id@ == r.cycle_id@ implies table::some_row(
        before.cycles@,
        taken,
    ) by {
        assert(taken(before.cycles@[j]));
    }
}

/// Putting a milestone ends as its first unmet condition says, and takes effect where all are met;
/// what does not take effect changes nothing. In their order: the project exists; the target, where
/// there is one, is a date; the key was not used; one that is replaced exists and has the expected
/// revision; a new one has a free id.
#[verifier::rlimit(40)]
pub proof fn law_put_milestone_answers(
    before: Store,
    after: Store,
    call: Invocation,
    r: PutMilestoneRequest,
    result: Result<Completion<MilestoneValue>, StorageError>,
)
    requires
        planning::put_milestone_outcome(before, after, call, r, result),
    ensures
        ({
            let row = the_milestone(before, r.organization_id@, r.project_id@, r.milestone_id@);
            if !seen::project_exists(before, r.organization_id@, r.project_id@) {
                answers::refused(result, DomainFailure::NotFound)
            } else if (r.target_date matches Some(day) && clock::iso_date(day@) is None) {
                answers::refused(result, DomainFailure::InvalidRequest)
            } else if answers::key_used(before, call, "put_milestone"@, r.idempotency_key@) {
                answers::answered_before(before, call, "put_milestone"@, r.idempotency_key@, result)
            } else if (r.expected_revision matches Some(expected) && validate::revision_value(expected@) is None) {
                answers::refused(result, DomainFailure::InvalidRequest)
            } else if (r.expected_revision matches Some(expected) && (!milestone_exists(before, r.organization_id@, r.project_id@, r.milestone_id@)
                || validate::revision_value(expected@) != Some(row.revision as int))) {
                answers::refused(result, DomainFailure::RevisionConflict)
            } else if r.expected_revision is Some && row.revision == i64::MAX {
                answers::faulted(result)
            } else if r.expected_revision is None && before.next_row == i64::MAX {
                answers::faulted(result)
            } else if r.expected_revision is None && (exists|j: int|
                0 <= j < before.milestones@.len() && (#[trigger] before.milestones@[j]).milestone_id@ == r.milestone_id@) {
                answers::refused(result, DomainFailure::KeyConflict)
            } else if before.next_activity == i64::MAX {
                answers::faulted(result)
            } else {
                answers::took_effect(result)
            }
        }),
        !answers::took_effect(result) ==> after == before,
{
    answers::lemma_key_used(before, call, "put_milestone"@, r.idempotency_key@, result);
    lemma_milestone_found(before, r.organization_id@, r.project_id@, r.milestone_id@);
    seen::lemma_project_row(before, r.organization_id@, r.project_id@);
    let taken = store::has_milestone_id(r.milestone_id@);
    if table::some_row(before.milestones@, taken) {
        let j = choose|j: int| 0 <= j < before.milestones@.len() && taken(#[trigger] before.milestones@[j]);
        assert(before.milestones@[j].milestone_id@ == r.milestone_id@);
    }
    assert forall|j: int|
        0 <= j < before.milestones@.len() && (#[trigger] before.milestones@[j]).milestone_id@ == r.milestone_id@ implies table::some_row(
        before.milestones@,
        taken,
    ) by {
        assert(taken(before.milestones@[j]));
    }
}

/// Setting a membership ends as its first unmet condition says, and takes effect where all are met;
/// what does not take effect changes nothing. In their order: the team exists; the key was not used.
#[verifier::rlimit(40)]
pub proof fn law_set_team_member_answers(
    before: Store,
    after: Store,
    call: Invocation,
    r: SetTeamMemberRequest,
    result: Result<Completion<TeamMemberValue>, StorageError>,
)
    requires
        teams::set_team_member_outcome(before, after, call, r, result),
    ensures
        ({
            let row = the_membership(before, r.organization_id@, r.team_id@, r.subject@);
            if !seen::team_exists(before, r.organization_id@, r.team_id@) {
                answers::refused(result, DomainFailure::NotFound)
            } else if answers::key_used(before, call, "set_team_member"@, r.idempotency_key@) {
                answers::answered_before(before, call, "set_team_member"@, r.idempotency_key@, result)
            } else if membership_exists(before, r.organization_id@, r.team_id@, r.subject@) && row.active != r.active
                && row.revision == i64::MAX {
                answers::faulted(result)
            } else if before.next_activity == i64::MAX {
                answers::faulted(result)
            } else {
                answers::took_effect(result)
            }
        }),
        !answers::took_effect(result) ==> after == before,
{
    answers::lemma_key_used(before, call, "set_team_member"@, r.idempotency_key@, result);
    lemma_membership_found(before, r.organization_id@, r.team_id@, r.subject@);
    seen::lemma_team_row(before, r.organization_id@, r.team_id@);
}

/// Putting a workflow state ends as its first unmet condition says, and takes effect where all are
/// met; what does not take effect changes nothing. In their order: the team exists; the key was not
/// used; one that is replaced exists, keeps its category and has the expected revision; a new one has
/// a free id.
#[verifier::rlimit(40)]
pub proof fn law_put_workflow_state_answers(
    before: Store,
    after: Store,
    call: Invocation,
    r: PutWorkflowStateRequest,
    result: Result<Completion<WorkflowStateValue>, StorageError>,
)
    requires
        workflow::put_workflow_state_outcome(before, after, call, r, result),
    ensures
        ({
            let row = the_team_state(before, r.organization_id@, r.team_id@, r.state_id@);
            if !seen::team_exists(before, r.organization_id@, r.team_id@) {
                answers::refused(result, DomainFailure::NotFound)
            } else if answers::key_used(before, call, "put_workflow_state"@, r.idempotency_key@) {
                answers::answered_before(before, call, "put_workflow_state"@, r.idempotency_key@, result)
            } else if (r.expected_revision matches Some(expected) && !team_state_exists(before, r.organization_id@, r.team_id@, r.state_id@)) {
                answers::refused(result, DomainFailure::NotFound)
            } else if (r.expected_revision matches Some(expected) && row.category != r.category) {
                answers::refused(result, DomainFailure::InvalidRequest)
            } else if (r.expected_revision matches Some(expected) && validate::revision_value(expected@) is None) {
                answers::refused(result, DomainFailure::InvalidRequest)
            } else if (r.expected_revision matches Some(expected) && validate::revision_value(expected@) != Some(row.revision as int)) {
                answers::refused(result, DomainFailure::RevisionConflict)
            } else if !(i32::MIN <= r.position <= i32::MAX) {
                answers::faulted(result)
            } else if r.expected_revision is Some && row.revision == i64::MAX {
                answers::faulted(result)
            } else if r.expected_revision is None && before.next_row == i64::MAX {
                answers::faulted(result)
            } else if r.expected_revision is None && (exists|j: int|
                0 <= j < before.workflow_states@.len() && (#[trigger] before.workflow_states@[j]).state_id@ == r.state_id@) {
                answers::refused(result, DomainFailure::KeyConflict)
            } else if before.next_activity == i64::MAX {
                answers::faulted(result)
            } else {
                answers::took_effect(result)
            }
        }),
        !answers::took_effect(result) ==> after == before,
{
    answers::lemma_key_used(before, call, "put_workflow_state"@, r.idempotency_key@, result);
    lemma_team_state_found(before, r.organization_id@, r.team_id@, r.state_id@);
    seen::lemma_team_row(before, r.organization_id@, r.team_id@);
    let taken = store::has_state_id(r.state_id@);
    if table::some_row(before.workflow_states@, taken) {
        let j = choose|j: int| 0 <= j < before.workflow_states@.len() && taken(#[trigger] before.workflow_states@[j]);
        assert(before.workflow_states@[j].state_id@ == r.state_id@);
    }
    assert forall|j: int|
        0 <= j < before.workflow_states@.len() && (#[trigger] before.workflow_states@[j]).state_id@ == r.state_id@ implies table::some_row(
        before.workflow_states@,
        taken,
    ) by {
        assert(taken(before.workflow_states@[j]));
    }
}

/// Archiving or restoring a workflow state ends as its first unmet condition says, and takes effect
/// where all are met; what does not take effect changes nothing. In their order: the expected
/// revision is a number; the key was not used; the state exists; one to archive is not the default of
/// its team, and no issue is in it; the revision is the expected one.
#[verifier::rlimit(40)]
pub proof fn law_archive_workflow_state_answers(
    before: Store,
    after: Store,
    call: Invocation,
    r: ArchiveWorkflowStateRequest,
    result: Result<Completion<WorkflowStateValue>, StorageError>,
)
    requires
        workflow::archive_workflow_state_outcome(before, after, call, r, result),
    ensures
        ({
            let row = the_any_state(before, r.organization_id@, r.state_id@);
            if validate::revision_value(r.expected_revision@) is None {
                answers::refused(result, DomainFailure::InvalidRequest)
            } else if answers::key_used(before, call, "archive_workflow_state"@, r.idempotency_key@) {
                answers::answered_before(before, call, "archive_workflow_state"@, r.idempotency_key@, result)
            } else if !any_state_exists(before, r.organization_id@, r.state_id@) {
                answers::refused(result, DomainFailure::NotFound)
            } else if r.archived && seen::team_exists(before, r.organization_id@, row.team_id@) && answers::the_team(
                before,
                r.organization_id@,
                row.team_id@,
            ).default_workflow_state_id@ == r.state_id@ {
                answers::refused(result, DomainFailure::DefaultStateInvalid)
            } else if r.archived && (exists|j: int|
                0 <= j < before.issues@.len() && (#[trigger] before.issues@[j]).organization_id@ == r.organization_id@
                    && before.issues@[j].workflow_state_id@ == r.state_id@) {
                answers::refused(result, DomainFailure::ActiveReference)
            } else if validate::revision_value(r.expected_revision@) != Some(row.revision as int) {
                answers::refused(result, DomainFailure::RevisionConflict)
            } else if row.revision == i64::MAX {
                answers::faulted(result)
            } else if before.next_activity == i64::MAX {
                answers::faulted(result)
            } else {
                answers::took_effect(result)
            }
        }),
        !answers::took_effect(result) ==> after == before,
{
    answers::lemma_key_used(before, call, "archive_workflow_state"@, r.idempotency_key@, result);
    lemma_any_state_found(before, r.organization_id@, r.state_id@);
    let team = the_any_state(before, r.organization_id@, r.state_id@).team_id@;
    answers::lemma_team(before, r.organization_id@, team, call.actor@);
    let used = workflow::uses_state(r.organization_id@, r.state_id@);
    if table::some_row(before.issues@, used) {
        let j = choose|j: int| 0 <= j < before.issues@.len() && used(#[trigger] before.issues@[j]);
        assert(before.issues@[j].organization_id@ == r.organization_id@);
    }
    assert forall|j: int|
        0 <= j < before.issues@.len() && (#[trigger] before.issues@[j]).organization_id@ == r.organization_id@
            && before.issues@[j].workflow_state_id@ == r.state_id@ implies table::some_row(before.issues@, used) by {
        assert(used(before.issues@[j]));
    }
}

/// Deleting a workflow state ends as its first unmet condition says, and takes effect where all are
/// met; what does not take effect changes nothing. In their order: the expected revision is a number;
/// the key was not used; the team has the state; the revision is the expected one; it is not the
/// default of the team; no issue of the team is in it; it is archived.
#[verifier::rlimit(40)]
pub proof fn law_delete_workflow_state_answers(
    before: Store,
    after: Store,
    call: Invocation,
    r: DeleteWorkflowStateRequest,
    result: Result<Completion<DeletedWorkflowState>, StorageError>,
)
    requires
        workflow::delete_workflow_state_outcome(before, after, call, r, result),
    ensures
        ({
            let row = the_team_state(before, r.organization_id@, r.team_id@, r.state_id@);
            if validate::revision_value(r.expected_revision@) is None {
                answers::refused(result, DomainFailure::InvalidRequest)
            } else if answers::key_used(before, call, "delete_workflow_state"@, r.idempotency_key@) {
                answers::answered_before(before, call, "delete_workflow_state"@, r.idempotency_key@, result)
            } else if !team_state_exists(before, r.organization_id@, r.team_id@, r.state_id@) {
                answers::refused(result, DomainFailure::NotFound)
            } else if validate::revision_value(r.expected_revision@) != Some(row.revision as int) {
                answers::refused(result, DomainFailure::RevisionConflict)
            } else if seen::team_exists(before, r.organization_id@, r.team_id@) && answers::the_team(
                before,
                r.organization_id@,
                r.team_id@,
            ).default_workflow_state_id@ == r.state_id@ {
                answers::refused(result, DomainFailure::DefaultStateInvalid)
            } else if (exists|j: int|
                0 <= j < before.issues@.len() && (#[trigger] before.issues@[j]).organization_id@ == r.organization_id@
                    && before.issues@[j].team_id@ == r.team_id@ && before.issues@[j].workflow_state_id@ == r.state_id@) {
                answers::refused(result, DomainFailure::ActiveReference)
            } else if !row.archived {
                answers::refused(result, DomainFailure::InvalidRequest)
            } else if before.next_activity == i64::MAX {
                answers::faulted(result)
            } else {
                answers::took_effect(result)
            }
        }),
        !answers::took_effect(result) ==> after == before,
{
    answers::lemma_key_used(before, call, "delete_workflow_state"@, r.idempotency_key@, result);
    lemma_team_state_found(before, r.organization_id@, r.team_id@, r.state_id@);
    answers::lemma_team(before, r.organization_id@, r.team_id@, call.actor@);
    let used = workflow::uses_team_state(r.organization_id@, r.team_id@, r.state_id@);
    if table::some_row(before.issues@, used) {
        let j = choose|j: int| 0 <= j < before.issues@.len() && used(#[trigger] before.issues@[j]);
        assert(before.issues@[j].organization_id@ == r.organization_id@);
    }
    assert forall|j: int|
        0 <= j < before.issues@.len() && (#[trigger] before.issues@[j]).organization_id@ == r.organization_id@
            && before.issues@[j].team_id@ == r.team_id@ && before.issues@[j].workflow_state_id@ == r.state_id@ implies table::some_row(before.issues@, used) by {
        assert(used(before.issues@[j]));
    }
}

/// In an organization that is set up: putting a project status ends as its first unmet condition
/// says, and takes effect where all are met; what does not take effect changes nothing. In their
/// order: the key was not used; one that is replaced exists, keeps its category and has the expected
/// revision; a new one has a free id.
#[verifier::rlimit(40)]
pub proof fn law_put_project_status_answers(
    before: Store,
    after: Store,
    call: Invocation,
    r: PutProjectStatusRequest,
    ids: StatusIds,
    result: Result<Completion<ProjectStatusValue>, StorageError>,
)
    requires
        workspace_exists(before, r.organization_id@),
        project_status::put_project_status_outcome(before, after, call, r, ids, result),
    ensures
        ({
            let row = the_status(before, r.organization_id@, r.status_id@);
            if answers::key_used(before, call, "put_project_status"@, r.idempotency_key@) {
                answers::answered_before(before, call, "put_project_status"@, r.idempotency_key@, result)
            } else if (r.expected_revision matches Some(expected) && !status_exists(before, r.organization_id@, r.status_id@)) {
                answers::refused(result, DomainFailure::NotFound)
            } else if (r.expected_revision matches Some(expected) && row.category != r.category) {
                answers::refused(result, DomainFailure::InvalidRequest)
            } else if (r.expected_revision matches Some(expected) && validate::revision_value(expected@) is None) {
                answers::refused(result, DomainFailure::InvalidRequest)
            } else if (r.expected_revision matches Some(expected) && validate::revision_value(expected@) != Some(row.revision as int)) {
                answers::refused(result, DomainFailure::RevisionConflict)
            } else if !(i32::MIN <= r.position <= i32::MAX) {
                answers::faulted(result)
            } else if r.expected_revision is Some && row.revision == i64::MAX {
                answers::faulted(result)
            } else if r.expected_revision is None && before.next_row == i64::MAX {
                answers::faulted(result)
            } else if r.expected_revision is None && (exists|j: int|
                0 <= j < before.project_statuses@.len() && (#[trigger] before.project_statuses@[j]).status_id@ == r.status_id@) {
                answers::refused(result, DomainFailure::KeyConflict)
            } else if before.next_activity == i64::MAX {
                answers::faulted(result)
            } else {
                answers::took_effect(result)
            }
        }),
        !answers::took_effect(result) ==> after == before,
{
    answers::lemma_key_used(before, call, "put_project_status"@, r.idempotency_key@, result);
    lemma_workspace_found(before, r.organization_id@);
    lemma_status_found(before, r.organization_id@, r.status_id@);
    let taken = store::has_status_id(r.status_id@);
    if table::some_row(before.project_statuses@, taken) {
        let j = choose|j: int| 0 <= j < before.project_statuses@.len() && taken(#[trigger] before.project_statuses@[j]);
        assert(before.project_statuses@[j].status_id@ == r.status_id@);
    }
    assert forall|j: int|
        0 <= j < before.project_statuses@.len() && (#[trigger] before.project_statuses@[j]).status_id@ == r.status_id@ implies table::some_row(
        before.project_statuses@,
        taken,
    ) by {
        assert(taken(before.project_statuses@[j]));
    }
}

/// In an organization that is set up: archiving or restoring a project status ends as its first unmet
/// condition says, and takes effect where all are met; what does not take effect changes nothing. In
/// their order: the expected revision is a number; the key was not used; the status exists; one to
/// archive is not the default, and no project has it; the revision is the expected one.
#[verifier::rlimit(40)]
pub proof fn law_archive_project_status_answers(
    before: Store,
    after: Store,
    call: Invocation,
    r: ArchiveProjectStatusRequest,
    ids: StatusIds,
    result: Result<Completion<ProjectStatusValue>, StorageError>,
)
    requires
        workspace_exists(before, r.organization_id@),
        project_status::archive_project_status_outcome(before, after, call, r, ids, result),
    ensures
        ({
            let row = the_status(before, r.organization_id@, r.status_id@);
            if validate::revision_value(r.expected_revision@) is None {
                answers::refused(result, DomainFailure::InvalidRequest)
            } else if answers::key_used(before, call, "archive_project_status"@, r.idempotency_key@) {
                answers::answered_before(before, call, "archive_project_status"@, r.idempotency_key@, result)
            } else if !status_exists(before, r.organization_id@, r.status_id@) {
                answers::refused(result, DomainFailure::NotFound)
            } else if r.archived && row.is_default {
                answers::refused(result, DomainFailure::DefaultStateInvalid)
            } else if r.archived && (exists|j: int|
                0 <= j < before.projects@.len() && (#[trigger] before.projects@[j]).organization_id@ == r.organization_id@
                    && before.projects@[j].status_id@ == r.status_id@) {
                answers::refused(result, DomainFailure::ActiveReference)
            } else if validate::revision_value(r.expected_revision@) != Some(row.revision as int) {
                answers::refused(result, DomainFailure::RevisionConflict)
            } else if row.revision == i64::MAX {
                answers::faulted(result)
            } else if before.next_activity == i64::MAX {
                answers::faulted(result)
            } else {
                answers::took_effect(result)
            }
        }),
        !answers::took_effect(result) ==> after == before,
{
    answers::lemma_key_used(before, call, "archive_project_status"@, r.idempotency_key@, result);
    lemma_workspace_found(before, r.organization_id@);
    lemma_status_found(before, r.organization_id@, r.status_id@);
    let used = project_status::uses_status(r.organization_id@, r.status_id@);
    if table::some_row(before.projects@, used) {
        let j = choose|j: int| 0 <= j < before.projects@.len() && used(#[trigger] before.projects@[j]);
        assert(before.projects@[j].organization_id@ == r.organization_id@);
    }
    assert forall|j: int|
        0 <= j < before.projects@.len() && (#[trigger] before.projects@[j]).organization_id@ == r.organization_id@
            && before.projects@[j].status_id@ == r.status_id@ implies table::some_row(before.projects@, used) by {
        assert(used(before.projects@[j]));
    }
}

/// In an organization that is set up: deleting a project status ends as its first unmet condition
/// says, and takes effect where all are met; what does not take effect changes nothing. In their
/// order: the expected revision is a number; the key was not used; the status exists; the revision is
/// the expected one; it is not the default; no project has it; it is archived.
#[verifier::rlimit(40)]
pub proof fn law_delete_project_status_answers(
    before: Store,
    after: Store,
    call: Invocation,
    r: DeleteProjectStatusRequest,
    ids: StatusIds,
    result: Result<Completion<DeletedProjectStatus>, StorageError>,
)
    requires
        workspace_exists(before, r.organization_id@),
        project_status::delete_project_status_outcome(before, after, call, r, ids, result),
    ensures
        ({
            let row = the_status(before, r.organization_id@, r.status_id@);
            if validate::revision_value(r.expected_revision@) is None {
                answers::refused(result, DomainFailure::InvalidRequest)
            } else if answers::key_used(before, call, "delete_project_status"@, r.idempotency_key@) {
                answers::answered_before(before, call, "delete_project_status"@, r.idempotency_key@, result)
            } else if !status_exists(before, r.organization_id@, r.status_id@) {
                answers::refused(result, DomainFailure::NotFound)
            } else if validate::revision_value(r.expected_revision@) != Some(row.revision as int) {
                answers::refused(result, DomainFailure::RevisionConflict)
            } else if row.is_default {
                answers::refused(result, DomainFailure::DefaultStateInvalid)
            } else if (exists|j: int|
                0 <= j < before.projects@.len() && (#[trigger] before.projects@[j]).organization_id@ == r.organization_id@
                    && before.projects@[j].status_id@ == r.status_id@) {
                answers::refused(result, DomainFailure::ActiveReference)
            } else if !row.archived {
                answers::refused(result, DomainFailure::InvalidRequest)
            } else if before.next_activity == i64::MAX {
                answers::faulted(result)
            } else {
                answers::took_effect(result)
            }
        }),
        !answers::took_effect(result) ==> after == before,
{
    answers::lemma_key_used(before, call, "delete_project_status"@, r.idempotency_key@, result);
    lemma_workspace_found(before, r.organization_id@);
    lemma_status_found(before, r.organization_id@, r.status_id@);
    let used = project_status::uses_status(r.organization_id@, r.status_id@);
    if table::some_row(before.projects@, used) {
        let j = choose|j: int| 0 <= j < before.projects@.len() && used(#[trigger] before.projects@[j]);
        assert(before.projects@[j].organization_id@ == r.organization_id@);
    }
    assert forall|j: int|
        0 <= j < before.projects@.len() && (#[trigger] before.projects@[j]).organization_id@ == r.organization_id@
            && before.projects@[j].status_id@ == r.status_id@ implies table::some_row(before.projects@, used) by {
        assert(used(before.projects@[j]));
    }
}

/// Whether the teams differ from each other, and all exist.
pub open spec fn teams_known(s: Store, organization: Seq<char>, teams: Seq<String>) -> bool {
    &&& forall|j: int, k: int|
        0 <= j < k < teams.len() ==> (#[trigger] teams[j])@ != (#[trigger] teams[k])@
    &&& forall|k: int|
        0 <= k < teams.len() ==> seen::team_exists(s, organization, (#[trigger] teams[k])@)
}

proof fn lemma_teams(s: Store, organization: Seq<char>, teams: Seq<String>, subject: Seq<char>)
    ensures
        s.teams_refusal(organization, teams, subject) == if !teams_known(s, organization, teams) {
            Some(DomainFailure::TeamNotFound)
        } else if seen::closed_among(s, organization, teams, subject) {
            Some(DomainFailure::PrivateTeam)
        } else {
            None
        },
{
    seen::lemma_hidden_among(s, organization, teams, subject);
    assert forall|k: int| 0 <= k < teams.len() implies s.team_at(
        organization,
        (#[trigger] teams[k])@,
    ) is Some == seen::team_exists(s, organization, teams[k]@) by {
        seen::lemma_team_row(s, organization, teams[k]@);
    }
}

/// Whether a project can have the status: the organization's first one with this id is not archived.
pub open spec fn status_usable(s: Store, organization: Seq<char>, status: Seq<char>) -> bool {
    status_exists(s, organization, status) && !the_status(s, organization, status).archived
}

/// The status that a new project gets: the requested one, or the organization's default.
pub open spec fn wanted_status(s: Store, organization: Seq<char>, requested: Option<String>) -> Seq<char> {
    match requested {
        Some(id) => id@,
        None => the_workspace(s, organization).default_project_status_id@,
    }
}

/// Whether a text that is given is a date.
pub open spec fn is_day(given: Option<String>) -> bool {
    given matches Some(day) ==> clock::iso_date(day@) is Some
}

/// In an organization that is set up: the creation of a project ends as its first unmet condition
/// says, and takes effect where all are met; what does not take effect changes nothing. In their
/// order: the teams differ and exist; the actor can see them all; the milestone is one of the
/// project; the dates are dates; the key was not used; the status that is asked for, or else the
/// default, can be used; the id is free; there is a team.
#[verifier::rlimit(40)]
pub proof fn law_create_project_answers(
    before: Store,
    after: Store,
    call: Invocation,
    r: CreateProjectRequest,
    ids: StatusIds,
    result: Result<Completion<ProjectValue>, StorageError>,
)
    requires
        workspace_exists(before, r.organization_id@),
        projects::create_project_outcome(before, after, call, r, ids, result),
    ensures
        ({
            if !teams_known(before, r.organization_id@, r.team_ids@) {
                answers::refused(result, DomainFailure::TeamNotFound)
            } else if seen::closed_among(before, r.organization_id@, r.team_ids@, call.actor@) {
                answers::refused(result, DomainFailure::PrivateTeam)
            } else if !answers::milestone_known(before, r.organization_id@, r.project_id@, r.milestone_id) {
                answers::refused(result, DomainFailure::MilestoneNotFound)
            } else if !is_day(r.start_date) || !is_day(r.target_date) {
                answers::refused(result, DomainFailure::InvalidRequest)
            } else if answers::key_used(before, call, "create_project"@, r.idempotency_key@) {
                answers::answered_before(before, call, "create_project"@, r.idempotency_key@, result)
            } else if !status_usable(before, r.organization_id@, wanted_status(before, r.organization_id@, r.status_id)) {
                answers::refused(result, DomainFailure::ProjectStatusNotFound)
            } else if before.next_row == i64::MAX {
                answers::faulted(result)
            } else if exists|j: int|
                0 <= j < before.projects@.len() && (#[trigger] before.projects@[j]).project_id@ == r.project_id@ {
                answers::refused(result, DomainFailure::IdentifierConflict)
            } else if before.next_activity == i64::MAX {
                answers::faulted(result)
            } else if r.team_ids@.len() == 0 {
                answers::faulted(result)
            } else {
                answers::took_effect(result)
            }
        }),
        !answers::took_effect(result) ==> after == before,
{
    answers::lemma_key_used(before, call, "create_project"@, r.idempotency_key@, result);
    lemma_workspace_found(before, r.organization_id@);
    lemma_teams(before, r.organization_id@, r.team_ids@, call.actor@);
    if let Some(id) = r.milestone_id {
        answers::lemma_milestone(before, r.organization_id@, r.project_id@, id@);
    }
    lemma_status_found(before, r.organization_id@, wanted_status(before, r.organization_id@, r.status_id));
    let taken = store::has_project_id(r.project_id@);
    if table::some_row(before.projects@, taken) {
        let j = choose|j: int| 0 <= j < before.projects@.len() && taken(#[trigger] before.projects@[j]);
        assert(before.projects@[j].project_id@ == r.project_id@);
    }
    assert forall|j: int|
        0 <= j < before.projects@.len() && (#[trigger] before.projects@[j]).project_id@ == r.project_id@ implies table::some_row(
        before.projects@,
        taken,
    ) by {
        assert(taken(before.projects@[j]));
    }
}

/// In an organization that is set up: the update of a project ends as its first unmet condition says,
/// and takes effect where all are met; what does not take effect changes nothing. In their order: the
/// project exists; the actor can see it; the teams differ and exist; the actor can see them all; the
/// milestone is one of the project; the expected revision is a number and the dates are dates; the
/// key was not used; the team of every issue of the project stays; the status can be used; the
/// revision is the expected one; there is a team.
#[verifier::rlimit(40)]
pub proof fn law_update_project_answers(
    before: Store,
    after: Store,
    call: Invocation,
    r: UpdateProjectRequest,
    ids: StatusIds,
    result: Result<Completion<ProjectValue>, StorageError>,
)
    requires
        workspace_exists(before, r.organization_id@),
        projects::update_project_outcome(before, after, call, r, ids, result),
    ensures
        ({
            let row = answers::the_project(before, r.organization_id@, r.project_id@);
            if !seen::project_exists(before, r.organization_id@, r.project_id@) {
                answers::refused(result, DomainFailure::NotFound)
            } else if seen::closed_project(before, r.organization_id@, r.project_id@, call.actor@) {
                answers::refused(result, DomainFailure::PrivateTeam)
            } else if !teams_known(before, r.organization_id@, r.team_ids@) {
                answers::refused(result, DomainFailure::TeamNotFound)
            } else if seen::closed_among(before, r.organization_id@, r.team_ids@, call.actor@) {
                answers::refused(result, DomainFailure::PrivateTeam)
            } else if !answers::milestone_known(before, r.organization_id@, r.project_id@, r.milestone_id) {
                answers::refused(result, DomainFailure::MilestoneNotFound)
            } else if validate::revision_value(r.expected_revision@) is None || !is_day(r.start_date) || !is_day(
                r.target_date,
            ) {
                answers::refused(result, DomainFailure::InvalidRequest)
            } else if answers::key_used(before, call, "update_project"@, r.idempotency_key@) {
                answers::answered_before(before, call, "update_project"@, r.idempotency_key@, result)
            } else if (exists|j: int|
                0 <= j < before.issues@.len() && (#[trigger] before.issues@[j]).organization_id@ == r.organization_id@
                    && before.issues@[j].project_id@ == r.project_id@ && (forall|k: int|
                    0 <= k < r.team_ids@.len() ==> (#[trigger] r.team_ids@[k])@ != before.issues@[j].team_id@)) {
                answers::refused(result, DomainFailure::ActiveReference)
            } else if !status_usable(before, r.organization_id@, r.status_id@) {
                answers::refused(result, DomainFailure::ProjectStatusNotFound)
            } else if validate::revision_value(r.expected_revision@) != Some(row.revision as int) {
                answers::refused(result, DomainFailure::RevisionConflict)
            } else if row.revision == i64::MAX {
                answers::faulted(result)
            } else if before.next_activity == i64::MAX {
                answers::faulted(result)
            } else if r.team_ids@.len() == 0 {
                answers::faulted(result)
            } else {
                answers::took_effect(result)
            }
        }),
        !answers::took_effect(result) ==> after == before,
{
    answers::lemma_key_used(before, call, "update_project"@, r.idempotency_key@, result);
    lemma_workspace_found(before, r.organization_id@);
    answers::lemma_project(before, r.organization_id@, r.project_id@, call.actor@);
    lemma_teams(before, r.organization_id@, r.team_ids@, call.actor@);
    if let Some(id) = r.milestone_id {
        answers::lemma_milestone(before, r.organization_id@, r.project_id@, id@);
    }
    lemma_status_found(before, r.organization_id@, r.status_id@);
    let covered = projects::stays_covered(r.organization_id@, r.project_id@, r.team_ids@);
    if !table::every_row(before.issues@, covered) {
        let j = choose|j: int| 0 <= j < before.issues@.len() && !covered(#[trigger] before.issues@[j]);
        assert(before.issues@[j].organization_id@ == r.organization_id@);
    }
    assert forall|j: int|
        0 <= j < before.issues@.len() && (#[trigger] before.issues@[j]).organization_id@ == r.organization_id@
            && before.issues@[j].project_id@ == r.project_id@ && (forall|k: int|
            0 <= k < r.team_ids@.len() ==> (#[trigger] r.team_ids@[k])@ != before.issues@[j].team_id@) implies !table::every_row(
        before.issues@,
        covered,
    ) by {
        assert(!covered(before.issues@[j]));
    }
}

/// In an organization that is set up: putting a team ends as its first unmet condition says, and
/// takes effect where all are met; what does not take effect changes nothing. In their order: no
/// other team has the key; the command key was not used; one that is replaced is given one of its own
/// states as its default, unstarted and not archived, exists and has the expected revision; a new one
/// is given no default, and has a free id.
#[verifier::rlimit(40)]
pub proof fn law_put_team_answers(
    before: Store,
    after: Store,
    call: Invocation,
    r: PutTeamRequest,
    ids: StatusIds,
    states: WorkflowIds,
    result: Result<Completion<TeamValue>, StorageError>,
)
    requires
        workspace_exists(before, r.organization_id@),
        teams::put_team_outcome(before, after, call, r, ids, states, result),
    ensures
        ({
            let row = answers::the_team(before, r.organization_id@, r.team_id@);
            if (exists|j: int|
                0 <= j < before.teams@.len() && (#[trigger] before.teams@[j]).organization_id@ == r.organization_id@
                    && before.teams@[j].key@ == r.key@ && before.teams@[j].team_id@ != r.team_id@) {
                answers::refused(result, DomainFailure::KeyConflict)
            } else if answers::key_used(before, call, "put_team"@, r.idempotency_key@) {
                answers::answered_before(before, call, "put_team"@, r.idempotency_key@, result)
            } else if (r.expected_revision matches Some(expected) && !(r.default_workflow_state_id matches Some(state) && team_state_exists(
                before,
                r.organization_id@,
                r.team_id@,
                state@,
            ) && the_team_state(before, r.organization_id@, r.team_id@, state@).category
                == WorkflowCategory::Unstarted && !the_team_state(
                before,
                r.organization_id@,
                r.team_id@,
                state@,
            ).archived)) {
                answers::refused(result, DomainFailure::DefaultStateInvalid)
            } else if (r.expected_revision matches Some(expected) && validate::revision_value(expected@) is None) {
                answers::refused(result, DomainFailure::InvalidRequest)
            } else if (r.expected_revision matches Some(expected) && (!seen::team_exists(before, r.organization_id@, r.team_id@)
                || validate::revision_value(expected@) != Some(row.revision as int))) {
                answers::refused(result, DomainFailure::RevisionConflict)
            } else if r.expected_revision is Some && row.revision == i64::MAX {
                answers::faulted(result)
            } else if r.expected_revision is None && r.default_workflow_state_id is Some {
                answers::refused(result, DomainFailure::DefaultStateInvalid)
            } else if r.expected_revision is None && before.next_row == i64::MAX {
                answers::faulted(result)
            } else if r.expected_revision is None && (exists|j: int|
                0 <= j < before.teams@.len() && (#[trigger] before.teams@[j]).team_id@ == r.team_id@) {
                answers::refused(result, DomainFailure::KeyConflict)
            } else if r.expected_revision is None && (before.next_row + 6 > i64::MAX || !states.are_free(before)) {
                answers::faulted(result)
            } else if before.next_activity == i64::MAX {
                answers::faulted(result)
            } else {
                answers::took_effect(result)
            }
        }),
        !answers::took_effect(result) ==> after == before,
{
    answers::lemma_key_used(before, call, "put_team"@, r.idempotency_key@, result);
    lemma_workspace_found(before, r.organization_id@);
    answers::lemma_team(before, r.organization_id@, r.team_id@, call.actor@);
    if let Some(state) = r.default_workflow_state_id {
        lemma_team_state_found(before, r.organization_id@, r.team_id@, state@);
    }
    let owner = teams::owns_key(r.organization_id@, r.key@, r.team_id@);
    if table::some_row(before.teams@, owner) {
        let j = choose|j: int| 0 <= j < before.teams@.len() && owner(#[trigger] before.teams@[j]);
        assert(before.teams@[j].organization_id@ == r.organization_id@);
    }
    assert forall|j: int|
        0 <= j < before.teams@.len() && (#[trigger] before.teams@[j]).organization_id@ == r.organization_id@
            && before.teams@[j].key@ == r.key@ && before.teams@[j].team_id@ != r.team_id@ implies table::some_row(
        before.teams@,
        owner,
    ) by {
        assert(owner(before.teams@[j]));
    }
    let taken = store::has_team_id(r.team_id@);
    if table::some_row(before.teams@, taken) {
        let j = choose|j: int| 0 <= j < before.teams@.len() && taken(#[trigger] before.teams@[j]);
        assert(before.teams@[j].team_id@ == r.team_id@);
    }
    assert forall|j: int|
        0 <= j < before.teams@.len() && (#[trigger] before.teams@[j]).team_id@ == r.team_id@ implies table::some_row(
        before.teams@,
        taken,
    ) by {
        assert(taken(before.teams@[j]));
    }
}

/// Whether this is the first record of the identifier.
pub open spec fn alias_row(s: Store, a: int, organization: Seq<char>, identifier: Seq<char>) -> bool {
    &&& 0 <= a < s.aliases@.len()
    &&& s.aliases@[a].organization_id@ == organization
    &&& s.aliases@[a].identifier@ == identifier
    &&& forall|u: int|
        0 <= u < a ==> !((#[trigger] s.aliases@[u]).organization_id@ == organization
            && s.aliases@[u].identifier@ == identifier)
}

proof fn lemma_alias_row(s: Store, organization: Seq<char>, identifier: Seq<char>)
    ensures
        match s.alias_at(organization, identifier) {
            Some(a) => alias_row(s, a, organization, identifier),
            None => forall|a: int| !(#[trigger] alias_row(s, a, organization, identifier)),
        },
        forall|a: int| #[trigger]
            alias_row(s, a, organization, identifier) ==> s.alias_at(organization, identifier)
                == Some(a),
{
    let keep = store::is_alias(organization, identifier);
    table::lemma_first_where(s.aliases@, keep);
    assert forall|a: int| #[trigger] alias_row(s, a, organization, identifier) implies s.alias_at(
        organization,
        identifier,
    ) == Some(a) by {
        assert(keep(s.aliases@[a]));
        let f = s.alias_at(organization, identifier)->0;
        if f < a {
            assert(keep(s.aliases@[f]));
        }
    }
    if let Some(a) = s.alias_at(organization, identifier) {
        assert(keep(s.aliases@[a]));
        assert forall|u: int| 0 <= u < a implies !((
        #[trigger] s.aliases@[u]).organization_id@ == organization && s.aliases@[u].identifier@
            == identifier) by {
            assert(!keep(s.aliases@[u]));
        }
    }
}

/// An issue is read by its id, or else by an identifier that it has or had: where there is none, it
/// is not found; where it is closed to the actor, that is said; else it is shown with every field.
#[verifier::rlimit(40)]
pub proof fn law_get_issue_answers(
    s: Store,
    actor: Seq<char>,
    q: GetIssueRequest,
    read: Result<IssueValue, StorageError>,
)
    requires
        issues::get_issue_outcome(s, actor, q, read),
    ensures
        ({
            let organization = q.organization_id@;
            let id = if exists|i: int| #[trigger] seen::issue_row(s, i, organization, q.issue_ref@) {
                Some(q.issue_ref@)
            } else if exists|a: int| #[trigger] alias_row(s, a, organization, q.issue_ref@) {
                Some(s.aliases@[choose|a: int| #[trigger] alias_row(s, a, organization, q.issue_ref@)].issue_id@)
            } else {
                None
            };
            if id is None || !answers::issue_found(s, organization, id->0) {
                read matches Err(StorageError::Domain(failure)) && failure == DomainFailure::NotFound
            } else if !seen::open_issue(s, answers::the_issue(s, organization, id->0), actor) {
                read matches Err(StorageError::Domain(failure)) && failure == DomainFailure::PrivateTeam
            } else {
                read matches Ok(value) && listings::shows_issue(
                    answers::the_issue(s, organization, id->0),
                    value,
                )
            }
        }),
{
    let organization = q.organization_id@;
    seen::lemma_issue_row(s, organization, q.issue_ref@);
    lemma_alias_row(s, organization, q.issue_ref@);
    if let Some(i) = s.issue_at(organization, q.issue_ref@) {
        assert(seen::issue_row(s, i, organization, q.issue_ref@));
    }
    if let Some(id) = issues::resolved_issue(s, organization, q.issue_ref@) {
        answers::lemma_issue(s, organization, id, actor);
    }
}

/// A project that does not exist, or has no team, is not found; one that is closed to the actor is
/// refused as private; any other is shown with every field.
#[verifier::rlimit(40)]
pub proof fn law_get_project_answers(
    s: Store,
    actor: Seq<char>,
    q: GetProjectRequest,
    read: Result<ProjectValue, StorageError>,
)
    requires
        projects::get_project_outcome(s, actor, q, read),
    ensures
        ({
            let row = answers::the_project(s, q.organization_id@, q.project_id@);
            if !seen::project_exists(s, q.organization_id@, q.project_id@) {
                read matches Err(StorageError::Domain(failure)) && failure == DomainFailure::NotFound
            } else if seen::closed_project(s, q.organization_id@, q.project_id@, actor) {
                read matches Err(StorageError::Domain(failure)) && failure == DomainFailure::PrivateTeam
            } else if row.team_ids@.len() == 0 {
                read matches Err(StorageError::Domain(failure)) && failure == DomainFailure::NotFound
            } else {
                read matches Ok(value) && listings::shows_project(row, value)
            }
        }),
{
    answers::lemma_project(s, q.organization_id@, q.project_id@, actor);
}

/// The assignment of an issue that does not exist is not found, of one that is closed to the actor
/// refused as private; that of any other is shown.
#[verifier::rlimit(40)]
pub proof fn law_get_issue_assignee_answers(
    s: Store,
    actor: Seq<char>,
    q: GetIssueAssigneeRequest,
    read: Result<AssigneeValue, StorageError>,
)
    requires
        issues::get_issue_assignee_outcome(s, actor, q, read),
    ensures
        ({
            let row = answers::the_issue(s, q.organization_id@, q.issue_id@);
            if !answers::issue_found(s, q.organization_id@, q.issue_id@) {
                read matches Err(StorageError::Domain(failure)) && failure == DomainFailure::NotFound
            } else if !seen::open_issue(s, row, actor) {
                read matches Err(StorageError::Domain(failure)) && failure == DomainFailure::PrivateTeam
            } else {
                read matches Ok(value) && value.issue_id@ == row.issue_id@ && value.organization_id@
                    == row.organization_id@ && text::text_of(value.assignee_subject) == text::text_of(
                    row.assignee_subject,
                ) && value.revision@ == text::integer_text(row.revision as int)
            }
        }),
{
    answers::lemma_issue(s, q.organization_id@, q.issue_id@, actor);
}

/// A workflow state that the team does not have is not found; any other is shown with every field.
#[verifier::rlimit(40)]
pub proof fn law_get_workflow_state_answers(
    s: Store,
    q: GetWorkflowStateRequest,
    read: Result<WorkflowStateValue, StorageError>,
)
    requires
        workflow::get_workflow_state_outcome(s, q, read),
    ensures
        if !team_state_exists(s, q.organization_id@, q.team_id@, q.state_id@) {
            read matches Err(StorageError::Domain(failure)) && failure == DomainFailure::NotFound
        } else {
            read matches Ok(value) && catalogs::shows_state(
                the_team_state(s, q.organization_id@, q.team_id@, q.state_id@),
                value,
            )
        },
{
    lemma_team_state_found(s, q.organization_id@, q.team_id@, q.state_id@);
}

/// In an organization that is set up, a project status that it does not have is not found; any other
/// is shown with every field; nothing changes.
#[verifier::rlimit(40)]
pub proof fn law_get_project_status_answers(
    before: Store,
    after: Store,
    q: GetProjectStatusRequest,
    ids: StatusIds,
    read: Result<ProjectStatusValue, StorageError>,
)
    requires
        workspace_exists(before, q.organization_id@),
        project_status::get_project_status_outcome(before, after, q, ids, read),
    ensures
        if !status_exists(before, q.organization_id@, q.status_id@) {
            read matches Err(StorageError::Domain(failure)) && failure == DomainFailure::NotFound
        } else {
            read matches Ok(value) && catalogs::shows_status(
                the_status(before, q.organization_id@, q.status_id@),
                value,
            )
        },
        after == before,
{
    lemma_workspace_found(before, q.organization_id@);
    lemma_status_found(before, q.organization_id@, q.status_id@);
}

/// A listing of issues is answered exactly where its limit is from 1 to 100 and its cursor, where
/// there is one, is a number.
#[verifier::rlimit(40)]
pub proof fn law_list_issues_answers(
    s: Store,
    actor: Seq<char>,
    r: ListIssuesRequest,
    read: Result<Page<IssueValue>, StorageError>,
)
    requires
        issues::list_issues_outcome(s, actor, r, read),
    ensures
        if !(1 <= r.limit <= 100) || (r.after matches Some(cursor) && validate::revision_value(
            cursor@,
        ) is None) {
            read matches Err(StorageError::Domain(failure)) && failure == DomainFailure::InvalidRequest
        } else {
            read is Ok
        },
{
}

/// A listing of projects is answered exactly where its cursor, where there is one, is a number, and
/// rows can be read with its limit.
#[verifier::rlimit(40)]
pub proof fn law_list_projects_answers(
    s: Store,
    actor: Seq<char>,
    r: ListProjectsRequest,
    read: Result<Page<ProjectValue>, StorageError>,
)
    requires
        projects::list_projects_outcome(s, actor, r, read),
    ensures
        if (r.after matches Some(cursor) && validate::revision_value(cursor@) is None) {
            read matches Err(StorageError::Domain(failure)) && failure == DomainFailure::InvalidRequest
        } else if r.limit < -1 {
            read matches Err(StorageError::Runtime(_))
        } else {
            read is Ok
        },
{
}

/// A listing of teams is answered exactly where its cursor, where there is one, is a number, and rows
/// can be read with its limit.
#[verifier::rlimit(40)]
pub proof fn law_list_teams_answers(
    s: Store,
    r: ListTeamsRequest,
    read: Result<Page<TeamValue>, StorageError>,
)
    requires
        teams::list_teams_outcome(s, r, read),
    ensures
        if (r.after matches Some(cursor) && validate::revision_value(cursor@) is None) {
            read matches Err(StorageError::Domain(failure)) && failure == DomainFailure::InvalidRequest
        } else if r.limit < -1 {
            read matches Err(StorageError::Runtime(_))
        } else {
            read is Ok
        },
{
}

/// A listing of labels is answered exactly where its cursor, where there is one, is a number, and
/// rows can be read with its limit.
#[verifier::rlimit(40)]
pub proof fn law_list_labels_answers(
    s: Store,
    r: ListLabelsRequest,
    read: Result<Page<LabelValue>, StorageError>,
)
    requires
        planning::list_labels_outcome(s, r, read),
    ensures
        if (r.after matches Some(cursor) && validate::revision_value(cursor@) is None) {
            read matches Err(StorageError::Domain(failure)) && failure == DomainFailure::InvalidRequest
        } else if r.limit < -1 {
            read matches Err(StorageError::Runtime(_))
        } else {
            read is Ok
        },
{
}

/// A listing of cycles is answered exactly where its cursor, where there is one, is a number, and
/// rows can be read with its limit.
#[verifier::rlimit(40)]
pub proof fn law_list_cycles_answers(
    s: Store,
    r: ListCyclesRequest,
    read: Result<Page<CycleValue>, StorageError>,
)
    requires
        planning::list_cycles_outcome(s, r, read),
    ensures
        if (r.after matches Some(cursor) && validate::revision_value(cursor@) is None) {
            read matches Err(StorageError::Domain(failure)) && failure == DomainFailure::InvalidRequest
        } else if r.limit < -1 {
            read matches Err(StorageError::Runtime(_))
        } else {
            read is Ok
        },
{
}

/// A listing of milestones is answered exactly where its cursor, where there is one, is a number, and
/// rows can be read with its limit.
#[verifier::rlimit(40)]
pub proof fn law_list_milestones_answers(
    s: Store,
    r: ListMilestonesRequest,
    read: Result<Page<MilestoneValue>, StorageError>,
)
    requires
        planning::list_milestones_outcome(s, r, read),
    ensures
        if (r.after matches Some(cursor) && validate::revision_value(cursor@) is None) {
            read matches Err(StorageError::Domain(failure)) && failure == DomainFailure::InvalidRequest
        } else if r.limit < -1 {
            read matches Err(StorageError::Runtime(_))
        } else {
            read is Ok
        },
{
}

/// A listing of workflow states is answered exactly where its cursor, where there is one, is a
/// number, and rows can be read with its limit.
#[verifier::rlimit(40)]
pub proof fn law_list_workflow_states_answers(
    s: Store,
    r: ListWorkflowStatesRequest,
    read: Result<Page<WorkflowStateValue>, StorageError>,
)
    requires
        workflow::list_workflow_states_outcome(s, r, read),
    ensures
        if (r.after matches Some(cursor) && validate::revision_value(cursor@) is None) {
            read matches Err(StorageError::Domain(failure)) && failure == DomainFailure::InvalidRequest
        } else if r.limit < -1 {
            read matches Err(StorageError::Runtime(_))
        } else {
            read is Ok
        },
{
}

/// A listing of workflow states for issues is answered exactly where the team exists and is open to
/// the actor, else as not found, its cursor is a number, and rows can be read with its limit.
#[verifier::rlimit(40)]
pub proof fn law_list_issue_workflow_states_answers(
    s: Store,
    actor: Seq<char>,
    r: ListIssueWorkflowStatesRequest,
    read: Result<Page<WorkflowStateValue>, StorageError>,
)
    requires
        workflow::list_issue_workflow_states_outcome(s, actor, r, read),
    ensures
        if !seen::team_exists(s, r.organization_id@, r.team_id@) || seen::closed_team(s, r.organization_id@, r.team_id@, actor) {
            read matches Err(StorageError::Domain(failure)) && failure == DomainFailure::NotFound
        } else if (r.after matches Some(cursor) && validate::revision_value(cursor@) is None) {
            read matches Err(StorageError::Domain(failure)) && failure == DomainFailure::InvalidRequest
        } else if r.limit < -1 {
            read matches Err(StorageError::Runtime(_))
        } else {
            read is Ok
        },
{
    answers::lemma_team(s, r.organization_id@, r.team_id@, actor);
}

/// A listing of comments is answered exactly where the issue exists and is open to the actor, its
/// cursor is a number, and rows can be read with its limit.
#[verifier::rlimit(40)]
pub proof fn law_list_comments_answers(
    s: Store,
    actor: Seq<char>,
    r: ListCommentsRequest,
    read: Result<Page<CommentValue>, StorageError>,
)
    requires
        collaboration::list_comments_outcome(s, actor, r, read),
    ensures
        if !answers::issue_found(s, r.organization_id@, r.issue_id@) {
            read matches Err(StorageError::Domain(failure)) && failure == DomainFailure::NotFound
        } else if !seen::open_issue(s, answers::the_issue(s, r.organization_id@, r.issue_id@), actor) {
            read matches Err(StorageError::Domain(failure)) && failure == DomainFailure::PrivateTeam
        } else if (r.after matches Some(cursor) && validate::revision_value(cursor@) is None) {
            read matches Err(StorageError::Domain(failure)) && failure == DomainFailure::InvalidRequest
        } else if r.limit < -1 {
            read matches Err(StorageError::Runtime(_))
        } else {
            read is Ok
        },
{
    answers::lemma_issue(s, r.organization_id@, r.issue_id@, actor);
}

/// A listing of project updates is answered exactly where the project exists and is open to the
/// actor, its cursor is a number, and rows can be read with its limit.
#[verifier::rlimit(40)]
pub proof fn law_list_project_updates_answers(
    s: Store,
    actor: Seq<char>,
    r: ListProjectUpdatesRequest,
    read: Result<Page<ProjectUpdateValue>, StorageError>,
)
    requires
        collaboration::list_project_updates_outcome(s, actor, r, read),
    ensures
        if !seen::project_exists(s, r.organization_id@, r.project_id@) {
            read matches Err(StorageError::Domain(failure)) && failure == DomainFailure::NotFound
        } else if seen::closed_project(s, r.organization_id@, r.project_id@, actor) {
            read matches Err(StorageError::Domain(failure)) && failure == DomainFailure::PrivateTeam
        } else if (r.after matches Some(cursor) && validate::revision_value(cursor@) is None) {
            read matches Err(StorageError::Domain(failure)) && failure == DomainFailure::InvalidRequest
        } else if r.limit < -1 {
            read matches Err(StorageError::Runtime(_))
        } else {
            read is Ok
        },
{
    answers::lemma_project(s, r.organization_id@, r.project_id@, actor);
}

/// A listing of activity is answered exactly where its checkpoint is a number, the project and the
/// issue that it names exist and are open to the actor, and rows can be read with its limit.
#[verifier::rlimit(40)]
pub proof fn law_list_activity_answers(
    s: Store,
    actor: Seq<char>,
    r: ListActivityRequest,
    read: Result<Page<ActivityValue>, StorageError>,
)
    requires
        activity::list_activity_outcome(s, actor, r, read),
    ensures
        if (r.after matches Some(cursor) && validate::revision_value(cursor@) is None) {
            read matches Err(StorageError::Domain(failure)) && failure == DomainFailure::InvalidRequest
        } else if (r.project_id matches Some(project) && !seen::project_exists(s, r.organization_id@, project@)) {
            read matches Err(StorageError::Domain(failure)) && failure == DomainFailure::NotFound
        } else if (r.project_id matches Some(project) && seen::closed_project(s, r.organization_id@, project@, actor)) {
            read matches Err(StorageError::Domain(failure)) && failure == DomainFailure::PrivateTeam
        } else if (r.issue_id matches Some(issue) && !answers::issue_found(s, r.organization_id@, issue@)) {
            read matches Err(StorageError::Domain(failure)) && failure == DomainFailure::NotFound
        } else if (r.issue_id matches Some(issue) && !seen::open_issue(
            s,
            answers::the_issue(s, r.organization_id@, issue@),
            actor,
        )) {
            read matches Err(StorageError::Domain(failure)) && failure == DomainFailure::PrivateTeam
        } else if r.limit < -1 {
            read matches Err(StorageError::Runtime(_))
        } else {
            read is Ok
        },
{
    if let Some(project) = r.project_id {
        answers::lemma_project(s, r.organization_id@, project@, actor);
    }
    if let Some(issue) = r.issue_id {
        answers::lemma_issue(s, r.organization_id@, issue@, actor);
    }
}

} // verus!
