//! What putting labels, cycles, milestones, teams and memberships makes of them.
use crate::clock;
use crate::failure::StorageError;
use crate::laws::traces;
use crate::model::{
    Completion, CycleValue, LabelValue, MilestoneValue, PutCycleRequest, PutLabelRequest,
    PutMilestoneRequest, PutTeamRequest, SetTeamMemberRequest, TeamMemberValue, TeamValue,
    WorkflowCategory,
};
use crate::planning;
use crate::project_status::StatusIds;
use crate::project_status;
use crate::store::{Invocation, Store};
use crate::store;
use crate::table;
use crate::teams;
use crate::text;
use crate::validate;
use crate::workflow::WorkflowIds;
use vstd::prelude::*;

verus! {

/// A label that is put has the team, the name, the description and the color of the request, the
/// texts without the white space around them; the answer shows the same. One that is replaced keeps
/// its place and goes on by one revision from the expected one; one that is new follows the others,
/// under an id that no label had. Every other label stays as it was.
pub proof fn law_label_is_what_was_put(
    before: Store,
    after: Store,
    call: Invocation,
    r: PutLabelRequest,
    value: LabelValue,
) -> (i: int)
    requires
        planning::put_label_outcome(
            before,
            after,
            call,
            r,
            Ok::<Completion<LabelValue>, StorageError>(Completion::Fresh(value)),
        ),
    ensures
        0 <= i < after.labels@.len(),
        after.labels@[i].label_id@ == r.label_id@,
        after.labels@[i].organization_id@ == r.organization_id@,
        text::text_of(after.labels@[i].team_id) == text::text_of(r.team_id),
        after.labels@[i].name@ == text::trimmed(r.name@),
        text::text_of(after.labels@[i].description)
            == text::trimmed_option(text::text_of(r.description)),
        after.labels@[i].color@ == r.color@,
        forall|j: int|
            0 <= j < before.labels@.len() && j != i ==> #[trigger] after.labels@[j] == before.labels@[j],
        r.expected_revision matches Some(expected) ==> {
            &&& i < before.labels@.len()
            &&& after.labels@.len() == before.labels@.len()
            &&& before.labels@[i].organization_id@ == r.organization_id@
            &&& before.labels@[i].label_id@ == r.label_id@
            &&& validate::revision_value(expected@) == Some(before.labels@[i].revision as int)
            &&& after.labels@[i].revision == before.labels@[i].revision + 1
            &&& after.labels@[i].row_seq == before.labels@[i].row_seq
            &&& after.next_row == before.next_row
        },
        r.expected_revision is None ==> {
            &&& i == before.labels@.len()
            &&& after.labels@.len() == before.labels@.len() + 1
            &&& after.labels@[i].revision == 1
            &&& after.labels@[i].row_seq == before.next_row
            &&& after.next_row == before.next_row + 1
            &&& forall|j: int|
                0 <= j < before.labels@.len() ==> (#[trigger] before.labels@[j]).label_id@ != r.label_id@
        },
        value.label_id@ == r.label_id@,
        value.organization_id@ == r.organization_id@,
        text::text_of(value.team_id) == text::text_of(r.team_id),
        value.name@ == text::trimmed(r.name@),
        text::text_of(value.description) == text::trimmed_option(text::text_of(r.description)),
        value.color@ == r.color@,
        value.revision@ == text::integer_text(after.labels@[i].revision as int),
        after.teams == before.teams,
        after.team_members == before.team_members,
        after.workflow_states == before.workflow_states,
        after.workspaces == before.workspaces,
        after.project_statuses == before.project_statuses,
        after.projects == before.projects,
        after.issues == before.issues,
        after.aliases == before.aliases,
        after.links == before.links,
        after.cycles == before.cycles,
        after.milestones == before.milestones,
        after.comments == before.comments,
        after.project_updates == before.project_updates,
        after.relations == before.relations,
        after.receipts == before.receipts,
        traces::logged(
            before,
            after,
            call,
            r.idempotency_key@,
            (traces::Trace {
                organization: r.organization_id@,
                project: None,
                issue: None,
                operation: "put_label"@,
                kind: "label"@,
                entity: r.label_id@,
                revision: Some(after.labels@[i].revision as int),
            }),
        ),
{
    table::lemma_appended(before.activity@, after.activity@);
    table::lemma_appended(before.commands@, after.commands@);
    if r.expected_revision is Some {
        let keep = store::is_label(r.organization_id@, r.label_id@);
        table::lemma_first_where(before.labels@, keep);
        table::first_where(before.labels@, keep)->0
    } else {
        table::lemma_appended(before.labels@, after.labels@);
        assert forall|j: int| 0 <= j < before.labels@.len() implies (
        #[trigger] before.labels@[j]).label_id@ != r.label_id@ by {
            assert(!store::has_label_id(r.label_id@)(before.labels@[j]));
        }
        before.labels@.len() as int
    }
}

/// A cycle that is put has the team, the number, the name and the two days of the request, the first
/// not after the last; the answer shows them as they were given. One that is replaced keeps its place
/// and goes on by one revision from the expected one; one that is new follows the others, under an id
/// that no cycle had. Every other cycle stays as it was.
pub proof fn law_cycle_is_what_was_put(
    before: Store,
    after: Store,
    call: Invocation,
    r: PutCycleRequest,
    value: CycleValue,
) -> (i: int)
    requires
        planning::put_cycle_outcome(
            before,
            after,
            call,
            r,
            Ok::<Completion<CycleValue>, StorageError>(Completion::Fresh(value)),
        ),
    ensures
        0 <= i < after.cycles@.len(),
        after.cycles@[i].cycle_id@ == r.cycle_id@,
        after.cycles@[i].organization_id@ == r.organization_id@,
        after.cycles@[i].team_id@ == r.team_id@,
        after.cycles@[i].number == r.number,
        text::text_of(after.cycles@[i].name) == text::trimmed_option(text::text_of(r.name)),
        clock::iso_date(r.starts_on@) == Some(
            (after.cycles@[i].starts_on.julian_day as int, after.cycles@[i].starts_on.text@),
        ),
        clock::iso_date(r.ends_on@)
            == Some((after.cycles@[i].ends_on.julian_day as int, after.cycles@[i].ends_on.text@)),
        after.cycles@[i].starts_on.julian_day <= after.cycles@[i].ends_on.julian_day,
        forall|j: int|
            0 <= j < before.cycles@.len() && j != i ==> #[trigger] after.cycles@[j] == before.cycles@[j],
        r.expected_revision matches Some(expected) ==> {
            &&& i < before.cycles@.len()
            &&& after.cycles@.len() == before.cycles@.len()
            &&& before.cycles@[i].organization_id@ == r.organization_id@
            &&& before.cycles@[i].team_id@ == r.team_id@
            &&& before.cycles@[i].cycle_id@ == r.cycle_id@
            &&& validate::revision_value(expected@) == Some(before.cycles@[i].revision as int)
            &&& after.cycles@[i].revision == before.cycles@[i].revision + 1
            &&& after.cycles@[i].row_seq == before.cycles@[i].row_seq
            &&& after.next_row == before.next_row
        },
        r.expected_revision is None ==> {
            &&& i == before.cycles@.len()
            &&& after.cycles@.len() == before.cycles@.len() + 1
            &&& after.cycles@[i].revision == 1
            &&& after.cycles@[i].row_seq == before.next_row
            &&& after.next_row == before.next_row + 1
            &&& forall|j: int|
                0 <= j < before.cycles@.len() ==> (#[trigger] before.cycles@[j]).cycle_id@ != r.cycle_id@
        },
        value.cycle_id@ == r.cycle_id@,
        value.organization_id@ == r.organization_id@,
        value.team_id@ == r.team_id@,
        value.number == r.number,
        text::text_of(value.name) == text::trimmed_option(text::text_of(r.name)),
        value.starts_on@ == r.starts_on@,
        value.ends_on@ == r.ends_on@,
        value.revision@ == text::integer_text(after.cycles@[i].revision as int),
        after.teams == before.teams,
        after.team_members == before.team_members,
        after.workflow_states == before.workflow_states,
        after.workspaces == before.workspaces,
        after.project_statuses == before.project_statuses,
        after.projects == before.projects,
        after.issues == before.issues,
        after.aliases == before.aliases,
        after.links == before.links,
        after.milestones == before.milestones,
        after.labels == before.labels,
        after.comments == before.comments,
        after.project_updates == before.project_updates,
        after.relations == before.relations,
        after.receipts == before.receipts,
        traces::logged(
            before,
            after,
            call,
            r.idempotency_key@,
            (traces::Trace {
                organization: r.organization_id@,
                project: None,
                issue: None,
                operation: "put_cycle"@,
                kind: "cycle"@,
                entity: r.cycle_id@,
                revision: Some(after.cycles@[i].revision as int),
            }),
        ),
{
    table::lemma_appended(before.activity@, after.activity@);
    table::lemma_appended(before.commands@, after.commands@);
    if r.expected_revision is Some {
        let keep = store::is_cycle(r.organization_id@, r.team_id@, r.cycle_id@);
        table::lemma_first_where(before.cycles@, keep);
        table::first_where(before.cycles@, keep)->0
    } else {
        table::lemma_appended(before.cycles@, after.cycles@);
        assert forall|j: int| 0 <= j < before.cycles@.len() implies (
        #[trigger] before.cycles@[j]).cycle_id@ != r.cycle_id@ by {
            assert(!store::has_cycle_id(r.cycle_id@)(before.cycles@[j]));
        }
        before.cycles@.len() as int
    }
}

/// A milestone that is put has the project, the name, the description and the target day of the
/// request, the texts without the white space around them; the answer shows them, the day as it was
/// given. One that is replaced keeps its place and goes on by one revision from the expected one; one
/// that is new follows the others, under an id that no milestone had. Every other milestone stays as
/// it was.
pub proof fn law_milestone_is_what_was_put(
    before: Store,
    after: Store,
    call: Invocation,
    r: PutMilestoneRequest,
    value: MilestoneValue,
) -> (i: int)
    requires
        planning::put_milestone_outcome(
            before,
            after,
            call,
            r,
            Ok::<Completion<MilestoneValue>, StorageError>(Completion::Fresh(value)),
        ),
    ensures
        0 <= i < after.milestones@.len(),
        after.milestones@[i].milestone_id@ == r.milestone_id@,
        after.milestones@[i].organization_id@ == r.organization_id@,
        after.milestones@[i].project_id@ == r.project_id@,
        after.milestones@[i].name@ == text::trimmed(r.name@),
        text::text_of(after.milestones@[i].description)
            == text::trimmed_option(text::text_of(r.description)),
        crate::laws::project_changes::holds_date(after.milestones@[i].target_date, r.target_date),
        forall|j: int|
            0 <= j < before.milestones@.len() && j != i ==> #[trigger] after.milestones@[j] == before.milestones@[j],
        r.expected_revision matches Some(expected) ==> {
            &&& i < before.milestones@.len()
            &&& after.milestones@.len() == before.milestones@.len()
            &&& before.milestones@[i].organization_id@ == r.organization_id@
            &&& before.milestones@[i].project_id@ == r.project_id@
            &&& before.milestones@[i].milestone_id@ == r.milestone_id@
            &&& validate::revision_value(expected@) == Some(before.milestones@[i].revision as int)
            &&& after.milestones@[i].revision == before.milestones@[i].revision + 1
            &&& after.milestones@[i].row_seq == before.milestones@[i].row_seq
            &&& after.next_row == before.next_row
        },
        r.expected_revision is None ==> {
            &&& i == before.milestones@.len()
            &&& after.milestones@.len() == before.milestones@.len() + 1
            &&& after.milestones@[i].revision == 1
            &&& after.milestones@[i].row_seq == before.next_row
            &&& after.next_row == before.next_row + 1
            &&& forall|j: int|
                0 <= j < before.milestones@.len() ==> (#[trigger] before.milestones@[j]).milestone_id@ != r.milestone_id@
        },
        value.milestone_id@ == r.milestone_id@,
        value.organization_id@ == r.organization_id@,
        value.project_id@ == r.project_id@,
        value.name@ == text::trimmed(r.name@),
        text::text_of(value.description) == text::trimmed_option(text::text_of(r.description)),
        text::text_of(value.target_date) == text::text_of(r.target_date),
        value.revision@ == text::integer_text(after.milestones@[i].revision as int),
        after.teams == before.teams,
        after.team_members == before.team_members,
        after.workflow_states == before.workflow_states,
        after.workspaces == before.workspaces,
        after.project_statuses == before.project_statuses,
        after.projects == before.projects,
        after.issues == before.issues,
        after.aliases == before.aliases,
        after.links == before.links,
        after.cycles == before.cycles,
        after.labels == before.labels,
        after.comments == before.comments,
        after.project_updates == before.project_updates,
        after.relations == before.relations,
        after.receipts == before.receipts,
        traces::logged(
            before,
            after,
            call,
            r.idempotency_key@,
            (traces::Trace {
                organization: r.organization_id@,
                project: Some(r.project_id@),
                issue: None,
                operation: "put_milestone"@,
                kind: "milestone"@,
                entity: r.milestone_id@,
                revision: Some(after.milestones@[i].revision as int),
            }),
        ),
{
    table::lemma_appended(before.activity@, after.activity@);
    table::lemma_appended(before.commands@, after.commands@);
    if r.expected_revision is Some {
        let keep = store::is_milestone(r.organization_id@, r.project_id@, r.milestone_id@);
        table::lemma_first_where(before.milestones@, keep);
        table::first_where(before.milestones@, keep)->0
    } else {
        table::lemma_appended(before.milestones@, after.milestones@);
        assert forall|j: int| 0 <= j < before.milestones@.len() implies (
        #[trigger] before.milestones@[j]).milestone_id@ != r.milestone_id@ by {
            assert(!store::has_milestone_id(r.milestone_id@)(before.milestones@[j]));
        }
        before.milestones@.len() as int
    }
}

/// Setting a membership leaves one record of the subject in the team, which holds exactly where the
/// request says so; the answer shows it, and says whether that changed. A record that is there keeps
/// its place, and goes on by one revision exactly where it changes; a new one starts at the first.
/// Every other membership stays as it was.
pub proof fn law_membership_is_what_was_asked(
    before: Store,
    after: Store,
    call: Invocation,
    r: SetTeamMemberRequest,
    value: TeamMemberValue,
) -> (i: int)
    requires
        teams::set_team_member_outcome(
            before,
            after,
            call,
            r,
            Ok::<Completion<TeamMemberValue>, StorageError>(Completion::Fresh(value)),
        ),
    ensures
        0 <= i < after.team_members@.len(),
        after.team_members@[i].organization_id@ == r.organization_id@,
        after.team_members@[i].team_id@ == r.team_id@,
        after.team_members@[i].subject@ == r.subject@,
        after.team_members@[i].active == r.active,
        forall|j: int|
            0 <= j < before.team_members@.len() && j != i ==> #[trigger] after.team_members@[j]
                == before.team_members@[j],
        i < before.team_members@.len() ==> {
            &&& after.team_members@.len() == before.team_members@.len()
            &&& before.team_members@[i].organization_id@ == r.organization_id@
            &&& before.team_members@[i].team_id@ == r.team_id@
            &&& before.team_members@[i].subject@ == r.subject@
            &&& value.changed == (before.team_members@[i].active != r.active)
            &&& after.team_members@[i].revision == before.team_members@[i].revision + if value.changed {
                1int
            } else {
                0int
            }
        },
        i >= before.team_members@.len() ==> {
            &&& after.team_members@.len() == before.team_members@.len() + 1
            &&& value.changed
            &&& after.team_members@[i].revision == 1
            &&& forall|j: int|
                0 <= j < before.team_members@.len() ==> !((
                #[trigger] before.team_members@[j]).organization_id@ == r.organization_id@
                    && before.team_members@[j].team_id@ == r.team_id@ && before.team_members@[j].subject@
                    == r.subject@)
        },
        value.team_id@ == r.team_id@,
        value.subject@ == r.subject@,
        value.active == r.active,
        value.revision@ == text::integer_text(after.team_members@[i].revision as int),
        after.teams == before.teams,
        after.workflow_states == before.workflow_states,
        after.workspaces == before.workspaces,
        after.project_statuses == before.project_statuses,
        after.projects == before.projects,
        after.issues == before.issues,
        after.aliases == before.aliases,
        after.links == before.links,
        after.cycles == before.cycles,
        after.milestones == before.milestones,
        after.labels == before.labels,
        after.comments == before.comments,
        after.project_updates == before.project_updates,
        after.relations == before.relations,
        after.receipts == before.receipts,
        after.next_row == before.next_row,
        traces::logged(
            before,
            after,
            call,
            r.idempotency_key@,
            (traces::Trace {
                organization: r.organization_id@,
                project: None,
                issue: None,
                operation: "set_team_member"@,
                kind: "team_member"@,
                entity: r.subject@,
                revision: Some(after.team_members@[i].revision as int),
            }),
        ),
{
    table::lemma_appended(before.activity@, after.activity@);
    table::lemma_appended(before.commands@, after.commands@);
    let keep = store::is_member(r.organization_id@, r.team_id@, r.subject@);
    table::lemma_first_where(before.team_members@, keep);
    match before.member_at(r.organization_id@, r.team_id@, r.subject@) {
        Some(i) => {
            assert(keep(before.team_members@[i]));
            i
        },
        None => {
            table::lemma_appended(before.team_members@, after.team_members@);
            assert forall|j: int| 0 <= j < before.team_members@.len() implies !((
            #[trigger] before.team_members@[j]).organization_id@ == r.organization_id@
                && before.team_members@[j].team_id@ == r.team_id@ && before.team_members@[j].subject@
                == r.subject@) by {
                assert(!keep(before.team_members@[j]));
            }
            before.team_members@.len() as int
        },
    }
}

/// A team that is put has the key, the name, the description and the privacy of the request, the
/// texts without the white space around them, and no other team of the organization has its key; the
/// answer shows the same. One that is replaced keeps its place, its next number and its creation, has
/// the default state of the request, and goes on by one revision from the expected one. One that is
/// new follows the others, starts at the first number and the first revision, and comes with its five
/// states, of which `Todo` is its default.
#[verifier::rlimit(60)]
pub proof fn law_team_is_what_was_put(
    before: Store,
    after: Store,
    call: Invocation,
    r: PutTeamRequest,
    ids: StatusIds,
    states: WorkflowIds,
    value: TeamValue,
) -> (i: int)
    requires
        teams::put_team_outcome(
            before,
            after,
            call,
            r,
            ids,
            states,
            Ok::<Completion<TeamValue>, StorageError>(Completion::Fresh(value)),
        ),
    ensures
        0 <= i < after.teams@.len(),
        after.teams@[i].team_id@ == r.team_id@,
        after.teams@[i].organization_id@ == r.organization_id@,
        after.teams@[i].key@ == r.key@,
        after.teams@[i].name@ == text::trimmed(r.name@),
        text::text_of(after.teams@[i].description)
            == text::trimmed_option(text::text_of(r.description)),
        after.teams@[i].private == r.private,
        after.teams@[i].updated_at == call.now,
        forall|j: int|
            0 <= j < before.teams@.len() && j != i ==> #[trigger] after.teams@[j] == before.teams@[j],
        forall|j: int|
            0 <= j < before.teams@.len() && (#[trigger] before.teams@[j]).organization_id@
                == r.organization_id@ && before.teams@[j].key@ == r.key@ ==> before.teams@[j].team_id@
                == r.team_id@,
        r.expected_revision matches Some(expected) ==> {
            &&& i < before.teams@.len()
            &&& after.teams@.len() == before.teams@.len()
            &&& before.teams@[i].team_id@ == r.team_id@
            &&& before.teams@[i].organization_id@ == r.organization_id@
            &&& validate::revision_value(expected@) == Some(before.teams@[i].revision as int)
            &&& after.teams@[i].revision == before.teams@[i].revision + 1
            &&& after.teams@[i].next_issue_number == before.teams@[i].next_issue_number
            &&& after.teams@[i].created_at == before.teams@[i].created_at
            &&& after.teams@[i].row_seq == before.teams@[i].row_seq
            &&& r.default_workflow_state_id is Some
            &&& after.teams@[i].default_workflow_state_id@ == r.default_workflow_state_id->0@
            &&& after.workflow_states == before.workflow_states
        },
        r.expected_revision is None ==> {
            let n = before.workflow_states@.len() as int;
            &&& i == before.teams@.len()
            &&& after.teams@.len() == before.teams@.len() + 1
            &&& after.teams@[i].revision == 1
            &&& after.teams@[i].next_issue_number == 1
            &&& after.teams@[i].created_at == call.now
            &&& after.teams@[i].default_workflow_state_id@ == states.todo@
            &&& forall|j: int|
                0 <= j < before.teams@.len() ==> (#[trigger] before.teams@[j]).team_id@ != r.team_id@
            &&& after.workflow_states@.len() == n + 5
            &&& forall|j: int|
                0 <= j < n ==> #[trigger] after.workflow_states@[j] == before.workflow_states@[j]
            &&& forall|j: int|
                n <= j < n + 5 ==> (#[trigger] after.workflow_states@[j]).organization_id@
                    == r.organization_id@ && after.workflow_states@[j].team_id@ == r.team_id@
                    && !after.workflow_states@[j].archived && after.workflow_states@[j].archived_at is None
                    && after.workflow_states@[j].revision == 1
            &&& after.workflow_states@[n + 0].state_id@ == states.backlog@
            &&& after.workflow_states@[n + 0].name@ == "Backlog"@
            &&& after.workflow_states@[n + 0].category == WorkflowCategory::Backlog
            &&& after.workflow_states@[n + 0].color@ == "#6B7280"@
            &&& after.workflow_states@[n + 0].position == 0
            &&& after.workflow_states@[n + 1].state_id@ == states.todo@
            &&& after.workflow_states@[n + 1].name@ == "Todo"@
            &&& after.workflow_states@[n + 1].category == WorkflowCategory::Unstarted
            &&& after.workflow_states@[n + 1].color@ == "#9CA3AF"@
            &&& after.workflow_states@[n + 1].position == 1
            &&& after.workflow_states@[n + 2].state_id@ == states.in_progress@
            &&& after.workflow_states@[n + 2].name@ == "In Progress"@
            &&& after.workflow_states@[n + 2].category == WorkflowCategory::Started
            &&& after.workflow_states@[n + 2].color@ == "#3B82F6"@
            &&& after.workflow_states@[n + 2].position == 2
            &&& after.workflow_states@[n + 3].state_id@ == states.done@
            &&& after.workflow_states@[n + 3].name@ == "Done"@
            &&& after.workflow_states@[n + 3].category == WorkflowCategory::Completed
            &&& after.workflow_states@[n + 3].color@ == "#10B981"@
            &&& after.workflow_states@[n + 3].position == 3
            &&& after.workflow_states@[n + 4].state_id@ == states.canceled@
            &&& after.workflow_states@[n + 4].name@ == "Canceled"@
            &&& after.workflow_states@[n + 4].category == WorkflowCategory::Canceled
            &&& after.workflow_states@[n + 4].color@ == "#9CA3AF"@
            &&& after.workflow_states@[n + 4].position == 4
        },
        value.team_id@ == r.team_id@,
        value.organization_id@ == r.organization_id@,
        value.key@ == r.key@,
        value.name@ == text::trimmed(r.name@),
        text::text_of(value.description) == text::trimmed_option(text::text_of(r.description)),
        value.private == r.private,
        value.default_workflow_state_id@ == after.teams@[i].default_workflow_state_id@,
        value.revision@ == text::integer_text(after.teams@[i].revision as int),
        value.created_at@ == after.teams@[i].created_at.text@,
        value.updated_at@ == call.now.text@,
        crate::laws::project_changes::catalog_kept(before, after, r.organization_id@),
        after.team_members == before.team_members,
        after.projects == before.projects,
        after.issues == before.issues,
        after.aliases == before.aliases,
        after.links == before.links,
        after.cycles == before.cycles,
        after.milestones == before.milestones,
        after.labels == before.labels,
        after.comments == before.comments,
        after.project_updates == before.project_updates,
        after.relations == before.relations,
        after.receipts == before.receipts,
        traces::logged(
            before,
            after,
            call,
            r.idempotency_key@,
            (traces::Trace {
                organization: r.organization_id@,
                project: None,
                issue: None,
                operation: "put_team"@,
                kind: "team"@,
                entity: r.team_id@,
                revision: Some(after.teams@[i].revision as int),
            }),
        ),
{
    let ready = choose|ready: Store|
        {
            &&& #[trigger] project_status::catalog_ready(before, ready, r.organization_id@, ids)
            &&& teams::put_team_verdict(ready, r, states) is Proceed
            &&& teams::put_team_effect(ready, after, call, r, states, value)
        };
    crate::laws::project_changes::lemma_catalog_kept(before, ready, r.organization_id@, ids);
    assert forall|j: int|
        0 <= j < before.teams@.len() && (#[trigger] before.teams@[j]).organization_id@
            == r.organization_id@ && before.teams@[j].key@ == r.key@ implies before.teams@[j].team_id@
        == r.team_id@ by {
        assert(!teams::owns_key(r.organization_id@, r.key@, r.team_id@)(before.teams@[j]));
    }
    table::lemma_appended(before.activity@, after.activity@);
    table::lemma_appended(before.commands@, after.commands@);
    if r.expected_revision is Some {
        let keep = store::is_team(r.organization_id@, r.team_id@);
        table::lemma_first_where(before.teams@, keep);
        ready.team_at(r.organization_id@, r.team_id@)->0
    } else {
        table::lemma_appended(ready.teams@, after.teams@);
        assert forall|j: int| 0 <= j < before.teams@.len() implies (
        #[trigger] before.teams@[j]).team_id@ != r.team_id@ by {
            assert(!store::has_team_id(r.team_id@)(ready.teams@[j]));
        }
        let n = before.workflow_states@.len() as int;
        assert forall|j: int| 0 <= j < n implies #[trigger] after.workflow_states@[j]
            == before.workflow_states@[j] by {
            assert(after.workflow_states@.take(n)[j] == after.workflow_states@[j]);
        }
        assert(after.workflow_states@[n] == after.workflow_states@.skip(n)[0]);
        assert(after.workflow_states@[n + 1] == after.workflow_states@.skip(n)[1]);
        assert(after.workflow_states@[n + 2] == after.workflow_states@.skip(n)[2]);
        assert(after.workflow_states@[n + 3] == after.workflow_states@.skip(n)[3]);
        assert(after.workflow_states@[n + 4] == after.workflow_states@.skip(n)[4]);
        before.teams@.len() as int
    }
}

} // verus!
