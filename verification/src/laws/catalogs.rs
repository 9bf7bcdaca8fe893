//! What each change of a workflow or of the project statuses makes of them.
use crate::catalog;
use crate::clock::Timestamp;
use crate::clock;
use crate::failure::StorageError;
use crate::laws::project_changes;
use crate::laws::traces;
use crate::model::{
    ArchiveProjectStatusRequest, ArchiveWorkflowStateRequest, Completion,
    DeleteProjectStatusRequest, DeleteWorkflowStateRequest, DeletedProjectStatus,
    DeletedWorkflowState, ProjectStatus, ProjectStatusCategory, ProjectStatusValue,
    PutProjectStatusRequest, PutWorkflowStateRequest, ReorderItem, ReorderProjectStatusesRequest,
    ReorderWorkflowStatesRequest, WorkflowState, WorkflowStateValue,
};
use crate::project_status::StatusIds;
use crate::project_status;
use crate::store::{Invocation, Store};
use crate::store;
use crate::table;
use crate::text;
use crate::validate;
use crate::workflow;
use vstd::prelude::*;

verus! {

/// Whether a value shows every field of a workflow state.
pub open spec fn shows_state(row: WorkflowState, value: WorkflowStateValue) -> bool {
    &&& value.state_id@ == row.state_id@
    &&& value.organization_id@ == row.organization_id@
    &&& value.team_id@ == row.team_id@
    &&& value.name@ == row.name@
    &&& value.category == row.category
    &&& value.color@ == row.color@
    &&& value.position == row.position
    &&& value.archived == row.archived
    &&& text::text_of(value.archived_at) == clock::time_text(row.archived_at)
    &&& value.revision@ == text::integer_text(row.revision as int)
}

/// A workflow state that is put has the name without the white space around it, the category, the
/// color and the position of the request; the answer shows the same. One that is replaced keeps its
/// place, its category and whether it is archived, and goes on by one revision from the expected one;
/// one that is new follows the others, under an id that none had, not archived. Every other one stays
/// as it was.
pub proof fn law_state_is_what_was_put(
    before: Store,
    after: Store,
    call: Invocation,
    r: PutWorkflowStateRequest,
    value: WorkflowStateValue,
) -> (i: int)
    requires
        workflow::put_workflow_state_outcome(
            before,
            after,
            call,
            r,
            Ok::<Completion<WorkflowStateValue>, StorageError>(Completion::Fresh(value)),
        ),
    ensures
        0 <= i < after.workflow_states@.len(),
        after.workflow_states@[i].state_id@ == r.state_id@,
        after.workflow_states@[i].organization_id@ == r.organization_id@,
        after.workflow_states@[i].team_id@ == r.team_id@,
        after.workflow_states@[i].name@ == text::trimmed(r.name@),
        after.workflow_states@[i].category == r.category,
        after.workflow_states@[i].color@ == r.color@,
        after.workflow_states@[i].position == r.position,
        forall|j: int|
            0 <= j < before.workflow_states@.len() && j != i ==> #[trigger] after.workflow_states@[j] == before.workflow_states@[j],
        r.expected_revision matches Some(expected) ==> {
            &&& i < before.workflow_states@.len()
            &&& after.workflow_states@.len() == before.workflow_states@.len()
            &&& before.workflow_states@[i].organization_id@ == r.organization_id@
            &&& before.workflow_states@[i].state_id@ == r.state_id@
            &&& before.workflow_states@[i].team_id@ == r.team_id@
            &&& before.workflow_states@[i].category == r.category
            &&& validate::revision_value(expected@) == Some(before.workflow_states@[i].revision as int)
            &&& after.workflow_states@[i].revision == before.workflow_states@[i].revision + 1
            &&& after.workflow_states@[i].archived == before.workflow_states@[i].archived
            &&& after.workflow_states@[i].archived_at == before.workflow_states@[i].archived_at
            &&& after.workflow_states@[i].row_seq == before.workflow_states@[i].row_seq
            &&& after.next_row == before.next_row
        },
        r.expected_revision is None ==> {
            &&& i == before.workflow_states@.len()
            &&& after.workflow_states@.len() == before.workflow_states@.len() + 1
            &&& after.workflow_states@[i].revision == 1
            &&& !after.workflow_states@[i].archived
            &&& after.workflow_states@[i].archived_at is None
            &&& after.workflow_states@[i].row_seq == before.next_row
            &&& after.next_row == before.next_row + 1
            &&& forall|j: int|
                0 <= j < before.workflow_states@.len() ==> (#[trigger] before.workflow_states@[j]).state_id@ != r.state_id@
        },
        value.state_id@ == r.state_id@,
        value.organization_id@ == r.organization_id@,
        value.team_id@ == r.team_id@,
        value.name@ == text::trimmed(r.name@),
        value.category == r.category,
        value.color@ == r.color@,
        value.position == r.position,
        value.archived == after.workflow_states@[i].archived,
        text::text_of(value.archived_at) == clock::time_text(after.workflow_states@[i].archived_at),
        value.revision@ == text::integer_text(after.workflow_states@[i].revision as int),
        after.teams == before.teams,
        after.team_members == before.team_members,
        after.workspaces == before.workspaces,
        after.project_statuses == before.project_statuses,
        after.projects == before.projects,
        after.issues == before.issues,
        after.aliases == before.aliases,
        after.links == before.links,
        after.cycles == before.cycles,
        after.milestones == before.milestones,
        after.labels == before.labels,
        after.comments == before.comments,
        after.project_updates == before.project_updates,
        after.relations == before.relations,
        after.receipts == before.receipts,
        traces::logged(
            before,
            after,
            call,
            r.idempotency_key@,
            (traces::Trace {
                organization: r.organization_id@,
                project: None,
                issue: None,
                operation: "put_workflow_state"@,
                kind: "workflow_state"@,
                entity: r.state_id@,
                revision: Some(after.workflow_states@[i].revision as int),
            }),
        ),
{
    table::lemma_appended(before.activity@, after.activity@);
    table::lemma_appended(before.commands@, after.commands@);
    if r.expected_revision is Some {
        let keep = store::is_team_state(r.organization_id@, r.team_id@, r.state_id@);
        table::lemma_first_where(before.workflow_states@, keep);
        let i = table::first_where(before.workflow_states@, keep)->0;
        i
    } else {
        table::lemma_appended(before.workflow_states@, after.workflow_states@);
        assert forall|j: int| 0 <= j < before.workflow_states@.len() implies (
        #[trigger] before.workflow_states@[j]).state_id@ != r.state_id@ by {
            assert(!store::has_state_id(r.state_id@)(before.workflow_states@[j]));
        }
        let i = before.workflow_states@.len() as int;
        i
    }
}

/// Archiving or restoring a workflow state changes whether it is archived to what is asked for, with
/// the time since when, and nothing else of it but its revision; the answer shows it. One that an
/// issue is in is not archived.
pub proof fn law_archived_state_is_only_archived(
    before: Store,
    after: Store,
    call: Invocation,
    r: ArchiveWorkflowStateRequest,
    value: WorkflowStateValue,
) -> (i: int)
    requires
        workflow::archive_workflow_state_outcome(
            before,
            after,
            call,
            r,
            Ok::<Completion<WorkflowStateValue>, StorageError>(Completion::Fresh(value)),
        ),
    ensures
        0 <= i < before.workflow_states@.len(),
        before.workflow_states@[i].organization_id@ == r.organization_id@,
        before.workflow_states@[i].state_id@ == r.state_id@,
        validate::revision_value(r.expected_revision@)
            == Some(before.workflow_states@[i].revision as int),
        after.workflow_states@.len() == before.workflow_states@.len(),
        forall|j: int|
            0 <= j < before.workflow_states@.len() && j != i ==> #[trigger] after.workflow_states@[j] == before.workflow_states@[j],
        after.workflow_states@[i].archived == r.archived,
        after.workflow_states@[i].archived_at == if r.archived {
            if before.workflow_states@[i].archived_at is Some {
                before.workflow_states@[i].archived_at
            } else {
                Some(call.now)
            }
        } else {
            None::<Timestamp>
        },
        after.workflow_states@[i].revision == before.workflow_states@[i].revision + 1,
        after.workflow_states@[i].state_id == before.workflow_states@[i].state_id,
        after.workflow_states@[i].organization_id == before.workflow_states@[i].organization_id,
        after.workflow_states@[i].team_id == before.workflow_states@[i].team_id,
        after.workflow_states@[i].name == before.workflow_states@[i].name,
        after.workflow_states@[i].category == before.workflow_states@[i].category,
        after.workflow_states@[i].color == before.workflow_states@[i].color,
        after.workflow_states@[i].position == before.workflow_states@[i].position,
        after.workflow_states@[i].row_seq == before.workflow_states@[i].row_seq,
        shows_state(after.workflow_states@[i], value),
        value.archived == r.archived,
        after.teams == before.teams,
        after.team_members == before.team_members,
        after.workspaces == before.workspaces,
        after.project_statuses == before.project_statuses,
        after.projects == before.projects,
        after.issues == before.issues,
        after.aliases == before.aliases,
        after.links == before.links,
        after.cycles == before.cycles,
        after.milestones == before.milestones,
        after.labels == before.labels,
        after.comments == before.comments,
        after.project_updates == before.project_updates,
        after.relations == before.relations,
        after.receipts == before.receipts,
        after.next_row == before.next_row,
        traces::logged(
            before,
            after,
            call,
            r.idempotency_key@,
            (traces::Trace {
                organization: r.organization_id@,
                project: None,
                issue: None,
                operation: "archive_workflow_state"@,
                kind: "workflow_state"@,
                entity: r.state_id@,
                revision: Some(before.workflow_states@[i].revision + 1),
            }),
        ),
        r.archived ==> forall|j: int|
            0 <= j < before.issues@.len() ==> !((#[trigger] before.issues@[j]).organization_id@
                == r.organization_id@ && before.issues@[j].workflow_state_id@ == r.state_id@),
{
    table::lemma_appended(before.activity@, after.activity@);
    table::lemma_appended(before.commands@, after.commands@);
    let keep = store::is_workflow_state(r.organization_id@, r.state_id@);
    table::lemma_first_where(before.workflow_states@, keep);
    let i = table::first_where(before.workflow_states@, keep)->0;
    if r.archived {
        assert forall|j: int| 0 <= j < before.issues@.len() implies !((
        #[trigger] before.issues@[j]).organization_id@ == r.organization_id@
            && before.issues@[j].workflow_state_id@ == r.state_id@) by {
            assert(!workflow::uses_state(r.organization_id@, r.state_id@)(before.issues@[j]));
        }
    }
    i
}

/// Deleting a workflow state takes exactly the one that is named, which was archived and in no issue;
/// the others stay in their order as they were, and the answer names it as deleted.
pub proof fn law_deleted_state_is_gone(
    before: Store,
    after: Store,
    call: Invocation,
    r: DeleteWorkflowStateRequest,
    value: DeletedWorkflowState,
) -> (i: int)
    requires
        workflow::delete_workflow_state_outcome(
            before,
            after,
            call,
            r,
            Ok::<Completion<DeletedWorkflowState>, StorageError>(Completion::Fresh(value)),
        ),
    ensures
        0 <= i < before.workflow_states@.len(),
        before.workflow_states@[i].organization_id@ == r.organization_id@,
        before.workflow_states@[i].state_id@ == r.state_id@,
        before.workflow_states@[i].team_id@ == r.team_id@,
        before.workflow_states@[i].archived,
        validate::revision_value(r.expected_revision@)
            == Some(before.workflow_states@[i].revision as int),
        after.workflow_states@.len() == before.workflow_states@.len() - 1,
        forall|j: int| 0 <= j < i ==>
            #[trigger] after.workflow_states@[j] == before.workflow_states@[j],
        forall|j: int|
            i <= j < after.workflow_states@.len() ==> #[trigger] after.workflow_states@[j] == before.workflow_states@[j + 1],
        value.organization_id@ == r.organization_id@,
        value.state_id@ == r.state_id@,
        value.deleted,
        value.team_id@ == r.team_id@,
        after.teams == before.teams,
        after.team_members == before.team_members,
        after.workspaces == before.workspaces,
        after.project_statuses == before.project_statuses,
        after.projects == before.projects,
        after.issues == before.issues,
        after.aliases == before.aliases,
        after.links == before.links,
        after.cycles == before.cycles,
        after.milestones == before.milestones,
        after.labels == before.labels,
        after.comments == before.comments,
        after.project_updates == before.project_updates,
        after.relations == before.relations,
        after.receipts == before.receipts,
        after.next_row == before.next_row,
        traces::logged(
            before,
            after,
            call,
            r.idempotency_key@,
            (traces::Trace {
                organization: r.organization_id@,
                project: None,
                issue: None,
                operation: "delete_workflow_state"@,
                kind: "workflow_state"@,
                entity: r.state_id@,
                revision: Some(before.workflow_states@[i].revision as int),
            }),
        ),
        forall|j: int|
            0 <= j < before.issues@.len() ==> !((#[trigger] before.issues@[j]).organization_id@
                == r.organization_id@ && before.issues@[j].team_id@ == r.team_id@
                && before.issues@[j].workflow_state_id@ == r.state_id@),
{
    table::lemma_appended(before.activity@, after.activity@);
    table::lemma_appended(before.commands@, after.commands@);
    let keep = store::is_team_state(r.organization_id@, r.team_id@, r.state_id@);
    table::lemma_first_where(before.workflow_states@, keep);
    let i = table::first_where(before.workflow_states@, keep)->0;
    assert forall|j: int| 0 <= j < before.issues@.len() implies !((
    #[trigger] before.issues@[j]).organization_id@ == r.organization_id@ && before.issues@[j].team_id@
        == r.team_id@ && before.issues@[j].workflow_state_id@ == r.state_id@) by {
        assert(!workflow::uses_team_state(r.organization_id@, r.team_id@, r.state_id@)(
            before.issues@[j],
        ));
    }
    i
}

/// Whether a row is an unarchived state of the team.
pub open spec fn is_active_state(row: WorkflowState, organization: Seq<char>, team: Seq<char>) -> bool {
    row.organization_id@ == organization && row.team_id@ == team && !row.archived
}

/// Whether an item of a batch names the row with its revision, and the row moved to the position of
/// that item with nothing else of it changed but its revision.
pub open spec fn state_moved(before: WorkflowState, after: WorkflowState, items: Seq<ReorderItem>) -> bool {
    &&& exists|k: int|
        {
            &&& 0 <= k < items.len()
            &&& (#[trigger] items[k]).id@ == before.state_id@
            &&& validate::revision_value(items[k].expected_revision@) == Some(before.revision as int)
            &&& after.position == items[k].position
        }
    &&& after.revision == before.revision + 1
    &&& after.state_id == before.state_id
    &&& after.organization_id == before.organization_id
    &&& after.team_id == before.team_id
    &&& after.name == before.name
    &&& after.category == before.category
    &&& after.color == before.color
    &&& after.archived == before.archived
    &&& after.archived_at == before.archived_at
    &&& after.row_seq == before.row_seq
}

/// Whether a value shows one of the active rows.
pub open spec fn is_among_states(rows: Seq<WorkflowState>, value: WorkflowStateValue, organization: Seq<char>, team: Seq<char>) -> bool {
    exists|j: int|
        0 <= j < rows.len() && is_active_state(#[trigger] rows[j], organization, team) && shows_state(
            rows[j],
            value,
        )
}

/// Whether one of the values shows the row.
pub open spec fn among_state_values(row: WorkflowState, values: Seq<WorkflowStateValue>) -> bool {
    exists|v: int| 0 <= v < values.len() && shows_state(row, #[trigger] values[v])
}

/// A reordering that takes effect moves every active state of the team to the position that the batch
/// gives it, from the revision that the batch expects to the next, and changes nothing else; the
/// answer shows exactly the active ones, by their position.
#[verifier::rlimit(60)]
pub proof fn law_reordered_states_are_where_they_were_put(
    before: Store,
    after: Store,
    call: Invocation,
    r: ReorderWorkflowStatesRequest,
    values: Vec<WorkflowStateValue>,
)
    requires
        workflow::reorder_workflow_states_outcome(
            before,
            after,
            call,
            r,
            Ok::<Completion<Vec<WorkflowStateValue>>, StorageError>(Completion::Fresh(values)),
        ),
    ensures
        after.workflow_states@.len() == before.workflow_states@.len(),
        forall|j: int|
            0 <= j < before.workflow_states@.len() && is_active_state(before.workflow_states@[j], r.organization_id@, r.team_id@)
                ==> state_moved(before.workflow_states@[j], #[trigger] after.workflow_states@[j], r.items@),
        forall|j: int|
            0 <= j < before.workflow_states@.len() && !is_active_state(before.workflow_states@[j], r.organization_id@, r.team_id@)
                ==> #[trigger] after.workflow_states@[j] == before.workflow_states@[j],
        values@.len() == r.items@.len(),
        forall|v: int|
            0 <= v < values@.len() ==> is_among_states(after.workflow_states@, #[trigger] values@[v], r.organization_id@, r.team_id@),
        forall|j: int|
            0 <= j < after.workflow_states@.len() && is_active_state(after.workflow_states@[j], r.organization_id@, r.team_id@)
                ==> among_state_values(#[trigger] after.workflow_states@[j], values@),
        forall|v: int, w: int|
            0 <= v < w < values@.len() ==> (#[trigger] values@[v]).position <= (
            #[trigger] values@[w]).position,
        after.teams == before.teams,
        after.team_members == before.team_members,
        after.workspaces == before.workspaces,
        after.project_statuses == before.project_statuses,
        after.projects == before.projects,
        after.issues == before.issues,
        after.aliases == before.aliases,
        after.links == before.links,
        after.cycles == before.cycles,
        after.milestones == before.milestones,
        after.labels == before.labels,
        after.comments == before.comments,
        after.project_updates == before.project_updates,
        after.relations == before.relations,
        after.receipts == before.receipts,
        after.next_row == before.next_row,
        traces::logged(
            before,
            after,
            call,
            r.idempotency_key@,
            (traces::Trace {
                organization: r.organization_id@,
                project: None,
                issue: None,
                operation: "reorder_workflow_states"@,
                kind: "workflow_catalog"@,
                entity: r.team_id@,
                revision: None,
            }),
        ),
{
    table::lemma_appended(before.activity@, after.activity@);
    table::lemma_appended(before.commands@, after.commands@);
    let keep = workflow::is_active_state(r.organization_id@, r.team_id@);
    let rows = before.workflow_states@;
    let entries = workflow::active_entries(before, r.organization_id@, r.team_id@);
    assert(entries.len() == rows.filter(keep).len());
    assert forall|j: int| 0 <= j < rows.len() && is_active_state(rows[j], r.organization_id@, r.team_id@) implies state_moved(
        rows[j],
        #[trigger] after.workflow_states@[j],
        r.items@,
    ) by {
        assert(keep(rows[j]));
        rows.lemma_filter_contains(keep, j);
        let f = choose|f: int| 0 <= f < rows.filter(keep).len() && rows.filter(keep)[f] == rows[j];
        assert(entries[f] == workflow::state_entry()(rows[j]));
        catalog::lemma_first_misfit(entries, r.items@);
        assert(catalog::entry_refusal(entries[f], r.items@) is None);
        catalog::lemma_item_for(r.items@, rows[j].state_id@, r.items@.len() as int);
        assert(rows[j].revision < i64::MAX);
        let k = catalog::item_of(r.items@, rows[j].state_id@)->0;
        assert(r.items@[k].id@ == rows[j].state_id@);
    }
    assert forall|j: int| 0 <= j < rows.len() && !is_active_state(rows[j], r.organization_id@, r.team_id@) implies #[trigger] after.workflow_states@[j]
        == rows[j] by {
        assert(!keep(rows[j]));
    }
    let later = after.workflow_states@;
    let active = later.filter(keep);
    let shown = choose|shown: Seq<WorkflowStateValue>|
        {
            &&& shown.len() == active.len()
            &&& forall|k: int|
                0 <= k < active.len() ==> workflow::is_state_value(active[k], #[trigger] shown[k])
            &&& #[trigger] shown.to_multiset() == values@.to_multiset()
            &&& table::ordered_rows(values@, workflow::state_place())
        };
    shown.to_multiset_ensures();
    values@.to_multiset_ensures();
    assert(values@.len() == shown.len());
    lemma_same_count_state(rows, later, keep);
    assert forall|v: int| 0 <= v < values@.len() implies is_among_states(
        later,
        #[trigger] values@[v],
        r.organization_id@,
        r.team_id@,
    ) by {
        assert(values@.contains(values@[v]));
        assert(values@.to_multiset().count(values@[v]) > 0);
        assert(shown.to_multiset().count(values@[v]) > 0);
        assert(shown.contains(values@[v]));
        let k = choose|k: int| 0 <= k < shown.len() && shown[k] == values@[v];
        later.lemma_filter_pred(keep, k);
        assert(active.contains(active[k]));
        later.lemma_filter_contains_rev(keep, active[k]);
        let j = choose|j: int| 0 <= j < later.len() && later[j] == active[k];
        assert(is_active_state(later[j], r.organization_id@, r.team_id@));
        assert(shows_state(later[j], values@[v]));
    }
    assert forall|j: int| 0 <= j < later.len() && is_active_state(later[j], r.organization_id@, r.team_id@) implies among_state_values(
        #[trigger] later[j],
        values@,
    ) by {
        assert(keep(later[j]));
        later.lemma_filter_contains(keep, j);
        let k = choose|k: int| 0 <= k < active.len() && active[k] == later[j];
        assert(shown.contains(shown[k]));
        assert(shown.to_multiset().count(shown[k]) > 0);
        assert(values@.to_multiset().count(shown[k]) > 0);
        assert(values@.contains(shown[k]));
        let v = choose|v: int| 0 <= v < values@.len() && values@[v] == shown[k];
        assert(shows_state(later[j], values@[v]));
    }
    assert forall|v: int, w: int| 0 <= v < w < values@.len() implies (
    #[trigger] values@[v]).position <= (#[trigger] values@[w]).position by {
        assert(!workflow::state_place()(values@[w], values@[v]));
    }
}

/// As many rows are active as long as each stays active or not.
proof fn lemma_same_count_state(before: Seq<WorkflowState>, after: Seq<WorkflowState>, keep: spec_fn(WorkflowState) -> bool)
    requires
        before.len() == after.len(),
        forall|j: int| 0 <= j < before.len() ==> keep(#[trigger] after[j]) == keep(before[j]),
    ensures
        before.filter(keep).len() == after.filter(keep).len(),
    decreases before.len(),
{
    reveal(Seq::filter);
    if before.len() > 0 {
        let (a, b) = (before.drop_last(), after.drop_last());
        assert forall|j: int| 0 <= j < a.len() implies keep(#[trigger] b[j]) == keep(a[j]) by {
            assert(b[j] == after[j] && a[j] == before[j]);
        }
        lemma_same_count_state(a, b, keep);
        assert(keep(after[after.len() - 1]) == keep(before[before.len() - 1]));
    }
}

/// Whether a value shows every field of a project status.
pub open spec fn shows_status(row: ProjectStatus, value: ProjectStatusValue) -> bool {
    &&& value.status_id@ == row.status_id@
    &&& value.organization_id@ == row.organization_id@
    &&& value.name@ == row.name@
    &&& value.category == row.category
    &&& value.color@ == row.color@
    &&& value.position == row.position
    &&& value.is_default == row.is_default
    &&& value.archived == row.archived
    &&& text::text_of(value.archived_at) == clock::time_text(row.archived_at)
    &&& value.revision@ == text::integer_text(row.revision as int)
}

/// A project status that is put has the name without the white space around it, the category, the
/// color and the position of the request; the answer shows the same. One that is replaced keeps its
/// place, its category and whether it is archived or the default, and goes on by one revision from
/// the expected one; one that is new follows the others, under an id that none had, not archived and
/// not the default. Every other one stays as it was.
pub proof fn law_status_is_what_was_put(
    before: Store,
    after: Store,
    call: Invocation,
    r: PutProjectStatusRequest,
    ids: StatusIds,
    value: ProjectStatusValue,
) -> (at: (Store, int))
    requires
        project_status::put_project_status_outcome(
            before,
            after,
            call,
            r,
            ids,
            Ok::<Completion<ProjectStatusValue>, StorageError>(Completion::Fresh(value)),
        ),
    ensures
        ({
            let (ready, i) = at;
            &&& 0 <= i < after.project_statuses@.len()
            &&& after.project_statuses@[i].status_id@ == r.status_id@
            &&& after.project_statuses@[i].organization_id@ == r.organization_id@
            &&& after.project_statuses@[i].name@ == text::trimmed(r.name@)
            &&& after.project_statuses@[i].category == r.category
            &&& after.project_statuses@[i].color@ == r.color@
            &&& after.project_statuses@[i].position == r.position
            &&& forall|j: int|
                0 <= j < ready.project_statuses@.len() && j != i ==> #[trigger] after.project_statuses@[j] == ready.project_statuses@[j]
            &&& r.expected_revision matches Some(expected) ==> {
                &&& i < ready.project_statuses@.len()
                &&& after.project_statuses@.len() == ready.project_statuses@.len()
                &&& ready.project_statuses@[i].organization_id@ == r.organization_id@
                &&& ready.project_statuses@[i].status_id@ == r.status_id@
                &&& ready.project_statuses@[i].category == r.category
                &&& validate::revision_value(expected@) == Some(ready.project_statuses@[i].revision as int)
                &&& after.project_statuses@[i].revision == ready.project_statuses@[i].revision + 1
                &&& after.project_statuses@[i].archived == ready.project_statuses@[i].archived
                &&& after.project_statuses@[i].archived_at == ready.project_statuses@[i].archived_at
                &&& after.project_statuses@[i].row_seq == ready.project_statuses@[i].row_seq
                &&& after.project_statuses@[i].is_default == ready.project_statuses@[i].is_default
                &&& after.next_row == ready.next_row
            }
            &&& r.expected_revision is None ==> {
                &&& i == ready.project_statuses@.len()
                &&& after.project_statuses@.len() == ready.project_statuses@.len() + 1
                &&& after.project_statuses@[i].revision == 1
                &&& !after.project_statuses@[i].archived
                &&& after.project_statuses@[i].archived_at is None
                &&& !after.project_statuses@[i].is_default
                &&& after.project_statuses@[i].row_seq == ready.next_row
                &&& after.next_row == ready.next_row + 1
                &&& forall|j: int|
                    0 <= j < ready.project_statuses@.len() ==> (#[trigger] ready.project_statuses@[j]).status_id@ != r.status_id@
            }
            &&& value.status_id@ == r.status_id@
            &&& value.organization_id@ == r.organization_id@
            &&& value.name@ == text::trimmed(r.name@)
            &&& value.category == r.category
            &&& value.color@ == r.color@
            &&& value.position == r.position
            &&& value.is_default == after.project_statuses@[i].is_default
            &&& value.archived == after.project_statuses@[i].archived
            &&& text::text_of(value.archived_at) == clock::time_text(after.project_statuses@[i].archived_at)
            &&& value.revision@ == text::integer_text(after.project_statuses@[i].revision as int)
            &&& after.teams == before.teams
            &&& after.team_members == before.team_members
            &&& after.workflow_states == before.workflow_states
            &&& after.projects == before.projects
            &&& after.issues == before.issues
            &&& after.aliases == before.aliases
            &&& after.links == before.links
            &&& after.cycles == before.cycles
            &&& after.milestones == before.milestones
            &&& after.labels == before.labels
            &&& after.comments == before.comments
            &&& after.project_updates == before.project_updates
            &&& after.relations == before.relations
            &&& after.receipts == before.receipts
            &&& after.workspaces == ready.workspaces
            &&& project_changes::catalog_kept(before, ready, r.organization_id@)
            &&& traces::logged(
                before,
                after,
                call,
                r.idempotency_key@,
                (traces::Trace {
                    organization: r.organization_id@,
                    project: None,
                    issue: None,
                    operation: "put_project_status"@,
                    kind: "project_status"@,
                    entity: r.status_id@,
                    revision: Some(after.project_statuses@[i].revision as int),
                }),
            )
        }),
{
    let ready = choose|ready: Store|
        {
            &&& #[trigger] project_status::catalog_ready(before, ready, r.organization_id@, ids)
            &&& project_status::put_project_status_verdict(ready, r) is Proceed
            &&& project_status::put_project_status_effect(ready, after, call, r, value)
        };
    project_changes::lemma_catalog_kept(before, ready, r.organization_id@, ids);
    table::lemma_appended(before.activity@, after.activity@);
    table::lemma_appended(before.commands@, after.commands@);
    if r.expected_revision is Some {
        let keep = store::is_project_status(r.organization_id@, r.status_id@);
        table::lemma_first_where(ready.project_statuses@, keep);
        let i = table::first_where(ready.project_statuses@, keep)->0;
        (ready, i)
    } else {
        table::lemma_appended(ready.project_statuses@, after.project_statuses@);
        assert forall|j: int| 0 <= j < ready.project_statuses@.len() implies (
        #[trigger] ready.project_statuses@[j]).status_id@ != r.status_id@ by {
            assert(!store::has_status_id(r.status_id@)(ready.project_statuses@[j]));
        }
        let i = ready.project_statuses@.len() as int;
        (ready, i)
    }
}

/// Archiving or restoring a project status changes whether it is archived to what is asked for, with
/// the time since when, and nothing else of it but its revision; the answer shows it. One that a
/// project is in, or that is the default, is not archived.
pub proof fn law_archived_status_is_only_archived(
    before: Store,
    after: Store,
    call: Invocation,
    r: ArchiveProjectStatusRequest,
    ids: StatusIds,
    value: ProjectStatusValue,
) -> (at: (Store, int))
    requires
        project_status::archive_project_status_outcome(
            before,
            after,
            call,
            r,
            ids,
            Ok::<Completion<ProjectStatusValue>, StorageError>(Completion::Fresh(value)),
        ),
    ensures
        ({
            let (ready, i) = at;
            &&& 0 <= i < ready.project_statuses@.len()
            &&& ready.project_statuses@[i].organization_id@ == r.organization_id@
            &&& ready.project_statuses@[i].status_id@ == r.status_id@
            &&& validate::revision_value(r.expected_revision@) == Some(ready.project_statuses@[i].revision as int)
            &&& after.project_statuses@.len() == ready.project_statuses@.len()
            &&& forall|j: int|
                0 <= j < ready.project_statuses@.len() && j != i ==> #[trigger] after.project_statuses@[j] == ready.project_statuses@[j]
            &&& after.project_statuses@[i].archived == r.archived
            &&& after.project_statuses@[i].archived_at == if r.archived {
                if ready.project_statuses@[i].archived_at is Some {
                    ready.project_statuses@[i].archived_at
                } else {
                    Some(call.now)
                }
            } else {
                None::<Timestamp>
            }
            &&& after.project_statuses@[i].revision == ready.project_statuses@[i].revision + 1
            &&& after.project_statuses@[i].status_id == ready.project_statuses@[i].status_id
            &&& after.project_statuses@[i].organization_id == ready.project_statuses@[i].organization_id
            &&& after.project_statuses@[i].name == ready.project_statuses@[i].name
            &&& after.project_statuses@[i].category == ready.project_statuses@[i].category
            &&& after.project_statuses@[i].color == ready.project_statuses@[i].color
            &&& after.project_statuses@[i].position == ready.project_statuses@[i].position
            &&& after.project_statuses@[i].is_default == ready.project_statuses@[i].is_default
            &&& after.project_statuses@[i].row_seq == ready.project_statuses@[i].row_seq
            &&& shows_status(after.project_statuses@[i], value)
            &&& value.archived == r.archived
            &&& after.teams == before.teams
            &&& after.team_members == before.team_members
            &&& after.workflow_states == before.workflow_states
            &&& after.projects == before.projects
            &&& after.issues == before.issues
            &&& after.aliases == before.aliases
            &&& after.links == before.links
            &&& after.cycles == before.cycles
            &&& after.milestones == before.milestones
            &&& after.labels == before.labels
            &&& after.comments == before.comments
            &&& after.project_updates == before.project_updates
            &&& after.relations == before.relations
            &&& after.receipts == before.receipts
            &&& after.workspaces == ready.workspaces
            &&& project_changes::catalog_kept(before, ready, r.organization_id@)
            &&& after.next_row == ready.next_row
            &&& traces::logged(
                before,
                after,
                call,
                r.idempotency_key@,
                (traces::Trace {
                    organization: r.organization_id@,
                    project: None,
                    issue: None,
                    operation: "archive_project_status"@,
                    kind: "project_status"@,
                    entity: r.status_id@,
                    revision: Some(ready.project_statuses@[i].revision + 1),
                }),
            )
            &&& r.archived ==> !ready.project_statuses@[i].is_default
            &&& r.archived ==> forall|j: int|
                0 <= j < before.projects@.len() ==> !((#[trigger] before.projects@[j]).organization_id@
                    == r.organization_id@ && before.projects@[j].status_id@ == r.status_id@)
        }),
{
    let ready = choose|ready: Store|
        {
            &&& #[trigger] project_status::catalog_ready(before, ready, r.organization_id@, ids)
            &&& project_status::archive_project_status_verdict(ready, r) is Proceed
            &&& project_status::archive_project_status_effect(ready, after, call, r, value)
        };
    project_changes::lemma_catalog_kept(before, ready, r.organization_id@, ids);
    table::lemma_appended(before.activity@, after.activity@);
    table::lemma_appended(before.commands@, after.commands@);
    let keep = store::is_project_status(r.organization_id@, r.status_id@);
    table::lemma_first_where(ready.project_statuses@, keep);
    let i = table::first_where(ready.project_statuses@, keep)->0;
    if r.archived {
        assert forall|j: int| 0 <= j < before.projects@.len() implies !((
        #[trigger] before.projects@[j]).organization_id@ == r.organization_id@
            && before.projects@[j].status_id@ == r.status_id@) by {
            assert(!project_status::uses_status(r.organization_id@, r.status_id@)(ready.projects@[j]));
        }
    }
    (ready, i)
}

/// Deleting a project status takes exactly the one that is named, which was archived and in no
/// project; the others stay in their order as they were, and the answer names it as deleted.
pub proof fn law_deleted_status_is_gone(
    before: Store,
    after: Store,
    call: Invocation,
    r: DeleteProjectStatusRequest,
    ids: StatusIds,
    value: DeletedProjectStatus,
) -> (at: (Store, int))
    requires
        project_status::delete_project_status_outcome(
            before,
            after,
            call,
            r,
            ids,
            Ok::<Completion<DeletedProjectStatus>, StorageError>(Completion::Fresh(value)),
        ),
    ensures
        ({
            let (ready, i) = at;
            &&& 0 <= i < ready.project_statuses@.len()
            &&& ready.project_statuses@[i].organization_id@ == r.organization_id@
            &&& ready.project_statuses@[i].status_id@ == r.status_id@
            &&& !ready.project_statuses@[i].is_default
            &&& ready.project_statuses@[i].archived
            &&& validate::revision_value(r.expected_revision@) == Some(ready.project_statuses@[i].revision as int)
            &&& after.project_statuses@.len() == ready.project_statuses@.len() - 1
            &&& forall|j: int| 0 <= j < i ==> #[trigger] after.project_statuses@[j] == ready.project_statuses@[j]
            &&& forall|j: int|
                i <= j < after.project_statuses@.len() ==> #[trigger] after.project_statuses@[j] == ready.project_statuses@[j + 1]
            &&& value.organization_id@ == r.organization_id@
            &&& value.status_id@ == r.status_id@
            &&& value.deleted
            &&& after.teams == before.teams
            &&& after.team_members == before.team_members
            &&& after.workflow_states == before.workflow_states
            &&& after.projects == before.projects
            &&& after.issues == before.issues
            &&& after.aliases == before.aliases
            &&& after.links == before.links
            &&& after.cycles == before.cycles
            &&& after.milestones == before.milestones
            &&& after.labels == before.labels
            &&& after.comments == before.comments
            &&& after.project_updates == before.project_updates
            &&& after.relations == before.relations
            &&& after.receipts == before.receipts
            &&& after.workspaces == ready.workspaces
            &&& project_changes::catalog_kept(before, ready, r.organization_id@)
            &&& after.next_row == ready.next_row
            &&& traces::logged(
                before,
                after,
                call,
                r.idempotency_key@,
                (traces::Trace {
                    organization: r.organization_id@,
                    project: None,
                    issue: None,
                    operation: "delete_project_status"@,
                    kind: "project_status"@,
                    entity: r.status_id@,
                    revision: Some(ready.project_statuses@[i].revision as int),
                }),
            )
            &&& forall|j: int|
                0 <= j < before.projects@.len() ==> !((#[trigger] before.projects@[j]).organization_id@
                    == r.organization_id@ && before.projects@[j].status_id@ == r.status_id@)
        }),
{
    let ready = choose|ready: Store|
        {
            &&& #[trigger] project_status::catalog_ready(before, ready, r.organization_id@, ids)
            &&& project_status::delete_project_status_verdict(ready, call, r) is Proceed
            &&& project_status::delete_project_status_effect(ready, after, call, r, value)
        };
    project_changes::lemma_catalog_kept(before, ready, r.organization_id@, ids);
    table::lemma_appended(before.activity@, after.activity@);
    table::lemma_appended(before.commands@, after.commands@);
    let keep = store::is_project_status(r.organization_id@, r.status_id@);
    table::lemma_first_where(ready.project_statuses@, keep);
    let i = table::first_where(ready.project_statuses@, keep)->0;
    assert forall|j: int| 0 <= j < before.projects@.len() implies !((
    #[trigger] before.projects@[j]).organization_id@ == r.organization_id@
        && before.projects@[j].status_id@ == r.status_id@) by {
        assert(!project_status::uses_status(r.organization_id@, r.status_id@)(ready.projects@[j]));
    }
    (ready, i)
}

/// Whether a row is an unarchived status of the organization.
pub open spec fn is_active_status(row: ProjectStatus, organization: Seq<char>) -> bool {
    row.organization_id@ == organization && !row.archived
}

/// Whether an item of a batch names the row with its revision, and the row moved to the position of
/// that item with nothing else of it changed but its revision.
pub open spec fn status_moved(before: ProjectStatus, after: ProjectStatus, items: Seq<ReorderItem>) -> bool {
    &&& exists|k: int|
        {
            &&& 0 <= k < items.len()
            &&& (#[trigger] items[k]).id@ == before.status_id@
            &&& validate::revision_value(items[k].expected_revision@) == Some(before.revision as int)
            &&& after.position == items[k].position
        }
    &&& after.revision == before.revision + 1
    &&& after.status_id == before.status_id
    &&& after.organization_id == before.organization_id
    &&& after.name == before.name
    &&& after.category == before.category
    &&& after.color == before.color
    &&& after.is_default == before.is_default
    &&& after.archived == before.archived
    &&& after.archived_at == before.archived_at
    &&& after.row_seq == before.row_seq
}

/// Whether a value shows one of the active rows.
pub open spec fn is_among_statuses(rows: Seq<ProjectStatus>, value: ProjectStatusValue, organization: Seq<char>) -> bool {
    exists|j: int|
        0 <= j < rows.len() && is_active_status(#[trigger] rows[j], organization) && shows_status(
            rows[j],
            value,
        )
}

/// Whether one of the values shows the row.
pub open spec fn among_status_values(row: ProjectStatus, values: Seq<ProjectStatusValue>) -> bool {
    exists|v: int| 0 <= v < values.len() && shows_status(row, #[trigger] values[v])
}

/// A reordering that takes effect moves every active status of the organization to the position that
/// the batch gives it, from the revision that the batch expects to the next, and changes nothing
/// else; the answer shows exactly the active ones, by their position.
#[verifier::rlimit(60)]
pub proof fn law_reordered_statuses_are_where_they_were_put(
    before: Store,
    after: Store,
    call: Invocation,
    r: ReorderProjectStatusesRequest,
    ids: StatusIds,
    values: Vec<ProjectStatusValue>,
) -> (at: Store)
    requires
        project_status::reorder_project_statuses_outcome(
            before,
            after,
            call,
            r,
            ids,
            Ok::<Completion<Vec<ProjectStatusValue>>, StorageError>(Completion::Fresh(values)),
        ),
    ensures
        ({
            let ready = at;
            &&& after.project_statuses@.len() == ready.project_statuses@.len()
            &&& forall|j: int|
                0 <= j < ready.project_statuses@.len() && is_active_status(ready.project_statuses@[j], r.organization_id@)
                    ==> status_moved(ready.project_statuses@[j], #[trigger] after.project_statuses@[j], r.items@)
            &&& forall|j: int|
                0 <= j < ready.project_statuses@.len() && !is_active_status(ready.project_statuses@[j], r.organization_id@)
                    ==> #[trigger] after.project_statuses@[j] == ready.project_statuses@[j]
            &&& values@.len() == r.items@.len()
            &&& forall|v: int|
                0 <= v < values@.len() ==> is_among_statuses(after.project_statuses@, #[trigger] values@[v], r.organization_id@)
            &&& forall|j: int|
                0 <= j < after.project_statuses@.len() && is_active_status(after.project_statuses@[j], r.organization_id@)
                    ==> among_status_values(#[trigger] after.project_statuses@[j], values@)
            &&& forall|v: int, w: int|
                0 <= v < w < values@.len() ==> (#[trigger] values@[v]).position <= (
                #[trigger] values@[w]).position
            &&& after.teams == before.teams
            &&& after.team_members == before.team_members
            &&& after.workflow_states == before.workflow_states
            &&& after.projects == before.projects
            &&& after.issues == before.issues
            &&& after.aliases == before.aliases
            &&& after.links == before.links
            &&& after.cycles == before.cycles
            &&& after.milestones == before.milestones
            &&& after.labels == before.labels
            &&& after.comments == before.comments
            &&& after.project_updates == before.project_updates
            &&& after.relations == before.relations
            &&& after.receipts == before.receipts
            &&& after.workspaces == ready.workspaces
            &&& project_changes::catalog_kept(before, ready, r.organization_id@)
            &&& after.next_row == ready.next_row
            &&& traces::logged(
                before,
                after,
                call,
                r.idempotency_key@,
                (traces::Trace {
                    organization: r.organization_id@,
                    project: None,
                    issue: None,
                    operation: "reorder_project_statuses"@,
                    kind: "project_status_catalog"@,
                    entity: r.organization_id@,
                    revision: None,
                }),
            )
        }),
{
    let ready = choose|ready: Store|
        {
            &&& #[trigger] project_status::catalog_ready(before, ready, r.organization_id@, ids)
            &&& project_status::reorder_project_statuses_verdict(ready, call, r) is Proceed
            &&& project_status::reorder_project_statuses_effect(ready, after, call, r, values@)
        };
    project_changes::lemma_catalog_kept(before, ready, r.organization_id@, ids);
    table::lemma_appended(before.activity@, after.activity@);
    table::lemma_appended(before.commands@, after.commands@);
    let keep = project_status::is_active_status(r.organization_id@);
    let rows = ready.project_statuses@;
    let entries = project_status::active_statuses(ready, r.organization_id@);
    assert(entries.len() == rows.filter(keep).len());
    assert forall|j: int| 0 <= j < rows.len() && is_active_status(rows[j], r.organization_id@) implies status_moved(
        rows[j],
        #[trigger] after.project_statuses@[j],
        r.items@,
    ) by {
        assert(keep(rows[j]));
        rows.lemma_filter_contains(keep, j);
        let f = choose|f: int| 0 <= f < rows.filter(keep).len() && rows.filter(keep)[f] == rows[j];
        assert(entries[f] == project_status::status_entry()(rows[j]));
        catalog::lemma_first_misfit(entries, r.items@);
        assert(catalog::entry_refusal(entries[f], r.items@) is None);
        catalog::lemma_item_for(r.items@, rows[j].status_id@, r.items@.len() as int);
        assert(rows[j].revision < i64::MAX);
        let k = catalog::item_of(r.items@, rows[j].status_id@)->0;
        assert(r.items@[k].id@ == rows[j].status_id@);
    }
    assert forall|j: int| 0 <= j < rows.len() && !is_active_status(rows[j], r.organization_id@) implies #[trigger] after.project_statuses@[j]
        == rows[j] by {
        assert(!keep(rows[j]));
    }
    let later = after.project_statuses@;
    let active = later.filter(keep);
    let shown = choose|shown: Seq<ProjectStatusValue>|
        {
            &&& shown.len() == active.len()
            &&& forall|k: int|
                0 <= k < active.len() ==> project_status::is_status_value(active[k], #[trigger] shown[k])
            &&& #[trigger] shown.to_multiset() == values@.to_multiset()
            &&& table::ordered_rows(values@, project_status::status_place())
        };
    shown.to_multiset_ensures();
    values@.to_multiset_ensures();
    assert(values@.len() == shown.len());
    lemma_same_count_status(rows, later, keep);
    assert forall|v: int| 0 <= v < values@.len() implies is_among_statuses(
        later,
        #[trigger] values@[v],
        r.organization_id@,
    ) by {
        assert(values@.contains(values@[v]));
        assert(values@.to_multiset().count(values@[v]) > 0);
        assert(shown.to_multiset().count(values@[v]) > 0);
        assert(shown.contains(values@[v]));
        let k = choose|k: int| 0 <= k < shown.len() && shown[k] == values@[v];
        later.lemma_filter_pred(keep, k);
        assert(active.contains(active[k]));
        later.lemma_filter_contains_rev(keep, active[k]);
        let j = choose|j: int| 0 <= j < later.len() && later[j] == active[k];
        assert(is_active_status(later[j], r.organization_id@));
        assert(shows_status(later[j], values@[v]));
    }
    assert forall|j: int| 0 <= j < later.len() && is_active_status(later[j], r.organization_id@) implies among_status_values(
        #[trigger] later[j],
        values@,
    ) by {
        assert(keep(later[j]));
        later.lemma_filter_contains(keep, j);
        let k = choose|k: int| 0 <= k < active.len() && active[k] == later[j];
        assert(shown.contains(shown[k]));
        assert(shown.to_multiset().count(shown[k]) > 0);
        assert(values@.to_multiset().count(shown[k]) > 0);
        assert(values@.contains(shown[k]));
        let v = choose|v: int| 0 <= v < values@.len() && values@[v] == shown[k];
        assert(shows_status(later[j], values@[v]));
    }
    assert forall|v: int, w: int| 0 <= v < w < values@.len() implies (
    #[trigger] values@[v]).position <= (#[trigger] values@[w]).position by {
        assert(!project_status::status_place()(values@[w], values@[v]));
    }
    ready
}

/// As many rows are active as long as each stays active or not.
proof fn lemma_same_count_status(before: Seq<ProjectStatus>, after: Seq<ProjectStatus>, keep: spec_fn(ProjectStatus) -> bool)
    requires
        before.len() == after.len(),
        forall|j: int| 0 <= j < before.len() ==> keep(#[trigger] after[j]) == keep(before[j]),
    ensures
        before.filter(keep).len() == after.filter(keep).len(),
    decreases before.len(),
{
    reveal(Seq::filter);
    if before.len() > 0 {
        let (a, b) = (before.drop_last(), after.drop_last());
        assert forall|j: int| 0 <= j < a.len() implies keep(#[trigger] b[j]) == keep(a[j]) by {
            assert(b[j] == after[j] && a[j] == before[j]);
        }
        lemma_same_count_status(a, b, keep);
        assert(keep(after[after.len() - 1]) == keep(before[before.len() - 1]));
    }
}

/// The first use of an organization sets up its six statuses in their order, of which `Backlog` is
/// the default that the workspace record names; what other organizations have stays as it was.
pub proof fn law_first_catalog_has_six_statuses(
    before: Store,
    after: Store,
    organization: Seq<char>,
    ids: StatusIds,
)
    requires
        project_status::catalog_ready(before, after, organization, ids),
        forall|w: int|
            0 <= w < before.workspaces@.len() ==> (#[trigger] before.workspaces@[w]).organization_id@
                != organization,
    ensures
        ({
            let n = before.project_statuses@.len() as int;
            &&& after.project_statuses@.len() == n + 6
            &&& forall|j: int|
                0 <= j < n ==> #[trigger] after.project_statuses@[j] == before.project_statuses@[j]
            &&& forall|j: int|
                n <= j < n + 6 ==> (#[trigger] after.project_statuses@[j]).organization_id@ == organization
                    && !after.project_statuses@[j].archived && after.project_statuses@[j].archived_at is None
                    && after.project_statuses@[j].revision == 1
            &&& after.project_statuses@[n + 0].status_id@ == ids.backlog@
            &&& after.project_statuses@[n + 0].name@ == "Backlog"@
            &&& after.project_statuses@[n + 0].category == ProjectStatusCategory::Backlog
            &&& after.project_statuses@[n + 0].color@ == "#6B7280"@
            &&& after.project_statuses@[n + 0].position == 0
            &&& after.project_statuses@[n + 0].is_default == true
            &&& after.project_statuses@[n + 1].status_id@ == ids.planned@
            &&& after.project_statuses@[n + 1].name@ == "Planned"@
            &&& after.project_statuses@[n + 1].category == ProjectStatusCategory::Planned
            &&& after.project_statuses@[n + 1].color@ == "#8B5CF6"@
            &&& after.project_statuses@[n + 1].position == 1
            &&& after.project_statuses@[n + 1].is_default == false
            &&& after.project_statuses@[n + 2].status_id@ == ids.in_progress@
            &&& after.project_statuses@[n + 2].name@ == "In Progress"@
            &&& after.project_statuses@[n + 2].category == ProjectStatusCategory::Started
            &&& after.project_statuses@[n + 2].color@ == "#3B82F6"@
            &&& after.project_statuses@[n + 2].position == 2
            &&& after.project_statuses@[n + 2].is_default == false
            &&& after.project_statuses@[n + 3].status_id@ == ids.paused@
            &&& after.project_statuses@[n + 3].name@ == "Paused"@
            &&& after.project_statuses@[n + 3].category == ProjectStatusCategory::Paused
            &&& after.project_statuses@[n + 3].color@ == "#F59E0B"@
            &&& after.project_statuses@[n + 3].position == 3
            &&& after.project_statuses@[n + 3].is_default == false
            &&& after.project_statuses@[n + 4].status_id@ == ids.completed@
            &&& after.project_statuses@[n + 4].name@ == "Completed"@
            &&& after.project_statuses@[n + 4].category == ProjectStatusCategory::Completed
            &&& after.project_statuses@[n + 4].color@ == "#10B981"@
            &&& after.project_statuses@[n + 4].position == 4
            &&& after.project_statuses@[n + 4].is_default == false
            &&& after.project_statuses@[n + 5].status_id@ == ids.canceled@
            &&& after.project_statuses@[n + 5].name@ == "Canceled"@
            &&& after.project_statuses@[n + 5].category == ProjectStatusCategory::Canceled
            &&& after.project_statuses@[n + 5].color@ == "#9CA3AF"@
            &&& after.project_statuses@[n + 5].position == 5
            &&& after.project_statuses@[n + 5].is_default == false
            &&& after.workspaces@.len() == before.workspaces@.len() + 1
            &&& forall|w: int|
                0 <= w < before.workspaces@.len() ==> #[trigger] after.workspaces@[w] == before.workspaces@[w]
            &&& after.workspaces@.last().organization_id@ == organization
            &&& after.workspaces@.last().default_project_status_id@ == ids.backlog@
            &&& after.next_row == before.next_row + 6 || before.next_row + 6 > i64::MAX
        }),
        after.teams == before.teams,
        after.team_members == before.team_members,
        after.workflow_states == before.workflow_states,
        after.projects == before.projects,
        after.issues == before.issues,
        after.aliases == before.aliases,
        after.links == before.links,
        after.cycles == before.cycles,
        after.milestones == before.milestones,
        after.labels == before.labels,
        after.comments == before.comments,
        after.project_updates == before.project_updates,
        after.relations == before.relations,
        after.activity == before.activity,
        after.commands == before.commands,
        after.receipts == before.receipts,
        after.next_activity == before.next_activity,
{
    table::lemma_first_where(before.workspaces@, store::is_workspace(organization));
    project_changes::lemma_catalog_kept(before, after, organization, ids);
    let n = before.project_statuses@.len() as int;
    assert(after.project_statuses@[n + 0] == after.project_statuses@.skip(n)[0]);
    assert(after.project_statuses@[n + 1] == after.project_statuses@.skip(n)[1]);
    assert(after.project_statuses@[n + 2] == after.project_statuses@.skip(n)[2]);
    assert(after.project_statuses@[n + 3] == after.project_statuses@.skip(n)[3]);
    assert(after.project_statuses@[n + 4] == after.project_statuses@.skip(n)[4]);
    assert(after.project_statuses@[n + 5] == after.project_statuses@.skip(n)[5]);
}

} // verus!
