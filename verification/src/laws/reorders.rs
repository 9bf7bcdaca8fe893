//! How reorderings end.
use crate::catalog;
use crate::catalog::EntryView;
use crate::failure::{DomainFailure, StorageError};
use crate::laws::answers;
use crate::laws::catalogs;
use crate::laws::governed;
use crate::laws::listings;
use crate::laws::replies;
use crate::laws::traces;
use crate::model::{
    Completion, ProjectStatusValue, ReorderItem, ReorderProjectStatusesRequest,
    ReorderWorkflowStatesRequest, WorkflowStateValue,
};
use crate::project_status;
use crate::project_status::StatusIds;
use crate::store::{Invocation, Store};
use crate::table;
use crate::text;
use crate::validate;
use crate::workflow;
use vstd::prelude::*;

verus! {

/// Whether a batch has one to a hundred items, no two of which share an id or a place, and every place
/// is a number from zero to the largest that a column of 32 bits holds.
pub open spec fn is_sound(items: Seq<ReorderItem>) -> bool {
    &&& items.len() != 0
    &&& items.len() < 101
    &&& forall|k: int|
        0 <= k < items.len() ==> (#[trigger] items[k]).position >= 0 && items[k].position
            <= 2_147_483_647
    &&& forall|k: int, l: int|
        0 <= k < items.len() && 0 <= l < items.len() && k != l ==> (#[trigger] items[k]).id@ != (
        #[trigger] items[l]).id@
    &&& forall|k: int, l: int|
        0 <= k < items.len() && 0 <= l < items.len() && k != l ==> (#[trigger] items[k]).position != (
        #[trigger] items[l]).position
}

/// A batch is taken exactly where it is sound.
pub proof fn law_batches_are_sound(items: Seq<ReorderItem>)
    ensures
        catalog::is_batch(items) <==> is_sound(items),
{
    if catalog::is_batch(items) {
        assert forall|k: int, l: int|
            0 <= k < items.len() && 0 <= l < items.len() && k != l implies (
        #[trigger] items[k]).id@ != (#[trigger] items[l]).id@ && items[k].position
            != items[l].position by {
            if k > l {
                assert(items[l].id@ != items[k].id@);
            }
        }
    }
}

/// Whether an item of the batch speaks of the entry with this id.
pub open spec fn speaks_of(items: Seq<ReorderItem>, k: int, id: Seq<char>) -> bool {
    0 <= k < items.len() && items[k].id@ == id
}

/// Whether an item speaks of the entry and expects the revision that it has.
pub open spec fn is_met(items: Seq<ReorderItem>, id: Seq<char>, revision: int) -> bool {
    exists|k: int| #[trigger]
        speaks_of(items, k, id) && validate::revision_value(items[k].expected_revision@) == Some(
            revision,
        )
}

/// What is wrong with the batch for an entry that it does not meet: another revision is expected, or
/// no item, or none with a number, speaks of it.
pub open spec fn is_missed(
    items: Seq<ReorderItem>,
    id: Seq<char>,
    revision: int,
    failure: DomainFailure,
) -> bool {
    &&& !is_met(items, id, revision)
    &&& if exists|k: int| #[trigger]
        speaks_of(items, k, id) && validate::revision_value(items[k].expected_revision@) is Some {
        failure == DomainFailure::RevisionConflict
    } else {
        failure == DomainFailure::InvalidRequest
    }
}

/// What is wrong with a sound batch for an entry.
proof fn lemma_entry(entry: EntryView, items: Seq<ReorderItem>)
    requires
        is_sound(items),
    ensures
        match catalog::entry_refusal(entry, items) {
            None => is_met(items, entry.id, entry.revision),
            Some(failure) => is_missed(items, entry.id, entry.revision, failure),
        },
{
    catalog::lemma_item_for(items, entry.id, items.len() as int);
    match catalog::item_of(items, entry.id) {
        Some(k) => {
            assert(speaks_of(items, k, entry.id));
            assert forall|l: int| #[trigger] speaks_of(items, l, entry.id) implies l == k by {}
        },
        None => {
            assert forall|l: int| !#[trigger] speaks_of(items, l, entry.id) by {}
        },
    }
}

/// Of the entries that a batch does not fit, the one that decides comes before every other.
proof fn lemma_decides(entries: Seq<EntryView>, items: Seq<ReorderItem>)
    ensures
        catalog::first_misfit(entries, items) matches Some(k) ==> forall|j: int|
            0 <= j < entries.len() && catalog::entry_refusal(#[trigger] entries[j], items) is Some
                ==> !text::text_before(entries[j].id, entries[k].id),
    decreases entries.len(),
{
    if entries.len() > 0 {
        let front = entries.drop_last();
        let last = entries.last();
        lemma_decides(front, items);
        catalog::lemma_first_misfit(front, items);
        catalog::lemma_first_misfit(entries, items);
        if let Some(k) = catalog::first_misfit(entries, items) {
            assert forall|j: int|
                0 <= j < entries.len() && catalog::entry_refusal(
                    #[trigger] entries[j],
                    items,
                ) is Some implies !text::text_before(entries[j].id, entries[k].id) by {
                text::lemma_text_before_total(entries[j].id, entries[k].id);
                if j < front.len() {
                    assert(front[j] == entries[j]);
                    if k == entries.len() - 1 {
                        let f = catalog::first_misfit(front, items)->0;
                        assert(front[f] == entries[f]);
                        if text::text_before(entries[j].id, last.id) {
                            text::lemma_text_before_transitive(
                                entries[j].id,
                                last.id,
                                entries[f].id,
                            );
                        }
                    }
                }
            }
        }
    }
}

/// Whether these are the places of the active states of a team.
pub open spec fn active_state_places(s: Store, organization: Seq<char>, team: Seq<char>, at: Seq<int>) -> bool {
    &&& governed::in_their_order(at, s.workflow_states@.len() as int)
    &&& forall|j: int|
        0 <= j < s.workflow_states@.len() ==> (at.contains(j) <==> catalogs::is_active_state(
            #[trigger] s.workflow_states@[j],
            organization,
            team,
        ))
}

/// Reordering a team's states ends as its first unmet condition says, and takes effect where all are
/// met; what does not take effect changes nothing. In their order: the batch is sound; the key was not
/// used; there are as many items as active states; each active state has an item that expects its
/// revision, and where several have not the one with the first id decides.
#[verifier::rlimit(40)]
pub proof fn law_reorder_workflow_states_answers(
    before: Store,
    after: Store,
    call: Invocation,
    r: ReorderWorkflowStatesRequest,
    result: Result<Completion<Vec<WorkflowStateValue>>, StorageError>,
) -> (at: Seq<int>)
    requires
        workflow::reorder_workflow_states_outcome(before, after, call, r, result),
    ensures
        active_state_places(before, r.organization_id@, r.team_id@, at),
        if !is_sound(r.items@) {
            answers::refused(result, DomainFailure::InvalidRequest)
        } else if answers::key_used(before, call, "reorder_workflow_states"@, r.idempotency_key@) {
            answers::answered_before(before, call, "reorder_workflow_states"@, r.idempotency_key@, result)
        } else if at.len() != r.items@.len() {
            answers::refused(result, DomainFailure::InvalidRequest)
        } else if exists|k: int|
            0 <= k < at.len() && !is_met(
                r.items@,
                before.workflow_states@[#[trigger] at[k]].state_id@,
                before.workflow_states@[at[k]].revision as int,
            ) {
            exists|k: int, failure: DomainFailure|
                {
                    &&& 0 <= k < at.len()
                    &&& #[trigger] is_missed(
                        r.items@,
                        before.workflow_states@[at[k]].state_id@,
                        before.workflow_states@[at[k]].revision as int,
                        failure,
                    )
                    &&& answers::refused(result, failure)
                    &&& forall|l: int|
                        0 <= l < at.len() && !is_met(
                            r.items@,
                            before.workflow_states@[#[trigger] at[l]].state_id@,
                            before.workflow_states@[at[l]].revision as int,
                        ) ==> !traces::precedes(
                            before.workflow_states@[at[l]].state_id@,
                            before.workflow_states@[at[k]].state_id@,
                        )
                }
        } else if exists|k: int|
            0 <= k < at.len() && before.workflow_states@[#[trigger] at[k]].revision == i64::MAX {
            answers::faulted(result)
        } else if before.next_activity == i64::MAX {
            answers::faulted(result)
        } else {
            answers::took_effect(result)
        },
        !answers::took_effect(result) ==> after == before,
{
    law_batches_are_sound(r.items@);
    answers::lemma_key_used(before, call, "reorder_workflow_states"@, r.idempotency_key@, result);
    let rows = before.workflow_states@;
    let keep = workflow::is_active_state(r.organization_id@, r.team_id@);
    let at = listings::lemma_filter_places(rows, keep);
    let entries = workflow::active_entries(before, r.organization_id@, r.team_id@);
    assert forall|j: int| 0 <= j < rows.len() implies (at.contains(j) <==> catalogs::is_active_state(
        #[trigger] rows[j],
        r.organization_id@, r.team_id@,
    )) by {
        if at.contains(j) {
            let k = choose|k: int| 0 <= k < at.len() && at[k] == j;
            assert(keep(rows[at[k]]));
        }
        if catalogs::is_active_state(rows[j], r.organization_id@, r.team_id@) {
            assert(keep(rows[j]));
        }
    }
    assert(entries.len() == at.len());
    assert forall|k: int| 0 <= k < at.len() implies (#[trigger] entries[k]).id == rows[at[k]].state_id@
        && entries[k].revision == rows[at[k]].revision by {}
    catalog::lemma_first_misfit(entries, r.items@);
    lemma_decides(entries, r.items@);
    if is_sound(r.items@) {
        assert forall|k: int| 0 <= k < at.len() implies is_met(
            r.items@,
            rows[#[trigger] at[k]].state_id@,
            rows[at[k]].revision as int,
        ) == (catalog::entry_refusal(entries[k], r.items@) is None) by {
            lemma_entry(entries[k], r.items@);
        }
        if let Some(k) = catalog::first_misfit(entries, r.items@) {
            lemma_entry(entries[k], r.items@);
            let failure = catalog::entry_refusal(entries[k], r.items@)->0;
            assert(is_missed(
                r.items@,
                rows[at[k]].state_id@,
                rows[at[k]].revision as int,
                failure,
            ));
            assert(!is_met(r.items@, rows[at[k]].state_id@, rows[at[k]].revision as int));
            assert forall|l: int|
                0 <= l < at.len() && !is_met(
                    r.items@,
                    rows[#[trigger] at[l]].state_id@,
                    rows[at[l]].revision as int,
                ) implies !traces::precedes(rows[at[l]].state_id@, rows[at[k]].state_id@) by {
                assert(catalog::entry_refusal(entries[l], r.items@) is Some);
                traces::law_text_order(rows[at[l]].state_id@, rows[at[k]].state_id@);
            }
        }
    }
    let free = workflow::is_revisable_state(r.organization_id@, r.team_id@);
    if exists|k: int| 0 <= k < at.len() && rows[#[trigger] at[k]].revision == i64::MAX {
        let k = choose|k: int| 0 <= k < at.len() && rows[#[trigger] at[k]].revision == i64::MAX;
        assert(keep(rows[at[k]]));
        assert(!free(rows[at[k]]));
    } else {
        assert forall|j: int| 0 <= j < rows.len() implies free(#[trigger] rows[j]) by {
            if keep(rows[j]) {
                let k = choose|k: int| 0 <= k < at.len() && at[k] == j;
                assert(rows[at[k]].revision != i64::MAX);
            }
        }
        assert(table::every_row(rows, free));
    }
    at
}

/// Whether these are the places of the active statuses of an organization.
pub open spec fn active_status_places(s: Store, organization: Seq<char>, at: Seq<int>) -> bool {
    &&& governed::in_their_order(at, s.project_statuses@.len() as int)
    &&& forall|j: int|
        0 <= j < s.project_statuses@.len() ==> (at.contains(j) <==> catalogs::is_active_status(
            #[trigger] s.project_statuses@[j],
            organization,
        ))
}

/// In an organization that is set up: reordering the project statuses ends as its first unmet condition
/// says, and takes effect where all are met; what does not take effect changes nothing. In their order:
/// the batch is sound; the key was not used; there are as many items as active statuses; each active
/// status has an item that expects its revision, and where several have not the one with the first id
/// decides.
#[verifier::rlimit(40)]
pub proof fn law_reorder_project_statuses_answers(
    before: Store,
    after: Store,
    call: Invocation,
    r: ReorderProjectStatusesRequest,
    ids: StatusIds,
    result: Result<Completion<Vec<ProjectStatusValue>>, StorageError>,
) -> (at: Seq<int>)
    requires
        replies::workspace_exists(before, r.organization_id@),
        project_status::reorder_project_statuses_outcome(before, after, call, r, ids, result),
    ensures
        active_status_places(before, r.organization_id@, at),
        if !is_sound(r.items@) {
            answers::refused(result, DomainFailure::InvalidRequest)
        } else if answers::key_used(before, call, "reorder_project_statuses"@, r.idempotency_key@) {
            answers::answered_before(before, call, "reorder_project_statuses"@, r.idempotency_key@, result)
        } else if at.len() != r.items@.len() {
            answers::refused(result, DomainFailure::InvalidRequest)
        } else if exists|k: int|
            0 <= k < at.len() && !is_met(
                r.items@,
                before.project_statuses@[#[trigger] at[k]].status_id@,
                before.project_statuses@[at[k]].revision as int,
            ) {
            exists|k: int, failure: DomainFailure|
                {
                    &&& 0 <= k < at.len()
                    &&& #[trigger] is_missed(
                        r.items@,
                        before.project_statuses@[at[k]].status_id@,
                        before.project_statuses@[at[k]].revision as int,
                        failure,
                    )
                    &&& answers::refused(result, failure)
                    &&& forall|l: int|
                        0 <= l < at.len() && !is_met(
                            r.items@,
                            before.project_statuses@[#[trigger] at[l]].status_id@,
                            before.project_statuses@[at[l]].revision as int,
                        ) ==> !traces::precedes(
                            before.project_statuses@[at[l]].status_id@,
                            before.project_statuses@[at[k]].status_id@,
                        )
                }
        } else if exists|k: int|
            0 <= k < at.len() && before.project_statuses@[#[trigger] at[k]].revision == i64::MAX {
            answers::faulted(result)
        } else if before.next_activity == i64::MAX {
            answers::faulted(result)
        } else {
            answers::took_effect(result)
        },
        !answers::took_effect(result) ==> after == before,
{
    law_batches_are_sound(r.items@);
    answers::lemma_key_used(before, call, "reorder_project_statuses"@, r.idempotency_key@, result);
    replies::lemma_workspace_found(before, r.organization_id@);
    let rows = before.project_statuses@;
    let keep = project_status::is_active_status(r.organization_id@);
    let at = listings::lemma_filter_places(rows, keep);
    let entries = project_status::active_statuses(before, r.organization_id@);
    assert forall|j: int| 0 <= j < rows.len() implies (at.contains(j) <==> catalogs::is_active_status(
        #[trigger] rows[j],
        r.organization_id@,
    )) by {
        if at.contains(j) {
            let k = choose|k: int| 0 <= k < at.len() && at[k] == j;
            assert(keep(rows[at[k]]));
        }
        if catalogs::is_active_status(rows[j], r.organization_id@) {
            assert(keep(rows[j]));
        }
    }
    assert(entries.len() == at.len());
    assert forall|k: int| 0 <= k < at.len() implies (#[trigger] entries[k]).id == rows[at[k]].status_id@
        && entries[k].revision == rows[at[k]].revision by {}
    catalog::lemma_first_misfit(entries, r.items@);
    lemma_decides(entries, r.items@);
    if is_sound(r.items@) {
        assert forall|k: int| 0 <= k < at.len() implies is_met(
            r.items@,
            rows[#[trigger] at[k]].status_id@,
            rows[at[k]].revision as int,
        ) == (catalog::entry_refusal(entries[k], r.items@) is None) by {
            lemma_entry(entries[k], r.items@);
        }
        if let Some(k) = catalog::first_misfit(entries, r.items@) {
            lemma_entry(entries[k], r.items@);
            let failure = catalog::entry_refusal(entries[k], r.items@)->0;
            assert(is_missed(
                r.items@,
                rows[at[k]].status_id@,
                rows[at[k]].revision as int,
                failure,
            ));
            assert(!is_met(r.items@, rows[at[k]].status_id@, rows[at[k]].revision as int));
            assert forall|l: int|
                0 <= l < at.len() && !is_met(
                    r.items@,
                    rows[#[trigger] at[l]].status_id@,
                    rows[at[l]].revision as int,
                ) implies !traces::precedes(rows[at[l]].status_id@, rows[at[k]].status_id@) by {
                assert(catalog::entry_refusal(entries[l], r.items@) is Some);
                traces::law_text_order(rows[at[l]].status_id@, rows[at[k]].status_id@);
            }
        }
    }
    let free = project_status::is_revisable_status(r.organization_id@);
    if exists|k: int| 0 <= k < at.len() && rows[#[trigger] at[k]].revision == i64::MAX {
        let k = choose|k: int| 0 <= k < at.len() && rows[#[trigger] at[k]].revision == i64::MAX;
        assert(keep(rows[at[k]]));
        assert(!free(rows[at[k]]));
    } else {
        assert forall|j: int| 0 <= j < rows.len() implies free(#[trigger] rows[j]) by {
            if keep(rows[j]) {
                let k = choose|k: int| 0 <= k < at.len() && at[k] == j;
                assert(rows[at[k]].revision != i64::MAX);
            }
        }
        assert(table::every_row(rows, free));
    }
    at
}

} // verus!
