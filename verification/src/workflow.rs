//! The workflow states of teams: a catalog with a protected default and atomic reordering.
use crate::catalog;
use crate::catalog::{check_reorder, find_item, fits_position, valid_batch, CatalogEntry, EntryView};
use crate::clock;
use crate::clock::{fresh_catalog_id, Timestamp};
use crate::contract::{
    ARCHIVE_WORKFLOW_STATE_OPERATION, DELETE_WORKFLOW_STATE_OPERATION,
    PUT_WORKFLOW_STATE_OPERATION, REORDER_WORKFLOW_STATES_OPERATION,
};
use crate::failure::{runtime, DomainFailure, StorageError};
use crate::model::{
    ArchiveWorkflowStateRequest, Completion, DeleteWorkflowStateRequest, DeletedWorkflowState,
    GetWorkflowStateRequest, Issue, ListIssueWorkflowStatesRequest, ListWorkflowStatesRequest,
    PutWorkflowStateRequest, ReorderItem, ReorderWorkflowStatesRequest, WorkflowCategory,
    WorkflowState, WorkflowStateValue,
};
use crate::store;
use crate::store::{check_growth, start_listing, ActivityEntry, Invocation, Store, Verdict};
use crate::table;
use crate::table::{all_rows, any_row, page_of, sort_rows, Page};
use crate::text;
use crate::validate;
use crate::validate::parse_revision;
use vstd::prelude::*;

verus! {

/// Whether `value` shows the workflow state in `row`.
pub open spec fn is_state_value(row: WorkflowState, value: WorkflowStateValue) -> bool {
    &&& value.state_id@ == row.state_id@
    &&& value.organization_id@ == row.organization_id@
    &&& value.team_id@ == row.team_id@
    &&& value.name@ == row.name@
    &&& value.category == row.category
    &&& value.color@ == row.color@
    &&& value.position == row.position
    &&& value.archived == row.archived
    &&& text::text_of(value.archived_at) == clock::time_text(row.archived_at)
    &&& value.revision@ == text::integer_text(row.revision as int)
}

/// Shows the workflow state in `row`.
pub fn load_workflow_state_value(row: &WorkflowState) -> (value: WorkflowStateValue)
    ensures
        is_state_value(*row, value),
{
    WorkflowStateValue {
        state_id: row.state_id.clone(),
        organization_id: row.organization_id.clone(),
        team_id: row.team_id.clone(),
        name: row.name.clone(),
        category: row.category,
        color: row.color.clone(),
        position: row.position,
        archived: row.archived,
        archived_at: clock::time_string(&row.archived_at),
        revision: text::integer_string(row.revision),
    }
}

/// The ids of a team's five default workflow states.
#[derive(Debug)]
pub struct WorkflowIds {
    pub backlog: String,
    pub todo: String,
    pub in_progress: String,
    pub done: String,
    pub canceled: String,
}

impl WorkflowIds {
    /// Five fresh ids.
    pub fn generate() -> (ids: WorkflowIds)
        ensures
            clock::is_catalog_id(ids.backlog@, "workflow_state"@),
            clock::is_catalog_id(ids.todo@, "workflow_state"@),
            clock::is_catalog_id(ids.in_progress@, "workflow_state"@),
            clock::is_catalog_id(ids.done@, "workflow_state"@),
            clock::is_catalog_id(ids.canceled@, "workflow_state"@),
    {
        WorkflowIds {
            backlog: fresh_catalog_id("workflow_state"),
            todo: fresh_catalog_id("workflow_state"),
            in_progress: fresh_catalog_id("workflow_state"),
            done: fresh_catalog_id("workflow_state"),
            canceled: fresh_catalog_id("workflow_state"),
        }
    }

    /// Whether no workflow state has one of the ids, and they differ from each other.
    pub open spec fn are_free(self, s: Store) -> bool {
        &&& !table::some_row(s.workflow_states@, store::has_state_id(self.backlog@))
        &&& !table::some_row(s.workflow_states@, store::has_state_id(self.todo@))
        &&& !table::some_row(s.workflow_states@, store::has_state_id(self.in_progress@))
        &&& !table::some_row(s.workflow_states@, store::has_state_id(self.done@))
        &&& !table::some_row(s.workflow_states@, store::has_state_id(self.canceled@))
        &&& self.backlog@ != self.todo@
        &&& self.backlog@ != self.in_progress@
        &&& self.backlog@ != self.done@
        &&& self.backlog@ != self.canceled@
        &&& self.todo@ != self.in_progress@
        &&& self.todo@ != self.done@
        &&& self.todo@ != self.canceled@
        &&& self.in_progress@ != self.done@
        &&& self.in_progress@ != self.canceled@
        &&& self.done@ != self.canceled@
    }

    /// Whether no workflow state has one of the ids, and they differ from each other.
    pub fn check_free(&self, s: &Store) -> (answer: bool)
        ensures
            answer == self.are_free(*s),
    {
        let a = self.backlog.as_str();
        let b = self.todo.as_str();
        let c = self.in_progress.as_str();
        let d = self.done.as_str();
        let e = self.canceled.as_str();
        !s.taken_state_id(a) && !s.taken_state_id(b) && !s.taken_state_id(c) && !s.taken_state_id(d)
            && !s.taken_state_id(e) && !text::same(a, b) && !text::same(a, c) && !text::same(a, d)
            && !text::same(a, e) && !text::same(b, c) && !text::same(b, d) && !text::same(b, e)
            && !text::same(c, d) && !text::same(c, e) && !text::same(d, e)
    }
}

/// Whether `row` is a new, unarchived workflow state with these fields.
pub open spec fn is_fresh_state(
    row: WorkflowState,
    id: Seq<char>,
    organization: Seq<char>,
    team: Seq<char>,
    name: Seq<char>,
    category: WorkflowCategory,
    color: Seq<char>,
    position: int,
    row_seq: int,
) -> bool {
    &&& row.state_id@ == id
    &&& row.organization_id@ == organization
    &&& row.team_id@ == team
    &&& row.name@ == name
    &&& row.category == category
    &&& row.color@ == color
    &&& row.position == position
    &&& !row.archived
    &&& row.archived_at is None
    &&& row.revision == 1
    &&& row.row_seq == row_seq
}

/// Whether the rows are a team's five default workflow states, in their order.
pub open spec fn are_default_states(
    rows: Seq<WorkflowState>,
    organization: Seq<char>,
    team: Seq<char>,
    ids: WorkflowIds,
    first: int,
) -> bool {
    &&& rows.len() == 5
    &&& is_fresh_state(
        rows[0],
        ids.backlog@,
        organization,
        team,
        "Backlog"@,
        WorkflowCategory::Backlog,
        "#6B7280"@,
        0,
        first,
    )
    &&& is_fresh_state(
        rows[1],
        ids.todo@,
        organization,
        team,
        "Todo"@,
        WorkflowCategory::Unstarted,
        "#9CA3AF"@,
        1,
        first + 1,
    )
    &&& is_fresh_state(
        rows[2],
        ids.in_progress@,
        organization,
        team,
        "In Progress"@,
        WorkflowCategory::Started,
        "#3B82F6"@,
        2,
        first + 2,
    )
    &&& is_fresh_state(
        rows[3],
        ids.done@,
        organization,
        team,
        "Done"@,
        WorkflowCategory::Completed,
        "#10B981"@,
        3,
        first + 3,
    )
    &&& is_fresh_state(
        rows[4],
        ids.canceled@,
        organization,
        team,
        "Canceled"@,
        WorkflowCategory::Canceled,
        "#9CA3AF"@,
        4,
        first + 4,
    )
}

/// Picks the issues that are in the workflow state.
pub open spec fn uses_state(organization: Seq<char>, id: Seq<char>) -> spec_fn(Issue) -> bool {
    |row: Issue| row.organization_id@ == organization && row.workflow_state_id@ == id
}

/// Picks the issues of the team that are in the workflow state.
pub open spec fn uses_team_state(organization: Seq<char>, team: Seq<char>, id: Seq<char>) -> spec_fn(
    Issue,
) -> bool {
    |row: Issue|
        row.organization_id@ == organization && row.team_id@ == team && row.workflow_state_id@ == id
}

/// Whether the workflow state is the default of the team.
pub open spec fn is_default_state(s: Store, organization: Seq<char>, team: Seq<char>, id: Seq<char>) -> bool {
    match s.team_at(organization, team) {
        Some(t) => s.teams@[t].default_workflow_state_id@ == id,
        None => false,
    }
}

/// How putting a workflow state ends.
pub open spec fn put_workflow_state_verdict(
    s: Store,
    call: Invocation,
    r: PutWorkflowStateRequest,
) -> Verdict {
    let found = s.team_state_at(r.organization_id@, r.team_id@, r.state_id@);
    store::demand(
        s.team_at(r.organization_id@, r.team_id@) is Some,
        DomainFailure::NotFound,
    ).and(s.command_verdict(call, PUT_WORKFLOW_STATE_OPERATION@, r.idempotency_key@)).and(
        match r.expected_revision {
            Some(expected) => store::demand(found is Some, DomainFailure::NotFound).and(
                store::demand(
                    s.workflow_states@[found->0].category == r.category,
                    DomainFailure::InvalidRequest,
                ),
            ).and(
                store::demand(
                    validate::revision_value(expected@) is Some,
                    DomainFailure::InvalidRequest,
                ),
            ).and(
                store::demand(
                    validate::revision_value(expected@) == Some(
                        s.workflow_states@[found->0].revision as int,
                    ),
                    DomainFailure::RevisionConflict,
                ),
            ).and(fitting(r.position as int, "update workflow"@)).and(
                store::grows(s.workflow_states@[found->0].revision, 1, "update workflow"@),
            ),
            None => fitting(r.position as int, "insert workflow"@).and(
                store::grows(s.next_row, 1, "insert workflow"@),
            ).and(
                store::demand(
                    !table::some_row(s.workflow_states@, store::has_state_id(r.state_id@)),
                    DomainFailure::KeyConflict,
                ),
            ),
        },
    ).and(store::appends(s))
}

/// The verdict that a position fits its column.
pub open spec fn fitting(position: int, operation: Seq<char>) -> Verdict {
    if catalog::position_fits(position) {
        Verdict::Proceed
    } else {
        Verdict::Fault(operation, "integer out of range"@)
    }
}

/// What a workflow mutation of one state records.
pub open spec fn state_recorded(
    before: Store,
    after: Store,
    call: Invocation,
    key: Seq<char>,
    organization: Seq<char>,
    operation: Seq<char>,
    id: Seq<char>,
    revision: int,
) -> bool {
    store::recorded(
        before,
        after,
        call,
        key,
        (ActivityEntry {
            organization,
            project: None,
            issue: None,
            operation,
            kind: "workflow_state"@,
            entity: id,
            revision: Some(revision),
        }),
    )
}

/// The store after workflow states and the records of a mutation changed.
pub open spec fn only_states(before: Store, after: Store) -> bool {
    after == (Store {
        workflow_states: after.workflow_states,
        next_row: after.next_row,
        activity: after.activity,
        commands: after.commands,
        next_activity: after.next_activity,
        ..before
    })
}

/// What putting a workflow state does and answers.
pub open spec fn put_workflow_state_outcome(
    before: Store,
    after: Store,
    call: Invocation,
    r: PutWorkflowStateRequest,
    result: Result<Completion<WorkflowStateValue>, StorageError>,
) -> bool {
    let verdict = put_workflow_state_verdict(before, call, r);
    let value = store::fresh(result);
    &&& store::settles(verdict, result)
    &&& if verdict is Proceed {
        &&& match r.expected_revision {
            Some(_) => {
                let i = before.team_state_at(r.organization_id@, r.team_id@, r.state_id@)->0;
                let old_row = before.workflow_states@[i];
                let new_row = after.workflow_states@[i];
                &&& after.workflow_states@ == before.workflow_states@.update(i, new_row)
                &&& new_row.name@ == text::trimmed(r.name@)
                &&& new_row.color@ == r.color@
                &&& new_row == (WorkflowState {
                    name: new_row.name,
                    color: new_row.color,
                    position: r.position as i32,
                    revision: (old_row.revision + 1) as i64,
                    ..old_row
                })
                &&& after.next_row == before.next_row
                &&& is_state_value(new_row, value)
                &&& state_recorded(
                    before,
                    after,
                    call,
                    r.idempotency_key@,
                    r.organization_id@,
                    PUT_WORKFLOW_STATE_OPERATION@,
                    r.state_id@,
                    old_row.revision + 1,
                )
            },
            None => {
                &&& after.workflow_states@.len() == before.workflow_states@.len() + 1
                &&& after.workflow_states@.drop_last() == before.workflow_states@
                &&& is_fresh_state(
                    after.workflow_states@.last(),
                    r.state_id@,
                    r.organization_id@,
                    r.team_id@,
                    text::trimmed(r.name@),
                    r.category,
                    r.color@,
                    r.position as int,
                    before.next_row as int,
                )
                &&& after.next_row == before.next_row + 1
                &&& is_state_value(after.workflow_states@.last(), value)
                &&& state_recorded(
                    before,
                    after,
                    call,
                    r.idempotency_key@,
                    r.organization_id@,
                    PUT_WORKFLOW_STATE_OPERATION@,
                    r.state_id@,
                    1,
                )
            },
        }
        &&& only_states(before, after)
    } else {
        after == before
    }
}

/// What reading a workflow state answers.
pub open spec fn get_workflow_state_outcome(
    s: Store,
    r: GetWorkflowStateRequest,
    result: Result<WorkflowStateValue, StorageError>,
) -> bool {
    match s.team_state_at(r.organization_id@, r.team_id@, r.state_id@) {
        Some(i) => result matches Ok(value) && is_state_value(s.workflow_states@[i], value),
        None => result == Err::<WorkflowStateValue, StorageError>(
            StorageError::Domain(DomainFailure::NotFound),
        ),
    }
}

/// Picks the unarchived workflow states of the team.
pub open spec fn is_active_state(organization: Seq<char>, team: Seq<char>) -> spec_fn(WorkflowState) -> bool {
    |row: WorkflowState|
        row.organization_id@ == organization && row.team_id@ == team && !row.archived
}

/// The id and the revision of a workflow state.
pub open spec fn state_entry() -> spec_fn(WorkflowState) -> EntryView {
    |row: WorkflowState| EntryView { id: row.state_id@, revision: row.revision as int }
}

/// The active entries of a team's workflow.
pub open spec fn active_entries(s: Store, organization: Seq<char>, team: Seq<char>) -> Seq<EntryView> {
    s.workflow_states@.filter(is_active_state(organization, team)).map_values(state_entry())
}

/// The workflow state at its new place.
pub open spec fn replaced_state(row: WorkflowState, items: Seq<ReorderItem>) -> WorkflowState {
    WorkflowState {
        position: items[catalog::item_of(items, row.state_id@)->0].position as i32,
        revision: (row.revision + 1) as i64,
        ..row
    }
}

/// Whether `after` holds the rows of `before`, the active ones at their new places.
pub open spec fn states_reordered(
    before: Seq<WorkflowState>,
    after: Seq<WorkflowState>,
    organization: Seq<char>,
    team: Seq<char>,
    items: Seq<ReorderItem>,
) -> bool {
    &&& after.len() == before.len()
    &&& forall|i: int|
        0 <= i < before.len() ==> #[trigger] after[i] == if is_active_state(organization, team)(
            before[i],
        ) {
            replaced_state(before[i], items)
        } else {
            before[i]
        }
}

/// Orders workflow states by their position.
pub open spec fn state_place() -> spec_fn(WorkflowStateValue, WorkflowStateValue) -> bool {
    |a: WorkflowStateValue, b: WorkflowStateValue| a.position < b.position
}

/// Whether `values` shows the active workflow states of the team in the order of their positions.
pub open spec fn shows_active_states(
    s: Store,
    organization: Seq<char>,
    team: Seq<char>,
    values: Seq<WorkflowStateValue>,
) -> bool {
    let rows = s.workflow_states@.filter(is_active_state(organization, team));
    exists|shown: Seq<WorkflowStateValue>|
        {
            &&& shown.len() == rows.len()
            &&& forall|k: int| 0 <= k < rows.len() ==> is_state_value(rows[k], #[trigger] shown[k])
            &&& #[trigger] shown.to_multiset() == values.to_multiset()
            &&& table::ordered_rows(values, state_place())
        }
}

/// Says which workflow states a reordering of the team's workflow can revise: it leaves those that are
/// archived alone.
pub open spec fn is_revisable_state(organization: Seq<char>, team: Seq<char>) -> spec_fn(
    WorkflowState,
) -> bool {
    |row: WorkflowState| is_active_state(organization, team)(row) ==> row.revision < i64::MAX
}

/// How reordering a team's workflow ends.
pub open spec fn reorder_workflow_states_verdict(
    s: Store,
    call: Invocation,
    r: ReorderWorkflowStatesRequest,
) -> Verdict {
    store::demand(catalog::is_batch(r.items@), DomainFailure::InvalidRequest).and(
        s.command_verdict(call, REORDER_WORKFLOW_STATES_OPERATION@, r.idempotency_key@),
    ).and(
        store::unless(
            catalog::reorder_refusal(active_entries(s, r.organization_id@, r.team_id@), r.items@),
        ),
    ).and(
        if table::every_row(
            s.workflow_states@,
            is_revisable_state(r.organization_id@, r.team_id@),
        ) {
            Verdict::Proceed
        } else {
            Verdict::Fault("reorder workflow state"@, "bigint out of range"@)
        },
    ).and(store::appends(s))
}

/// What reordering a team's workflow does and answers: every active state moves to its new place, or
/// none does.
pub open spec fn reorder_workflow_states_outcome(
    before: Store,
    after: Store,
    call: Invocation,
    r: ReorderWorkflowStatesRequest,
    result: Result<Completion<Vec<WorkflowStateValue>>, StorageError>,
) -> bool {
    let verdict = reorder_workflow_states_verdict(before, call, r);
    &&& store::settles(verdict, result)
    &&& if verdict is Proceed {
        &&& states_reordered(
            before.workflow_states@,
            after.workflow_states@,
            r.organization_id@,
            r.team_id@,
            r.items@,
        )
        &&& store::recorded(
            before,
            after,
            call,
            r.idempotency_key@,
            (ActivityEntry {
                organization: r.organization_id@,
                project: None,
                issue: None,
                operation: REORDER_WORKFLOW_STATES_OPERATION@,
                kind: "workflow_catalog"@,
                entity: r.team_id@,
                revision: None,
            }),
        )
        &&& only_states(before, after)
        &&& after.next_row == before.next_row
        &&& shows_active_states(after, r.organization_id@, r.team_id@, store::fresh(result)@)
    } else {
        after == before
    }
}

/// How archiving or restoring a workflow state ends.
pub open spec fn archive_workflow_state_verdict(
    s: Store,
    call: Invocation,
    r: ArchiveWorkflowStateRequest,
) -> Verdict {
    let found = s.workflow_state_at(r.organization_id@, r.state_id@);
    let row = s.workflow_states@[found->0];
    store::demand(
        validate::revision_value(r.expected_revision@) is Some,
        DomainFailure::InvalidRequest,
    ).and(s.command_verdict(call, ARCHIVE_WORKFLOW_STATE_OPERATION@, r.idempotency_key@)).and(
        store::demand(found is Some, DomainFailure::NotFound),
    ).and(
        store::demand(
            !(r.archived && is_default_state(s, r.organization_id@, row.team_id@, r.state_id@)),
            DomainFailure::DefaultStateInvalid,
        ),
    ).and(
        store::demand(
            !(r.archived && table::some_row(s.issues@, uses_state(r.organization_id@, r.state_id@))),
            DomainFailure::ActiveReference,
        ),
    ).and(
        store::demand(
            validate::revision_value(r.expected_revision@) == Some(row.revision as int),
            DomainFailure::RevisionConflict,
        ),
    ).and(store::revises(s, row.revision, "archive workflow state"@))
}

/// When an entry counts as archived: not at all, since the first time, or from now on.
pub open spec fn archival_time(archived: bool, before: Option<Timestamp>, now: Timestamp) -> Option<
    Timestamp,
> {
    if !archived {
        None
    } else if before is Some {
        before
    } else {
        Some(now)
    }
}

/// When an entry counts as archived.
pub fn archived_since(archived: bool, before: &Option<Timestamp>, now: &Timestamp) -> (time: Option<
    Timestamp,
>)
    ensures
        time == archival_time(archived, *before, *now),
{
    if !archived {
        None
    } else {
        match before {
            Some(before) => Some(before.clone()),
            None => Some(now.clone()),
        }
    }
}

/// What archiving or restoring a workflow state does and answers.
pub open spec fn archive_workflow_state_outcome(
    before: Store,
    after: Store,
    call: Invocation,
    r: ArchiveWorkflowStateRequest,
    result: Result<Completion<WorkflowStateValue>, StorageError>,
) -> bool {
    let verdict = archive_workflow_state_verdict(before, call, r);
    let i = before.workflow_state_at(r.organization_id@, r.state_id@)->0;
    let row = before.workflow_states@[i];
    &&& store::settles(verdict, result)
    &&& if verdict is Proceed {
        &&& after.workflow_states@ == before.workflow_states@.update(
            i,
            WorkflowState {
                archived: r.archived,
                archived_at: archival_time(r.archived, row.archived_at, call.now),
                revision: (row.revision + 1) as i64,
                ..row
            },
        )
        &&& only_states(before, after)
        &&& after.next_row == before.next_row
        &&& is_state_value(after.workflow_states@[i], store::fresh(result))
        &&& state_recorded(
            before,
            after,
            call,
            r.idempotency_key@,
            r.organization_id@,
            ARCHIVE_WORKFLOW_STATE_OPERATION@,
            r.state_id@,
            row.revision + 1,
        )
    } else {
        after == before
    }
}

/// How deleting a workflow state ends.
pub open spec fn delete_workflow_state_verdict(
    s: Store,
    call: Invocation,
    r: DeleteWorkflowStateRequest,
) -> Verdict {
    let found = s.team_state_at(r.organization_id@, r.team_id@, r.state_id@);
    let row = s.workflow_states@[found->0];
    store::demand(
        validate::revision_value(r.expected_revision@) is Some,
        DomainFailure::InvalidRequest,
    ).and(s.command_verdict(call, DELETE_WORKFLOW_STATE_OPERATION@, r.idempotency_key@)).and(
        store::demand(found is Some, DomainFailure::NotFound),
    ).and(
        store::demand(
            validate::revision_value(r.expected_revision@) == Some(row.revision as int),
            DomainFailure::RevisionConflict,
        ),
    ).and(
        store::demand(
            !is_default_state(s, r.organization_id@, r.team_id@, r.state_id@),
            DomainFailure::DefaultStateInvalid,
        ),
    ).and(
        store::demand(
            !table::some_row(
                s.issues@,
                uses_team_state(r.organization_id@, r.team_id@, r.state_id@),
            ),
            DomainFailure::ActiveReference,
        ),
    ).and(store::demand(row.archived, DomainFailure::InvalidRequest)).and(store::appends(s))
}

/// What deleting a workflow state does and answers.
pub open spec fn delete_workflow_state_outcome(
    before: Store,
    after: Store,
    call: Invocation,
    r: DeleteWorkflowStateRequest,
    result: Result<Completion<DeletedWorkflowState>, StorageError>,
) -> bool {
    let verdict = delete_workflow_state_verdict(before, call, r);
    let i = before.team_state_at(r.organization_id@, r.team_id@, r.state_id@)->0;
    let value = store::fresh(result);
    &&& store::settles(verdict, result)
    &&& if verdict is Proceed {
        &&& after.workflow_states@ == before.workflow_states@.remove(i)
        &&& only_states(before, after)
        &&& after.next_row == before.next_row
        &&& value.organization_id@ == r.organization_id@
        &&& value.team_id@ == r.team_id@
        &&& value.state_id@ == r.state_id@
        &&& value.deleted
        &&& state_recorded(
            before,
            after,
            call,
            r.idempotency_key@,
            r.organization_id@,
            DELETE_WORKFLOW_STATE_OPERATION@,
            r.state_id@,
            before.workflow_states@[i].revision as int,
        )
    } else {
        after == before
    }
}

/// Picks the workflow states of the team after a position.
pub open spec fn is_listed_state(organization: Seq<char>, team: Seq<char>, after: int) -> spec_fn(
    WorkflowState,
) -> bool {
    |row: WorkflowState|
        row.organization_id@ == organization && row.team_id@ == team && row.row_seq > after
}

/// Says which value shows a workflow state.
pub open spec fn shows_state() -> spec_fn(WorkflowState, WorkflowStateValue) -> bool {
    |row: WorkflowState, value: WorkflowStateValue| is_state_value(row, value)
}

/// The sequence number of a workflow state.
pub open spec fn state_seq() -> spec_fn(WorkflowState) -> int {
    |row: WorkflowState| row.row_seq as int
}

/// Whether `page` is a page of the team's workflow states.
pub open spec fn is_state_page(
    s: Store,
    organization: Seq<char>,
    team: Seq<char>,
    after: Option<Seq<char>>,
    limit: int,
    page: Page<WorkflowStateValue>,
) -> bool {
    table::is_page(
        s.workflow_states@,
        is_listed_state(organization, team, validate::cursor_value(after)->0),
        limit,
        page,
        shows_state(),
        state_seq(),
    )
}

/// What listing a team's workflow states answers.
pub open spec fn list_workflow_states_outcome(
    s: Store,
    r: ListWorkflowStatesRequest,
    result: Result<Page<WorkflowStateValue>, StorageError>,
) -> bool {
    match store::listing(r.limit, r.after, "list workflow states"@) {
        Verdict::Proceed => result matches Ok(page) && is_state_page(
                s,
                r.organization_id@,
                r.team_id@,
                text::text_of(r.after),
                r.limit as int,
                page,
            ),
        verdict => result matches Err(error) && store::fails(verdict, error),
    }
}

/// What listing the workflow states for an actor answers: a team that the actor cannot see is not
/// found.
pub open spec fn list_issue_workflow_states_outcome(
    s: Store,
    actor: Seq<char>,
    r: ListIssueWorkflowStatesRequest,
    result: Result<Page<WorkflowStateValue>, StorageError>,
) -> bool {
    let verdict = store::demand(
        s.team_at(r.organization_id@, r.team_id@) is Some && !s.hidden_team(
            r.organization_id@,
            r.team_id@,
            actor,
        ),
        DomainFailure::NotFound,
    ).and(store::listing(r.limit, r.after, "list workflow states"@));
    match verdict {
        Verdict::Proceed => result matches Ok(page) && is_state_page(
            s,
            r.organization_id@,
            r.team_id@,
            text::text_of(r.after),
            r.limit as int,
            page,
        ),
        _ => result matches Err(error) && store::fails(verdict, error),
    }
}

impl Store {
    /// Appends a new workflow state.
    fn push_state(
        &mut self,
        id: &str,
        organization: &str,
        team: &str,
        name: &str,
        category: WorkflowCategory,
        color: &str,
        position: i32,
    )
        requires
            old(self).next_row < i64::MAX,
        ensures
            final(self).workflow_states@.len() == old(self).workflow_states@.len() + 1,
            final(self).workflow_states@.drop_last() == old(self).workflow_states@,
            is_fresh_state(
                final(self).workflow_states@.last(),
                id@,
                organization@,
                team@,
                name@,
                category,
                color@,
                position as int,
                old(self).next_row as int,
            ),
            *final(self) == (Store {
                workflow_states: final(self).workflow_states,
                next_row: (old(self).next_row + 1) as i64,
                ..*old(self)
            }),
    {
        self.workflow_states.push(
            WorkflowState {
                state_id: id.to_owned(),
                organization_id: organization.to_owned(),
                team_id: team.to_owned(),
                name: name.to_owned(),
                category,
                color: color.to_owned(),
                position,
                archived: false,
                archived_at: None,
                revision: 1,
                row_seq: self.next_row,
            },
        );
        self.next_row = self.next_row + 1;
        assert(self.workflow_states@.drop_last() =~= old(self).workflow_states@);
    }

    /// Appends a team's five default workflow states.
    pub fn insert_default_workflow_states(&mut self, organization: &str, team: &str, ids: &WorkflowIds)
        requires
            old(self).next_row <= i64::MAX - 5,
        ensures
            final(self).workflow_states@.len() == old(self).workflow_states@.len() + 5,
            final(self).workflow_states@.take(old(self).workflow_states@.len() as int)
                == old(self).workflow_states@,
            are_default_states(
                final(self).workflow_states@.skip(old(self).workflow_states@.len() as int),
                organization@,
                team@,
                *ids,
                old(self).next_row as int,
            ),
            *final(self) == (Store {
                workflow_states: final(self).workflow_states,
                next_row: (old(self).next_row + 5) as i64,
                ..*old(self)
            }),
    {
        let ghost a = self.workflow_states@;
        self.push_state(
            ids.backlog.as_str(),
            organization,
            team,
            "Backlog",
            WorkflowCategory::Backlog,
            "#6B7280",
            0,
        );
        let ghost b = self.workflow_states@;
        self.push_state(
            ids.todo.as_str(),
            organization,
            team,
            "Todo",
            WorkflowCategory::Unstarted,
            "#9CA3AF",
            1,
        );
        let ghost c = self.workflow_states@;
        self.push_state(
            ids.in_progress.as_str(),
            organization,
            team,
            "In Progress",
            WorkflowCategory::Started,
            "#3B82F6",
            2,
        );
        let ghost d = self.workflow_states@;
        self.push_state(
            ids.done.as_str(),
            organization,
            team,
            "Done",
            WorkflowCategory::Completed,
            "#10B981",
            3,
        );
        let ghost e = self.workflow_states@;
        self.push_state(
            ids.canceled.as_str(),
            organization,
            team,
            "Canceled",
            WorkflowCategory::Canceled,
            "#9CA3AF",
            4,
        );
        proof {
            let f = self.workflow_states@;
            let n = a.len() as int;
            assert(f.drop_last() == e && e.drop_last() == d && d.drop_last() == c && c.drop_last() == b
                && b.drop_last() == a);
            assert forall|k: int| 0 <= k < n implies f[k] == a[k] by {
                assert(f[k] == e[k] && e[k] == d[k] && d[k] == c[k] && c[k] == b[k] && b[k] == a[k]);
            }
            assert(f.take(n) =~= a);
            assert(f[n] == e[n] && e[n] == d[n] && d[n] == c[n] && c[n] == b[n]);
            assert(f[n + 1] == e[n + 1] && e[n + 1] == d[n + 1] && d[n + 1] == c[n + 1]);
            assert(f[n + 2] == e[n + 2] && e[n + 2] == d[n + 2]);
            assert(f[n + 3] == e[n + 3]);
        }
    }

    /// Whether the workflow state is the default of the team.
    fn is_team_default(&self, organization: &str, team: &str, id: &str) -> (answer: bool)
        ensures
            answer == is_default_state(*self, organization@, team@, id@),
    {
        match self.find_team(organization, team) {
            Some(t) => text::same(self.teams[t].default_workflow_state_id.as_str(), id),
            None => false,
        }
    }

    /// Creates a workflow state, or replaces the name, color and position of one.
    pub fn put_workflow_state(&mut self, call: &Invocation, request: &PutWorkflowStateRequest) -> (result:
        Result<Completion<WorkflowStateValue>, StorageError>)
        ensures
            put_workflow_state_outcome(*old(self), *final(self), *call, *request, result),
    {
        let organization = request.organization_id.as_str();
        let team = request.team_id.as_str();
        let id = request.state_id.as_str();
        if self.find_team(organization, team).is_none() {
            return Err(StorageError::Domain(DomainFailure::NotFound));
        }
        if let Some(answer) = self.command_answer(
            call,
            PUT_WORKFLOW_STATE_OPERATION,
            request.idempotency_key.as_str(),
        ) {
            return answer;
        }
        let i: usize;
        let revision: i64;
        match &request.expected_revision {
            Some(expected) => {
                i = match self.find_team_state(organization, team, id) {
                    Some(i) => i,
                    None => {
                        return Err(StorageError::Domain(DomainFailure::NotFound));
                    },
                };
                if self.workflow_states[i].category != request.category {
                    return Err(StorageError::Domain(DomainFailure::InvalidRequest));
                }
                let expected = match parse_revision(expected.as_str()) {
                    Ok(expected) => expected,
                    Err(failure) => {
                        return Err(StorageError::Domain(failure));
                    },
                };
                if self.workflow_states[i].revision != expected {
                    return Err(StorageError::Domain(DomainFailure::RevisionConflict));
                }
                if !fits_position(request.position) {
                    return Err(runtime("update workflow", "integer out of range"));
                }
                if let Err(error) = self.check_revise(expected, "update workflow") {
                    return Err(error);
                }
                revision = expected + 1;
                let row = &mut self.workflow_states[i];
                row.name = text::trim(request.name.as_str());
                row.color = request.color.clone();
                row.position = request.position as i32;
                row.revision = revision;
            },
            None => {
                if !fits_position(request.position) {
                    return Err(runtime("insert workflow", "integer out of range"));
                }
                if let Err(error) = check_growth(self.next_row, 1, "insert workflow") {
                    return Err(error);
                }
                if self.taken_state_id(id) {
                    return Err(StorageError::Domain(DomainFailure::KeyConflict));
                }
                if let Err(error) = self.check_append() {
                    return Err(error);
                }
                i = self.workflow_states.len();
                revision = 1;
                let name = text::trim(request.name.as_str());
                self.push_state(
                    id,
                    organization,
                    team,
                    name.as_str(),
                    request.category,
                    request.color.as_str(),
                    request.position as i32,
                );
            },
        }
        let value = load_workflow_state_value(&self.workflow_states[i]);
        self.record(
            call,
            request.idempotency_key.as_str(),
            organization,
            None,
            None,
            PUT_WORKFLOW_STATE_OPERATION,
            "workflow_state",
            id,
            Some(revision),
        );
        Ok(Completion::Fresh(value))
    }

    /// Reads one workflow state of a team.
    pub fn get_workflow_state(&self, request: &GetWorkflowStateRequest) -> (result: Result<
        WorkflowStateValue,
        StorageError,
    >)
        ensures
            get_workflow_state_outcome(*self, *request, result),
    {
        match self.find_team_state(
            request.organization_id.as_str(),
            request.team_id.as_str(),
            request.state_id.as_str(),
        ) {
            Some(i) => Ok(load_workflow_state_value(&self.workflow_states[i])),
            None => Err(StorageError::Domain(DomainFailure::NotFound)),
        }
    }

    /// Whether the row is an unarchived workflow state of the team.
    fn is_active_row(row: &WorkflowState, organization: &str, team: &str) -> (answer: bool)
        ensures
            answer == is_active_state(organization@, team@)(*row),
    {
        text::same(row.organization_id.as_str(), organization) && text::same(
            row.team_id.as_str(),
            team,
        ) && !row.archived
    }

    /// The active entries of a team's workflow.
    fn active_workflow(&self, organization: &str, team: &str) -> (entries: Vec<CatalogEntry>)
        ensures
            catalog::entry_views(entries@) == active_entries(*self, organization@, team@),
    {
        let mut entries: Vec<CatalogEntry> = Vec::new();
        let ghost keep = is_active_state(organization@, team@);
        let mut i: usize = 0;
        proof {
            reveal(Seq::filter);
            assert(self.workflow_states@.take(0).filter(keep) =~= Seq::<WorkflowState>::empty());
            assert(catalog::entry_views(entries@) =~= self.workflow_states@.take(0).filter(
                keep,
            ).map_values(state_entry()));
        }
        while i < self.workflow_states.len()
            invariant
                i <= self.workflow_states.len(),
                keep == is_active_state(organization@, team@),
                catalog::entry_views(entries@) == self.workflow_states@.take(i as int).filter(
                    keep,
                ).map_values(state_entry()),
            decreases self.workflow_states.len() - i,
        {
            proof {
                table::lemma_filter_step(self.workflow_states@, keep, i as int);
            }
            let row = &self.workflow_states[i];
            if Self::is_active_row(row, organization, team) {
                let ghost before = entries@;
                let entry = CatalogEntry { id: row.state_id.clone(), revision: row.revision };
                entries.push(entry);
                proof {
                    let found = self.workflow_states@.take(i as int).filter(keep);
                    assert(catalog::entry_views(entries@) =~= catalog::entry_views(before).push(
                        entry@,
                    ));
                    assert(found.push(*row).map_values(state_entry()) =~= found.map_values(
                        state_entry(),
                    ).push(entry@));
                }
            }
            i = i + 1;
        }
        assert(self.workflow_states@.take(i as int) =~= self.workflow_states@);
        entries
    }

    /// The active workflow states of the team in the order of their positions.
    fn placed_states(&self, organization: &str, team: &str) -> (values: Vec<WorkflowStateValue>)
        ensures
            shows_active_states(*self, organization@, team@, values@),
    {
        let mut values: Vec<WorkflowStateValue> = Vec::new();
        let ghost keep = is_active_state(organization@, team@);
        let mut i: usize = 0;
        proof {
            reveal(Seq::filter);
            assert(self.workflow_states@.take(0).filter(keep) =~= Seq::<WorkflowState>::empty());
        }
        while i < self.workflow_states.len()
            invariant
                i <= self.workflow_states.len(),
                keep == is_active_state(organization@, team@),
                values@.len() == self.workflow_states@.take(i as int).filter(keep).len(),
                forall|k: int|
                    0 <= k < values@.len() ==> is_state_value(
                        self.workflow_states@.take(i as int).filter(keep)[k],
                        #[trigger] values@[k],
                    ),
            decreases self.workflow_states.len() - i,
        {
            proof {
                table::lemma_filter_step(self.workflow_states@, keep, i as int);
            }
            let row = &self.workflow_states[i];
            if Self::is_active_row(row, organization, team) {
                values.push(load_workflow_state_value(row));
            }
            i = i + 1;
        }
        assert(self.workflow_states@.take(i as int) =~= self.workflow_states@);
        let ghost shown = values@;
        let sorted = sort_rows(
            values,
            |a: &WorkflowStateValue, b: &WorkflowStateValue| -> (hit: bool)
                ensures
                    hit == state_place()(*a, *b)
            { a.position < b.position },
            Ghost(state_place()),
        );
        assert(shown.to_multiset() == sorted@.to_multiset());
        sorted
    }

    /// Moves every active workflow state of the team to the place that the items give it.
    fn place_states(&mut self, organization: &str, team: &str, items: &Vec<ReorderItem>)
        requires
            table::every_row(
                old(self).workflow_states@,
                is_revisable_state(organization@, team@),
            ),
            catalog::reorder_refusal(
                active_entries(*old(self), organization@, team@),
                items@,
            ) is None,
            catalog::is_batch(items@),
        ensures
            states_reordered(
                old(self).workflow_states@,
                final(self).workflow_states@,
                organization@,
                team@,
                items@,
            ),
            *final(self) == (Store { workflow_states: final(self).workflow_states, ..*old(self) }),
    {
        let ghost before = self.workflow_states@;
        let ghost entries = active_entries(*self, organization@, team@);
        let mut i: usize = 0;
        while i < self.workflow_states.len()
            invariant
                i <= self.workflow_states.len(),
                self.workflow_states@.len() == before.len(),
                before == old(self).workflow_states@,
                table::every_row(before, is_revisable_state(organization@, team@)),
                entries == active_entries(*old(self), organization@, team@),
                catalog::reorder_refusal(entries, items@) is None,
                catalog::is_batch(items@),
                forall|k: int|
                    0 <= k < i ==> #[trigger] self.workflow_states@[k] == if is_active_state(
                        organization@,
                        team@,
                    )(before[k]) {
                        replaced_state(before[k], items@)
                    } else {
                        before[k]
                    },
                forall|k: int| i <= k < before.len() ==> #[trigger] self.workflow_states@[k] == before[k],
                *self == (Store { workflow_states: self.workflow_states, ..*old(self) }),
            decreases before.len() - i,
        {
            if Self::is_active_row(&self.workflow_states[i], organization, team) {
                assert(is_revisable_state(organization@, team@)(before[i as int]));
                match find_item(items, self.workflow_states[i].state_id.as_str()) {
                    Some(k) => {
                        proof {
                            catalog::lemma_item_for(
                                items@,
                                before[i as int].state_id@,
                                items@.len() as int,
                            );
                            assert(0 <= items@[k as int].position <= i32::MAX);
                        }
                        let row = &mut self.workflow_states[i];
                        row.position = items[k].position as i32;
                        row.revision = row.revision + 1;
                    },
                    None => {
                        proof {
                            lemma_entry_present(before, organization@, team@, i as int);
                            catalog::lemma_first_misfit(entries, items@);
                            assert(false);
                        }
                    },
                }
            }
            i = i + 1;
        }
    }

    /// Reorders the whole active workflow of a team.
    pub fn reorder_workflow_states(
        &mut self,
        call: &Invocation,
        request: &ReorderWorkflowStatesRequest,
    ) -> (result: Result<Completion<Vec<WorkflowStateValue>>, StorageError>)
        ensures
            reorder_workflow_states_outcome(*old(self), *final(self), *call, *request, result),
    {
        let organization = request.organization_id.as_str();
        let team = request.team_id.as_str();
        if !valid_batch(&request.items) {
            return Err(StorageError::Domain(DomainFailure::InvalidRequest));
        }
        if let Some(answer) = self.command_answer(
            call,
            REORDER_WORKFLOW_STATES_OPERATION,
            request.idempotency_key.as_str(),
        ) {
            return answer;
        }
        let entries = self.active_workflow(organization, team);
        if let Some(failure) = check_reorder(&entries, &request.items) {
            return Err(StorageError::Domain(failure));
        }
        if !all_rows(
            &self.workflow_states,
            |row: &WorkflowState| -> (fits: bool)
                ensures
                    fits == is_revisable_state(organization@, team@)(*row)
            { !Self::is_active_row(row, organization, team) || row.revision < i64::MAX },
            Ghost(is_revisable_state(organization@, team@)),
        ) {
            return Err(runtime("reorder workflow state", "bigint out of range"));
        }
        if let Err(error) = self.check_append() {
            return Err(error);
        }
        self.place_states(organization, team, &request.items);
        let values = self.placed_states(organization, team);
        let ghost placed = *self;
        self.record(
            call,
            request.idempotency_key.as_str(),
            organization,
            None,
            None,
            REORDER_WORKFLOW_STATES_OPERATION,
            "workflow_catalog",
            team,
            None,
        );
        assert(shows_active_states(placed, organization@, team@, values@));
        Ok(Completion::Fresh(values))
    }

    /// Archives or restores a workflow state.
    pub fn archive_workflow_state(
        &mut self,
        call: &Invocation,
        request: &ArchiveWorkflowStateRequest,
    ) -> (result: Result<Completion<WorkflowStateValue>, StorageError>)
        ensures
            archive_workflow_state_outcome(*old(self), *final(self), *call, *request, result),
    {
        let organization = request.organization_id.as_str();
        let id = request.state_id.as_str();
        let expected = match parse_revision(request.expected_revision.as_str()) {
            Ok(expected) => expected,
            Err(failure) => {
                return Err(StorageError::Domain(failure));
            },
        };
        if let Some(answer) = self.command_answer(
            call,
            ARCHIVE_WORKFLOW_STATE_OPERATION,
            request.idempotency_key.as_str(),
        ) {
            return answer;
        }
        let i = match self.find_workflow_state(organization, id) {
            Some(i) => i,
            None => {
                return Err(StorageError::Domain(DomainFailure::NotFound));
            },
        };
        if request.archived {
            if self.is_team_default(organization, self.workflow_states[i].team_id.as_str(), id) {
                return Err(StorageError::Domain(DomainFailure::DefaultStateInvalid));
            }
            if any_row(
                &self.issues,
                |row: &Issue| -> (hit: bool)
                    ensures
                        hit == uses_state(organization@, id@)(*row)
                {
                    text::same(row.organization_id.as_str(), organization) && text::same(
                        row.workflow_state_id.as_str(),
                        id,
                    )
                },
                Ghost(uses_state(organization@, id@)),
            ) {
                return Err(StorageError::Domain(DomainFailure::ActiveReference));
            }
        }
        if self.workflow_states[i].revision != expected {
            return Err(StorageError::Domain(DomainFailure::RevisionConflict));
        }
        if let Err(error) = self.check_revise(expected, "archive workflow state") {
            return Err(error);
        }
        let since = archived_since(
            request.archived,
            &self.workflow_states[i].archived_at,
            &call.now,
        );
        let row = &mut self.workflow_states[i];
        row.archived = request.archived;
        row.archived_at = since;
        row.revision = expected + 1;
        self.record(
            call,
            request.idempotency_key.as_str(),
            organization,
            None,
            None,
            ARCHIVE_WORKFLOW_STATE_OPERATION,
            "workflow_state",
            id,
            Some(expected + 1),
        );
        let value = load_workflow_state_value(&self.workflow_states[i]);
        Ok(Completion::Fresh(value))
    }

    /// Deletes an archived, unreferenced workflow state that is not a default.
    pub fn delete_workflow_state(
        &mut self,
        call: &Invocation,
        request: &DeleteWorkflowStateRequest,
    ) -> (result: Result<Completion<DeletedWorkflowState>, StorageError>)
        ensures
            delete_workflow_state_outcome(*old(self), *final(self), *call, *request, result),
    {
        let organization = request.organization_id.as_str();
        let team = request.team_id.as_str();
        let id = request.state_id.as_str();
        let expected = match parse_revision(request.expected_revision.as_str()) {
            Ok(expected) => expected,
            Err(failure) => {
                return Err(StorageError::Domain(failure));
            },
        };
        if let Some(answer) = self.command_answer(
            call,
            DELETE_WORKFLOW_STATE_OPERATION,
            request.idempotency_key.as_str(),
        ) {
            return answer;
        }
        let i = match self.find_team_state(organization, team, id) {
            Some(i) => i,
            None => {
                return Err(StorageError::Domain(DomainFailure::NotFound));
            },
        };
        let revision = self.workflow_states[i].revision;
        if revision != expected {
            return Err(StorageError::Domain(DomainFailure::RevisionConflict));
        }
        if self.is_team_default(organization, team, id) {
            return Err(StorageError::Domain(DomainFailure::DefaultStateInvalid));
        }
        if any_row(
            &self.issues,
            |row: &Issue| -> (hit: bool)
                ensures
                    hit == uses_team_state(organization@, team@, id@)(*row)
            {
                text::same(row.organization_id.as_str(), organization) && text::same(
                    row.team_id.as_str(),
                    team,
                ) && text::same(row.workflow_state_id.as_str(), id)
            },
            Ghost(uses_team_state(organization@, team@, id@)),
        ) {
            return Err(StorageError::Domain(DomainFailure::ActiveReference));
        }
        if !self.workflow_states[i].archived {
            return Err(StorageError::Domain(DomainFailure::InvalidRequest));
        }
        if let Err(error) = self.check_append() {
            return Err(error);
        }
        let _removed = self.workflow_states.remove(i);
        self.record(
            call,
            request.idempotency_key.as_str(),
            organization,
            None,
            None,
            DELETE_WORKFLOW_STATE_OPERATION,
            "workflow_state",
            id,
            Some(revision),
        );
        Ok(
            Completion::Fresh(
                DeletedWorkflowState {
                    organization_id: request.organization_id.clone(),
                    team_id: request.team_id.clone(),
                    state_id: request.state_id.clone(),
                    deleted: true,
                },
            ),
        )
    }

    /// A page of the team's workflow states.
    fn state_page(&self, organization: &str, team: &str, after: i64, limit: i64) -> (page: Page<
        WorkflowStateValue,
    >)
        ensures
            table::is_page(
                self.workflow_states@,
                is_listed_state(organization@, team@, after as int),
                limit as int,
                page,
                shows_state(),
                state_seq(),
            ),
    {
        page_of(
            &self.workflow_states,
            |row: &WorkflowState| -> (hit: bool)
                ensures
                    hit == is_listed_state(organization@, team@, after as int)(*row)
            {
                text::same(row.organization_id.as_str(), organization) && text::same(
                    row.team_id.as_str(),
                    team,
                ) && row.row_seq > after
            },
            Ghost(is_listed_state(organization@, team@, after as int)),
            limit,
            |row: &WorkflowState| -> (value: WorkflowStateValue)
                ensures
                    shows_state()(*row, value)
            { load_workflow_state_value(row) },
            Ghost(shows_state()),
            |row: &WorkflowState| -> (n: i64)
                ensures
                    n == state_seq()(*row)
            { row.row_seq },
            Ghost(state_seq()),
        )
    }

    /// Lists a team's workflow states, a page at a time.
    pub fn list_workflow_states(&self, request: &ListWorkflowStatesRequest) -> (result: Result<
        Page<WorkflowStateValue>,
        StorageError,
    >)
        requires
            request.limit < i64::MAX,
        ensures
            list_workflow_states_outcome(*self, *request, result),
    {
        match start_listing(request.limit, &request.after, "list workflow states") {
            Ok(after) => Ok(
                self.state_page(
                    request.organization_id.as_str(),
                    request.team_id.as_str(),
                    after,
                    request.limit,
                ),
            ),
            Err(error) => Err(error),
        }
    }

    /// Lists the workflow states of a team that the actor can see, a page at a time.
    pub fn list_issue_workflow_states(
        &self,
        actor: &str,
        request: &ListIssueWorkflowStatesRequest,
    ) -> (result: Result<Page<WorkflowStateValue>, StorageError>)
        requires
            request.limit < i64::MAX,
        ensures
            list_issue_workflow_states_outcome(*self, actor@, *request, result),
    {
        let organization = request.organization_id.as_str();
        let team = request.team_id.as_str();
        if self.find_team(organization, team).is_none() || self.is_hidden_team(
            organization,
            team,
            actor,
        ) {
            return Err(StorageError::Domain(DomainFailure::NotFound));
        }
        match start_listing(request.limit, &request.after, "list workflow states") {
            Ok(after) => Ok(self.state_page(organization, team, after, request.limit)),
            Err(error) => Err(error),
        }
    }
}

/// An active row has its entry among the active entries.
proof fn lemma_entry_present(
    rows: Seq<WorkflowState>,
    organization: Seq<char>,
    team: Seq<char>,
    i: int,
)
    requires
        0 <= i < rows.len(),
        is_active_state(organization, team)(rows[i]),
    ensures
        exists|j: int|
            0 <= j < rows.filter(is_active_state(organization, team)).map_values(
                state_entry(),
            ).len() && #[trigger] rows.filter(is_active_state(organization, team)).map_values(
                state_entry(),
            )[j] == state_entry()(rows[i]),
{
    let keep = is_active_state(organization, team);
    table::lemma_filter_step(rows, keep, i);
    table::lemma_filter_prefix(rows, keep, i + 1);
    let short = rows.take(i + 1).filter(keep);
    let j = short.len() - 1;
    assert(rows.filter(keep)[j] == rows[i]);
    assert(rows.filter(keep).map_values(state_entry())[j] == state_entry()(rows[i]));
}

} // verus!
