//! Every team always has a default workflow state: its own, unarchived and unstarted.
use crate::catalog;
use crate::failure::StorageError;
use crate::issues;
use crate::laws::history;
use crate::laws::history::{History, Step};
use crate::laws::identifiers;
use crate::model::{
    ArchiveWorkflowStateRequest, Completion, CreateIssueRequest, DeleteWorkflowStateRequest,
    DeletedWorkflowState, IssueValue, MoveIssueRequest, PutTeamRequest, PutWorkflowStateRequest,
    ReorderItem, ReorderWorkflowStatesRequest, Team, TeamValue, WorkflowCategory, WorkflowState,
    WorkflowStateValue,
};
use crate::project_status;
use crate::project_status::StatusIds;
use crate::store;
use crate::store::{Invocation, Store};
use crate::table;
use crate::teams;
use crate::validate;
use crate::workflow;
use crate::workflow::WorkflowIds;
use vstd::prelude::*;

verus! {

/// Whether no two teams have the same id.
pub open spec fn teams_unique(s: Store) -> bool {
    forall|i: int, j: int|
        0 <= i < j < s.teams@.len() ==> (#[trigger] s.teams@[i]).team_id@ != (
        #[trigger] s.teams@[j]).team_id@
}

/// Whether no two workflow states have the same id.
pub open spec fn states_unique(s: Store) -> bool {
    forall|i: int, j: int|
        0 <= i < j < s.workflow_states@.len() ==> (#[trigger] s.workflow_states@[i]).state_id@ != (
        #[trigger] s.workflow_states@[j]).state_id@
}

/// Whether the workflow state is the default of the team, and fit to be.
pub open spec fn is_default_row(row: WorkflowState, team: Team) -> bool {
    &&& row.organization_id@ == team.organization_id@
    &&& row.team_id@ == team.team_id@
    &&& row.state_id@ == team.default_workflow_state_id@
    &&& row.category == WorkflowCategory::Unstarted
    &&& !row.archived
}

/// Whether the team has a default that is fit to be one.
pub open spec fn has_default(s: Store, team: Team) -> bool {
    exists|k: int|
        0 <= k < s.workflow_states@.len() && is_default_row(
            #[trigger] s.workflow_states@[k],
            team,
        )
}

/// Whether teams and workflow states are told apart by their ids, and every team has its default.
pub open spec fn workflows_sound(s: Store) -> bool {
    &&& teams_unique(s)
    &&& states_unique(s)
    &&& forall|t: int| 0 <= t < s.teams@.len() ==> #[trigger] has_default(s, s.teams@[t])
}

/// A store without teams is sound.
pub proof fn law_empty_workflows_are_sound(s: Store)
    requires
        s.teams@.len() == 0,
        s.workflow_states@.len() == 0,
    ensures
        workflows_sound(s),
{
}

/// What changes neither teams nor workflow states leaves them sound.
pub proof fn law_other_changes_keep_workflows(before: Store, after: Store)
    requires
        workflows_sound(before),
        after.teams == before.teams,
        after.workflow_states == before.workflow_states,
    ensures
        workflows_sound(after),
{
    assert forall|t: int| 0 <= t < after.teams@.len() implies #[trigger] has_default(
        after,
        after.teams@[t],
    ) by {
        assert(has_default(before, before.teams@[t]));
        let k = choose|k: int|
            0 <= k < before.workflow_states@.len() && is_default_row(
                #[trigger] before.workflow_states@[k],
                before.teams@[t],
            );
        assert(is_default_row(after.workflow_states@[k], after.teams@[t]));
    }
}

/// In a sound store an issue that names no state gets the default of its team.
pub proof fn law_default_can_be_resolved(s: Store, organization: Seq<char>, team: Seq<char>)
    requires
        workflows_sound(s),
        s.team_at(organization, team) is Some,
    ensures
        ({
            let row = s.teams@[s.team_at(organization, team)->0];
            &&& s.resolved_state(organization, team, None) is Some
            &&& is_default_row(
                s.workflow_states@[s.resolved_state(organization, team, None)->0],
                row,
            )
        }),
{
    let t = s.team_at(organization, team)->0;
    table::lemma_first_where(s.teams@, store::is_team(organization, team));
    let row = s.teams@[t];
    assert(has_default(s, s.teams@[t]));
    let k = choose|k: int|
        0 <= k < s.workflow_states@.len() && is_default_row(#[trigger] s.workflow_states@[k], row);
    let keep = store::is_team_state(organization, team, row.default_workflow_state_id@);
    table::lemma_first_where(s.workflow_states@, keep);
    assert(keep(s.workflow_states@[k]));
    let found = table::first_where(s.workflow_states@, keep)->0;
    if found < k {
        assert(s.workflow_states@[found].state_id@ != s.workflow_states@[k].state_id@);
    }
}

/// A team whose key, number or fields change keeps its default where the default id stays.
proof fn lemma_teams_keep_defaults(before: Store, after: Store, t: int)
    requires
        workflows_sound(before),
        after.workflow_states == before.workflow_states,
        0 <= t < before.teams@.len(),
        after.teams@ == before.teams@.update(t, after.teams@[t]),
        after.teams@[t].team_id@ == before.teams@[t].team_id@,
        has_default(before, after.teams@[t]),
    ensures
        workflows_sound(after),
{
    assert forall|u: int| 0 <= u < after.teams@.len() implies #[trigger] has_default(
        after,
        after.teams@[u],
    ) by {
        if u != t {
            assert(has_default(before, before.teams@[u]));
        }
        let k = choose|k: int|
            0 <= k < before.workflow_states@.len() && is_default_row(
                #[trigger] before.workflow_states@[k],
                after.teams@[u],
            );
        assert(is_default_row(after.workflow_states@[k], after.teams@[u]));
    }
    assert forall|i: int, j: int| 0 <= i < j < after.teams@.len() implies (
    #[trigger] after.teams@[i]).team_id@ != (#[trigger] after.teams@[j]).team_id@ by {
        assert(before.teams@[i].team_id@ != before.teams@[j].team_id@);
    }
}

/// Creating an issue keeps every team's default.
pub proof fn law_creation_keeps_defaults(
    before: Store,
    after: Store,
    call: Invocation,
    r: CreateIssueRequest,
    value: IssueValue,
)
    requires
        workflows_sound(before),
        identifiers::created(before, after, call, r, value),
    ensures
        workflows_sound(after),
{
    let t = before.team_at(r.organization_id@, r.team_id@)->0;
    table::lemma_first_where(before.teams@, store::is_team(r.organization_id@, r.team_id@));
    lemma_same_default(before, before.teams@[t], after.teams@[t]);
    lemma_teams_keep_defaults(before, after, t);
}

/// Moving an issue keeps every team's default.
pub proof fn law_move_keeps_defaults(
    before: Store,
    after: Store,
    call: Invocation,
    r: MoveIssueRequest,
    value: IssueValue,
)
    requires
        workflows_sound(before),
        identifiers::moved(before, after, call, r, value),
    ensures
        workflows_sound(after),
{
    let t = before.team_at(r.organization_id@, r.team_id@)->0;
    table::lemma_first_where(before.teams@, store::is_team(r.organization_id@, r.team_id@));
    lemma_same_default(before, before.teams@[t], after.teams@[t]);
    lemma_teams_keep_defaults(before, after, t);
}

proof fn lemma_same_default(s: Store, old: Team, new: Team)
    requires
        has_default(s, old),
        new.organization_id == old.organization_id,
        new.team_id == old.team_id,
        new.default_workflow_state_id == old.default_workflow_state_id,
    ensures
        has_default(s, new),
{
    let k = choose|k: int|
        0 <= k < s.workflow_states@.len() && is_default_row(#[trigger] s.workflow_states@[k], old);
    assert(is_default_row(s.workflow_states@[k], new));
}

/// Putting a team gives every team a default: a new team starts in Todo, and a changed team names a
/// state that is fit to be its default.
pub proof fn law_put_team_keeps_defaults(
    before: Store,
    after: Store,
    call: Invocation,
    r: PutTeamRequest,
    ids: StatusIds,
    states: WorkflowIds,
    value: TeamValue,
)
    requires
        workflows_sound(before),
        teams::put_team_outcome(
            before,
            after,
            call,
            r,
            ids,
            states,
            Ok::<Completion<TeamValue>, StorageError>(Completion::Fresh(value)),
        ),
    ensures
        workflows_sound(after),
{
    let ready = choose|ready: Store|
        {
            &&& #[trigger] project_status::catalog_ready(before, ready, r.organization_id@, ids)
            &&& teams::put_team_verdict(ready, r, states) is Proceed
            &&& teams::put_team_effect(ready, after, call, r, states, value)
        };
    law_other_changes_keep_workflows(before, ready);
    if r.expected_revision is Some {
        let t = ready.team_at(r.organization_id@, r.team_id@)->0;
        table::lemma_first_where(ready.teams@, store::is_team(r.organization_id@, r.team_id@));
        let id = r.default_workflow_state_id->0@;
        let keep = store::is_team_state(r.organization_id@, r.team_id@, id);
        table::lemma_first_where(ready.workflow_states@, keep);
        let k = table::first_where(ready.workflow_states@, keep)->0;
        assert(is_default_row(ready.workflow_states@[k], after.teams@[t]));
        lemma_teams_keep_defaults(ready, after, t);
    } else {
        lemma_new_team_is_sound(ready, after, call, r, states, value);
    }
}

proof fn lemma_new_team_is_sound(
    before: Store,
    after: Store,
    call: Invocation,
    r: PutTeamRequest,
    states: WorkflowIds,
    value: TeamValue,
)
    requires
        workflows_sound(before),
        r.expected_revision is None,
        teams::put_team_verdict(before, r, states) is Proceed,
        teams::put_team_effect(before, after, call, r, states, value),
    ensures
        workflows_sound(after),
{
    let n = before.workflow_states@.len() as int;
    let m = before.teams@.len() as int;
    let old = before.workflow_states@;
    let new = after.workflow_states@;
    assert forall|k: int| 0 <= k < n implies #[trigger] new[k] == old[k] by {
        assert(new.take(n)[k] == new[k]);
    }
    assert forall|k: int| n <= k < n + 5 implies #[trigger] new[k] == new.skip(n)[k - n] by {}
    assert forall|u: int| 0 <= u < m implies #[trigger] after.teams@[u] == before.teams@[u] by {
        assert(after.teams@.drop_last()[u] == after.teams@[u]);
    }
    assert forall|u: int| 0 <= u < after.teams@.len() implies #[trigger] has_default(
        after,
        after.teams@[u],
    ) by {
        if u < m {
            assert(has_default(before, before.teams@[u]));
            let k = choose|k: int|
                0 <= k < n && is_default_row(
                    #[trigger] before.workflow_states@[k],
                    before.teams@[u],
                );
            assert(is_default_row(after.workflow_states@[k], after.teams@[u]));
        } else {
            assert(new[n + 1] == new.skip(n)[1]);
            assert(is_default_row(after.workflow_states@[n + 1], after.teams@[u]));
        }
    }
    assert forall|i: int, j: int| 0 <= i < j < after.teams@.len() implies (
    #[trigger] after.teams@[i]).team_id@ != (#[trigger] after.teams@[j]).team_id@ by {
        if j == m {
            assert(!store::has_team_id(r.team_id@)(before.teams@[i]));
        }
    }
    assert forall|i: int, j: int| 0 <= i < j < new.len() implies (#[trigger] new[i]).state_id@ != (
    #[trigger] new[j]).state_id@ by {
        if j >= n {
            let id = new[j].state_id@;
            assert(new[j] == new.skip(n)[j - n]);
            if i < n {
                assert(!store::has_state_id(id)(old[i]));
            } else {
                assert(new[i] == new.skip(n)[i - n]);
            }
        }
    }
}

/// Whether the rows keep their ids, teams, categories and archival.
pub open spec fn same_roles(before: WorkflowState, after: WorkflowState) -> bool {
    &&& after.state_id@ == before.state_id@
    &&& after.organization_id@ == before.organization_id@
    &&& after.team_id@ == before.team_id@
    &&& after.category == before.category
    &&& after.archived == before.archived
}

proof fn lemma_same_roles_are_sound(before: Store, after: Store)
    requires
        workflows_sound(before),
        after.teams == before.teams,
        after.workflow_states@.len() == before.workflow_states@.len(),
        forall|k: int|
            0 <= k < before.workflow_states@.len() ==> same_roles(
                before.workflow_states@[k],
                #[trigger] after.workflow_states@[k],
            ),
    ensures
        workflows_sound(after),
{
    assert forall|t: int| 0 <= t < after.teams@.len() implies #[trigger] has_default(
        after,
        after.teams@[t],
    ) by {
        assert(has_default(before, before.teams@[t]));
        let k = choose|k: int|
            0 <= k < before.workflow_states@.len() && is_default_row(
                #[trigger] before.workflow_states@[k],
                before.teams@[t],
            );
        assert(is_default_row(after.workflow_states@[k], after.teams@[t]));
    }
    assert forall|i: int, j: int| 0 <= i < j < after.workflow_states@.len() implies (
    #[trigger] after.workflow_states@[i]).state_id@ != (
    #[trigger] after.workflow_states@[j]).state_id@ by {
        assert(before.workflow_states@[i].state_id@ != before.workflow_states@[j].state_id@);
    }
}

/// Putting a workflow state keeps every team's default: a state's category never changes.
pub proof fn law_put_workflow_state_keeps_defaults(
    before: Store,
    after: Store,
    call: Invocation,
    r: PutWorkflowStateRequest,
    value: WorkflowStateValue,
)
    requires
        workflows_sound(before),
        workflow::put_workflow_state_outcome(
            before,
            after,
            call,
            r,
            Ok::<Completion<WorkflowStateValue>, StorageError>(Completion::Fresh(value)),
        ),
    ensures
        workflows_sound(after),
{
    let n = before.workflow_states@.len() as int;
    if r.expected_revision is Some {
        table::lemma_first_where(
            before.workflow_states@,
            store::is_team_state(r.organization_id@, r.team_id@, r.state_id@),
        );
        lemma_same_roles_are_sound(before, after);
    } else {
        assert forall|k: int| 0 <= k < n implies #[trigger] after.workflow_states@[k]
            == before.workflow_states@[k] by {
            assert(after.workflow_states@.drop_last()[k] == after.workflow_states@[k]);
        }
        assert forall|t: int| 0 <= t < after.teams@.len() implies #[trigger] has_default(
            after,
            after.teams@[t],
        ) by {
            assert(has_default(before, before.teams@[t]));
            let k = choose|k: int|
                0 <= k < n && is_default_row(
                    #[trigger] before.workflow_states@[k],
                    before.teams@[t],
                );
            assert(is_default_row(after.workflow_states@[k], after.teams@[t]));
        }
        assert forall|i: int, j: int| 0 <= i < j < after.workflow_states@.len() implies (
        #[trigger] after.workflow_states@[i]).state_id@ != (
        #[trigger] after.workflow_states@[j]).state_id@ by {
            if j == n {
                assert(!store::has_state_id(r.state_id@)(before.workflow_states@[i]));
            }
        }
    }
}

/// Reordering keeps every team's default.
pub proof fn law_reorder_keeps_defaults(
    before: Store,
    after: Store,
    call: Invocation,
    r: ReorderWorkflowStatesRequest,
    values: Vec<WorkflowStateValue>,
)
    requires
        workflows_sound(before),
        workflow::reorder_workflow_states_outcome(
            before,
            after,
            call,
            r,
            Ok::<Completion<Vec<WorkflowStateValue>>, StorageError>(Completion::Fresh(values)),
        ),
    ensures
        workflows_sound(after),
{
    lemma_same_roles_are_sound(before, after);
}

/// Archiving or restoring a workflow state keeps every team's default: a default is not archived.
pub proof fn law_archive_workflow_state_keeps_defaults(
    before: Store,
    after: Store,
    call: Invocation,
    r: ArchiveWorkflowStateRequest,
    value: WorkflowStateValue,
)
    requires
        workflows_sound(before),
        workflow::archive_workflow_state_outcome(
            before,
            after,
            call,
            r,
            Ok::<Completion<WorkflowStateValue>, StorageError>(Completion::Fresh(value)),
        ),
    ensures
        workflows_sound(after),
{
    let i = before.workflow_state_at(r.organization_id@, r.state_id@)->0;
    table::lemma_first_where(
        before.workflow_states@,
        store::is_workflow_state(r.organization_id@, r.state_id@),
    );
    let row = before.workflow_states@[i];
    assert forall|t: int| 0 <= t < after.teams@.len() implies #[trigger] has_default(
        after,
        after.teams@[t],
    ) by {
        assert(has_default(before, before.teams@[t]));
        let team = before.teams@[t];
        let k = choose|k: int|
            0 <= k < before.workflow_states@.len() && is_default_row(
                #[trigger] before.workflow_states@[k],
                team,
            );
        if k == i {
            lemma_only_team(before, t);
            assert(workflow::is_default_state(
                before,
                r.organization_id@,
                row.team_id@,
                r.state_id@,
            ));
        }
        assert(is_default_row(after.workflow_states@[k], after.teams@[t]));
    }
    assert forall|a: int, b: int| 0 <= a < b < after.workflow_states@.len() implies (
    #[trigger] after.workflow_states@[a]).state_id@ != (
    #[trigger] after.workflow_states@[b]).state_id@ by {
        assert(before.workflow_states@[a].state_id@ != before.workflow_states@[b].state_id@);
    }
}

/// Where teams are told apart by their ids, a team is found by its key.
proof fn lemma_only_team(s: Store, t: int)
    requires
        teams_unique(s),
        0 <= t < s.teams@.len(),
    ensures
        s.team_at(s.teams@[t].organization_id@, s.teams@[t].team_id@) == Some(t),
{
    let keep = store::is_team(s.teams@[t].organization_id@, s.teams@[t].team_id@);
    table::lemma_first_where(s.teams@, keep);
    assert(keep(s.teams@[t]));
    let found = table::first_where(s.teams@, keep)->0;
    if found < t {
        assert(s.teams@[found].team_id@ != s.teams@[t].team_id@);
    }
}

/// Deleting a workflow state keeps every team's default: a default is not deleted.
pub proof fn law_delete_workflow_state_keeps_defaults(
    before: Store,
    after: Store,
    call: Invocation,
    r: DeleteWorkflowStateRequest,
    value: DeletedWorkflowState,
)
    requires
        workflows_sound(before),
        workflow::delete_workflow_state_outcome(
            before,
            after,
            call,
            r,
            Ok::<Completion<DeletedWorkflowState>, StorageError>(Completion::Fresh(value)),
        ),
    ensures
        workflows_sound(after),
{
    let i = before.team_state_at(r.organization_id@, r.team_id@, r.state_id@)->0;
    table::lemma_first_where(
        before.workflow_states@,
        store::is_team_state(r.organization_id@, r.team_id@, r.state_id@),
    );
    let old = before.workflow_states@;
    let new = after.workflow_states@;
    assert forall|t: int| 0 <= t < after.teams@.len() implies #[trigger] has_default(
        after,
        after.teams@[t],
    ) by {
        assert(has_default(before, before.teams@[t]));
        let k = choose|k: int|
            0 <= k < old.len() && is_default_row(
                #[trigger] before.workflow_states@[k],
                before.teams@[t],
            );
        if k < i {
            assert(is_default_row(after.workflow_states@[k], after.teams@[t]));
        } else {
            assert(k != i);
            assert(after.workflow_states@[k - 1] == old[k]);
            assert(is_default_row(after.workflow_states@[k - 1], after.teams@[t]));
        }
    }
    assert forall|a: int, b: int| 0 <= a < b < new.len() implies (#[trigger] new[a]).state_id@ != (
    #[trigger] new[b]).state_id@ by {
        let c = if a < i {
            a
        } else {
            a + 1
        };
        let d = if b < i {
            b
        } else {
            b + 1
        };
        assert(new[a] == old[c] && new[b] == old[d]);
    }
}

/// No operation takes the default from a team, or gives two teams or states the same id.
#[verifier::spinoff_prover]
#[verifier::rlimit(60)]
pub proof fn law_every_operation_keeps_workflows_sound(before: Store, after: Store, step: Step)
    requires
        workflows_sound(before),
        history::takes(before, after, step),
    ensures
        workflows_sound(after),
{
    match step {
        Step::CreateIssue { call, r, result } => {
            if let Ok(Completion::Fresh(value)) = result {
                law_creation_keeps_defaults(before, after, call, r, value);
            }
        },
        Step::MoveIssue { call, r, result } => {
            if let Ok(Completion::Fresh(value)) = result {
                law_move_keeps_defaults(before, after, call, r, value);
            }
        },
        Step::PutTeam { call, r, ids, states, result } => {
            if let Ok(Completion::Fresh(value)) = result {
                law_put_team_keeps_defaults(before, after, call, r, ids, states, value);
            }
        },
        Step::PutWorkflowState { call, r, result } => {
            if let Ok(Completion::Fresh(value)) = result {
                law_put_workflow_state_keeps_defaults(before, after, call, r, value);
            }
        },
        Step::ReorderWorkflowStates { call, r, result } => {
            if let Ok(Completion::Fresh(value)) = result {
                law_reorder_keeps_defaults(before, after, call, r, value);
            }
        },
        Step::ArchiveWorkflowState { call, r, result } => {
            if let Ok(Completion::Fresh(value)) = result {
                law_archive_workflow_state_keeps_defaults(before, after, call, r, value);
            }
        },
        Step::DeleteWorkflowState { call, r, result } => {
            if let Ok(Completion::Fresh(value)) = result {
                law_delete_workflow_state_keeps_defaults(before, after, call, r, value);
            }
        },
        _ => law_other_changes_keep_workflows(before, after),
    }
}

/// Over any operations from an empty store, every team has a default state that is fit to be one.
pub proof fn law_every_team_always_has_its_default(history: History, k: int)
    requires
        history.starts_empty(),
        0 <= k < history.stores.len(),
    ensures
        workflows_sound(history.stores[k]),
    decreases k,
{
    if k == 0 {
        law_empty_workflows_are_sound(history.stores[0]);
    } else {
        law_every_team_always_has_its_default(history, k - 1);
        assert(history.steps_on(k - 1));
        law_every_operation_keeps_workflows_sound(
            history.stores[k - 1],
            history.stores[k],
            history.steps[k - 1],
        );
    }
}

/// An archived workflow state is in no issue at that moment, and is not a team's default.
pub proof fn law_archived_state_is_unused(
    before: Store,
    after: Store,
    call: Invocation,
    r: ArchiveWorkflowStateRequest,
    value: WorkflowStateValue,
)
    requires
        r.archived,
        workflow::archive_workflow_state_outcome(
            before,
            after,
            call,
            r,
            Ok::<Completion<WorkflowStateValue>, StorageError>(Completion::Fresh(value)),
        ),
    ensures
        value.archived,
        !table::some_row(after.issues@, workflow::uses_state(r.organization_id@, r.state_id@)),
        !workflow::is_default_state(after, r.organization_id@, value.team_id@, r.state_id@),
{
    table::lemma_first_where(
        before.workflow_states@,
        store::is_workflow_state(r.organization_id@, r.state_id@),
    );
}

/// After a reordering no two active states of the team have the same position, and each has the
/// position that the batch gives it and the revision that follows its expected one.
pub proof fn law_reorder_places_every_active_state(
    before: Store,
    after: Store,
    call: Invocation,
    r: ReorderWorkflowStatesRequest,
    values: Vec<WorkflowStateValue>,
    i: int,
    j: int,
)
    requires
        states_unique(before),
        workflow::reorder_workflow_states_outcome(
            before,
            after,
            call,
            r,
            Ok::<Completion<Vec<WorkflowStateValue>>, StorageError>(Completion::Fresh(values)),
        ),
        0 <= i < j < after.workflow_states@.len(),
        workflow::is_active_state(r.organization_id@, r.team_id@)(after.workflow_states@[i]),
        workflow::is_active_state(r.organization_id@, r.team_id@)(after.workflow_states@[j]),
    ensures
        after.workflow_states@[i].position != after.workflow_states@[j].position,
        placed(before.workflow_states@[i], after.workflow_states@[i], r.items@),
        placed(before.workflow_states@[j], after.workflow_states@[j], r.items@),
{
    lemma_placed(before, after, call, r, values, i);
    lemma_placed(before, after, call, r, values, j);
    let a = catalog::item_of(r.items@, before.workflow_states@[i].state_id@)->0;
    let b = catalog::item_of(r.items@, before.workflow_states@[j].state_id@)->0;
    assert(before.workflow_states@[i].state_id@ != before.workflow_states@[j].state_id@);
    assert(r.items@[a].id@ != r.items@[b].id@);
}

/// Whether `after` is a reordered state: at the position of its item, one revision on from the one
/// that its item expects.
pub open spec fn placed(before: WorkflowState, after: WorkflowState, items: Seq<ReorderItem>) -> bool {
    match catalog::item_of(items, before.state_id@) {
        Some(k) => {
            &&& 0 <= k < items.len()
            &&& items[k].id@ == before.state_id@
            &&& after.position == items[k].position
            &&& validate::revision_value(items[k].expected_revision@) == Some(before.revision as int)
            &&& after.revision == before.revision + 1
        },
        None => false,
    }
}

proof fn lemma_placed(
    before: Store,
    after: Store,
    call: Invocation,
    r: ReorderWorkflowStatesRequest,
    values: Vec<WorkflowStateValue>,
    i: int,
)
    requires
        workflow::reorder_workflow_states_outcome(
            before,
            after,
            call,
            r,
            Ok::<Completion<Vec<WorkflowStateValue>>, StorageError>(Completion::Fresh(values)),
        ),
        0 <= i < after.workflow_states@.len(),
        workflow::is_active_state(r.organization_id@, r.team_id@)(after.workflow_states@[i]),
    ensures
        placed(before.workflow_states@[i], after.workflow_states@[i], r.items@),
{
    let keep = workflow::is_active_state(r.organization_id@, r.team_id@);
    let rows = before.workflow_states@;
    let entries = workflow::active_entries(before, r.organization_id@, r.team_id@);
    assert(keep(rows[i]));
    rows.lemma_filter_contains(keep, i);
    let f = choose|f: int| 0 <= f < rows.filter(keep).len() && rows.filter(keep)[f] == rows[i];
    assert(entries[f] == workflow::state_entry()(rows[i]));
    catalog::lemma_first_misfit(entries, r.items@);
    assert(catalog::entry_refusal(entries[f], r.items@) is None);
    catalog::lemma_item_for(r.items@, rows[i].state_id@, r.items@.len() as int);
    assert(rows[i].revision < i64::MAX);
}

/// A reordering with one stale or missing entry changes nothing at all.
pub proof fn law_stale_reorder_changes_nothing(
    before: Store,
    after: Store,
    call: Invocation,
    r: ReorderWorkflowStatesRequest,
    result: Result<Completion<Vec<WorkflowStateValue>>, StorageError>,
    i: int,
)
    requires
        workflow::reorder_workflow_states_outcome(before, after, call, r, result),
        0 <= i < before.workflow_states@.len(),
        workflow::is_active_state(r.organization_id@, r.team_id@)(before.workflow_states@[i]),
        catalog::entry_refusal(
            workflow::state_entry()(before.workflow_states@[i]),
            r.items@,
        ) is Some,
    ensures
        after == before,
{
    let keep = workflow::is_active_state(r.organization_id@, r.team_id@);
    let rows = before.workflow_states@;
    let entries = workflow::active_entries(before, r.organization_id@, r.team_id@);
    rows.lemma_filter_contains(keep, i);
    let f = choose|f: int| 0 <= f < rows.filter(keep).len() && rows.filter(keep)[f] == rows[i];
    assert(entries[f] == workflow::state_entry()(rows[i]));
    catalog::lemma_first_misfit(entries, r.items@);
}

} // verus!
