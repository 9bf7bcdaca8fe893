//! Every organization with a status catalog has exactly one default status, and it is not archived.
use crate::catalog;
use crate::failure::StorageError;
use crate::laws::history;
use crate::laws::history::{History, Step};
use crate::model::{
    ArchiveProjectStatusRequest, Completion, DeleteProjectStatusRequest, DeletedProjectStatus,
    ProjectStatus, ProjectStatusValue, PutProjectStatusRequest, ReorderItem,
    ReorderProjectStatusesRequest, Workspace,
};
use crate::project_status;
use crate::project_status::StatusIds;
use crate::projects;
use crate::store;
use crate::store::{Invocation, Store};
use crate::table;
use crate::teams;
use crate::validate;
use vstd::prelude::*;

verus! {

/// Whether no two project statuses have the same id.
pub open spec fn statuses_unique(s: Store) -> bool {
    forall|i: int, j: int|
        0 <= i < j < s.project_statuses@.len() ==> (#[trigger] s.project_statuses@[i]).status_id@
            != (#[trigger] s.project_statuses@[j]).status_id@
}

/// Whether no organization is set up twice.
pub open spec fn workspaces_unique(s: Store) -> bool {
    forall|i: int, j: int|
        0 <= i < j < s.workspaces@.len() ==> (#[trigger] s.workspaces@[i]).organization_id@ != (
        #[trigger] s.workspaces@[j]).organization_id@
}

/// Whether the status is the one that the workspace names as its default.
pub open spec fn names_default(workspace: Workspace, row: ProjectStatus) -> bool {
    &&& row.organization_id@ == workspace.organization_id@
    &&& row.status_id@ == workspace.default_project_status_id@
}

/// Whether the workspace has a default status that is marked as such and not archived.
pub open spec fn has_default(s: Store, workspace: Workspace) -> bool {
    exists|k: int|
        0 <= k < s.project_statuses@.len() && names_default(
            workspace,
            #[trigger] s.project_statuses@[k],
        ) && s.project_statuses@[k].is_default && !s.project_statuses@[k].archived
}

/// Whether a workspace names the status as its default.
pub open spec fn is_named(s: Store, row: ProjectStatus) -> bool {
    exists|w: int|
        0 <= w < s.workspaces@.len() && names_default(#[trigger] s.workspaces@[w], row)
}

/// Whether statuses and workspaces are told apart, every workspace has its default, and nothing else
/// is marked as a default.
pub open spec fn statuses_sound(s: Store) -> bool {
    &&& statuses_unique(s)
    &&& workspaces_unique(s)
    &&& forall|w: int| 0 <= w < s.workspaces@.len() ==> #[trigger] has_default(s, s.workspaces@[w])
    &&& forall|k: int|
        0 <= k < s.project_statuses@.len() && s.project_statuses@[k].is_default ==> #[trigger] is_named(
            s,
            s.project_statuses@[k],
        )
}

/// A store without statuses is sound.
pub proof fn law_empty_statuses_are_sound(s: Store)
    requires
        s.workspaces@.len() == 0,
        s.project_statuses@.len() == 0,
    ensures
        statuses_sound(s),
{
}

/// In a sound store no organization has two default statuses.
pub proof fn law_one_default_per_organization(s: Store, i: int, j: int)
    requires
        statuses_sound(s),
        0 <= i < s.project_statuses@.len(),
        0 <= j < s.project_statuses@.len(),
        s.project_statuses@[i].organization_id@ == s.project_statuses@[j].organization_id@,
        s.project_statuses@[i].is_default,
        s.project_statuses@[j].is_default,
    ensures
        i == j,
{
    let a = s.project_statuses@[i];
    let b = s.project_statuses@[j];
    assert(is_named(s, s.project_statuses@[i]));
    assert(is_named(s, s.project_statuses@[j]));
    let v = choose|v: int| 0 <= v < s.workspaces@.len() && names_default(#[trigger] s.workspaces@[v], a);
    let w = choose|w: int| 0 <= w < s.workspaces@.len() && names_default(#[trigger] s.workspaces@[w], b);
    if v < w {
        assert(s.workspaces@[v].organization_id@ != s.workspaces@[w].organization_id@);
    } else if w < v {
        assert(s.workspaces@[w].organization_id@ != s.workspaces@[v].organization_id@);
    }
    if i < j {
        assert(s.project_statuses@[i].status_id@ != s.project_statuses@[j].status_id@);
    } else if j < i {
        assert(s.project_statuses@[j].status_id@ != s.project_statuses@[i].status_id@);
    }
}

/// In a sound store a project that names no status gets its organization's default.
pub proof fn law_default_status_can_be_resolved(s: Store, organization: Seq<char>)
    requires
        statuses_sound(s),
        s.workspace_at(organization) is Some,
    ensures
        project_status::resolved_status(s, organization, None) is Some,
        s.project_statuses@[project_status::resolved_status(
            s,
            organization,
            None,
        )->0].is_default,
{
    let w = s.workspace_at(organization)->0;
    table::lemma_first_where(s.workspaces@, store::is_workspace(organization));
    assert(has_default(s, s.workspaces@[w]));
    let k = choose|k: int|
        0 <= k < s.project_statuses@.len() && names_default(
            s.workspaces@[w],
            #[trigger] s.project_statuses@[k],
        ) && s.project_statuses@[k].is_default && !s.project_statuses@[k].archived;
    let keep = store::is_project_status(
        organization,
        s.workspaces@[w].default_project_status_id@,
    );
    table::lemma_first_where(s.project_statuses@, keep);
    assert(keep(s.project_statuses@[k]));
    let found = table::first_where(s.project_statuses@, keep)->0;
    if found < k {
        assert(s.project_statuses@[found].status_id@ != s.project_statuses@[k].status_id@);
    }
}

/// Setting a catalog up keeps the statuses sound.
pub proof fn law_setting_up_keeps_statuses_sound(
    before: Store,
    after: Store,
    organization: Seq<char>,
    ids: StatusIds,
)
    requires
        statuses_sound(before),
        project_status::catalog_verdict(before, organization, ids) is Proceed,
        project_status::catalog_ready(before, after, organization, ids),
    ensures
        statuses_sound(after),
        after.workspace_at(organization) is Some,
{
    let keep = store::is_workspace(organization);
    table::lemma_first_where(before.workspaces@, keep);
    if before.workspace_at(organization) is None {
        let n = before.project_statuses@.len() as int;
        let m = before.workspaces@.len() as int;
        let old = before.project_statuses@;
        let new = after.project_statuses@;
        assert(keep(after.workspaces@.last()));
        assert forall|k: int| 0 <= k < n implies #[trigger] new[k] == old[k] by {
            assert(new.take(n)[k] == new[k]);
        }
        assert forall|k: int| n <= k < n + 6 implies #[trigger] new[k] == new.skip(n)[k - n] by {}
        assert forall|w: int| 0 <= w < m implies #[trigger] after.workspaces@[w]
            == before.workspaces@[w] by {
            assert(after.workspaces@.drop_last()[w] == after.workspaces@[w]);
        }
        assert forall|i: int, j: int| 0 <= i < j < new.len() implies (
        #[trigger] new[i]).status_id@ != (#[trigger] new[j]).status_id@ by {
            if j >= n {
                let id = new[j].status_id@;
                assert(new[j] == new.skip(n)[j - n]);
                if i < n {
                    assert(!store::has_status_id(id)(old[i]));
                } else {
                    assert(new[i] == new.skip(n)[i - n]);
                }
            }
        }
        assert forall|i: int, j: int| 0 <= i < j < after.workspaces@.len() implies (
        #[trigger] after.workspaces@[i]).organization_id@ != (
        #[trigger] after.workspaces@[j]).organization_id@ by {
            if j == m {
                assert(!keep(before.workspaces@[i]));
            }
        }
        assert forall|w: int| 0 <= w < after.workspaces@.len() implies #[trigger] has_default(
            after,
            after.workspaces@[w],
        ) by {
            if w < m {
                assert(has_default(before, before.workspaces@[w]));
                let k = choose|k: int|
                    0 <= k < n && names_default(
                        before.workspaces@[w],
                        #[trigger] before.project_statuses@[k],
                    ) && before.project_statuses@[k].is_default
                        && !before.project_statuses@[k].archived;
                assert(names_default(after.workspaces@[w], after.project_statuses@[k]));
            } else {
                assert(new[n] == new.skip(n)[0]);
                assert(names_default(after.workspaces@[w], after.project_statuses@[n]));
            }
        }
        assert forall|k: int|
            0 <= k < new.len() && new[k].is_default implies #[trigger] is_named(
            after,
            after.project_statuses@[k],
        ) by {
            if k < n {
                assert(is_named(before, before.project_statuses@[k]));
                let w = choose|w: int|
                    0 <= w < m && names_default(
                        #[trigger] before.workspaces@[w],
                        before.project_statuses@[k],
                    );
                assert(names_default(after.workspaces@[w], after.project_statuses@[k]));
            } else {
                assert(new[k] == new.skip(n)[k - n]);
                assert(names_default(after.workspaces@[m], after.project_statuses@[k]));
            }
        }
    }
}

/// Whether the rows keep their ids, organizations and default marks, and a default stays unarchived.
pub open spec fn same_roles(before: ProjectStatus, after: ProjectStatus) -> bool {
    &&& after.status_id@ == before.status_id@
    &&& after.organization_id@ == before.organization_id@
    &&& after.is_default == before.is_default
    &&& before.is_default ==> after.archived == before.archived
}

proof fn lemma_same_roles_are_sound(before: Store, after: Store)
    requires
        statuses_sound(before),
        after.workspaces == before.workspaces,
        after.project_statuses@.len() == before.project_statuses@.len(),
        forall|k: int|
            0 <= k < before.project_statuses@.len() ==> same_roles(
                before.project_statuses@[k],
                #[trigger] after.project_statuses@[k],
            ),
    ensures
        statuses_sound(after),
{
    assert forall|w: int| 0 <= w < after.workspaces@.len() implies #[trigger] has_default(
        after,
        after.workspaces@[w],
    ) by {
        assert(has_default(before, before.workspaces@[w]));
        let k = choose|k: int|
            0 <= k < before.project_statuses@.len() && names_default(
                before.workspaces@[w],
                #[trigger] before.project_statuses@[k],
            ) && before.project_statuses@[k].is_default && !before.project_statuses@[k].archived;
        assert(names_default(after.workspaces@[w], after.project_statuses@[k]));
    }
    assert forall|k: int|
        0 <= k < after.project_statuses@.len()
            && after.project_statuses@[k].is_default implies #[trigger] is_named(
        after,
        after.project_statuses@[k],
    ) by {
        assert(is_named(before, before.project_statuses@[k]));
        let w = choose|w: int|
            0 <= w < before.workspaces@.len() && names_default(
                #[trigger] before.workspaces@[w],
                before.project_statuses@[k],
            );
        assert(names_default(after.workspaces@[w], after.project_statuses@[k]));
    }
    assert forall|i: int, j: int| 0 <= i < j < after.project_statuses@.len() implies (
    #[trigger] after.project_statuses@[i]).status_id@ != (
    #[trigger] after.project_statuses@[j]).status_id@ by {
        assert(before.project_statuses@[i].status_id@ != before.project_statuses@[j].status_id@);
    }
}

/// Putting a project status keeps the statuses sound: what is put is never a second default.
pub proof fn law_put_project_status_keeps_statuses_sound(
    before: Store,
    after: Store,
    call: Invocation,
    r: PutProjectStatusRequest,
    ids: StatusIds,
    value: ProjectStatusValue,
)
    requires
        statuses_sound(before),
        project_status::put_project_status_outcome(
            before,
            after,
            call,
            r,
            ids,
            Ok::<Completion<ProjectStatusValue>, StorageError>(Completion::Fresh(value)),
        ),
    ensures
        statuses_sound(after),
{
    let ready = choose|ready: Store|
        {
            &&& #[trigger] project_status::catalog_ready(before, ready, r.organization_id@, ids)
            &&& project_status::put_project_status_verdict(ready, r) is Proceed
            &&& project_status::put_project_status_effect(ready, after, call, r, value)
        };
    law_setting_up_keeps_statuses_sound(before, ready, r.organization_id@, ids);
    table::lemma_first_where(
        ready.project_statuses@,
        store::is_project_status(r.organization_id@, r.status_id@),
    );
    if r.expected_revision is Some {
        lemma_same_roles_are_sound(ready, after);
    } else {
        let n = ready.project_statuses@.len() as int;
        assert forall|k: int| 0 <= k < n implies #[trigger] after.project_statuses@[k]
            == ready.project_statuses@[k] by {
            assert(after.project_statuses@.drop_last()[k] == after.project_statuses@[k]);
        }
        assert forall|w: int| 0 <= w < after.workspaces@.len() implies #[trigger] has_default(
            after,
            after.workspaces@[w],
        ) by {
            assert(has_default(ready, ready.workspaces@[w]));
            let k = choose|k: int|
                0 <= k < n && names_default(
                    ready.workspaces@[w],
                    #[trigger] ready.project_statuses@[k],
                ) && ready.project_statuses@[k].is_default && !ready.project_statuses@[k].archived;
            assert(names_default(after.workspaces@[w], after.project_statuses@[k]));
        }
        assert forall|k: int|
            0 <= k < after.project_statuses@.len()
                && after.project_statuses@[k].is_default implies #[trigger] is_named(
            after,
            after.project_statuses@[k],
        ) by {
            assert(is_named(ready, ready.project_statuses@[k]));
            let w = choose|w: int|
                0 <= w < ready.workspaces@.len() && names_default(
                    #[trigger] ready.workspaces@[w],
                    ready.project_statuses@[k],
                );
            assert(names_default(after.workspaces@[w], after.project_statuses@[k]));
        }
        assert forall|i: int, j: int| 0 <= i < j < after.project_statuses@.len() implies (
        #[trigger] after.project_statuses@[i]).status_id@ != (
        #[trigger] after.project_statuses@[j]).status_id@ by {
            if j == n {
                assert(!store::has_status_id(r.status_id@)(ready.project_statuses@[i]));
            }
        }
    }
}

/// Reordering keeps the statuses sound.
pub proof fn law_reorder_keeps_statuses_sound(
    before: Store,
    after: Store,
    call: Invocation,
    r: ReorderProjectStatusesRequest,
    ids: StatusIds,
    values: Vec<ProjectStatusValue>,
)
    requires
        statuses_sound(before),
        project_status::reorder_project_statuses_outcome(
            before,
            after,
            call,
            r,
            ids,
            Ok::<Completion<Vec<ProjectStatusValue>>, StorageError>(Completion::Fresh(values)),
        ),
    ensures
        statuses_sound(after),
{
    let ready = choose|ready: Store|
        {
            &&& #[trigger] project_status::catalog_ready(before, ready, r.organization_id@, ids)
            &&& project_status::reorder_project_statuses_effect(ready, after, call, r, values@)
        };
    law_setting_up_keeps_statuses_sound(before, ready, r.organization_id@, ids);
    lemma_same_roles_are_sound(ready, after);
}

/// Archiving or restoring a project status keeps the statuses sound: a default is not archived.
pub proof fn law_archive_project_status_keeps_statuses_sound(
    before: Store,
    after: Store,
    call: Invocation,
    r: ArchiveProjectStatusRequest,
    ids: StatusIds,
    value: ProjectStatusValue,
)
    requires
        statuses_sound(before),
        project_status::archive_project_status_outcome(
            before,
            after,
            call,
            r,
            ids,
            Ok::<Completion<ProjectStatusValue>, StorageError>(Completion::Fresh(value)),
        ),
    ensures
        statuses_sound(after),
{
    let ready = choose|ready: Store|
        {
            &&& #[trigger] project_status::catalog_ready(before, ready, r.organization_id@, ids)
            &&& project_status::archive_project_status_verdict(ready, r) is Proceed
            &&& project_status::archive_project_status_effect(ready, after, call, r, value)
        };
    law_setting_up_keeps_statuses_sound(before, ready, r.organization_id@, ids);
    let i = ready.project_status_at(r.organization_id@, r.status_id@)->0;
    table::lemma_first_where(
        ready.project_statuses@,
        store::is_project_status(r.organization_id@, r.status_id@),
    );
    if ready.project_statuses@[i].is_default && ready.project_statuses@[i].archived {
        lemma_default_is_active(ready, i);
    }
    lemma_same_roles_are_sound(ready, after);
}

/// In a sound store what is marked as a default is not archived.
proof fn lemma_default_is_active(s: Store, i: int)
    requires
        statuses_sound(s),
        0 <= i < s.project_statuses@.len(),
        s.project_statuses@[i].is_default,
    ensures
        !s.project_statuses@[i].archived,
{
    assert(is_named(s, s.project_statuses@[i]));
    let w = choose|w: int|
        0 <= w < s.workspaces@.len() && names_default(
            #[trigger] s.workspaces@[w],
            s.project_statuses@[i],
        );
    assert(has_default(s, s.workspaces@[w]));
    let k = choose|k: int|
        0 <= k < s.project_statuses@.len() && names_default(
            s.workspaces@[w],
            #[trigger] s.project_statuses@[k],
        ) && s.project_statuses@[k].is_default && !s.project_statuses@[k].archived;
    law_one_default_per_organization(s, i, k);
}

/// Deleting a project status keeps the statuses sound: a default is not deleted.
pub proof fn law_delete_project_status_keeps_statuses_sound(
    before: Store,
    after: Store,
    call: Invocation,
    r: DeleteProjectStatusRequest,
    ids: StatusIds,
    value: DeletedProjectStatus,
)
    requires
        statuses_sound(before),
        project_status::delete_project_status_outcome(
            before,
            after,
            call,
            r,
            ids,
            Ok::<Completion<DeletedProjectStatus>, StorageError>(Completion::Fresh(value)),
        ),
    ensures
        statuses_sound(after),
{
    let ready = choose|ready: Store|
        {
            &&& #[trigger] project_status::catalog_ready(before, ready, r.organization_id@, ids)
            &&& project_status::delete_project_status_verdict(ready, call, r) is Proceed
            &&& project_status::delete_project_status_effect(ready, after, call, r, value)
        };
    law_setting_up_keeps_statuses_sound(before, ready, r.organization_id@, ids);
    let i = ready.project_status_at(r.organization_id@, r.status_id@)->0;
    table::lemma_first_where(
        ready.project_statuses@,
        store::is_project_status(r.organization_id@, r.status_id@),
    );
    let old = ready.project_statuses@;
    let new = after.project_statuses@;
    assert forall|w: int| 0 <= w < after.workspaces@.len() implies #[trigger] has_default(
        after,
        after.workspaces@[w],
    ) by {
        assert(has_default(ready, ready.workspaces@[w]));
        let k = choose|k: int|
            0 <= k < old.len() && names_default(
                ready.workspaces@[w],
                #[trigger] ready.project_statuses@[k],
            ) && ready.project_statuses@[k].is_default && !ready.project_statuses@[k].archived;
        if k < i {
            assert(after.project_statuses@[k] == old[k]);
        } else {
            assert(k != i);
            assert(after.project_statuses@[k - 1] == old[k]);
        }
    }
    assert forall|k: int| 0 <= k < new.len() && new[k].is_default implies #[trigger] is_named(
        after,
        after.project_statuses@[k],
    ) by {
        let c = if k < i {
            k
        } else {
            k + 1
        };
        assert(new[k] == old[c]);
        assert(is_named(ready, ready.project_statuses@[c]));
        let w = choose|w: int|
            0 <= w < ready.workspaces@.len() && names_default(
                #[trigger] ready.workspaces@[w],
                ready.project_statuses@[c],
            );
        assert(names_default(after.workspaces@[w], after.project_statuses@[k]));
    }
    assert forall|a: int, b: int| 0 <= a < b < new.len() implies (#[trigger] new[a]).status_id@ != (
    #[trigger] new[b]).status_id@ by {
        let c = if a < i {
            a
        } else {
            a + 1
        };
        let d = if b < i {
            b
        } else {
            b + 1
        };
        assert(new[a] == old[c] && new[b] == old[d]);
    }
}

/// What changes neither workspaces nor project statuses leaves them sound.
pub proof fn law_other_changes_keep_statuses(before: Store, after: Store)
    requires
        statuses_sound(before),
        after.workspaces == before.workspaces,
        after.project_statuses == before.project_statuses,
    ensures
        statuses_sound(after),
{
    lemma_same_roles_are_sound(before, after);
}

/// No operation takes the default from an organization, or gives it a second one.
#[verifier::spinoff_prover]
#[verifier::rlimit(60)]
pub proof fn law_every_operation_keeps_statuses_sound(before: Store, after: Store, step: Step)
    requires
        statuses_sound(before),
        history::takes(before, after, step),
    ensures
        statuses_sound(after),
{
    match step {
        Step::PutProjectStatus { call, r, ids, result } => {
            if let Ok(Completion::Fresh(value)) = result {
                law_put_project_status_keeps_statuses_sound(before, after, call, r, ids, value);
            }
        },
        Step::ArchiveProjectStatus { call, r, ids, result } => {
            if let Ok(Completion::Fresh(value)) = result {
                law_archive_project_status_keeps_statuses_sound(before, after, call, r, ids, value);
            }
        },
        Step::ReorderProjectStatuses { call, r, ids, result } => {
            if let Ok(Completion::Fresh(value)) = result {
                law_reorder_keeps_statuses_sound(
                    before,
                    after,
                    call,
                    r,
                    ids,
                    value,
                );
            } else if after != before {
                assert(project_status::catalog_ready(before, after, r.organization_id@, ids));
                law_setting_up_keeps_statuses_sound(before, after, r.organization_id@, ids);
            }
        },
        Step::DeleteProjectStatus { call, r, ids, result } => {
            if let Ok(Completion::Fresh(value)) = result {
                law_delete_project_status_keeps_statuses_sound(
                    before,
                    after,
                    call,
                    r,
                    ids,
                    value,
                );
            } else if after != before {
                assert(project_status::catalog_ready(before, after, r.organization_id@, ids));
                law_setting_up_keeps_statuses_sound(before, after, r.organization_id@, ids);
            }
        },
        Step::GetProjectStatus { r, ids, .. } => {
            if after != before {
                assert(project_status::catalog_ready(before, after, r.organization_id@, ids));
                law_setting_up_keeps_statuses_sound(before, after, r.organization_id@, ids);
            }
        },
        Step::ListProjectStatuses { r, ids, .. } => {
            if after != before {
                assert(project_status::catalog_ready(before, after, r.organization_id@, ids));
                law_setting_up_keeps_statuses_sound(before, after, r.organization_id@, ids);
            }
        },
        Step::CreateProject { call, r, ids, result } => {
            if let Ok(Completion::Fresh(value)) = result {
                let ready = choose|ready: Store|
                    {
                        &&& #[trigger] project_status::catalog_ready(
                            before,
                            ready,
                            r.organization_id@,
                            ids,
                        )
                        &&& projects::create_project_effect(ready, after, call, r, value)
                    };
                law_setting_up_keeps_statuses_sound(before, ready, r.organization_id@, ids);
                law_other_changes_keep_statuses(ready, after);
            }
        },
        Step::UpdateProject { call, r, ids, result } => {
            if let Ok(Completion::Fresh(value)) = result {
                let ready = choose|ready: Store|
                    {
                        &&& #[trigger] project_status::catalog_ready(
                            before,
                            ready,
                            r.organization_id@,
                            ids,
                        )
                        &&& projects::update_project_effect(ready, after, call, r, value)
                    };
                law_setting_up_keeps_statuses_sound(before, ready, r.organization_id@, ids);
                law_other_changes_keep_statuses(ready, after);
            }
        },
        Step::PutTeam { call, r, ids, states, result } => {
            if let Ok(Completion::Fresh(value)) = result {
                let ready = choose|ready: Store|
                    {
                        &&& #[trigger] project_status::catalog_ready(
                            before,
                            ready,
                            r.organization_id@,
                            ids,
                        )
                        &&& teams::put_team_effect(ready, after, call, r, states, value)
                    };
                law_setting_up_keeps_statuses_sound(before, ready, r.organization_id@, ids);
                law_other_changes_keep_statuses(ready, after);
            }
        },
        _ => law_other_changes_keep_statuses(before, after),
    }
}

/// Over any operations from an empty store, every organization with a catalog has one default.
pub proof fn law_every_organization_always_has_one_default(history: History, k: int)
    requires
        history.starts_empty(),
        0 <= k < history.stores.len(),
    ensures
        statuses_sound(history.stores[k]),
    decreases k,
{
    if k == 0 {
        law_empty_statuses_are_sound(history.stores[0]);
    } else {
        law_every_organization_always_has_one_default(history, k - 1);
        assert(history.steps_on(k - 1));
        law_every_operation_keeps_statuses_sound(
            history.stores[k - 1],
            history.stores[k],
            history.steps[k - 1],
        );
    }
}

/// Whether `after` is a reordered status: at the position of its item, one revision on from the one
/// that its item expects.
pub open spec fn placed(before: ProjectStatus, after: ProjectStatus, items: Seq<ReorderItem>) -> bool {
    match catalog::item_of(items, before.status_id@) {
        Some(k) => {
            &&& 0 <= k < items.len()
            &&& items[k].id@ == before.status_id@
            &&& after.position == items[k].position
            &&& validate::revision_value(items[k].expected_revision@) == Some(before.revision as int)
            &&& after.revision == before.revision + 1
        },
        None => false,
    }
}

/// A reordering gives every active status the position that the batch gives it, and no two the same.
pub proof fn law_reorder_places_every_active_status(
    ready: Store,
    after: Store,
    call: Invocation,
    r: ReorderProjectStatusesRequest,
    values: Seq<ProjectStatusValue>,
    i: int,
    j: int,
)
    requires
        statuses_unique(ready),
        catalog::is_batch(r.items@),
        project_status::reorder_project_statuses_verdict(ready, call, r) is Proceed,
        project_status::reorder_project_statuses_effect(ready, after, call, r, values),
        0 <= i < j < after.project_statuses@.len(),
        project_status::is_active_status(r.organization_id@)(after.project_statuses@[i]),
        project_status::is_active_status(r.organization_id@)(after.project_statuses@[j]),
    ensures
        after.project_statuses@[i].position != after.project_statuses@[j].position,
        placed(ready.project_statuses@[i], after.project_statuses@[i], r.items@),
        placed(ready.project_statuses@[j], after.project_statuses@[j], r.items@),
{
    lemma_placed(ready, after, call, r, values, i);
    lemma_placed(ready, after, call, r, values, j);
    let a = catalog::item_of(r.items@, ready.project_statuses@[i].status_id@)->0;
    let b = catalog::item_of(r.items@, ready.project_statuses@[j].status_id@)->0;
    assert(ready.project_statuses@[i].status_id@ != ready.project_statuses@[j].status_id@);
    assert(r.items@[a].id@ != r.items@[b].id@);
}

proof fn lemma_placed(
    ready: Store,
    after: Store,
    call: Invocation,
    r: ReorderProjectStatusesRequest,
    values: Seq<ProjectStatusValue>,
    i: int,
)
    requires
        catalog::is_batch(r.items@),
        project_status::reorder_project_statuses_verdict(ready, call, r) is Proceed,
        project_status::reorder_project_statuses_effect(ready, after, call, r, values),
        0 <= i < after.project_statuses@.len(),
        project_status::is_active_status(r.organization_id@)(after.project_statuses@[i]),
    ensures
        placed(ready.project_statuses@[i], after.project_statuses@[i], r.items@),
{
    let keep = project_status::is_active_status(r.organization_id@);
    let rows = ready.project_statuses@;
    let entries = project_status::active_statuses(ready, r.organization_id@);
    assert(keep(rows[i]));
    rows.lemma_filter_contains(keep, i);
    let f = choose|f: int| 0 <= f < rows.filter(keep).len() && rows.filter(keep)[f] == rows[i];
    assert(entries[f] == project_status::status_entry()(rows[i]));
    catalog::lemma_first_misfit(entries, r.items@);
    assert(catalog::entry_refusal(entries[f], r.items@) is None);
    catalog::lemma_item_for(r.items@, rows[i].status_id@, r.items@.len() as int);
    assert(rows[i].revision < i64::MAX);
}

/// A reordering with one stale or missing entry changes no status and appends no record.
pub proof fn law_stale_status_reorder_changes_nothing(
    before: Store,
    after: Store,
    call: Invocation,
    r: ReorderProjectStatusesRequest,
    ids: StatusIds,
    result: Result<Completion<Vec<ProjectStatusValue>>, StorageError>,
    i: int,
)
    requires
        before.workspace_at(r.organization_id@) is Some,
        project_status::reorder_project_statuses_outcome(before, after, call, r, ids, result),
        0 <= i < before.project_statuses@.len(),
        project_status::is_active_status(r.organization_id@)(before.project_statuses@[i]),
        catalog::entry_refusal(
            project_status::status_entry()(before.project_statuses@[i]),
            r.items@,
        ) is Some,
    ensures
        after == before,
{
    let keep = project_status::is_active_status(r.organization_id@);
    let rows = before.project_statuses@;
    let entries = project_status::active_statuses(before, r.organization_id@);
    rows.lemma_filter_contains(keep, i);
    let f = choose|f: int| 0 <= f < rows.filter(keep).len() && rows.filter(keep)[f] == rows[i];
    assert(entries[f] == project_status::status_entry()(rows[i]));
    catalog::lemma_first_misfit(entries, r.items@);
}

} // verus!
