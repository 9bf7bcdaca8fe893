//! Projects: when they count as completed or canceled.
use crate::failure::StorageError;
use crate::laws::history;
use crate::laws::history::{History, Step};
use crate::model::{
    Completion, CreateProjectRequest, DeleteProjectStatusRequest, DeletedProjectStatus, Project,
    ProjectStatus, ProjectStatusCategory, ProjectValue, UpdateProjectRequest,
};
use crate::project_status;
use crate::project_status::StatusIds;
use crate::projects;
use crate::store;
use crate::store::{Invocation, Store};
use crate::table;
use crate::teams;
use crate::text;
use vstd::prelude::*;

verus! {

/// Whether a project in a status of this category has the timestamps that belong to it.
pub open spec fn stamped(row: Project, category: ProjectStatusCategory) -> bool {
    &&& row.completed_at is Some <==> category == ProjectStatusCategory::Completed
    &&& row.canceled_at is Some <==> category == ProjectStatusCategory::Canceled
}

/// A new project has a completion time exactly where its status is a completed one, and a
/// cancellation time exactly where its status is a canceled one.
pub proof fn law_new_project_is_stamped(
    before: Store,
    after: Store,
    call: Invocation,
    r: CreateProjectRequest,
    ids: StatusIds,
    value: ProjectValue,
)
    requires
        projects::create_project_outcome(
            before,
            after,
            call,
            r,
            ids,
            Ok::<Completion<ProjectValue>, StorageError>(Completion::Fresh(value)),
        ),
    ensures
        exists|k: int|
            0 <= k < after.project_statuses@.len() && (
            #[trigger] after.project_statuses@[k]).status_id@ == after.projects@.last().status_id@
                && !after.project_statuses@[k].archived && stamped(
                after.projects@.last(),
                after.project_statuses@[k].category,
            ),
{
    let ready = choose|ready: Store|
        {
            &&& #[trigger] project_status::catalog_ready(before, ready, r.organization_id@, ids)
            &&& projects::create_project_effect(ready, after, call, r, value)
            &&& projects::create_project_verdict(ready, r) is Proceed
        };
    let k = project_status::resolved_status(ready, r.organization_id@, text::text_of(r.status_id))->0;
    let id = match r.status_id {
        Some(id) => id@,
        None => project_status::default_status(ready, r.organization_id@),
    };
    table::lemma_first_where(
        ready.project_statuses@,
        store::is_project_status(r.organization_id@, id),
    );
    assert(after.project_statuses@[k].status_id@ == after.projects@.last().status_id@);
}

/// Entering a completed or canceled status sets the timestamp that belongs to it, staying keeps it,
/// and leaving clears it.
pub proof fn law_updated_project_is_stamped(
    before: Store,
    after: Store,
    call: Invocation,
    r: UpdateProjectRequest,
    ids: StatusIds,
    value: ProjectValue,
)
    requires
        projects::update_project_outcome(
            before,
            after,
            call,
            r,
            ids,
            Ok::<Completion<ProjectValue>, StorageError>(Completion::Fresh(value)),
        ),
    ensures
        ({
            let i = before.project_at(r.organization_id@, r.project_id@)->0;
            let old = before.projects@[i];
            let new = after.projects@[i];
            exists|k: int|
                {
                    &&& 0 <= k < after.project_statuses@.len()
                    &&& (#[trigger] after.project_statuses@[k]).status_id@ == new.status_id@
                    &&& stamped(new, after.project_statuses@[k].category)
                    &&& new.completed_at is Some && old.completed_at is Some ==> new.completed_at
                        == old.completed_at
                    &&& new.canceled_at is Some && old.canceled_at is Some ==> new.canceled_at
                        == old.canceled_at
                    &&& new.completed_at is Some && old.completed_at is None ==> new.completed_at
                        == Some(call.now)
                    &&& new.canceled_at is Some && old.canceled_at is None ==> new.canceled_at
                        == Some(call.now)
                }
        }),
{
    let ready = choose|ready: Store|
        {
            &&& #[trigger] project_status::catalog_ready(before, ready, r.organization_id@, ids)
            &&& projects::update_project_effect(ready, after, call, r, value)
            &&& projects::update_project_verdict(ready, r) is Proceed
        };
    let k = project_status::resolved_status(ready, r.organization_id@, Some(r.status_id@))->0;
    table::lemma_first_where(
        ready.project_statuses@,
        store::is_project_status(r.organization_id@, r.status_id@),
    );
    let i = before.project_at(r.organization_id@, r.project_id@)->0;
    assert(after.project_statuses@[k].status_id@ == after.projects@[i].status_id@);
}

/// Whether the status is the one that the project has.
pub open spec fn names_status(status: ProjectStatus, row: Project) -> bool {
    status.organization_id@ == row.organization_id@ && status.status_id@ == row.status_id@
}

/// Whether the project has the timestamps that belong to its status.
pub open spec fn has_stamp(s: Store, row: Project) -> bool {
    exists|k: int|
        0 <= k < s.project_statuses@.len() && names_status(#[trigger] s.project_statuses@[k], row)
            && stamped(row, s.project_statuses@[k].category)
}

/// Whether every project has a completion time exactly where its status is a completed one, and a
/// cancellation time exactly where its status is a canceled one.
pub open spec fn projects_stamped(s: Store) -> bool {
    forall|i: int| 0 <= i < s.projects@.len() ==> #[trigger] has_stamp(s, s.projects@[i])
}

/// Whether every status is still there, with its category.
pub open spec fn categories_kept(before: Store, after: Store) -> bool {
    &&& before.project_statuses@.len() <= after.project_statuses@.len()
    &&& forall|k: int|
        0 <= k < before.project_statuses@.len() ==> same_category(
            before.project_statuses@[k],
            #[trigger] after.project_statuses@[k],
        )
}

/// Whether both rows are the same status, with the same category.
pub open spec fn same_category(a: ProjectStatus, b: ProjectStatus) -> bool {
    &&& b.organization_id@ == a.organization_id@
    &&& b.status_id@ == a.status_id@
    &&& b.category == a.category
}

/// Whether both rows have the same status and the same timestamps.
pub open spec fn same_stamps(a: Project, b: Project) -> bool {
    &&& b.organization_id@ == a.organization_id@
    &&& b.status_id@ == a.status_id@
    &&& b.completed_at is Some == a.completed_at is Some
    &&& b.canceled_at is Some == a.canceled_at is Some
}

/// Where statuses keep their categories, a project that keeps its status and its timestamps stays
/// stamped.
proof fn lemma_stamp_kept(before: Store, after: Store, old: Project, new: Project)
    requires
        has_stamp(before, old),
        categories_kept(before, after),
        same_stamps(old, new),
    ensures
        has_stamp(after, new),
{
    let k = choose|k: int|
        0 <= k < before.project_statuses@.len() && names_status(
            #[trigger] before.project_statuses@[k],
            old,
        ) && stamped(old, before.project_statuses@[k].category);
    assert(same_category(before.project_statuses@[k], after.project_statuses@[k]));
    assert(names_status(after.project_statuses@[k], new));
}

proof fn lemma_stamps_kept(before: Store, after: Store)
    requires
        projects_stamped(before),
        categories_kept(before, after),
        after.projects@.len() == before.projects@.len(),
        forall|i: int|
            0 <= i < before.projects@.len() ==> same_stamps(
                before.projects@[i],
                #[trigger] after.projects@[i],
            ),
    ensures
        projects_stamped(after),
{
    assert forall|i: int| 0 <= i < after.projects@.len() implies #[trigger] has_stamp(
        after,
        after.projects@[i],
    ) by {
        assert(has_stamp(before, before.projects@[i]));
        assert(same_stamps(before.projects@[i], after.projects@[i]));
        lemma_stamp_kept(before, after, before.projects@[i], after.projects@[i]);
    }
}

proof fn lemma_ready_keeps_categories(
    before: Store,
    ready: Store,
    organization: Seq<char>,
    ids: StatusIds,
)
    requires
        project_status::catalog_ready(before, ready, organization, ids),
    ensures
        categories_kept(before, ready),
{
    let n = before.project_statuses@.len() as int;
    assert forall|k: int| 0 <= k < n implies same_category(
        before.project_statuses@[k],
        #[trigger] ready.project_statuses@[k],
    ) by {
        if before.workspace_at(organization) is None {
            assert(ready.project_statuses@.take(n)[k] == ready.project_statuses@[k]);
        }
    }
}

proof fn lemma_creation_keeps_projects_stamped(
    before: Store,
    after: Store,
    call: Invocation,
    r: CreateProjectRequest,
    ids: StatusIds,
    value: ProjectValue,
)
    requires
        projects_stamped(before),
        projects::create_project_outcome(
            before,
            after,
            call,
            r,
            ids,
            Ok::<Completion<ProjectValue>, StorageError>(Completion::Fresh(value)),
        ),
    ensures
        projects_stamped(after),
{
    let ready = choose|ready: Store|
        {
            &&& #[trigger] project_status::catalog_ready(before, ready, r.organization_id@, ids)
            &&& projects::create_project_verdict(ready, r) is Proceed
            &&& projects::create_project_effect(ready, after, call, r, value)
        };
    lemma_ready_keeps_categories(before, ready, r.organization_id@, ids);
    lemma_stamps_kept(before, ready);
    let k = project_status::resolved_status(ready, r.organization_id@, text::text_of(r.status_id))->0;
    let id = match r.status_id {
        Some(id) => id@,
        None => project_status::default_status(ready, r.organization_id@),
    };
    table::lemma_first_where(
        ready.project_statuses@,
        store::is_project_status(r.organization_id@, id),
    );
    table::lemma_appended(ready.projects@, after.projects@);
    assert forall|i: int| 0 <= i < after.projects@.len() implies #[trigger] has_stamp(
        after,
        after.projects@[i],
    ) by {
        if i < ready.projects@.len() {
            assert(has_stamp(ready, ready.projects@[i]));
            lemma_stamp_kept(ready, after, ready.projects@[i], after.projects@[i]);
        } else {
            assert(names_status(after.project_statuses@[k], after.projects@[i]));
        }
    }
}

proof fn lemma_update_keeps_projects_stamped(
    before: Store,
    after: Store,
    call: Invocation,
    r: UpdateProjectRequest,
    ids: StatusIds,
    value: ProjectValue,
)
    requires
        projects_stamped(before),
        projects::update_project_outcome(
            before,
            after,
            call,
            r,
            ids,
            Ok::<Completion<ProjectValue>, StorageError>(Completion::Fresh(value)),
        ),
    ensures
        projects_stamped(after),
{
    let ready = choose|ready: Store|
        {
            &&& #[trigger] project_status::catalog_ready(before, ready, r.organization_id@, ids)
            &&& projects::update_project_verdict(ready, r) is Proceed
            &&& projects::update_project_effect(ready, after, call, r, value)
        };
    lemma_ready_keeps_categories(before, ready, r.organization_id@, ids);
    lemma_stamps_kept(before, ready);
    let k = project_status::resolved_status(ready, r.organization_id@, Some(r.status_id@))->0;
    table::lemma_first_where(
        ready.project_statuses@,
        store::is_project_status(r.organization_id@, r.status_id@),
    );
    let changed = ready.project_at(r.organization_id@, r.project_id@)->0;
    table::lemma_first_where(ready.projects@, store::is_project(r.organization_id@, r.project_id@));
    assert forall|i: int| 0 <= i < after.projects@.len() implies #[trigger] has_stamp(
        after,
        after.projects@[i],
    ) by {
        if i == changed {
            assert(names_status(after.project_statuses@[k], after.projects@[i]));
        } else {
            assert(has_stamp(ready, ready.projects@[i]));
            lemma_stamp_kept(ready, after, ready.projects@[i], after.projects@[i]);
        }
    }
}

/// A status that a project has is not deleted, so every project keeps its stamps.
proof fn lemma_deletion_keeps_projects_stamped(
    before: Store,
    after: Store,
    call: Invocation,
    r: DeleteProjectStatusRequest,
    ids: StatusIds,
    value: DeletedProjectStatus,
)
    requires
        projects_stamped(before),
        project_status::delete_project_status_outcome(
            before,
            after,
            call,
            r,
            ids,
            Ok::<Completion<DeletedProjectStatus>, StorageError>(Completion::Fresh(value)),
        ),
    ensures
        projects_stamped(after),
{
    let ready = choose|ready: Store|
        {
            &&& #[trigger] project_status::catalog_ready(before, ready, r.organization_id@, ids)
            &&& project_status::delete_project_status_verdict(ready, call, r) is Proceed
            &&& project_status::delete_project_status_effect(ready, after, call, r, value)
        };
    lemma_ready_keeps_categories(before, ready, r.organization_id@, ids);
    lemma_stamps_kept(before, ready);
    let gone = ready.project_status_at(r.organization_id@, r.status_id@)->0;
    table::lemma_first_where(
        ready.project_statuses@,
        store::is_project_status(r.organization_id@, r.status_id@),
    );
    assert forall|i: int| 0 <= i < after.projects@.len() implies #[trigger] has_stamp(
        after,
        after.projects@[i],
    ) by {
        let row = ready.projects@[i];
        assert(has_stamp(ready, ready.projects@[i]));
        let k = choose|k: int|
            0 <= k < ready.project_statuses@.len() && names_status(
                #[trigger] ready.project_statuses@[k],
                row,
            ) && stamped(row, ready.project_statuses@[k].category);
        if k == gone {
            assert(project_status::uses_status(r.organization_id@, r.status_id@)(
                ready.projects@[i],
            ));
        }
        let j = if k < gone {
            k
        } else {
            k - 1
        };
        assert(after.project_statuses@[j] == ready.project_statuses@[k]);
        assert(names_status(after.project_statuses@[j], row));
    }
}

/// Putting, reordering, archiving and restoring statuses keep their categories.
proof fn lemma_catalog_changes_keep_categories(before: Store, after: Store, step: Step)
    requires
        history::takes(before, after, step),
        step is PutProjectStatus || step is ReorderProjectStatuses || step is ArchiveProjectStatus
            || step is GetProjectStatus || step is ListProjectStatuses || step is PutTeam,
    ensures
        categories_kept(before, after),
        after.projects == before.projects,
{
    match step {
        Step::PutProjectStatus { call, r, ids, result } => {
            if let Ok(Completion::Fresh(value)) = result {
                let ready = choose|ready: Store|
                    {
                        &&& #[trigger] project_status::catalog_ready(
                            before,
                            ready,
                            r.organization_id@,
                            ids,
                        )
                        &&& project_status::put_project_status_verdict(ready, r) is Proceed
                        &&& project_status::put_project_status_effect(ready, after, call, r, value)
                    };
                lemma_ready_keeps_categories(before, ready, r.organization_id@, ids);
                table::lemma_first_where(
                    ready.project_statuses@,
                    store::is_project_status(r.organization_id@, r.status_id@),
                );
                if r.expected_revision is None {
                    table::lemma_appended(ready.project_statuses@, after.project_statuses@);
                }
                lemma_categories_kept_through(before, ready, after);
            }
        },
        Step::ArchiveProjectStatus { call, r, ids, result } => {
            if let Ok(Completion::Fresh(value)) = result {
                let ready = choose|ready: Store|
                    {
                        &&& #[trigger] project_status::catalog_ready(
                            before,
                            ready,
                            r.organization_id@,
                            ids,
                        )
                        &&& project_status::archive_project_status_verdict(ready, r) is Proceed
                        &&& project_status::archive_project_status_effect(
                            ready,
                            after,
                            call,
                            r,
                            value,
                        )
                    };
                lemma_ready_keeps_categories(before, ready, r.organization_id@, ids);
                table::lemma_first_where(
                    ready.project_statuses@,
                    store::is_project_status(r.organization_id@, r.status_id@),
                );
                lemma_categories_kept_through(before, ready, after);
            }
        },
        Step::ReorderProjectStatuses { call, r, ids, result } => {
            if let Ok(Completion::Fresh(value)) = result {
                let ready = choose|ready: Store|
                    {
                        &&& #[trigger] project_status::catalog_ready(
                            before,
                            ready,
                            r.organization_id@,
                            ids,
                        )
                        &&& project_status::reorder_project_statuses_effect(
                            ready,
                            after,
                            call,
                            r,
                            value@,
                        )
                    };
                lemma_ready_keeps_categories(before, ready, r.organization_id@, ids);
                lemma_categories_kept_through(before, ready, after);
            } else if after != before {
                lemma_ready_keeps_categories(before, after, r.organization_id@, ids);
            }
        },
        Step::GetProjectStatus { r, ids, .. } => {
            if after != before {
                lemma_ready_keeps_categories(before, after, r.organization_id@, ids);
            }
        },
        Step::ListProjectStatuses { r, ids, .. } => {
            if after != before {
                lemma_ready_keeps_categories(before, after, r.organization_id@, ids);
            }
        },
        Step::PutTeam { call, r, ids, states, result } => {
            if let Ok(Completion::Fresh(value)) = result {
                let ready = choose|ready: Store|
                    {
                        &&& #[trigger] project_status::catalog_ready(
                            before,
                            ready,
                            r.organization_id@,
                            ids,
                        )
                        &&& teams::put_team_effect(ready, after, call, r, states, value)
                    };
                lemma_ready_keeps_categories(before, ready, r.organization_id@, ids);
                lemma_categories_kept_through(before, ready, after);
            }
        },
        _ => {},
    }
}

proof fn lemma_categories_kept_through(a: Store, b: Store, c: Store)
    requires
        categories_kept(a, b),
        categories_kept(b, c),
    ensures
        categories_kept(a, c),
{
    assert forall|k: int| 0 <= k < a.project_statuses@.len() implies same_category(
        a.project_statuses@[k],
        #[trigger] c.project_statuses@[k],
    ) by {
        assert(same_category(a.project_statuses@[k], b.project_statuses@[k]));
    }
}

/// No operation leaves a project with a timestamp that does not belong to its status, or without one
/// that does.
#[verifier::spinoff_prover]
#[verifier::rlimit(60)]
pub proof fn law_every_operation_keeps_projects_stamped(before: Store, after: Store, step: Step)
    requires
        projects_stamped(before),
        history::takes(before, after, step),
    ensures
        projects_stamped(after),
{
    match step {
        Step::CreateProject { call, r, ids, result } => {
            if let Ok(Completion::Fresh(value)) = result {
                lemma_creation_keeps_projects_stamped(before, after, call, r, ids, value);
            }
        },
        Step::UpdateProject { call, r, ids, result } => {
            if let Ok(Completion::Fresh(value)) = result {
                lemma_update_keeps_projects_stamped(before, after, call, r, ids, value);
            }
        },
        Step::DeleteProjectStatus { call, r, ids, result } => {
            if let Ok(Completion::Fresh(value)) = result {
                lemma_deletion_keeps_projects_stamped(before, after, call, r, ids, value);
            } else if after != before {
                lemma_ready_keeps_categories(before, after, r.organization_id@, ids);
                lemma_stamps_kept(before, after);
            }
        },
        Step::ArchiveProject { r, .. } => {
            table::lemma_first_where(
                before.projects@,
                store::is_project(r.organization_id@, r.project_id@),
            );
            lemma_stamps_kept(before, after);
        },
        _ => {
            if step is PutProjectStatus || step is ReorderProjectStatuses
                || step is ArchiveProjectStatus || step is GetProjectStatus
                || step is ListProjectStatuses || step is PutTeam {
                lemma_catalog_changes_keep_categories(before, after, step);
            }
            lemma_stamps_kept(before, after);
        },
    }
}

/// Over any operations from an empty store, every project has the timestamps of its status.
pub proof fn law_projects_are_always_stamped(history: History, k: int)
    requires
        history.starts_empty(),
        0 <= k < history.stores.len(),
    ensures
        projects_stamped(history.stores[k]),
    decreases k,
{
    if k == 0 {
        assert(projects_stamped(history.stores[0]));
    } else {
        law_projects_are_always_stamped(history, k - 1);
        assert(history.steps_on(k - 1));
        law_every_operation_keeps_projects_stamped(
            history.stores[k - 1],
            history.stores[k],
            history.steps[k - 1],
        );
    }
}

} // verus!
