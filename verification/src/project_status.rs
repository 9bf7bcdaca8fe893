//! The project statuses of an organization: a catalog that sets itself up, with a protected default
//! and atomic reordering.
use crate::catalog;
use crate::catalog::{
    check_reorder, find_item, fits_position, valid_batch, CatalogEntry, EntryView,
};
use crate::clock;
use crate::clock::{copy_time, fresh_catalog_id};
use crate::contract::{
    ARCHIVE_PROJECT_STATUS_OPERATION, DELETE_PROJECT_STATUS_OPERATION,
    PUT_PROJECT_STATUS_OPERATION, REORDER_PROJECT_STATUSES_OPERATION,
};
use crate::failure::{runtime, DomainFailure, StorageError};
use crate::model::{
    ArchiveProjectStatusRequest, Completion, DeleteProjectStatusRequest, DeletedProjectStatus,
    GetProjectStatusRequest, ListProjectStatusesRequest, Project, ProjectStatus,
    ProjectStatusCategory, ProjectStatusValue, PutProjectStatusRequest, ReorderItem,
    ReorderProjectStatusesRequest, Workspace,
};
use crate::store;
use crate::store::{check_growth, ActivityEntry, Invocation, Store, Verdict};
use crate::table;
use crate::table::{all_rows, any_row, page_of, sort_rows, Page};
use crate::text;
use crate::validate;
use crate::validate::{parse_cursor, parse_revision};
use crate::workflow;
use crate::workflow::archived_since;
use vstd::prelude::*;

verus! {

impl Clone for Workspace {
    fn clone(&self) -> (copy: Self)
        ensures
            copy == *self,
    {
        Workspace {
            organization_id: self.organization_id.clone(),
            default_project_status_id: self.default_project_status_id.clone(),
        }
    }
}

impl Clone for ProjectStatus {
    fn clone(&self) -> (copy: Self)
        ensures
            copy == *self,
    {
        ProjectStatus {
            status_id: self.status_id.clone(),
            organization_id: self.organization_id.clone(),
            name: self.name.clone(),
            category: self.category,
            color: self.color.clone(),
            position: self.position,
            is_default: self.is_default,
            archived: self.archived,
            archived_at: copy_time(&self.archived_at),
            revision: self.revision,
            row_seq: self.row_seq,
        }
    }
}

/// Whether `value` shows the project status in `row`.
pub open spec fn is_status_value(row: ProjectStatus, value: ProjectStatusValue) -> bool {
    &&& value.status_id@ == row.status_id@
    &&& value.organization_id@ == row.organization_id@
    &&& value.name@ == row.name@
    &&& value.category == row.category
    &&& value.color@ == row.color@
    &&& value.position == row.position
    &&& value.is_default == row.is_default
    &&& value.archived == row.archived
    &&& text::text_of(value.archived_at) == clock::time_text(row.archived_at)
    &&& value.revision@ == text::integer_text(row.revision as int)
}

/// Shows the project status in `row`.
pub fn load_project_status_value(row: &ProjectStatus) -> (value: ProjectStatusValue)
    ensures
        is_status_value(*row, value),
{
    ProjectStatusValue {
        status_id: row.status_id.clone(),
        organization_id: row.organization_id.clone(),
        name: row.name.clone(),
        category: row.category,
        color: row.color.clone(),
        position: row.position,
        is_default: row.is_default,
        archived: row.archived,
        archived_at: clock::time_string(&row.archived_at),
        revision: text::integer_string(row.revision),
    }
}

/// The ids of an organization's six default project statuses.
#[derive(Debug)]
pub struct StatusIds {
    pub backlog: String,
    pub planned: String,
    pub in_progress: String,
    pub paused: String,
    pub completed: String,
    pub canceled: String,
}

/// Whether no project status has the id.
pub open spec fn free_status_id(s: Store, id: Seq<char>) -> bool {
    !table::some_row(s.project_statuses@, store::has_status_id(id))
}

impl StatusIds {
    /// Six fresh ids.
    pub fn generate() -> (ids: StatusIds)
        ensures
            clock::is_catalog_id(ids.backlog@, "project_status"@),
            clock::is_catalog_id(ids.planned@, "project_status"@),
            clock::is_catalog_id(ids.in_progress@, "project_status"@),
            clock::is_catalog_id(ids.paused@, "project_status"@),
            clock::is_catalog_id(ids.completed@, "project_status"@),
            clock::is_catalog_id(ids.canceled@, "project_status"@),
    {
        StatusIds {
            backlog: fresh_catalog_id("project_status"),
            planned: fresh_catalog_id("project_status"),
            in_progress: fresh_catalog_id("project_status"),
            paused: fresh_catalog_id("project_status"),
            completed: fresh_catalog_id("project_status"),
            canceled: fresh_catalog_id("project_status"),
        }
    }

    /// Whether no project status has one of the ids, and they differ from each other.
    pub open spec fn are_free(self, s: Store) -> bool {
        &&& free_status_id(s, self.backlog@)
        &&& free_status_id(s, self.planned@)
        &&& free_status_id(s, self.in_progress@)
        &&& free_status_id(s, self.paused@)
        &&& free_status_id(s, self.completed@)
        &&& free_status_id(s, self.canceled@)
        &&& self.backlog@ != self.planned@
        &&& self.backlog@ != self.in_progress@
        &&& self.backlog@ != self.paused@
        &&& self.backlog@ != self.completed@
        &&& self.backlog@ != self.canceled@
        &&& self.planned@ != self.in_progress@
        &&& self.planned@ != self.paused@
        &&& self.planned@ != self.completed@
        &&& self.planned@ != self.canceled@
        &&& self.in_progress@ != self.paused@
        &&& self.in_progress@ != self.completed@
        &&& self.in_progress@ != self.canceled@
        &&& self.paused@ != self.completed@
        &&& self.paused@ != self.canceled@
        &&& self.completed@ != self.canceled@
    }

    /// Whether no project status has one of the ids, and they differ from each other.
    pub fn check_free(&self, s: &Store) -> (answer: bool)
        ensures
            answer == self.are_free(*s),
    {
        let a = self.backlog.as_str();
        let b = self.planned.as_str();
        let c = self.in_progress.as_str();
        let d = self.paused.as_str();
        let e = self.completed.as_str();
        let f = self.canceled.as_str();
        !s.taken_status_id(a) && !s.taken_status_id(b) && !s.taken_status_id(c)
            && !s.taken_status_id(d) && !s.taken_status_id(e) && !s.taken_status_id(f)
            && !text::same(a, b) && !text::same(a, c) && !text::same(a, d) && !text::same(a, e)
            && !text::same(a, f) && !text::same(b, c) && !text::same(b, d) && !text::same(b, e)
            && !text::same(b, f) && !text::same(c, d) && !text::same(c, e) && !text::same(c, f)
            && !text::same(d, e) && !text::same(d, f) && !text::same(e, f)
    }
}

/// Whether `row` is a new, unarchived project status with these fields.
pub open spec fn is_fresh_status(
    row: ProjectStatus,
    id: Seq<char>,
    organization: Seq<char>,
    name: Seq<char>,
    category: ProjectStatusCategory,
    color: Seq<char>,
    position: int,
    is_default: bool,
    row_seq: int,
) -> bool {
    &&& row.status_id@ == id
    &&& row.organization_id@ == organization
    &&& row.name@ == name
    &&& row.category == category
    &&& row.color@ == color
    &&& row.position == position
    &&& row.is_default == is_default
    &&& !row.archived
    &&& row.archived_at is None
    &&& row.revision == 1
    &&& row.row_seq == row_seq
}

/// Whether the rows are an organization's six default project statuses, in their order.
pub open spec fn are_default_statuses(
    rows: Seq<ProjectStatus>,
    organization: Seq<char>,
    ids: StatusIds,
    first: int,
) -> bool {
    &&& rows.len() == 6
    &&& is_fresh_status(
        rows[0],
        ids.backlog@,
        organization,
        "Backlog"@,
        ProjectStatusCategory::Backlog,
        "#6B7280"@,
        0,
        true,
        first,
    )
    &&& is_fresh_status(
        rows[1],
        ids.planned@,
        organization,
        "Planned"@,
        ProjectStatusCategory::Planned,
        "#8B5CF6"@,
        1,
        false,
        first + 1,
    )
    &&& is_fresh_status(
        rows[2],
        ids.in_progress@,
        organization,
        "In Progress"@,
        ProjectStatusCategory::Started,
        "#3B82F6"@,
        2,
        false,
        first + 2,
    )
    &&& is_fresh_status(
        rows[3],
        ids.paused@,
        organization,
        "Paused"@,
        ProjectStatusCategory::Paused,
        "#F59E0B"@,
        3,
        false,
        first + 3,
    )
    &&& is_fresh_status(
        rows[4],
        ids.completed@,
        organization,
        "Completed"@,
        ProjectStatusCategory::Completed,
        "#10B981"@,
        4,
        false,
        first + 4,
    )
    &&& is_fresh_status(
        rows[5],
        ids.canceled@,
        organization,
        "Canceled"@,
        ProjectStatusCategory::Canceled,
        "#9CA3AF"@,
        5,
        false,
        first + 5,
    )
}

/// Whether the catalog of the organization can be set up, or already is.
pub open spec fn catalog_verdict(s: Store, organization: Seq<char>, ids: StatusIds) -> Verdict {
    if s.workspace_at(organization) is Some {
        Verdict::Proceed
    } else {
        store::grows(s.next_row, 6, "initialize project statuses"@).and(
            if ids.are_free(s) {
                Verdict::Proceed
            } else {
                Verdict::Fault("initialize project statuses"@, "identifier is already in use"@)
            },
        )
    }
}

/// Whether `after` is `before` with the catalog of the organization set up: unchanged where it
/// already was, else with the workspace record and the six default statuses.
pub open spec fn catalog_ready(
    before: Store,
    after: Store,
    organization: Seq<char>,
    ids: StatusIds,
) -> bool {
    if before.workspace_at(organization) is Some {
        after == before
    } else {
        let n = before.project_statuses@.len() as int;
        &&& after.workspaces@.len() == before.workspaces@.len() + 1
        &&& after.workspaces@.drop_last() == before.workspaces@
        &&& after.workspaces@.last().organization_id@ == organization
        &&& after.workspaces@.last().default_project_status_id@ == ids.backlog@
        &&& after.project_statuses@.len() == n + 6
        &&& after.project_statuses@.take(n) == before.project_statuses@
        &&& are_default_statuses(
            after.project_statuses@.skip(n),
            organization,
            ids,
            before.next_row as int,
        )
        &&& after == (Store {
            workspaces: after.workspaces,
            project_statuses: after.project_statuses,
            next_row: (before.next_row + 6) as i64,
            ..before
        })
    }
}

/// The id of the organization's default project status.
pub open spec fn default_status(s: Store, organization: Seq<char>) -> Seq<char> {
    s.workspaces@[s.workspace_at(organization)->0].default_project_status_id@
}

/// Where the unarchived project status stands that a project gets: the requested one, or the default
/// where none is requested.
pub open spec fn resolved_status(s: Store, organization: Seq<char>, requested: Option<Seq<char>>) -> Option<
    int,
> {
    let id = match requested {
        Some(id) => id,
        None => default_status(s, organization),
    };
    match s.project_status_at(organization, id) {
        Some(i) => if s.project_statuses@[i].archived {
            None
        } else {
            Some(i)
        },
        None => None,
    }
}

/// What the catalog held before it was set up.
#[derive(Debug)]
pub struct CatalogBackup {
    pub workspaces: Vec<Workspace>,
    pub project_statuses: Vec<ProjectStatus>,
    pub next_row: i64,
}

/// Whether `backup` undoes the way from `before` to `after`.
pub open spec fn undoes(before: Store, after: Store, backup: Option<CatalogBackup>) -> bool {
    match backup {
        None => after == before,
        Some(backup) => {
            &&& backup.workspaces == before.workspaces
            &&& backup.project_statuses == before.project_statuses
            &&& backup.next_row == before.next_row
            &&& after == (Store {
                workspaces: after.workspaces,
                project_statuses: after.project_statuses,
                next_row: after.next_row,
                ..before
            })
        },
    }
}

impl Store {
    /// Appends a new project status.
    fn push_status(
        &mut self,
        id: &str,
        organization: &str,
        name: &str,
        category: ProjectStatusCategory,
        color: &str,
        position: i32,
        is_default: bool,
    )
        requires
            old(self).next_row < i64::MAX,
        ensures
            final(self).project_statuses@.len() == old(self).project_statuses@.len() + 1,
            final(self).project_statuses@.drop_last() == old(self).project_statuses@,
            is_fresh_status(
                final(self).project_statuses@.last(),
                id@,
                organization@,
                name@,
                category,
                color@,
                position as int,
                is_default,
                old(self).next_row as int,
            ),
            *final(self) == (Store {
                project_statuses: final(self).project_statuses,
                next_row: (old(self).next_row + 1) as i64,
                ..*old(self)
            }),
    {
        self.project_statuses.push(
            ProjectStatus {
                status_id: id.to_owned(),
                organization_id: organization.to_owned(),
                name: name.to_owned(),
                category,
                color: color.to_owned(),
                position,
                is_default,
                archived: false,
                archived_at: None,
                revision: 1,
                row_seq: self.next_row,
            },
        );
        self.next_row = self.next_row + 1;
        assert(self.project_statuses@.drop_last() =~= old(self).project_statuses@);
    }

    /// Appends the six default project statuses.
    fn insert_default_statuses(&mut self, organization: &str, ids: &StatusIds)
        requires
            old(self).next_row <= i64::MAX - 6,
        ensures
            final(self).project_statuses@.len() == old(self).project_statuses@.len() + 6,
            final(self).project_statuses@.take(old(self).project_statuses@.len() as int)
                == old(self).project_statuses@,
            are_default_statuses(
                final(self).project_statuses@.skip(old(self).project_statuses@.len() as int),
                organization@,
                *ids,
                old(self).next_row as int,
            ),
            *final(self) == (Store {
                project_statuses: final(self).project_statuses,
                next_row: (old(self).next_row + 6) as i64,
                ..*old(self)
            }),
    {
        let ghost a = self.project_statuses@;
        self.push_status(
            ids.backlog.as_str(),
            organization,
            "Backlog",
            ProjectStatusCategory::Backlog,
            "#6B7280",
            0,
            true,
        );
        let ghost b = self.project_statuses@;
        self.push_status(
            ids.planned.as_str(),
            organization,
            "Planned",
            ProjectStatusCategory::Planned,
            "#8B5CF6",
            1,
            false,
        );
        let ghost c = self.project_statuses@;
        self.push_status(
            ids.in_progress.as_str(),
            organization,
            "In Progress",
            ProjectStatusCategory::Started,
            "#3B82F6",
            2,
            false,
        );
        let ghost d = self.project_statuses@;
        self.push_status(
            ids.paused.as_str(),
            organization,
            "Paused",
            ProjectStatusCategory::Paused,
            "#F59E0B",
            3,
            false,
        );
        let ghost e = self.project_statuses@;
        self.push_status(
            ids.completed.as_str(),
            organization,
            "Completed",
            ProjectStatusCategory::Completed,
            "#10B981",
            4,
            false,
        );
        let ghost f = self.project_statuses@;
        self.push_status(
            ids.canceled.as_str(),
            organization,
            "Canceled",
            ProjectStatusCategory::Canceled,
            "#9CA3AF",
            5,
            false,
        );
        proof {
            let g = self.project_statuses@;
            let n = a.len() as int;
            assert(g.drop_last() == f && f.drop_last() == e && e.drop_last() == d && d.drop_last() == c
                && c.drop_last() == b && b.drop_last() == a);
            assert forall|k: int| 0 <= k < n implies g[k] == a[k] by {
                assert(g[k] == f[k] && f[k] == e[k] && e[k] == d[k] && d[k] == c[k] && c[k] == b[k]
                    && b[k] == a[k]);
            }
            assert(g.take(n) =~= a);
            assert(g[n] == f[n] && f[n] == e[n] && e[n] == d[n] && d[n] == c[n] && c[n] == b[n]);
            assert(g[n + 1] == f[n + 1] && f[n + 1] == e[n + 1] && e[n + 1] == d[n + 1] && d[n + 1]
                == c[n + 1]);
            assert(g[n + 2] == f[n + 2] && f[n + 2] == e[n + 2] && e[n + 2] == d[n + 2]);
            assert(g[n + 3] == f[n + 3] && f[n + 3] == e[n + 3]);
            assert(g[n + 4] == f[n + 4]);
        }
    }

    /// Sets up the catalog of the organization unless it already is. Answers what undoes it.
    pub fn ensure_project_status_catalog(&mut self, organization: &str, ids: &StatusIds) -> (result:
        Result<Option<CatalogBackup>, StorageError>)
        ensures
            match result {
                Ok(backup) => {
                    &&& catalog_verdict(*old(self), organization@, *ids) is Proceed
                    &&& catalog_ready(*old(self), *final(self), organization@, *ids)
                    &&& undoes(*old(self), *final(self), backup)
                    &&& final(self).workspace_at(organization@) is Some
                },
                Err(error) => {
                    &&& store::fails(catalog_verdict(*old(self), organization@, *ids), error)
                    &&& *final(self) == *old(self)
                },
            },
    {
        if self.find_workspace(organization).is_some() {
            return Ok(None);
        }
        if let Err(error) = check_growth(self.next_row, 6, "initialize project statuses") {
            return Err(error);
        }
        if !ids.check_free(self) {
            return Err(runtime("initialize project statuses", "identifier is already in use"));
        }
        let mut workspaces = self.workspaces.clone();
        let mut project_statuses = self.project_statuses.clone();
        let next_row = self.next_row;
        assert(workspaces@ =~= self.workspaces@);
        assert(project_statuses@ =~= self.project_statuses@);
        core::mem::swap(&mut self.workspaces, &mut workspaces);
        core::mem::swap(&mut self.project_statuses, &mut project_statuses);
        let row = Workspace {
            organization_id: organization.to_owned(),
            default_project_status_id: ids.backlog.clone(),
        };
        self.workspaces.push(row);
        self.insert_default_statuses(organization, ids);
        assert(self.workspaces@.drop_last() =~= old(self).workspaces@);
        proof {
            let keep = store::is_workspace(organization@);
            assert(keep(self.workspaces@.last()));
            table::lemma_some_row(self.workspaces@, keep);
        }
        Ok(Some(CatalogBackup { workspaces, project_statuses, next_row }))
    }

    /// Undoes the setup of the catalog.
    pub fn restore_catalog(&mut self, backup: Option<CatalogBackup>)
        ensures
            match backup {
                None => *final(self) == *old(self),
                Some(backup) => *final(self) == (Store {
                    workspaces: backup.workspaces,
                    project_statuses: backup.project_statuses,
                    next_row: backup.next_row,
                    ..*old(self)
                }),
            },
    {
        if let Some(backup) = backup {
            self.workspaces = backup.workspaces;
            self.project_statuses = backup.project_statuses;
            self.next_row = backup.next_row;
        }
    }

    /// Where the unarchived project status stands that a project gets.
    pub fn resolve_project_status(&self, organization: &str, requested: &Option<String>) -> (found:
        Option<usize>)
        requires
            self.workspace_at(organization@) is Some,
        ensures
            table::index_of(found) == resolved_status(
                *self,
                organization@,
                text::text_of(*requested),
            ),
            found matches Some(i) ==> i < self.project_statuses.len(),
    {
        let id = match requested {
            Some(id) => id.clone(),
            None => match self.find_workspace(organization) {
                Some(w) => self.workspaces[w].default_project_status_id.clone(),
                None => {
                    return None;
                },
            },
        };
        match self.find_project_status(organization, id.as_str()) {
            Some(i) => if self.project_statuses[i].archived {
                None
            } else {
                Some(i)
            },
            None => None,
        }
    }
}

/// Picks the projects that have the status.
pub open spec fn uses_status(organization: Seq<char>, id: Seq<char>) -> spec_fn(Project) -> bool {
    |row: Project| row.organization_id@ == organization && row.status_id@ == id
}

/// What a mutation of one project status records.
pub open spec fn status_recorded(
    before: Store,
    after: Store,
    call: Invocation,
    key: Seq<char>,
    organization: Seq<char>,
    operation: Seq<char>,
    id: Seq<char>,
    revision: int,
) -> bool {
    store::recorded(
        before,
        after,
        call,
        key,
        (ActivityEntry {
            organization,
            project: None,
            issue: None,
            operation,
            kind: "project_status"@,
            entity: id,
            revision: Some(revision),
        }),
    )
}

/// The store after project statuses and the records of a mutation changed.
pub open spec fn only_statuses(before: Store, after: Store) -> bool {
    after == (Store {
        project_statuses: after.project_statuses,
        next_row: after.next_row,
        activity: after.activity,
        commands: after.commands,
        next_activity: after.next_activity,
        ..before
    })
}

/// How putting a project status starts.
pub open spec fn put_project_status_start(
    s: Store,
    call: Invocation,
    r: PutProjectStatusRequest,
    ids: StatusIds,
) -> Verdict {
    s.command_verdict(call, PUT_PROJECT_STATUS_OPERATION@, r.idempotency_key@).and(
        catalog_verdict(s, r.organization_id@, ids),
    )
}

/// How putting a project status ends, in a store whose catalog is set up.
pub open spec fn put_project_status_verdict(s: Store, r: PutProjectStatusRequest) -> Verdict {
    let found = s.project_status_at(r.organization_id@, r.status_id@);
    let put = match r.expected_revision {
        Some(expected) => store::demand(found is Some, DomainFailure::NotFound).and(
            store::demand(
                s.project_statuses@[found->0].category == r.category,
                DomainFailure::InvalidRequest,
            ),
        ).and(
            store::demand(
                validate::revision_value(expected@) is Some,
                DomainFailure::InvalidRequest,
            ),
        ).and(
            store::demand(
                validate::revision_value(expected@) == Some(
                    s.project_statuses@[found->0].revision as int,
                ),
                DomainFailure::RevisionConflict,
            ),
        ).and(workflow::fitting(r.position as int, "update project status"@)).and(
            store::grows(s.project_statuses@[found->0].revision, 1, "update project status"@),
        ),
        None => workflow::fitting(r.position as int, "insert project status"@).and(
            store::grows(s.next_row, 1, "insert project status"@),
        ).and(store::demand(free_status_id(s, r.status_id@), DomainFailure::KeyConflict)),
    };
    put.and(store::appends(s))
}

/// What putting a project status does, from a store whose catalog is set up.
pub open spec fn put_project_status_effect(
    before: Store,
    after: Store,
    call: Invocation,
    r: PutProjectStatusRequest,
    value: ProjectStatusValue,
) -> bool {
    &&& match r.expected_revision {
        Some(_) => {
            let i = before.project_status_at(r.organization_id@, r.status_id@)->0;
            let old_row = before.project_statuses@[i];
            let new_row = after.project_statuses@[i];
            &&& after.project_statuses@ == before.project_statuses@.update(i, new_row)
            &&& new_row.name@ == text::trimmed(r.name@)
            &&& new_row.color@ == r.color@
            &&& new_row == (ProjectStatus {
                name: new_row.name,
                color: new_row.color,
                position: r.position as i32,
                revision: (old_row.revision + 1) as i64,
                ..old_row
            })
            &&& after.next_row == before.next_row
            &&& is_status_value(new_row, value)
            &&& status_recorded(
                before,
                after,
                call,
                r.idempotency_key@,
                r.organization_id@,
                PUT_PROJECT_STATUS_OPERATION@,
                r.status_id@,
                old_row.revision + 1,
            )
        },
        None => {
            &&& after.project_statuses@.len() == before.project_statuses@.len() + 1
            &&& after.project_statuses@.drop_last() == before.project_statuses@
            &&& is_fresh_status(
                after.project_statuses@.last(),
                r.status_id@,
                r.organization_id@,
                text::trimmed(r.name@),
                r.category,
                r.color@,
                r.position as int,
                false,
                before.next_row as int,
            )
            &&& after.next_row == before.next_row + 1
            &&& is_status_value(after.project_statuses@.last(), value)
            &&& status_recorded(
                before,
                after,
                call,
                r.idempotency_key@,
                r.organization_id@,
                PUT_PROJECT_STATUS_OPERATION@,
                r.status_id@,
                1,
            )
        },
    }
    &&& only_statuses(before, after)
}

/// What putting a project status does and answers.
pub open spec fn put_project_status_outcome(
    before: Store,
    after: Store,
    call: Invocation,
    r: PutProjectStatusRequest,
    ids: StatusIds,
    result: Result<Completion<ProjectStatusValue>, StorageError>,
) -> bool {
    let start = put_project_status_start(before, call, r, ids);
    if start !is Proceed {
        store::settles(start, result) && after == before
    } else {
        exists|ready: Store|
            {
                let verdict = put_project_status_verdict(ready, r);
                &&& #[trigger] catalog_ready(before, ready, r.organization_id@, ids)
                &&& store::settles(verdict, result)
                &&& if verdict is Proceed {
                    put_project_status_effect(ready, after, call, r, store::fresh(result))
                } else {
                    after == before
                }
            }
    }
}

/// What reading a project status does and answers: a status that is found leaves the catalog set up.
pub open spec fn get_project_status_outcome(
    before: Store,
    after: Store,
    r: GetProjectStatusRequest,
    ids: StatusIds,
    result: Result<ProjectStatusValue, StorageError>,
) -> bool {
    match catalog_verdict(before, r.organization_id@, ids) {
        Verdict::Proceed => exists|ready: Store|
            {
                &&& #[trigger] catalog_ready(before, ready, r.organization_id@, ids)
                &&& match ready.project_status_at(r.organization_id@, r.status_id@) {
                    Some(i) => {
                        &&& result matches Ok(value) && is_status_value(
                            ready.project_statuses@[i],
                            value,
                        )
                        &&& after == ready
                    },
                    None => {
                        &&& result == Err::<ProjectStatusValue, StorageError>(
                            StorageError::Domain(DomainFailure::NotFound),
                        )
                        &&& after == before
                    },
                }
            },
        verdict => {
            &&& result matches Err(error) && store::fails(verdict, error)
            &&& after == before
        },
    }
}

/// Picks the unarchived project statuses of the organization.
pub open spec fn is_active_status(organization: Seq<char>) -> spec_fn(ProjectStatus) -> bool {
    |row: ProjectStatus| row.organization_id@ == organization && !row.archived
}

/// The id and the revision of a project status.
pub open spec fn status_entry() -> spec_fn(ProjectStatus) -> EntryView {
    |row: ProjectStatus| EntryView { id: row.status_id@, revision: row.revision as int }
}

/// The active entries of the organization's catalog.
pub open spec fn active_statuses(s: Store, organization: Seq<char>) -> Seq<EntryView> {
    s.project_statuses@.filter(is_active_status(organization)).map_values(status_entry())
}

/// The project status at its new place.
pub open spec fn replaced_status(row: ProjectStatus, items: Seq<ReorderItem>) -> ProjectStatus {
    ProjectStatus {
        position: items[catalog::item_of(items, row.status_id@)->0].position as i32,
        revision: (row.revision + 1) as i64,
        ..row
    }
}

/// Whether `after` holds the rows of `before`, the active ones at their new places.
pub open spec fn statuses_reordered(
    before: Seq<ProjectStatus>,
    after: Seq<ProjectStatus>,
    organization: Seq<char>,
    items: Seq<ReorderItem>,
) -> bool {
    &&& after.len() == before.len()
    &&& forall|i: int|
        0 <= i < before.len() ==> #[trigger] after[i] == if is_active_status(organization)(before[i]) {
            replaced_status(before[i], items)
        } else {
            before[i]
        }
}

/// Orders project statuses by their position.
pub open spec fn status_place() -> spec_fn(ProjectStatusValue, ProjectStatusValue) -> bool {
    |a: ProjectStatusValue, b: ProjectStatusValue| a.position < b.position
}

/// Whether `values` shows the active project statuses in the order of their positions.
pub open spec fn shows_active_statuses(
    s: Store,
    organization: Seq<char>,
    values: Seq<ProjectStatusValue>,
) -> bool {
    let rows = s.project_statuses@.filter(is_active_status(organization));
    exists|shown: Seq<ProjectStatusValue>|
        {
            &&& shown.len() == rows.len()
            &&& forall|k: int| 0 <= k < rows.len() ==> is_status_value(rows[k], #[trigger] shown[k])
            &&& #[trigger] shown.to_multiset() == values.to_multiset()
            &&& table::ordered_rows(values, status_place())
        }
}

/// Says which project statuses a reordering of the organization's catalog can revise: it leaves those
/// that are archived alone.
pub open spec fn is_revisable_status(organization: Seq<char>) -> spec_fn(ProjectStatus) -> bool {
    |row: ProjectStatus| is_active_status(organization)(row) ==> row.revision < i64::MAX
}

/// How reordering the project statuses starts.
pub open spec fn reorder_project_statuses_start(
    s: Store,
    r: ReorderProjectStatusesRequest,
    ids: StatusIds,
) -> Verdict {
    store::demand(catalog::is_batch(r.items@), DomainFailure::InvalidRequest).and(
        catalog_verdict(s, r.organization_id@, ids),
    )
}

/// How reordering the project statuses ends, in a store whose catalog is set up.
pub open spec fn reorder_project_statuses_verdict(
    s: Store,
    call: Invocation,
    r: ReorderProjectStatusesRequest,
) -> Verdict {
    s.command_verdict(call, REORDER_PROJECT_STATUSES_OPERATION@, r.idempotency_key@).and(
        store::unless(catalog::reorder_refusal(active_statuses(s, r.organization_id@), r.items@)),
    ).and(
        if table::every_row(s.project_statuses@, is_revisable_status(r.organization_id@)) {
            Verdict::Proceed
        } else {
            Verdict::Fault("reorder project status"@, "bigint out of range"@)
        },
    ).and(store::appends(s))
}

/// What reordering the project statuses does, from a store whose catalog is set up.
pub open spec fn reorder_project_statuses_effect(
    before: Store,
    after: Store,
    call: Invocation,
    r: ReorderProjectStatusesRequest,
    values: Seq<ProjectStatusValue>,
) -> bool {
    &&& statuses_reordered(
        before.project_statuses@,
        after.project_statuses@,
        r.organization_id@,
        r.items@,
    )
    &&& store::recorded(
        before,
        after,
        call,
        r.idempotency_key@,
        (ActivityEntry {
            organization: r.organization_id@,
            project: None,
            issue: None,
            operation: REORDER_PROJECT_STATUSES_OPERATION@,
            kind: "project_status_catalog"@,
            entity: r.organization_id@,
            revision: None,
        }),
    )
    &&& only_statuses(before, after)
    &&& after.next_row == before.next_row
    &&& shows_active_statuses(after, r.organization_id@, values)
}

/// What reordering the project statuses does and answers: every active status moves to its new
/// place, or none does.
pub open spec fn reorder_project_statuses_outcome(
    before: Store,
    after: Store,
    call: Invocation,
    r: ReorderProjectStatusesRequest,
    ids: StatusIds,
    result: Result<Completion<Vec<ProjectStatusValue>>, StorageError>,
) -> bool {
    let start = reorder_project_statuses_start(before, r, ids);
    if start !is Proceed {
        store::settles(start, result) && after == before
    } else {
        exists|ready: Store|
            {
                let verdict = reorder_project_statuses_verdict(ready, call, r);
                &&& #[trigger] catalog_ready(before, ready, r.organization_id@, ids)
                &&& store::settles(verdict, result)
                &&& match verdict {
                    Verdict::Proceed => reorder_project_statuses_effect(
                        ready,
                        after,
                        call,
                        r,
                        store::fresh(result)@,
                    ),
                    Verdict::Replay(_) => after == ready,
                    _ => after == before,
                }
            }
    }
}

/// How archiving or restoring a project status starts.
pub open spec fn archive_project_status_start(
    s: Store,
    call: Invocation,
    r: ArchiveProjectStatusRequest,
    ids: StatusIds,
) -> Verdict {
    store::demand(
        validate::revision_value(r.expected_revision@) is Some,
        DomainFailure::InvalidRequest,
    ).and(s.command_verdict(call, ARCHIVE_PROJECT_STATUS_OPERATION@, r.idempotency_key@)).and(
        catalog_verdict(s, r.organization_id@, ids),
    )
}

/// How archiving or restoring a project status ends, in a store whose catalog is set up.
pub open spec fn archive_project_status_verdict(s: Store, r: ArchiveProjectStatusRequest) -> Verdict {
    let found = s.project_status_at(r.organization_id@, r.status_id@);
    let row = s.project_statuses@[found->0];
    store::demand(found is Some, DomainFailure::NotFound).and(
        store::demand(!(r.archived && row.is_default), DomainFailure::DefaultStateInvalid),
    ).and(
        store::demand(
            !(r.archived && table::some_row(
                s.projects@,
                uses_status(r.organization_id@, r.status_id@),
            )),
            DomainFailure::ActiveReference,
        ),
    ).and(
        store::demand(
            validate::revision_value(r.expected_revision@) == Some(row.revision as int),
            DomainFailure::RevisionConflict,
        ),
    ).and(store::revises(s, row.revision, "archive project status"@))
}

/// What archiving or restoring a project status does, from a store whose catalog is set up.
pub open spec fn archive_project_status_effect(
    before: Store,
    after: Store,
    call: Invocation,
    r: ArchiveProjectStatusRequest,
    value: ProjectStatusValue,
) -> bool {
    let i = before.project_status_at(r.organization_id@, r.status_id@)->0;
    let row = before.project_statuses@[i];
    &&& after.project_statuses@ == before.project_statuses@.update(
        i,
        ProjectStatus {
            archived: r.archived,
            archived_at: workflow::archival_time(r.archived, row.archived_at, call.now),
            revision: (row.revision + 1) as i64,
            ..row
        },
    )
    &&& only_statuses(before, after)
    &&& after.next_row == before.next_row
    &&& is_status_value(after.project_statuses@[i], value)
    &&& status_recorded(
        before,
        after,
        call,
        r.idempotency_key@,
        r.organization_id@,
        ARCHIVE_PROJECT_STATUS_OPERATION@,
        r.status_id@,
        row.revision + 1,
    )
}

/// What archiving or restoring a project status does and answers.
pub open spec fn archive_project_status_outcome(
    before: Store,
    after: Store,
    call: Invocation,
    r: ArchiveProjectStatusRequest,
    ids: StatusIds,
    result: Result<Completion<ProjectStatusValue>, StorageError>,
) -> bool {
    let start = archive_project_status_start(before, call, r, ids);
    if start !is Proceed {
        store::settles(start, result) && after == before
    } else {
        exists|ready: Store|
            {
                let verdict = archive_project_status_verdict(ready, r);
                &&& #[trigger] catalog_ready(before, ready, r.organization_id@, ids)
                &&& store::settles(verdict, result)
                &&& if verdict is Proceed {
                    archive_project_status_effect(ready, after, call, r, store::fresh(result))
                } else {
                    after == before
                }
            }
    }
}

/// How deleting a project status starts.
pub open spec fn delete_project_status_start(
    s: Store,
    r: DeleteProjectStatusRequest,
    ids: StatusIds,
) -> Verdict {
    store::demand(
        validate::revision_value(r.expected_revision@) is Some,
        DomainFailure::InvalidRequest,
    ).and(catalog_verdict(s, r.organization_id@, ids))
}

/// How deleting a project status ends, in a store whose catalog is set up.
pub open spec fn delete_project_status_verdict(
    s: Store,
    call: Invocation,
    r: DeleteProjectStatusRequest,
) -> Verdict {
    let found = s.project_status_at(r.organization_id@, r.status_id@);
    let row = s.project_statuses@[found->0];
    s.command_verdict(call, DELETE_PROJECT_STATUS_OPERATION@, r.idempotency_key@).and(
        store::demand(found is Some, DomainFailure::NotFound),
    ).and(
        store::demand(
            validate::revision_value(r.expected_revision@) == Some(row.revision as int),
            DomainFailure::RevisionConflict,
        ),
    ).and(store::demand(!row.is_default, DomainFailure::DefaultStateInvalid)).and(
        store::demand(
            !table::some_row(s.projects@, uses_status(r.organization_id@, r.status_id@)),
            DomainFailure::ActiveReference,
        ),
    ).and(store::demand(row.archived, DomainFailure::InvalidRequest)).and(store::appends(s))
}

/// What deleting a project status does, from a store whose catalog is set up.
pub open spec fn delete_project_status_effect(
    before: Store,
    after: Store,
    call: Invocation,
    r: DeleteProjectStatusRequest,
    value: DeletedProjectStatus,
) -> bool {
    let i = before.project_status_at(r.organization_id@, r.status_id@)->0;
    &&& after.project_statuses@ == before.project_statuses@.remove(i)
    &&& only_statuses(before, after)
    &&& after.next_row == before.next_row
    &&& value.organization_id@ == r.organization_id@
    &&& value.status_id@ == r.status_id@
    &&& value.deleted
    &&& status_recorded(
        before,
        after,
        call,
        r.idempotency_key@,
        r.organization_id@,
        DELETE_PROJECT_STATUS_OPERATION@,
        r.status_id@,
        before.project_statuses@[i].revision as int,
    )
}

/// What deleting a project status does and answers.
pub open spec fn delete_project_status_outcome(
    before: Store,
    after: Store,
    call: Invocation,
    r: DeleteProjectStatusRequest,
    ids: StatusIds,
    result: Result<Completion<DeletedProjectStatus>, StorageError>,
) -> bool {
    let start = delete_project_status_start(before, r, ids);
    if start !is Proceed {
        store::settles(start, result) && after == before
    } else {
        exists|ready: Store|
            {
                let verdict = delete_project_status_verdict(ready, call, r);
                &&& #[trigger] catalog_ready(before, ready, r.organization_id@, ids)
                &&& store::settles(verdict, result)
                &&& match verdict {
                    Verdict::Proceed => delete_project_status_effect(
                        ready,
                        after,
                        call,
                        r,
                        store::fresh(result),
                    ),
                    Verdict::Replay(_) => after == ready,
                    _ => after == before,
                }
            }
    }
}

/// Picks the project statuses of the organization after a position.
pub open spec fn is_listed_status(organization: Seq<char>, after: int) -> spec_fn(ProjectStatus) -> bool {
    |row: ProjectStatus| row.organization_id@ == organization && row.row_seq > after
}

/// Says which value shows a project status.
pub open spec fn shows_status() -> spec_fn(ProjectStatus, ProjectStatusValue) -> bool {
    |row: ProjectStatus, value: ProjectStatusValue| is_status_value(row, value)
}

/// The sequence number of a project status.
pub open spec fn status_seq() -> spec_fn(ProjectStatus) -> int {
    |row: ProjectStatus| row.row_seq as int
}

/// What listing the project statuses does and answers: it sets up the catalog first.
pub open spec fn list_project_statuses_outcome(
    before: Store,
    after: Store,
    r: ListProjectStatusesRequest,
    ids: StatusIds,
    result: Result<Page<ProjectStatusValue>, StorageError>,
) -> bool {
    if validate::cursor_value(text::text_of(r.after)) is None {
        &&& result == Err::<Page<ProjectStatusValue>, StorageError>(
            StorageError::Domain(DomainFailure::InvalidRequest),
        )
        &&& after == before
    } else {
        match catalog_verdict(before, r.organization_id@, ids) {
            Verdict::Proceed => {
                &&& catalog_ready(before, after, r.organization_id@, ids)
                &&& match store::limited(r.limit, "list project statuses"@) {
                    Verdict::Proceed => result matches Ok(page) && table::is_page(
                        after.project_statuses@,
                        is_listed_status(
                            r.organization_id@,
                            validate::cursor_value(text::text_of(r.after))->0,
                        ),
                        r.limit as int,
                        page,
                        shows_status(),
                        status_seq(),
                    ),
                    verdict => result matches Err(error) && store::fails(verdict, error),
                }
            },
            verdict => {
                &&& result matches Err(error) && store::fails(verdict, error)
                &&& after == before
            },
        }
    }
}

impl Store {
    /// Creates a project status, or replaces the name, color and position of one.
    pub fn put_project_status(
        &mut self,
        call: &Invocation,
        request: &PutProjectStatusRequest,
        ids: &StatusIds,
    ) -> (result: Result<Completion<ProjectStatusValue>, StorageError>)
        ensures
            put_project_status_outcome(*old(self), *final(self), *call, *request, *ids, result),
    {
        let organization = request.organization_id.as_str();
        let id = request.status_id.as_str();
        if let Some(answer) = self.command_answer(
            call,
            PUT_PROJECT_STATUS_OPERATION,
            request.idempotency_key.as_str(),
        ) {
            return answer;
        }
        let backup = match self.ensure_project_status_catalog(organization, ids) {
            Ok(backup) => backup,
            Err(error) => {
                return Err(error);
            },
        };
        let ghost ready = *self;
        let i: usize;
        let revision: i64;
        match &request.expected_revision {
            Some(expected) => {
                let refusal = match self.find_project_status(organization, id) {
                    Some(k) => if self.project_statuses[k].category != request.category {
                        Err(DomainFailure::InvalidRequest)
                    } else {
                        match parse_revision(expected.as_str()) {
                            Ok(expected) => if self.project_statuses[k].revision == expected {
                                Ok(k)
                            } else {
                                Err(DomainFailure::RevisionConflict)
                            },
                            Err(failure) => Err(failure),
                        }
                    },
                    None => Err(DomainFailure::NotFound),
                };
                i = match refusal {
                    Ok(i) => i,
                    Err(failure) => {
                        self.restore_catalog(backup);
                        return Err(StorageError::Domain(failure));
                    },
                };
                if !fits_position(request.position) {
                    self.restore_catalog(backup);
                    return Err(runtime("update project status", "integer out of range"));
                }
                if let Err(error) = self.check_revise(self.project_statuses[i].revision, "update project status") {
                    self.restore_catalog(backup);
                    return Err(error);
                }
                revision = self.project_statuses[i].revision + 1;
                let row = &mut self.project_statuses[i];
                row.name = text::trim(request.name.as_str());
                row.color = request.color.clone();
                row.position = request.position as i32;
                row.revision = revision;
            },
            None => {
                if !fits_position(request.position) {
                    self.restore_catalog(backup);
                    return Err(runtime("insert project status", "integer out of range"));
                }
                if let Err(error) = check_growth(self.next_row, 1, "insert project status") {
                    self.restore_catalog(backup);
                    return Err(error);
                }
                if self.taken_status_id(id) {
                    self.restore_catalog(backup);
                    return Err(StorageError::Domain(DomainFailure::KeyConflict));
                }
                if let Err(error) = self.check_append() {
                    self.restore_catalog(backup);
                    return Err(error);
                }
                i = self.project_statuses.len();
                revision = 1;
                let name = text::trim(request.name.as_str());
                self.push_status(
                    id,
                    organization,
                    name.as_str(),
                    request.category,
                    request.color.as_str(),
                    request.position as i32,
                    false,
                );
            },
        }
        let value = load_project_status_value(&self.project_statuses[i]);
        self.record(
            call,
            request.idempotency_key.as_str(),
            organization,
            None,
            None,
            PUT_PROJECT_STATUS_OPERATION,
            "project_status",
            id,
            Some(revision),
        );
        assert(catalog_ready(*old(self), ready, organization@, *ids));
        Ok(Completion::Fresh(value))
    }

    /// Reads one project status.
    pub fn get_project_status(&mut self, request: &GetProjectStatusRequest, ids: &StatusIds) -> (result:
        Result<ProjectStatusValue, StorageError>)
        ensures
            get_project_status_outcome(*old(self), *final(self), *request, *ids, result),
    {
        let organization = request.organization_id.as_str();
        let backup = match self.ensure_project_status_catalog(organization, ids) {
            Ok(backup) => backup,
            Err(error) => {
                return Err(error);
            },
        };
        assert(catalog_ready(*old(self), *self, organization@, *ids));
        match self.find_project_status(organization, request.status_id.as_str()) {
            Some(i) => Ok(load_project_status_value(&self.project_statuses[i])),
            None => {
                self.restore_catalog(backup);
                Err(StorageError::Domain(DomainFailure::NotFound))
            },
        }
    }

    /// Whether the row is an unarchived project status of the organization.
    fn is_active_status_row(row: &ProjectStatus, organization: &str) -> (answer: bool)
        ensures
            answer == is_active_status(organization@)(*row),
    {
        text::same(row.organization_id.as_str(), organization) && !row.archived
    }

    /// The active entries of the organization's catalog.
    fn active_catalog(&self, organization: &str) -> (entries: Vec<CatalogEntry>)
        ensures
            catalog::entry_views(entries@) == active_statuses(*self, organization@),
    {
        let mut entries: Vec<CatalogEntry> = Vec::new();
        let ghost keep = is_active_status(organization@);
        let mut i: usize = 0;
        proof {
            reveal(Seq::filter);
            assert(self.project_statuses@.take(0).filter(keep) =~= Seq::<ProjectStatus>::empty());
            assert(catalog::entry_views(entries@) =~= self.project_statuses@.take(0).filter(
                keep,
            ).map_values(status_entry()));
        }
        while i < self.project_statuses.len()
            invariant
                i <= self.project_statuses.len(),
                keep == is_active_status(organization@),
                catalog::entry_views(entries@) == self.project_statuses@.take(i as int).filter(
                    keep,
                ).map_values(status_entry()),
            decreases self.project_statuses.len() - i,
        {
            proof {
                table::lemma_filter_step(self.project_statuses@, keep, i as int);
            }
            let row = &self.project_statuses[i];
            if Self::is_active_status_row(row, organization) {
                let ghost before = entries@;
                let entry = CatalogEntry { id: row.status_id.clone(), revision: row.revision };
                entries.push(entry);
                proof {
                    let found = self.project_statuses@.take(i as int).filter(keep);
                    assert(catalog::entry_views(entries@) =~= catalog::entry_views(before).push(
                        entry@,
                    ));
                    assert(found.push(*row).map_values(status_entry()) =~= found.map_values(
                        status_entry(),
                    ).push(entry@));
                }
            }
            i = i + 1;
        }
        assert(self.project_statuses@.take(i as int) =~= self.project_statuses@);
        entries
    }

    /// The active project statuses in the order of their positions.
    fn placed_statuses(&self, organization: &str) -> (values: Vec<ProjectStatusValue>)
        ensures
            shows_active_statuses(*self, organization@, values@),
    {
        let mut values: Vec<ProjectStatusValue> = Vec::new();
        let ghost keep = is_active_status(organization@);
        let mut i: usize = 0;
        proof {
            reveal(Seq::filter);
            assert(self.project_statuses@.take(0).filter(keep) =~= Seq::<ProjectStatus>::empty());
        }
        while i < self.project_statuses.len()
            invariant
                i <= self.project_statuses.len(),
                keep == is_active_status(organization@),
                values@.len() == self.project_statuses@.take(i as int).filter(keep).len(),
                forall|k: int|
                    0 <= k < values@.len() ==> is_status_value(
                        self.project_statuses@.take(i as int).filter(keep)[k],
                        #[trigger] values@[k],
                    ),
            decreases self.project_statuses.len() - i,
        {
            proof {
                table::lemma_filter_step(self.project_statuses@, keep, i as int);
            }
            let row = &self.project_statuses[i];
            if Self::is_active_status_row(row, organization) {
                values.push(load_project_status_value(row));
            }
            i = i + 1;
        }
        assert(self.project_statuses@.take(i as int) =~= self.project_statuses@);
        let ghost shown = values@;
        let sorted = sort_rows(
            values,
            |a: &ProjectStatusValue, b: &ProjectStatusValue| -> (hit: bool)
                ensures
                    hit == status_place()(*a, *b)
            { a.position < b.position },
            Ghost(status_place()),
        );
        assert(shown.to_multiset() == sorted@.to_multiset());
        sorted
    }

    /// Moves every active project status to the place that the items give it.
    fn place_statuses(&mut self, organization: &str, items: &Vec<ReorderItem>)
        requires
            table::every_row(old(self).project_statuses@, is_revisable_status(organization@)),
            catalog::reorder_refusal(active_statuses(*old(self), organization@), items@) is None,
            catalog::is_batch(items@),
        ensures
            statuses_reordered(
                old(self).project_statuses@,
                final(self).project_statuses@,
                organization@,
                items@,
            ),
            *final(self) == (Store {
                project_statuses: final(self).project_statuses,
                ..*old(self)
            }),
    {
        let ghost before = self.project_statuses@;
        let ghost entries = active_statuses(*self, organization@);
        let mut i: usize = 0;
        while i < self.project_statuses.len()
            invariant
                i <= self.project_statuses.len(),
                self.project_statuses@.len() == before.len(),
                before == old(self).project_statuses@,
                table::every_row(before, is_revisable_status(organization@)),
                entries == active_statuses(*old(self), organization@),
                catalog::reorder_refusal(entries, items@) is None,
                catalog::is_batch(items@),
                forall|k: int|
                    0 <= k < i ==> #[trigger] self.project_statuses@[k] == if is_active_status(
                        organization@,
                    )(before[k]) {
                        replaced_status(before[k], items@)
                    } else {
                        before[k]
                    },
                forall|k: int|
                    i <= k < before.len() ==> #[trigger] self.project_statuses@[k] == before[k],
                *self == (Store { project_statuses: self.project_statuses, ..*old(self) }),
            decreases before.len() - i,
        {
            if Self::is_active_status_row(&self.project_statuses[i], organization) {
                assert(is_revisable_status(organization@)(before[i as int]));
                match find_item(items, self.project_statuses[i].status_id.as_str()) {
                    Some(k) => {
                        proof {
                            catalog::lemma_item_for(
                                items@,
                                before[i as int].status_id@,
                                items@.len() as int,
                            );
                            assert(0 <= items@[k as int].position <= i32::MAX);
                        }
                        let row = &mut self.project_statuses[i];
                        row.position = items[k].position as i32;
                        row.revision = row.revision + 1;
                    },
                    None => {
                        proof {
                            lemma_status_entry_present(before, organization@, i as int);
                            catalog::lemma_first_misfit(entries, items@);
                            assert(false);
                        }
                    },
                }
            }
            i = i + 1;
        }
    }

    /// Reorders all active project statuses.
    pub fn reorder_project_statuses(
        &mut self,
        call: &Invocation,
        request: &ReorderProjectStatusesRequest,
        ids: &StatusIds,
    ) -> (result: Result<Completion<Vec<ProjectStatusValue>>, StorageError>)
        ensures
            reorder_project_statuses_outcome(*old(self), *final(self), *call, *request, *ids, result),
    {
        let organization = request.organization_id.as_str();
        if !valid_batch(&request.items) {
            return Err(StorageError::Domain(DomainFailure::InvalidRequest));
        }
        let backup = match self.ensure_project_status_catalog(organization, ids) {
            Ok(backup) => backup,
            Err(error) => {
                return Err(error);
            },
        };
        let ghost ready = *self;
        assert(catalog_ready(*old(self), ready, organization@, *ids));
        if let Some(answer) = self.command_answer(
            call,
            REORDER_PROJECT_STATUSES_OPERATION,
            request.idempotency_key.as_str(),
        ) {
            if answer.is_err() {
                self.restore_catalog(backup);
            }
            return answer;
        }
        let entries = self.active_catalog(organization);
        if let Some(failure) = check_reorder(&entries, &request.items) {
            self.restore_catalog(backup);
            return Err(StorageError::Domain(failure));
        }
        if !all_rows(
            &self.project_statuses,
            |row: &ProjectStatus| -> (fits: bool)
                ensures
                    fits == is_revisable_status(organization@)(*row)
            { !Self::is_active_status_row(row, organization) || row.revision < i64::MAX },
            Ghost(is_revisable_status(organization@)),
        ) {
            self.restore_catalog(backup);
            return Err(runtime("reorder project status", "bigint out of range"));
        }
        if let Err(error) = self.check_append() {
            self.restore_catalog(backup);
            return Err(error);
        }
        self.place_statuses(organization, &request.items);
        let values = self.placed_statuses(organization);
        let ghost placed = *self;
        self.record(
            call,
            request.idempotency_key.as_str(),
            organization,
            None,
            None,
            REORDER_PROJECT_STATUSES_OPERATION,
            "project_status_catalog",
            organization,
            None,
        );
        assert(shows_active_statuses(placed, organization@, values@));
        Ok(Completion::Fresh(values))
    }

    /// Whether some project has the status.
    fn is_status_used(&self, organization: &str, id: &str) -> (answer: bool)
        ensures
            answer == table::some_row(self.projects@, uses_status(organization@, id@)),
    {
        any_row(
            &self.projects,
            |row: &Project| -> (hit: bool)
                ensures
                    hit == uses_status(organization@, id@)(*row)
            {
                text::same(row.organization_id.as_str(), organization) && text::same(
                    row.status_id.as_str(),
                    id,
                )
            },
            Ghost(uses_status(organization@, id@)),
        )
    }

    /// Archives or restores a project status.
    pub fn archive_project_status(
        &mut self,
        call: &Invocation,
        request: &ArchiveProjectStatusRequest,
        ids: &StatusIds,
    ) -> (result: Result<Completion<ProjectStatusValue>, StorageError>)
        ensures
            archive_project_status_outcome(*old(self), *final(self), *call, *request, *ids, result),
    {
        let organization = request.organization_id.as_str();
        let id = request.status_id.as_str();
        let expected = match parse_revision(request.expected_revision.as_str()) {
            Ok(expected) => expected,
            Err(failure) => {
                return Err(StorageError::Domain(failure));
            },
        };
        if let Some(answer) = self.command_answer(
            call,
            ARCHIVE_PROJECT_STATUS_OPERATION,
            request.idempotency_key.as_str(),
        ) {
            return answer;
        }
        let backup = match self.ensure_project_status_catalog(organization, ids) {
            Ok(backup) => backup,
            Err(error) => {
                return Err(error);
            },
        };
        let ghost ready = *self;
        assert(catalog_ready(*old(self), ready, organization@, *ids));
        let checked = match self.find_project_status(organization, id) {
            Some(i) => if request.archived && self.project_statuses[i].is_default {
                Err(DomainFailure::DefaultStateInvalid)
            } else if request.archived && self.is_status_used(organization, id) {
                Err(DomainFailure::ActiveReference)
            } else if self.project_statuses[i].revision != expected {
                Err(DomainFailure::RevisionConflict)
            } else {
                Ok(i)
            },
            None => Err(DomainFailure::NotFound),
        };
        let i = match checked {
            Ok(i) => i,
            Err(failure) => {
                self.restore_catalog(backup);
                return Err(StorageError::Domain(failure));
            },
        };
        if let Err(error) = self.check_revise(expected, "archive project status") {
            self.restore_catalog(backup);
            return Err(error);
        }
        let since = archived_since(
            request.archived,
            &self.project_statuses[i].archived_at,
            &call.now,
        );
        let row = &mut self.project_statuses[i];
        row.archived = request.archived;
        row.archived_at = since;
        row.revision = expected + 1;
        self.record(
            call,
            request.idempotency_key.as_str(),
            organization,
            None,
            None,
            ARCHIVE_PROJECT_STATUS_OPERATION,
            "project_status",
            id,
            Some(expected + 1),
        );
        let value = load_project_status_value(&self.project_statuses[i]);
        Ok(Completion::Fresh(value))
    }

    /// Deletes an archived, unreferenced project status that is not the default.
    pub fn delete_project_status(
        &mut self,
        call: &Invocation,
        request: &DeleteProjectStatusRequest,
        ids: &StatusIds,
    ) -> (result: Result<Completion<DeletedProjectStatus>, StorageError>)
        ensures
            delete_project_status_outcome(*old(self), *final(self), *call, *request, *ids, result),
    {
        let organization = request.organization_id.as_str();
        let id = request.status_id.as_str();
        let expected = match parse_revision(request.expected_revision.as_str()) {
            Ok(expected) => expected,
            Err(failure) => {
                return Err(StorageError::Domain(failure));
            },
        };
        let backup = match self.ensure_project_status_catalog(organization, ids) {
            Ok(backup) => backup,
            Err(error) => {
                return Err(error);
            },
        };
        let ghost ready = *self;
        assert(catalog_ready(*old(self), ready, organization@, *ids));
        if let Some(answer) = self.command_answer(
            call,
            DELETE_PROJECT_STATUS_OPERATION,
            request.idempotency_key.as_str(),
        ) {
            if answer.is_err() {
                self.restore_catalog(backup);
            }
            return answer;
        }
        let checked = match self.find_project_status(organization, id) {
            Some(i) => if self.project_statuses[i].revision != expected {
                Err(DomainFailure::RevisionConflict)
            } else if self.project_statuses[i].is_default {
                Err(DomainFailure::DefaultStateInvalid)
            } else if self.is_status_used(organization, id) {
                Err(DomainFailure::ActiveReference)
            } else if !self.project_statuses[i].archived {
                Err(DomainFailure::InvalidRequest)
            } else {
                Ok(i)
            },
            None => Err(DomainFailure::NotFound),
        };
        let i = match checked {
            Ok(i) => i,
            Err(failure) => {
                self.restore_catalog(backup);
                return Err(StorageError::Domain(failure));
            },
        };
        if let Err(error) = self.check_append() {
            self.restore_catalog(backup);
            return Err(error);
        }
        let _removed = self.project_statuses.remove(i);
        self.record(
            call,
            request.idempotency_key.as_str(),
            organization,
            None,
            None,
            DELETE_PROJECT_STATUS_OPERATION,
            "project_status",
            id,
            Some(expected),
        );
        Ok(
            Completion::Fresh(
                DeletedProjectStatus {
                    organization_id: request.organization_id.clone(),
                    status_id: request.status_id.clone(),
                    deleted: true,
                },
            ),
        )
    }

    /// Lists the project statuses, a page at a time.
    pub fn list_project_statuses(&mut self, request: &ListProjectStatusesRequest, ids: &StatusIds) -> (result:
        Result<Page<ProjectStatusValue>, StorageError>)
        requires
            request.limit < i64::MAX,
        ensures
            list_project_statuses_outcome(*old(self), *final(self), *request, *ids, result),
    {
        let organization = request.organization_id.as_str();
        let after = match parse_cursor(&request.after) {
            Ok(after) => after,
            Err(failure) => {
                return Err(StorageError::Domain(failure));
            },
        };
        match self.ensure_project_status_catalog(organization, ids) {
            Ok(_) => {},
            Err(error) => {
                return Err(error);
            },
        }
        if request.limit < -1 {
            return Err(runtime("list project statuses", "LIMIT must not be negative"));
        }
        Ok(
            page_of(
                &self.project_statuses,
                |row: &ProjectStatus| -> (hit: bool)
                    ensures
                        hit == is_listed_status(organization@, after as int)(*row)
                { text::same(row.organization_id.as_str(), organization) && row.row_seq > after },
                Ghost(is_listed_status(organization@, after as int)),
                request.limit,
                |row: &ProjectStatus| -> (value: ProjectStatusValue)
                    ensures
                        shows_status()(*row, value)
                { load_project_status_value(row) },
                Ghost(shows_status()),
                |row: &ProjectStatus| -> (n: i64)
                    ensures
                        n == status_seq()(*row)
                { row.row_seq },
                Ghost(status_seq()),
            ),
        )
    }
}

/// An active row has its entry among the active entries.
proof fn lemma_status_entry_present(rows: Seq<ProjectStatus>, organization: Seq<char>, i: int)
    requires
        0 <= i < rows.len(),
        is_active_status(organization)(rows[i]),
    ensures
        exists|j: int|
            0 <= j < rows.filter(is_active_status(organization)).map_values(status_entry()).len()
                && #[trigger] rows.filter(is_active_status(organization)).map_values(
                status_entry(),
            )[j] == status_entry()(rows[i]),
{
    let keep = is_active_status(organization);
    table::lemma_filter_step(rows, keep, i);
    table::lemma_filter_prefix(rows, keep, i + 1);
    let short = rows.take(i + 1).filter(keep);
    let j = short.len() - 1;
    assert(rows.filter(keep)[j] == rows[i]);
    assert(rows.filter(keep).map_values(status_entry())[j] == status_entry()(rows[i]));
}

} // verus!
