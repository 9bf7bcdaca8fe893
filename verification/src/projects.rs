//! Projects: creation, reading, changes and archival.
use crate::clock;
use crate::clock::{format_date, parse_date, time_string, Timestamp};
use crate::contract::{
    ARCHIVE_PROJECT_OPERATION, CREATE_PROJECT_OPERATION, UPDATE_PROJECT_OPERATION,
};
use crate::failure::{runtime, DomainFailure, StorageError};
use crate::issues;
use crate::model::{
    ArchiveProjectRequest, Completion, CreateProjectRequest, GetProjectRequest, Issue,
    ListProjectsRequest, Project, ProjectStatusCategory, ProjectValue, UpdateProjectRequest,
};
use crate::project_status;
use crate::project_status::StatusIds;
use crate::store;
use crate::store::{check_growth, start_listing, ActivityEntry, Invocation, Store, Verdict};
use crate::table;
use crate::table::{all_rows, page_of, Page};
use crate::text;
use crate::validate;
use crate::validate::parse_revision;
use vstd::prelude::*;

verus! {

/// Whether `value` shows the project in `row`.
pub open spec fn is_project_value(row: Project, value: ProjectValue) -> bool {
    &&& value.project_id@ == row.project_id@
    &&& value.organization_id@ == row.organization_id@
    &&& value.name@ == row.name@
    &&& text::text_of(value.summary) == text::text_of(row.summary)
    &&& value.lead_team_id@ == row.lead_team_id@
    &&& value.team_ids@ == row.team_ids@
    &&& value.status_id@ == row.status_id@
    &&& text::text_of(value.milestone_id) == text::text_of(row.milestone_id)
    &&& text::text_of(value.start_date) == clock::date_text(row.starts_on)
    &&& text::text_of(value.target_date) == clock::date_text(row.target_date)
    &&& text::text_of(value.completed_at) == clock::time_text(row.completed_at)
    &&& text::text_of(value.canceled_at) == clock::time_text(row.canceled_at)
    &&& value.archived == row.archived
    &&& value.revision@ == text::integer_text(row.revision as int)
    &&& value.created_at@ == row.created_at.text@
    &&& value.updated_at@ == row.updated_at.text@
}

/// Shows the project in `row`.
pub fn load_project_value(row: &Project) -> (value: ProjectValue)
    ensures
        is_project_value(*row, value),
{
    ProjectValue {
        project_id: row.project_id.clone(),
        organization_id: row.organization_id.clone(),
        name: row.name.clone(),
        summary: row.summary.clone(),
        lead_team_id: row.lead_team_id.clone(),
        team_ids: row.team_ids.clone(),
        status_id: row.status_id.clone(),
        milestone_id: row.milestone_id.clone(),
        start_date: format_date(&row.starts_on),
        target_date: format_date(&row.target_date),
        completed_at: time_string(&row.completed_at),
        canceled_at: time_string(&row.canceled_at),
        archived: row.archived,
        revision: text::integer_string(row.revision),
        created_at: row.created_at.text.clone(),
        updated_at: row.updated_at.text.clone(),
    }
}

/// When a project counts as having reached a category: not at all while it is in another one, since
/// the first time, or from now on.
pub open spec fn reached_at(
    category: ProjectStatusCategory,
    wanted: ProjectStatusCategory,
    before: Option<Timestamp>,
    now: Timestamp,
) -> Option<Timestamp> {
    if category != wanted {
        None
    } else if before is Some {
        before
    } else {
        Some(now)
    }
}

/// When a project counts as having reached a category.
fn reached_since(
    category: ProjectStatusCategory,
    wanted: ProjectStatusCategory,
    before: &Option<Timestamp>,
    now: &Timestamp,
) -> (time: Option<Timestamp>)
    ensures
        time == reached_at(category, wanted, *before, *now),
{
    if category != wanted {
        None
    } else {
        match before {
            Some(before) => Some(before.clone()),
            None => Some(now.clone()),
        }
    }
}

/// Why the milestone cannot be used by the project, if that is so.
pub open spec fn milestone_refusal(
    s: Store,
    organization: Seq<char>,
    project: Seq<char>,
    milestone: Option<Seq<char>>,
) -> Option<DomainFailure> {
    if milestone is Some && s.milestone_at(organization, project, milestone->0) is None {
        Some(DomainFailure::MilestoneNotFound)
    } else {
        None
    }
}

/// The verdict that a project has a team: one without is never shown.
pub open spec fn showable(teams: Seq<String>, operation: Seq<char>) -> Verdict {
    if teams.len() == 0 {
        Verdict::Fault(operation, "project disappeared"@)
    } else {
        Verdict::Proceed
    }
}

/// How the creation of a project starts.
pub open spec fn create_project_start(
    s: Store,
    call: Invocation,
    r: CreateProjectRequest,
    ids: StatusIds,
) -> Verdict {
    let organization = r.organization_id@;
    store::unless(s.teams_refusal(organization, r.team_ids@, call.actor@)).and(
        store::unless(
            milestone_refusal(s, organization, r.project_id@, text::text_of(r.milestone_id)),
        ),
    ).and(
        store::demand(
            clock::date_accepted(text::text_of(r.start_date)) && clock::date_accepted(
                text::text_of(r.target_date),
            ),
            DomainFailure::InvalidRequest,
        ),
    ).and(s.command_verdict(call, CREATE_PROJECT_OPERATION@, r.idempotency_key@)).and(
        project_status::catalog_verdict(s, organization, ids),
    )
}

/// How the creation of a project ends, in a store whose status catalog is set up.
pub open spec fn create_project_verdict(s: Store, r: CreateProjectRequest) -> Verdict {
    store::demand(
        project_status::resolved_status(s, r.organization_id@, text::text_of(r.status_id)) is Some,
        DomainFailure::ProjectStatusNotFound,
    ).and(store::grows(s.next_row, 1, "insert project"@)).and(
        store::demand(
            !table::some_row(s.projects@, store::has_project_id(r.project_id@)),
            DomainFailure::IdentifierConflict,
        ),
    ).and(store::appends(s)).and(showable(r.team_ids@, "load created project"@))
}

/// Whether `row` is the project that the request asks for.
pub open spec fn is_new_project(
    row: Project,
    r: CreateProjectRequest,
    status: Seq<char>,
    category: ProjectStatusCategory,
    now: Timestamp,
    row_seq: int,
) -> bool {
    &&& row.project_id@ == r.project_id@
    &&& row.organization_id@ == r.organization_id@
    &&& row.name@ == text::trimmed(r.name@)
    &&& text::text_of(row.summary) == text::trimmed_option(text::text_of(r.summary))
    &&& row.lead_team_id@ == r.lead_team_id@
    &&& text::sorted_from(row.team_ids@, r.team_ids@)
    &&& row.status_id@ == status
    &&& text::text_of(row.milestone_id) == text::text_of(r.milestone_id)
    &&& clock::is_date(text::text_of(r.start_date), row.starts_on)
    &&& clock::is_date(text::text_of(r.target_date), row.target_date)
    &&& row.completed_at == reached_at(category, ProjectStatusCategory::Completed, None, now)
    &&& row.canceled_at == reached_at(category, ProjectStatusCategory::Canceled, None, now)
    &&& !row.archived
    &&& row.revision == 1
    &&& row.created_at == now
    &&& row.updated_at == now
    &&& row.row_seq == row_seq
}

/// What a mutation of one project records.
pub open spec fn project_recorded(
    before: Store,
    after: Store,
    call: Invocation,
    key: Seq<char>,
    organization: Seq<char>,
    operation: Seq<char>,
    project: Seq<char>,
    revision: int,
) -> bool {
    store::recorded(
        before,
        after,
        call,
        key,
        (ActivityEntry {
            organization,
            project: Some(project),
            issue: None,
            operation,
            kind: "project"@,
            entity: project,
            revision: Some(revision),
        }),
    )
}

/// The store after projects and the records of a mutation changed.
pub open spec fn only_projects(before: Store, after: Store) -> bool {
    after == (Store {
        projects: after.projects,
        next_row: after.next_row,
        activity: after.activity,
        commands: after.commands,
        next_activity: after.next_activity,
        ..before
    })
}

/// What the creation of a project does, from a store whose status catalog is set up.
pub open spec fn create_project_effect(
    before: Store,
    after: Store,
    call: Invocation,
    r: CreateProjectRequest,
    value: ProjectValue,
) -> bool {
    let status = before.project_statuses@[project_status::resolved_status(
        before,
        r.organization_id@,
        text::text_of(r.status_id),
    )->0];
    &&& after.projects@.len() == before.projects@.len() + 1
    &&& after.projects@.drop_last() == before.projects@
    &&& is_new_project(
        after.projects@.last(),
        r,
        status.status_id@,
        status.category,
        call.now,
        before.next_row as int,
    )
    &&& after.next_row == before.next_row + 1
    &&& only_projects(before, after)
    &&& project_recorded(
        before,
        after,
        call,
        r.idempotency_key@,
        r.organization_id@,
        CREATE_PROJECT_OPERATION@,
        r.project_id@,
        1,
    )
    &&& is_project_value(after.projects@.last(), value)
}

/// What the creation of a project does and answers.
pub open spec fn create_project_outcome(
    before: Store,
    after: Store,
    call: Invocation,
    r: CreateProjectRequest,
    ids: StatusIds,
    result: Result<Completion<ProjectValue>, StorageError>,
) -> bool {
    let start = create_project_start(before, call, r, ids);
    if start !is Proceed {
        store::settles(start, result) && after == before
    } else {
        exists|ready: Store|
            {
                let verdict = create_project_verdict(ready, r);
                &&& #[trigger] project_status::catalog_ready(before, ready, r.organization_id@, ids)
                &&& store::settles(verdict, result)
                &&& if verdict is Proceed {
                    create_project_effect(ready, after, call, r, store::fresh(result))
                } else {
                    after == before
                }
            }
    }
}

/// What reading a project answers.
pub open spec fn get_project_outcome(
    s: Store,
    actor: Seq<char>,
    r: GetProjectRequest,
    result: Result<ProjectValue, StorageError>,
) -> bool {
    let row = s.projects@[s.project_at(r.organization_id@, r.project_id@)->0];
    match s.project_refusal(r.organization_id@, r.project_id@, actor) {
        Some(failure) => result == Err::<ProjectValue, StorageError>(StorageError::Domain(failure)),
        None => if row.team_ids@.len() == 0 {
            result == Err::<ProjectValue, StorageError>(
                StorageError::Domain(DomainFailure::NotFound),
            )
        } else {
            result matches Ok(value) && is_project_value(row, value)
        },
    }
}

/// Whether one of the teams passes the optional filter.
pub open spec fn admits_team(filter: Option<String>, teams: Seq<String>) -> bool {
    exists|k: int| 0 <= k < teams.len() && issues::admits(filter, (#[trigger] teams[k])@)
}

/// Whether one of the teams passes the optional filter.
fn filter_admits_team(filter: &Option<String>, teams: &Vec<String>) -> (answer: bool)
    ensures
        answer == admits_team(*filter, teams@),
{
    let mut k: usize = 0;
    while k < teams.len()
        invariant
            k <= teams.len(),
            forall|j: int| 0 <= j < k ==> !issues::admits(*filter, (#[trigger] teams@[j])@),
        decreases teams.len() - k,
    {
        if issues::filter_admits(filter, teams[k].as_str()) {
            assert(issues::admits(*filter, teams@[k as int]@));
            return true;
        }
        k = k + 1;
    }
    false
}

/// Picks the projects that a listing shows to the actor.
pub open spec fn is_listed_project(s: Store, actor: Seq<char>, r: ListProjectsRequest, after: int) -> spec_fn(
    Project,
) -> bool {
    |row: Project|
        {
            &&& row.organization_id@ == r.organization_id@
            &&& row.row_seq > after
            &&& admits_team(r.team_id, row.team_ids@)
            &&& (r.include_archived || !row.archived)
            &&& !s.hidden_among(row.organization_id@, row.team_ids@, actor)
        }
}

/// Says which value shows a project.
pub open spec fn shows_project() -> spec_fn(Project, ProjectValue) -> bool {
    |row: Project, value: ProjectValue| is_project_value(row, value)
}

/// The sequence number of a project.
pub open spec fn project_seq() -> spec_fn(Project) -> int {
    |row: Project| row.row_seq as int
}

/// What listing projects answers.
pub open spec fn list_projects_outcome(
    s: Store,
    actor: Seq<char>,
    r: ListProjectsRequest,
    result: Result<Page<ProjectValue>, StorageError>,
) -> bool {
    match store::listing(r.limit, r.after, "list projects"@) {
        Verdict::Proceed => result matches Ok(page) && table::is_page(
                s.projects@,
                is_listed_project(s, actor, r, validate::cursor_value(text::text_of(r.after))->0),
                r.limit as int,
                page,
                shows_project(),
                project_seq(),
            ),
        verdict => result matches Err(error) && store::fails(verdict, error),
    }
}

/// Says that an issue is not of the project, or that its team is one of `teams`.
pub open spec fn stays_covered(organization: Seq<char>, project: Seq<char>, teams: Seq<String>) -> spec_fn(
    Issue,
) -> bool {
    |row: Issue|
        row.organization_id@ == organization && row.project_id@ == project ==> text::has_text(
            teams,
            row.team_id@,
        )
}

/// How the replacement of a project's fields starts.
pub open spec fn update_project_start(
    s: Store,
    call: Invocation,
    r: UpdateProjectRequest,
    ids: StatusIds,
) -> Verdict {
    let organization = r.organization_id@;
    store::unless(s.project_refusal(organization, r.project_id@, call.actor@)).and(
        store::unless(s.teams_refusal(organization, r.team_ids@, call.actor@)),
    ).and(
        store::unless(
            milestone_refusal(s, organization, r.project_id@, text::text_of(r.milestone_id)),
        ),
    ).and(
        store::demand(
            validate::revision_value(r.expected_revision@) is Some && clock::date_accepted(
                text::text_of(r.start_date),
            ) && clock::date_accepted(text::text_of(r.target_date)),
            DomainFailure::InvalidRequest,
        ),
    ).and(s.command_verdict(call, UPDATE_PROJECT_OPERATION@, r.idempotency_key@)).and(
        store::demand(
            table::every_row(s.issues@, stays_covered(organization, r.project_id@, r.team_ids@)),
            DomainFailure::ActiveReference,
        ),
    ).and(project_status::catalog_verdict(s, organization, ids))
}

/// How the replacement of a project's fields ends, in a store whose status catalog is set up.
pub open spec fn update_project_verdict(s: Store, r: UpdateProjectRequest) -> Verdict {
    let row = s.projects@[s.project_at(r.organization_id@, r.project_id@)->0];
    store::demand(
        project_status::resolved_status(s, r.organization_id@, Some(r.status_id@)) is Some,
        DomainFailure::ProjectStatusNotFound,
    ).and(
        store::demand(
            validate::revision_value(r.expected_revision@) == Some(row.revision as int),
            DomainFailure::RevisionConflict,
        ),
    ).and(store::revises(s, row.revision, "update project"@)).and(
        showable(r.team_ids@, "load updated project"@),
    )
}

/// Whether `after` is the project `before` with the fields that the request gives.
pub open spec fn is_updated_project(
    before: Project,
    after: Project,
    r: UpdateProjectRequest,
    category: ProjectStatusCategory,
    now: Timestamp,
) -> bool {
    &&& after.name@ == text::trimmed(r.name@)
    &&& text::text_of(after.summary) == text::trimmed_option(text::text_of(r.summary))
    &&& after.lead_team_id@ == r.lead_team_id@
    &&& text::sorted_from(after.team_ids@, r.team_ids@)
    &&& after.status_id@ == r.status_id@
    &&& text::text_of(after.milestone_id) == text::text_of(r.milestone_id)
    &&& clock::is_date(text::text_of(r.start_date), after.starts_on)
    &&& clock::is_date(text::text_of(r.target_date), after.target_date)
    &&& after == (Project {
        name: after.name,
        summary: after.summary,
        lead_team_id: after.lead_team_id,
        team_ids: after.team_ids,
        status_id: after.status_id,
        milestone_id: after.milestone_id,
        starts_on: after.starts_on,
        target_date: after.target_date,
        completed_at: reached_at(
            category,
            ProjectStatusCategory::Completed,
            before.completed_at,
            now,
        ),
        canceled_at: reached_at(
            category,
            ProjectStatusCategory::Canceled,
            before.canceled_at,
            now,
        ),
        revision: (before.revision + 1) as i64,
        updated_at: now,
        ..before
    })
}

/// What the replacement of a project's fields does, from a store whose status catalog is set up.
pub open spec fn update_project_effect(
    before: Store,
    after: Store,
    call: Invocation,
    r: UpdateProjectRequest,
    value: ProjectValue,
) -> bool {
    let i = before.project_at(r.organization_id@, r.project_id@)->0;
    let status = before.project_statuses@[project_status::resolved_status(
        before,
        r.organization_id@,
        Some(r.status_id@),
    )->0];
    &&& after.projects@ == before.projects@.update(i, after.projects@[i])
    &&& is_updated_project(before.projects@[i], after.projects@[i], r, status.category, call.now)
    &&& only_projects(before, after)
    &&& after.next_row == before.next_row
    &&& project_recorded(
        before,
        after,
        call,
        r.idempotency_key@,
        r.organization_id@,
        UPDATE_PROJECT_OPERATION@,
        r.project_id@,
        before.projects@[i].revision + 1,
    )
    &&& is_project_value(after.projects@[i], value)
}

/// What the replacement of a project's fields does and answers.
pub open spec fn update_project_outcome(
    before: Store,
    after: Store,
    call: Invocation,
    r: UpdateProjectRequest,
    ids: StatusIds,
    result: Result<Completion<ProjectValue>, StorageError>,
) -> bool {
    let start = update_project_start(before, call, r, ids);
    if start !is Proceed {
        store::settles(start, result) && after == before
    } else {
        exists|ready: Store|
            {
                let verdict = update_project_verdict(ready, r);
                &&& #[trigger] project_status::catalog_ready(before, ready, r.organization_id@, ids)
                &&& store::settles(verdict, result)
                &&& if verdict is Proceed {
                    update_project_effect(ready, after, call, r, store::fresh(result))
                } else {
                    after == before
                }
            }
    }
}

/// How archiving or restoring a project ends.
pub open spec fn archive_project_verdict(s: Store, call: Invocation, r: ArchiveProjectRequest) -> Verdict {
    let row = s.projects@[s.project_at(r.organization_id@, r.project_id@)->0];
    store::unless(s.project_refusal(r.organization_id@, r.project_id@, call.actor@)).and(
        store::demand(
            validate::revision_value(r.expected_revision@) is Some,
            DomainFailure::InvalidRequest,
        ),
    ).and(s.command_verdict(call, ARCHIVE_PROJECT_OPERATION@, r.idempotency_key@)).and(
        store::demand(
            validate::revision_value(r.expected_revision@) == Some(row.revision as int),
            DomainFailure::RevisionConflict,
        ),
    ).and(store::revises(s, row.revision, "archive project"@)).and(
        showable(row.team_ids@, "load archived project"@),
    )
}

/// What archiving or restoring a project does and answers.
pub open spec fn archive_project_outcome(
    before: Store,
    after: Store,
    call: Invocation,
    r: ArchiveProjectRequest,
    result: Result<Completion<ProjectValue>, StorageError>,
) -> bool {
    let verdict = archive_project_verdict(before, call, r);
    let i = before.project_at(r.organization_id@, r.project_id@)->0;
    &&& store::settles(verdict, result)
    &&& if verdict is Proceed {
        &&& after.projects@ == before.projects@.update(
            i,
            Project {
                archived: r.archived,
                revision: (before.projects@[i].revision + 1) as i64,
                updated_at: call.now,
                ..before.projects@[i]
            },
        )
        &&& only_projects(before, after)
        &&& after.next_row == before.next_row
        &&& project_recorded(
            before,
            after,
            call,
            r.idempotency_key@,
            r.organization_id@,
            ARCHIVE_PROJECT_OPERATION@,
            r.project_id@,
            before.projects@[i].revision + 1,
        )
        &&& is_project_value(after.projects@[i], store::fresh(result))
    } else {
        after == before
    }
}

impl Store {
    /// Why the milestone cannot be used by the project, if that is so.
    pub fn project_dependencies_exist(
        &self,
        organization: &str,
        project: &str,
        milestone: &Option<String>,
    ) -> (refusal: Option<DomainFailure>)
        ensures
            refusal == milestone_refusal(
                *self,
                organization@,
                project@,
                text::text_of(*milestone),
            ),
    {
        match milestone {
            Some(milestone) => if self.find_milestone(
                organization,
                project,
                milestone.as_str(),
            ).is_none() {
                Some(DomainFailure::MilestoneNotFound)
            } else {
                None
            },
            None => None,
        }
    }

    /// Whether the teams cover every issue of the project.
    pub fn project_teams_cover_existing_issues(
        &self,
        organization: &str,
        project: &str,
        teams: &Vec<String>,
    ) -> (answer: bool)
        ensures
            answer == table::every_row(
                self.issues@,
                stays_covered(organization@, project@, teams@),
            ),
    {
        all_rows(
            &self.issues,
            |row: &Issue| -> (hit: bool)
                ensures
                    hit == stays_covered(organization@, project@, teams@)(*row)
            {
                !(text::same(row.organization_id.as_str(), organization) && text::same(
                    row.project_id.as_str(),
                    project,
                )) || text::contains_text(teams, row.team_id.as_str())
            },
            Ghost(stays_covered(organization@, project@, teams@)),
        )
    }

    /// Creates a project.
    pub fn create_project(
        &mut self,
        call: &Invocation,
        request: &CreateProjectRequest,
        ids: &StatusIds,
    ) -> (result: Result<Completion<ProjectValue>, StorageError>)
        ensures
            create_project_outcome(*old(self), *final(self), *call, *request, *ids, result),
    {
        let organization = request.organization_id.as_str();
        if let Some(failure) = self.teams_are_visible(
            organization,
            &request.team_ids,
            call.actor.as_str(),
        ) {
            return Err(StorageError::Domain(failure));
        }
        if let Some(failure) = self.project_dependencies_exist(
            organization,
            request.project_id.as_str(),
            &request.milestone_id,
        ) {
            return Err(StorageError::Domain(failure));
        }
        let starts_on = match parse_date(&request.start_date) {
            Ok(date) => date,
            Err(failure) => {
                return Err(StorageError::Domain(failure));
            },
        };
        let target_date = match parse_date(&request.target_date) {
            Ok(date) => date,
            Err(failure) => {
                return Err(StorageError::Domain(failure));
            },
        };
        if let Some(answer) = self.command_answer(
            call,
            CREATE_PROJECT_OPERATION,
            request.idempotency_key.as_str(),
        ) {
            return answer;
        }
        let backup = match self.ensure_project_status_catalog(organization, ids) {
            Ok(backup) => backup,
            Err(error) => {
                return Err(error);
            },
        };
        let ghost ready = *self;
        assert(project_status::catalog_ready(*old(self), ready, organization@, *ids));
        let k = match self.resolve_project_status(organization, &request.status_id) {
            Some(k) => k,
            None => {
                self.restore_catalog(backup);
                return Err(StorageError::Domain(DomainFailure::ProjectStatusNotFound));
            },
        };
        if let Err(error) = check_growth(self.next_row, 1, "insert project") {
            self.restore_catalog(backup);
            return Err(error);
        }
        if self.taken_project_id(request.project_id.as_str()) {
            self.restore_catalog(backup);
            return Err(StorageError::Domain(DomainFailure::IdentifierConflict));
        }
        if let Err(error) = self.check_append() {
            self.restore_catalog(backup);
            return Err(error);
        }
        if request.team_ids.len() == 0 {
            self.restore_catalog(backup);
            return Err(runtime("load created project", "project disappeared"));
        }
        let category = self.project_statuses[k].category;
        let row = Project {
            project_id: request.project_id.clone(),
            organization_id: request.organization_id.clone(),
            name: text::trim(request.name.as_str()),
            summary: text::trim_option(&request.summary),
            lead_team_id: request.lead_team_id.clone(),
            team_ids: text::sort_texts(&request.team_ids),
            status_id: self.project_statuses[k].status_id.clone(),
            milestone_id: request.milestone_id.clone(),
            starts_on,
            target_date,
            completed_at: reached_since(
                category,
                ProjectStatusCategory::Completed,
                &None,
                &call.now,
            ),
            canceled_at: reached_since(category, ProjectStatusCategory::Canceled, &None, &call.now),
            archived: false,
            revision: 1,
            created_at: call.now.clone(),
            updated_at: call.now.clone(),
            row_seq: self.next_row,
        };
        self.projects.push(row);
        self.next_row = self.next_row + 1;
        self.record(
            call,
            request.idempotency_key.as_str(),
            organization,
            Some(request.project_id.clone()),
            None,
            CREATE_PROJECT_OPERATION,
            "project",
            request.project_id.as_str(),
            Some(1),
        );
        assert(self.projects@.drop_last() =~= ready.projects@);
        let value = load_project_value(&self.projects[self.projects.len() - 1]);
        Ok(Completion::Fresh(value))
    }

    /// Reads one project.
    pub fn get_project(&self, actor: &str, request: &GetProjectRequest) -> (result: Result<
        ProjectValue,
        StorageError,
    >)
        ensures
            get_project_outcome(*self, actor@, *request, result),
    {
        let organization = request.organization_id.as_str();
        if let Some(failure) = self.check_project(
            organization,
            request.project_id.as_str(),
            actor,
        ) {
            return Err(StorageError::Domain(failure));
        }
        match self.find_project(organization, request.project_id.as_str()) {
            Some(i) => if self.projects[i].team_ids.len() == 0 {
                Err(StorageError::Domain(DomainFailure::NotFound))
            } else {
                Ok(load_project_value(&self.projects[i]))
            },
            None => Err(StorageError::Domain(DomainFailure::NotFound)),
        }
    }

    /// Lists the projects that the actor can see, a page at a time.
    pub fn list_projects(&self, actor: &str, request: &ListProjectsRequest) -> (result: Result<
        Page<ProjectValue>,
        StorageError,
    >)
        requires
            request.limit < i64::MAX,
        ensures
            list_projects_outcome(*self, actor@, *request, result),
    {
        let after = match start_listing(request.limit, &request.after, "list projects") {
            Ok(after) => after,
            Err(error) => {
                return Err(error);
            },
        };
        Ok(
            page_of(
                &self.projects,
                |row: &Project| -> (hit: bool)
                    ensures
                        hit == is_listed_project(*self, actor@, *request, after as int)(*row)
                {
                    text::same(row.organization_id.as_str(), request.organization_id.as_str())
                        && row.row_seq > after && filter_admits_team(
                        &request.team_id,
                        &row.team_ids,
                    ) && (request.include_archived || !row.archived) && !self.is_hidden_among(
                        row.organization_id.as_str(),
                        &row.team_ids,
                        actor,
                    )
                },
                Ghost(is_listed_project(*self, actor@, *request, after as int)),
                request.limit,
                |row: &Project| -> (value: ProjectValue)
                    ensures
                        shows_project()(*row, value)
                { load_project_value(row) },
                Ghost(shows_project()),
                |row: &Project| -> (n: i64)
                    ensures
                        n == project_seq()(*row)
                { row.row_seq },
                Ghost(project_seq()),
            ),
        )
    }

    /// Replaces the fields of a project.
    pub fn update_project(
        &mut self,
        call: &Invocation,
        request: &UpdateProjectRequest,
        ids: &StatusIds,
    ) -> (result: Result<Completion<ProjectValue>, StorageError>)
        ensures
            update_project_outcome(*old(self), *final(self), *call, *request, *ids, result),
    {
        let organization = request.organization_id.as_str();
        let project = request.project_id.as_str();
        if let Some(failure) = self.check_project(organization, project, call.actor.as_str()) {
            return Err(StorageError::Domain(failure));
        }
        if let Some(failure) = self.teams_are_visible(
            organization,
            &request.team_ids,
            call.actor.as_str(),
        ) {
            return Err(StorageError::Domain(failure));
        }
        if let Some(failure) = self.project_dependencies_exist(
            organization,
            project,
            &request.milestone_id,
        ) {
            return Err(StorageError::Domain(failure));
        }
        let expected = match parse_revision(request.expected_revision.as_str()) {
            Ok(expected) => expected,
            Err(failure) => {
                return Err(StorageError::Domain(failure));
            },
        };
        let starts_on = match parse_date(&request.start_date) {
            Ok(date) => date,
            Err(failure) => {
                return Err(StorageError::Domain(failure));
            },
        };
        let target_date = match parse_date(&request.target_date) {
            Ok(date) => date,
            Err(failure) => {
                return Err(StorageError::Domain(failure));
            },
        };
        if let Some(answer) = self.command_answer(
            call,
            UPDATE_PROJECT_OPERATION,
            request.idempotency_key.as_str(),
        ) {
            return answer;
        }
        if !self.project_teams_cover_existing_issues(organization, project, &request.team_ids) {
            return Err(StorageError::Domain(DomainFailure::ActiveReference));
        }
        let backup = match self.ensure_project_status_catalog(organization, ids) {
            Ok(backup) => backup,
            Err(error) => {
                return Err(error);
            },
        };
        let ghost ready = *self;
        assert(project_status::catalog_ready(*old(self), ready, organization@, *ids));
        let requested = Some(request.status_id.clone());
        let k = match self.resolve_project_status(organization, &requested) {
            Some(k) => k,
            None => {
                self.restore_catalog(backup);
                return Err(StorageError::Domain(DomainFailure::ProjectStatusNotFound));
            },
        };
        let category = self.project_statuses[k].category;
        let i = match self.find_project(organization, project) {
            Some(i) => i,
            None => {
                self.restore_catalog(backup);
                return Err(StorageError::Domain(DomainFailure::NotFound));
            },
        };
        if self.projects[i].revision != expected {
            self.restore_catalog(backup);
            return Err(StorageError::Domain(DomainFailure::RevisionConflict));
        }
        if let Err(error) = self.check_revise(expected, "update project") {
            self.restore_catalog(backup);
            return Err(error);
        }
        if request.team_ids.len() == 0 {
            self.restore_catalog(backup);
            return Err(runtime("load updated project", "project disappeared"));
        }
        let completed_at = reached_since(
            category,
            ProjectStatusCategory::Completed,
            &self.projects[i].completed_at,
            &call.now,
        );
        let canceled_at = reached_since(
            category,
            ProjectStatusCategory::Canceled,
            &self.projects[i].canceled_at,
            &call.now,
        );
        let row = &mut self.projects[i];
        row.name = text::trim(request.name.as_str());
        row.summary = text::trim_option(&request.summary);
        row.lead_team_id = request.lead_team_id.clone();
        row.team_ids = text::sort_texts(&request.team_ids);
        row.status_id = request.status_id.clone();
        row.milestone_id = request.milestone_id.clone();
        row.starts_on = starts_on;
        row.target_date = target_date;
        row.completed_at = completed_at;
        row.canceled_at = canceled_at;
        row.revision = expected + 1;
        row.updated_at = call.now.clone();
        self.record(
            call,
            request.idempotency_key.as_str(),
            organization,
            Some(request.project_id.clone()),
            None,
            UPDATE_PROJECT_OPERATION,
            "project",
            project,
            Some(expected + 1),
        );
        let value = load_project_value(&self.projects[i]);
        Ok(Completion::Fresh(value))
    }

    /// Archives or restores a project.
    pub fn archive_project(&mut self, call: &Invocation, request: &ArchiveProjectRequest) -> (result:
        Result<Completion<ProjectValue>, StorageError>)
        ensures
            archive_project_outcome(*old(self), *final(self), *call, *request, result),
    {
        let organization = request.organization_id.as_str();
        let project = request.project_id.as_str();
        if let Some(failure) = self.check_project(organization, project, call.actor.as_str()) {
            return Err(StorageError::Domain(failure));
        }
        let expected = match parse_revision(request.expected_revision.as_str()) {
            Ok(expected) => expected,
            Err(failure) => {
                return Err(StorageError::Domain(failure));
            },
        };
        if let Some(answer) = self.command_answer(
            call,
            ARCHIVE_PROJECT_OPERATION,
            request.idempotency_key.as_str(),
        ) {
            return answer;
        }
        let i = match self.find_project(organization, project) {
            Some(i) => i,
            None => {
                return Err(StorageError::Domain(DomainFailure::NotFound));
            },
        };
        if self.projects[i].revision != expected {
            return Err(StorageError::Domain(DomainFailure::RevisionConflict));
        }
        if let Err(error) = self.check_revise(expected, "archive project") {
            return Err(error);
        }
        if self.projects[i].team_ids.len() == 0 {
            return Err(runtime("load archived project", "project disappeared"));
        }
        let row = &mut self.projects[i];
        row.archived = request.archived;
        row.revision = expected + 1;
        row.updated_at = call.now.clone();
        self.record(
            call,
            request.idempotency_key.as_str(),
            organization,
            Some(request.project_id.clone()),
            None,
            ARCHIVE_PROJECT_OPERATION,
            "project",
            project,
            Some(expected + 1),
        );
        let value = load_project_value(&self.projects[i]);
        Ok(Completion::Fresh(value))
    }
}

} // verus!
