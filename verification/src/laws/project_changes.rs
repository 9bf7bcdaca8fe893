//! What each change of a project makes of it, and what it leaves alone.
use crate::clock::{CalendarDate, Timestamp};
use crate::clock;
use crate::failure::StorageError;
use crate::laws::traces;
use crate::model::{
    ArchiveProjectRequest, Completion, CreateProjectRequest, GetProjectRequest,
    ProjectStatusCategory, ProjectValue, UpdateProjectRequest,
};
use crate::project_status::StatusIds;
use crate::project_status;
use crate::projects;
use crate::store::{Invocation, Store};
use crate::store;
use crate::table;
use crate::text;
use crate::validate;
use vstd::prelude::*;

verus! {

/// How a date that was given is shown: in its canonical form.
pub open spec fn shown_date(given: Option<String>) -> Option<Seq<char>> {
    match given {
        Some(given) => Some((clock::iso_date(given@)->0).1),
        None => None,
    }
}

/// Whether a stored date is the day that was given, or absent where none was.
pub open spec fn holds_date(held: Option<CalendarDate>, given: Option<String>) -> bool {
    match (held, given) {
        (Some(held), Some(given)) => clock::iso_date(given@) == Some(
            (held.julian_day as int, held.text@),
        ),
        (None, None) => true,
        _ => false,
    }
}

/// Whether every status and every workspace record is still where it was, and none was added where
/// the organization had a workspace record.
pub open spec fn catalog_kept(before: Store, after: Store, organization: Seq<char>) -> bool {
    &&& before.project_statuses@.len() <= after.project_statuses@.len()
    &&& forall|j: int|
        0 <= j < before.project_statuses@.len() ==> #[trigger] after.project_statuses@[j]
            == before.project_statuses@[j]
    &&& before.workspaces@.len() <= after.workspaces@.len()
    &&& forall|j: int|
        0 <= j < before.workspaces@.len() ==> #[trigger] after.workspaces@[j] == before.workspaces@[j]
    &&& (exists|w: int|
        0 <= w < before.workspaces@.len() && (#[trigger] before.workspaces@[w]).organization_id@
            == organization) ==> after.project_statuses == before.project_statuses
        && after.workspaces == before.workspaces
}

/// Setting up a catalog keeps what is there, and does nothing where it is set up.
pub proof fn lemma_catalog_kept(before: Store, ready: Store, organization: Seq<char>, ids: StatusIds)
    requires
        project_status::catalog_ready(before, ready, organization, ids),
    ensures
        catalog_kept(before, ready, organization),
{
    table::lemma_first_where(before.workspaces@, store::is_workspace(organization));
    if before.workspace_at(organization) is None {
        table::lemma_appended(before.workspaces@, ready.workspaces@);
        let n = before.project_statuses@.len() as int;
        assert forall|j: int| 0 <= j < n implies #[trigger] ready.project_statuses@[j]
            == before.project_statuses@[j] by {
            assert(ready.project_statuses@.take(n)[j] == ready.project_statuses@[j]);
        }
        assert forall|w: int| 0 <= w < before.workspaces@.len() implies (
        #[trigger] before.workspaces@[w]).organization_id@ != organization by {
            assert(!store::is_workspace(organization)(before.workspaces@[w]));
        }
    }
}

/// A created project has the id and every field of the request, the texts without the white space
/// around them and its teams in ascending order, the status that is asked for or else the
/// organization's default, a completion or cancellation time exactly where its status calls for one,
/// and the first revision; the answer shows the same. It follows the projects that were there, which
/// stay as they were.
pub proof fn law_creation_gives_the_request(
    before: Store,
    after: Store,
    call: Invocation,
    r: CreateProjectRequest,
    ids: StatusIds,
    value: ProjectValue,
) -> (k: int)
    requires
        projects::create_project_outcome(
            before,
            after,
            call,
            r,
            ids,
            Ok::<Completion<ProjectValue>, StorageError>(Completion::Fresh(value)),
        ),
    ensures
        0 <= k < after.project_statuses@.len(),
        after.project_statuses@[k].organization_id@ == r.organization_id@,
        !after.project_statuses@[k].archived,
        r.status_id matches Some(requested) ==> after.project_statuses@[k].status_id@ == requested@,
        r.status_id is None ==> exists|w: int|
            0 <= w < after.workspaces@.len() && (#[trigger] after.workspaces@[w]).organization_id@ == r.organization_id@
                && after.workspaces@[w].default_project_status_id@ == after.project_statuses@[k].status_id@,
        after.projects@.len() == before.projects@.len() + 1,
        forall|j: int|
            0 <= j < before.projects@.len() ==> #[trigger] after.projects@[j] == before.projects@[j],
        after.projects@.last().project_id@ == r.project_id@,
        after.projects@.last().organization_id@ == r.organization_id@,
        after.projects@.last().name@ == text::trimmed(r.name@),
        text::text_of(after.projects@.last().summary)
            == text::trimmed_option(text::text_of(r.summary)),
        after.projects@.last().lead_team_id@ == r.lead_team_id@,
        traces::lists_same(after.projects@.last().team_ids@, r.team_ids@),
        traces::ascending_texts(after.projects@.last().team_ids@),
        text::text_of(after.projects@.last().milestone_id) == text::text_of(r.milestone_id),
        holds_date(after.projects@.last().starts_on, r.start_date),
        holds_date(after.projects@.last().target_date, r.target_date),
        after.projects@.last().status_id@ == after.project_statuses@[k].status_id@,
        after.projects@.last().completed_at == if after.project_statuses@[k].category == ProjectStatusCategory::Completed {
            Some(call.now)
        } else {
            None::<Timestamp>
        },
        after.projects@.last().canceled_at == if after.project_statuses@[k].category == ProjectStatusCategory::Canceled {
            Some(call.now)
        } else {
            None::<Timestamp>
        },
        !after.projects@.last().archived,
        after.projects@.last().revision == 1,
        after.projects@.last().created_at == call.now,
        after.projects@.last().updated_at == call.now,
        after.projects@.last().row_seq == after.next_row - 1,
        before.next_row <= after.projects@.last().row_seq,
        forall|j: int|
            0 <= j < before.projects@.len() ==> (#[trigger] before.projects@[j]).project_id@ != r.project_id@,
        value.project_id@ == r.project_id@,
        value.organization_id@ == r.organization_id@,
        value.name@ == text::trimmed(r.name@),
        text::text_of(value.summary) == text::trimmed_option(text::text_of(r.summary)),
        value.lead_team_id@ == r.lead_team_id@,
        traces::lists_same(value.team_ids@, r.team_ids@),
        traces::ascending_texts(value.team_ids@),
        value.status_id@ == after.project_statuses@[k].status_id@,
        text::text_of(value.milestone_id) == text::text_of(r.milestone_id),
        text::text_of(value.start_date) == shown_date(r.start_date),
        text::text_of(value.target_date) == shown_date(r.target_date),
        text::text_of(value.completed_at) == clock::time_text(after.projects@.last().completed_at),
        text::text_of(value.canceled_at) == clock::time_text(after.projects@.last().canceled_at),
        !value.archived,
        value.revision@ == text::integer_text(1),
        value.created_at@ == call.now.text@,
        value.updated_at@ == call.now.text@,
        catalog_kept(before, after, r.organization_id@),
        after.teams == before.teams,
        after.team_members == before.team_members,
        after.workflow_states == before.workflow_states,
        after.issues == before.issues,
        after.aliases == before.aliases,
        after.links == before.links,
        after.cycles == before.cycles,
        after.milestones == before.milestones,
        after.labels == before.labels,
        after.comments == before.comments,
        after.project_updates == before.project_updates,
        after.relations == before.relations,
        after.receipts == before.receipts,
        traces::logged(
            before,
            after,
            call,
            r.idempotency_key@,
            (traces::Trace {
                organization: r.organization_id@,
                project: Some(r.project_id@),
                issue: None,
                operation: "create_project"@,
                kind: "project"@,
                entity: r.project_id@,
                revision: Some(1),
            }),
        ),
{
    let ready = choose|ready: Store|
        {
            &&& #[trigger] project_status::catalog_ready(before, ready, r.organization_id@, ids)
            &&& projects::create_project_verdict(ready, r) is Proceed
            &&& projects::create_project_effect(ready, after, call, r, value)
        };
    lemma_catalog_kept(before, ready, r.organization_id@, ids);
    let requested = text::text_of(r.status_id);
    let k = project_status::resolved_status(ready, r.organization_id@, requested)->0;
    let wanted = match requested {
        Some(id) => id,
        None => project_status::default_status(ready, r.organization_id@),
    };
    table::lemma_first_where(
        ready.project_statuses@,
        store::is_project_status(r.organization_id@, wanted),
    );
    table::lemma_first_where(before.workspaces@, store::is_workspace(r.organization_id@));
    table::lemma_first_where(ready.workspaces@, store::is_workspace(r.organization_id@));
    if before.workspace_at(r.organization_id@) is None {
        assert(store::is_workspace(r.organization_id@)(ready.workspaces@.last()));
    }
    let w = ready.workspace_at(r.organization_id@)->0;
    assert(store::is_workspace(r.organization_id@)(ready.workspaces@[w]));
    assert(after.workspaces@[w].organization_id@ == r.organization_id@);
    assert(store::is_project_status(r.organization_id@, wanted)(ready.project_statuses@[k]));
    table::lemma_appended(before.activity@, after.activity@);
    table::lemma_appended(before.commands@, after.commands@);
    table::lemma_appended(ready.projects@, after.projects@);
    traces::law_sorted_lists(after.projects@.last().team_ids@, r.team_ids@);
    assert forall|j: int| 0 <= j < before.projects@.len() implies (
    #[trigger] before.projects@[j]).project_id@ != r.project_id@ by {
        assert(!store::has_project_id(r.project_id@)(ready.projects@[j]));
    }
    k
}

/// An update that takes effect finds the project that it names under the revision that it expects and
/// gives it every field of the request, the texts without the white space around them and its teams
/// in ascending order; nothing else of it gets another value but its revision, the time of its
/// change, and its completion and cancellation times: a project has one exactly where its status
/// calls for it, since the first time. The answer shows the same. Every other project stays as it
/// was.
pub proof fn law_update_gives_the_request(
    before: Store,
    after: Store,
    call: Invocation,
    r: UpdateProjectRequest,
    ids: StatusIds,
    value: ProjectValue,
) -> (at: (int, int))
    requires
        projects::update_project_outcome(
            before,
            after,
            call,
            r,
            ids,
            Ok::<Completion<ProjectValue>, StorageError>(Completion::Fresh(value)),
        ),
    ensures
        ({
            let (i, k) = at;
            &&& 0 <= i < before.projects@.len()
            &&& before.projects@[i].organization_id@ == r.organization_id@
            &&& before.projects@[i].project_id@ == r.project_id@
            &&& forall|j: int|
                0 <= j < i ==> !((#[trigger] before.projects@[j]).organization_id@ == r.organization_id@
                    && before.projects@[j].project_id@ == r.project_id@)
            &&& validate::revision_value(r.expected_revision@) == Some(before.projects@[i].revision as int)
            &&& 0 <= k < after.project_statuses@.len()
            &&& after.project_statuses@[k].organization_id@ == r.organization_id@
            &&& after.project_statuses@[k].status_id@ == r.status_id@
            &&& !after.project_statuses@[k].archived
            &&& after.projects@.len() == before.projects@.len()
            &&& forall|j: int|
                0 <= j < before.projects@.len() && j != i ==> #[trigger] after.projects@[j] == before.projects@[j]
            &&& after.projects@[i].name@ == text::trimmed(r.name@)
            &&& text::text_of(after.projects@[i].summary) == text::trimmed_option(text::text_of(r.summary))
            &&& after.projects@[i].lead_team_id@ == r.lead_team_id@
            &&& traces::lists_same(after.projects@[i].team_ids@, r.team_ids@)
            &&& traces::ascending_texts(after.projects@[i].team_ids@)
            &&& text::text_of(after.projects@[i].milestone_id) == text::text_of(r.milestone_id)
            &&& holds_date(after.projects@[i].starts_on, r.start_date)
            &&& holds_date(after.projects@[i].target_date, r.target_date)
            &&& after.projects@[i].status_id@ == r.status_id@
            &&& after.projects@[i].completed_at == if after.project_statuses@[k].category == ProjectStatusCategory::Completed {
                if before.projects@[i].completed_at is Some {
                    before.projects@[i].completed_at
                } else {
                    Some(call.now)
                }
            } else {
                None::<Timestamp>
            }
            &&& after.projects@[i].canceled_at == if after.project_statuses@[k].category == ProjectStatusCategory::Canceled {
                if before.projects@[i].canceled_at is Some {
                    before.projects@[i].canceled_at
                } else {
                    Some(call.now)
                }
            } else {
                None::<Timestamp>
            }
            &&& after.projects@[i].revision == before.projects@[i].revision + 1
            &&& after.projects@[i].updated_at == call.now
            &&& after.projects@[i].project_id == before.projects@[i].project_id
            &&& after.projects@[i].organization_id == before.projects@[i].organization_id
            &&& after.projects@[i].archived == before.projects@[i].archived
            &&& after.projects@[i].created_at == before.projects@[i].created_at
            &&& after.projects@[i].row_seq == before.projects@[i].row_seq
            &&& value.project_id@ == r.project_id@
            &&& value.organization_id@ == r.organization_id@
            &&& value.name@ == text::trimmed(r.name@)
            &&& text::text_of(value.summary) == text::trimmed_option(text::text_of(r.summary))
            &&& value.lead_team_id@ == r.lead_team_id@
            &&& traces::lists_same(value.team_ids@, r.team_ids@)
            &&& traces::ascending_texts(value.team_ids@)
            &&& value.status_id@ == r.status_id@
            &&& text::text_of(value.milestone_id) == text::text_of(r.milestone_id)
            &&& text::text_of(value.start_date) == shown_date(r.start_date)
            &&& text::text_of(value.target_date) == shown_date(r.target_date)
            &&& text::text_of(value.completed_at) == clock::time_text(after.projects@[i].completed_at)
            &&& text::text_of(value.canceled_at) == clock::time_text(after.projects@[i].canceled_at)
            &&& value.archived == before.projects@[i].archived
            &&& value.revision@ == text::integer_text(before.projects@[i].revision + 1)
            &&& value.created_at@ == before.projects@[i].created_at.text@
            &&& value.updated_at@ == call.now.text@
            &&& catalog_kept(before, after, r.organization_id@)
            &&& after.teams == before.teams
            &&& after.team_members == before.team_members
            &&& after.workflow_states == before.workflow_states
            &&& after.issues == before.issues
            &&& after.aliases == before.aliases
            &&& after.links == before.links
            &&& after.cycles == before.cycles
            &&& after.milestones == before.milestones
            &&& after.labels == before.labels
            &&& after.comments == before.comments
            &&& after.project_updates == before.project_updates
            &&& after.relations == before.relations
            &&& after.receipts == before.receipts
            &&& traces::logged(
                before,
                after,
                call,
                r.idempotency_key@,
                (traces::Trace {
                    organization: r.organization_id@,
                    project: Some(r.project_id@),
                    issue: None,
                    operation: "update_project"@,
                    kind: "project"@,
                    entity: r.project_id@,
                    revision: Some(before.projects@[i].revision + 1),
                }),
            )
        }),
{
    let ready = choose|ready: Store|
        {
            &&& #[trigger] project_status::catalog_ready(before, ready, r.organization_id@, ids)
            &&& projects::update_project_verdict(ready, r) is Proceed
            &&& projects::update_project_effect(ready, after, call, r, value)
        };
    lemma_catalog_kept(before, ready, r.organization_id@, ids);
    let i = before.project_at(r.organization_id@, r.project_id@)->0;
    table::lemma_first_where(before.projects@, store::is_project(r.organization_id@, r.project_id@));
    let k = project_status::resolved_status(ready, r.organization_id@, Some(r.status_id@))->0;
    table::lemma_first_where(
        ready.project_statuses@,
        store::is_project_status(r.organization_id@, r.status_id@),
    );
    table::lemma_appended(before.activity@, after.activity@);
    table::lemma_appended(before.commands@, after.commands@);
    traces::law_sorted_lists(after.projects@[i].team_ids@, r.team_ids@);
    (i, k)
}

/// Archiving or restoring a project changes whether it is archived to what is asked for, and nothing
/// else of it but its revision and the time of its change; the answer shows the same.
pub proof fn law_archival_only_archives(
    before: Store,
    after: Store,
    call: Invocation,
    r: ArchiveProjectRequest,
    value: ProjectValue,
) -> (i: int)
    requires
        projects::archive_project_outcome(
            before,
            after,
            call,
            r,
            Ok::<Completion<ProjectValue>, StorageError>(Completion::Fresh(value)),
        ),
    ensures
        0 <= i < before.projects@.len(),
        before.projects@[i].organization_id@ == r.organization_id@,
        before.projects@[i].project_id@ == r.project_id@,
        forall|j: int|
            0 <= j < i ==> !((#[trigger] before.projects@[j]).organization_id@ == r.organization_id@
                && before.projects@[j].project_id@ == r.project_id@),
        validate::revision_value(r.expected_revision@) == Some(before.projects@[i].revision as int),
        after.projects@.len() == before.projects@.len(),
        forall|j: int|
            0 <= j < before.projects@.len() && j != i ==> #[trigger] after.projects@[j] == before.projects@[j],
        after.projects@[i].archived == r.archived,
        after.projects@[i].revision == before.projects@[i].revision + 1,
        after.projects@[i].updated_at == call.now,
        after.projects@[i].project_id == before.projects@[i].project_id,
        after.projects@[i].organization_id == before.projects@[i].organization_id,
        after.projects@[i].name == before.projects@[i].name,
        after.projects@[i].summary == before.projects@[i].summary,
        after.projects@[i].lead_team_id == before.projects@[i].lead_team_id,
        after.projects@[i].team_ids == before.projects@[i].team_ids,
        after.projects@[i].status_id == before.projects@[i].status_id,
        after.projects@[i].milestone_id == before.projects@[i].milestone_id,
        after.projects@[i].starts_on == before.projects@[i].starts_on,
        after.projects@[i].target_date == before.projects@[i].target_date,
        after.projects@[i].completed_at == before.projects@[i].completed_at,
        after.projects@[i].canceled_at == before.projects@[i].canceled_at,
        after.projects@[i].created_at == before.projects@[i].created_at,
        after.projects@[i].row_seq == before.projects@[i].row_seq,
        value.project_id@ == before.projects@[i].project_id@,
        value.organization_id@ == before.projects@[i].organization_id@,
        value.name@ == before.projects@[i].name@,
        text::text_of(value.summary) == text::text_of(before.projects@[i].summary),
        value.lead_team_id@ == before.projects@[i].lead_team_id@,
        value.team_ids@ == before.projects@[i].team_ids@,
        value.status_id@ == before.projects@[i].status_id@,
        text::text_of(value.milestone_id) == text::text_of(before.projects@[i].milestone_id),
        text::text_of(value.start_date) == clock::date_text(before.projects@[i].starts_on),
        text::text_of(value.target_date) == clock::date_text(before.projects@[i].target_date),
        text::text_of(value.completed_at) == clock::time_text(before.projects@[i].completed_at),
        text::text_of(value.canceled_at) == clock::time_text(before.projects@[i].canceled_at),
        value.created_at@ == before.projects@[i].created_at.text@,
        value.archived == r.archived,
        value.revision@ == text::integer_text(before.projects@[i].revision + 1),
        value.updated_at@ == call.now.text@,
        after.teams == before.teams,
        after.team_members == before.team_members,
        after.workflow_states == before.workflow_states,
        after.workspaces == before.workspaces,
        after.project_statuses == before.project_statuses,
        after.issues == before.issues,
        after.aliases == before.aliases,
        after.links == before.links,
        after.cycles == before.cycles,
        after.milestones == before.milestones,
        after.labels == before.labels,
        after.comments == before.comments,
        after.project_updates == before.project_updates,
        after.relations == before.relations,
        after.receipts == before.receipts,
        after.next_row == before.next_row,
        traces::logged(
            before,
            after,
            call,
            r.idempotency_key@,
            (traces::Trace {
                organization: r.organization_id@,
                project: Some(r.project_id@),
                issue: None,
                operation: "archive_project"@,
                kind: "project"@,
                entity: r.project_id@,
                revision: Some(before.projects@[i].revision + 1),
            }),
        ),
{
    let i = before.project_at(r.organization_id@, r.project_id@)->0;
    table::lemma_first_where(before.projects@, store::is_project(r.organization_id@, r.project_id@));
    table::lemma_appended(before.activity@, after.activity@);
    table::lemma_appended(before.commands@, after.commands@);
    i
}

proof fn lemma_teams_seen(
    before: Store,
    after: Store,
    organization: Seq<char>,
    given: Seq<String>,
    kept: Seq<String>,
    subject: Seq<char>,
)
    requires
        !before.hidden_among(organization, given, subject),
        text::sorted_from(kept, given),
        after.teams == before.teams,
        after.team_members == before.team_members,
    ensures
        !after.hidden_among(organization, kept, subject),
        kept.len() == given.len(),
{
    let (a, b) = (text::texts(kept), text::texts(given));
    a.to_multiset_ensures();
    b.to_multiset_ensures();
    assert forall|k: int| 0 <= k < kept.len() implies !after.hidden_team(
        organization,
        (#[trigger] kept[k])@,
        subject,
    ) by {
        assert(a[k] == kept[k]@);
        assert(a.contains(a[k]));
        assert(a.to_multiset().contains(a[k]));
        assert(b.contains(a[k]));
        let j = choose|j: int| 0 <= j < b.len() && b[j] == a[k];
        assert(given[j]@ == kept[k]@);
        assert(!before.hidden_team(organization, given[j]@, subject));
        assert(after.hidden_team(organization, kept[k]@, subject) == before.hidden_team(
            organization,
            kept[k]@,
            subject,
        ));
    }
}

/// Whoever updated a project reads it afterwards as the answer showed it: with the name, the summary,
/// the teams, the status, the milestone and the dates of the request.
pub proof fn law_updated_project_reads_back(
    before: Store,
    after: Store,
    call: Invocation,
    r: UpdateProjectRequest,
    ids: StatusIds,
    value: ProjectValue,
    q: GetProjectRequest,
    read: Result<ProjectValue, StorageError>,
)
    requires
        projects::update_project_outcome(
            before,
            after,
            call,
            r,
            ids,
            Ok::<Completion<ProjectValue>, StorageError>(Completion::Fresh(value)),
        ),
        q.organization_id@ == r.organization_id@,
        q.project_id@ == r.project_id@,
        projects::get_project_outcome(after, call.actor@, q, read),
    ensures
        read is Ok,
        (read->Ok_0).project_id@ == value.project_id@,
        (read->Ok_0).organization_id@ == value.organization_id@,
        (read->Ok_0).name@ == value.name@,
        text::text_of((read->Ok_0).summary) == text::text_of(value.summary),
        (read->Ok_0).lead_team_id@ == value.lead_team_id@,
        (read->Ok_0).team_ids@ == value.team_ids@,
        (read->Ok_0).status_id@ == value.status_id@,
        text::text_of((read->Ok_0).milestone_id) == text::text_of(value.milestone_id),
        text::text_of((read->Ok_0).start_date) == text::text_of(value.start_date),
        text::text_of((read->Ok_0).target_date) == text::text_of(value.target_date),
        text::text_of((read->Ok_0).completed_at) == text::text_of(value.completed_at),
        text::text_of((read->Ok_0).canceled_at) == text::text_of(value.canceled_at),
        (read->Ok_0).archived == value.archived,
        (read->Ok_0).revision@ == value.revision@,
        (read->Ok_0).created_at@ == value.created_at@,
        (read->Ok_0).updated_at@ == value.updated_at@,
        (read->Ok_0).name@ == text::trimmed(r.name@),
        text::text_of((read->Ok_0).summary) == text::trimmed_option(text::text_of(r.summary)),
        (read->Ok_0).lead_team_id@ == r.lead_team_id@,
        traces::lists_same((read->Ok_0).team_ids@, r.team_ids@),
        (read->Ok_0).status_id@ == r.status_id@,
        text::text_of((read->Ok_0).milestone_id) == text::text_of(r.milestone_id),
        text::text_of((read->Ok_0).start_date) == shown_date(r.start_date),
        text::text_of((read->Ok_0).target_date) == shown_date(r.target_date),
{
    let ready = choose|ready: Store|
        {
            &&& #[trigger] project_status::catalog_ready(before, ready, r.organization_id@, ids)
            &&& projects::update_project_verdict(ready, r) is Proceed
            &&& projects::update_project_effect(ready, after, call, r, value)
        };
    let (i, _) = law_update_gives_the_request(before, after, call, r, ids, value);
    let keep = store::is_project(r.organization_id@, r.project_id@);
    table::lemma_first_where(before.projects@, keep);
    table::lemma_first_update(ready.projects@, keep, i, after.projects@[i]);
    assert(before.project_at(r.organization_id@, r.project_id@) == Some(i));
    assert(after.project_at(r.organization_id@, r.project_id@) == Some(i));
    lemma_teams_seen(
        before,
        after,
        r.organization_id@,
        r.team_ids@,
        after.projects@[i].team_ids@,
        call.actor@,
    );
    assert(projects::is_project_value(after.projects@[i], value));
}

/// Whoever created a project reads it afterwards as the answer showed it.
pub proof fn law_created_project_reads_back(
    before: Store,
    after: Store,
    call: Invocation,
    r: CreateProjectRequest,
    ids: StatusIds,
    value: ProjectValue,
    q: GetProjectRequest,
    read: Result<ProjectValue, StorageError>,
)
    requires
        projects::create_project_outcome(
            before,
            after,
            call,
            r,
            ids,
            Ok::<Completion<ProjectValue>, StorageError>(Completion::Fresh(value)),
        ),
        q.organization_id@ == r.organization_id@,
        q.project_id@ == r.project_id@,
        projects::get_project_outcome(after, call.actor@, q, read),
    ensures
        read is Ok,
        (read->Ok_0).project_id@ == value.project_id@,
        (read->Ok_0).organization_id@ == value.organization_id@,
        (read->Ok_0).name@ == value.name@,
        text::text_of((read->Ok_0).summary) == text::text_of(value.summary),
        (read->Ok_0).lead_team_id@ == value.lead_team_id@,
        (read->Ok_0).team_ids@ == value.team_ids@,
        (read->Ok_0).status_id@ == value.status_id@,
        text::text_of((read->Ok_0).milestone_id) == text::text_of(value.milestone_id),
        text::text_of((read->Ok_0).start_date) == text::text_of(value.start_date),
        text::text_of((read->Ok_0).target_date) == text::text_of(value.target_date),
        text::text_of((read->Ok_0).completed_at) == text::text_of(value.completed_at),
        text::text_of((read->Ok_0).canceled_at) == text::text_of(value.canceled_at),
        (read->Ok_0).archived == value.archived,
        (read->Ok_0).revision@ == value.revision@,
        (read->Ok_0).created_at@ == value.created_at@,
        (read->Ok_0).updated_at@ == value.updated_at@,
        (read->Ok_0).name@ == text::trimmed(r.name@),
        traces::lists_same((read->Ok_0).team_ids@, r.team_ids@),
{
    let ready = choose|ready: Store|
        {
            &&& #[trigger] project_status::catalog_ready(before, ready, r.organization_id@, ids)
            &&& projects::create_project_verdict(ready, r) is Proceed
            &&& projects::create_project_effect(ready, after, call, r, value)
        };
    law_creation_gives_the_request(before, after, call, r, ids, value);
    let keep = store::is_project(r.organization_id@, r.project_id@);
    let n = before.projects@.len() as int;
    table::lemma_first_where(after.projects@, keep);
    assert(keep(after.projects@[n]));
    let i = after.project_at(r.organization_id@, r.project_id@)->0;
    if i < n {
        assert(after.projects@[i] == before.projects@[i]);
    }
    assert(i == n);
    lemma_teams_seen(
        before,
        after,
        r.organization_id@,
        r.team_ids@,
        after.projects@[n].team_ids@,
        call.actor@,
    );
    assert(projects::is_project_value(after.projects@[n], value));
}

} // verus!
