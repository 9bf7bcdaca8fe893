//! What a page shows: every row that is asked for, and no other.
use crate::activity;
use crate::clock;
use crate::collaboration;
use crate::failure::StorageError;
use crate::issues;
use crate::laws::catalogs;
use crate::laws::seen;
use crate::model::{
    Activity, ActivityValue, Comment, CommentValue, Cycle, CycleValue, Issue, IssueValue, Label,
    LabelValue, ListActivityRequest, ListCommentsRequest, ListCyclesRequest,
    ListIssueWorkflowStatesRequest, ListIssuesRequest, ListLabelsRequest, ListMilestonesRequest,
    ListProjectStatusesRequest, ListProjectUpdatesRequest, ListProjectsRequest, ListTeamsRequest,
    ListWorkflowStatesRequest, Milestone, MilestoneValue, Project, ProjectStatus,
    ProjectStatusValue, ProjectUpdate, ProjectUpdateValue, ProjectValue, Team, TeamValue,
    WorkflowState, WorkflowStateValue,
};
use crate::planning;
use crate::project_status::StatusIds;
use crate::project_status;
use crate::projects;
use crate::store::Store;
use crate::table::Page;
use crate::table;
use crate::teams;
use crate::text;
use crate::validate;
use crate::workflow;
use vstd::prelude::*;

verus! {

/// Where the rows that satisfy `keep` stand.
pub proof fn lemma_filter_places<T>(rows: Seq<T>, keep: spec_fn(T) -> bool) -> (at: Seq<int>)
    ensures
        at.len() == rows.filter(keep).len(),
        forall|k: int| 0 <= k < at.len() ==> 0 <= #[trigger] at[k] < rows.len(),
        forall|k: int| 0 <= k < at.len() ==> rows[#[trigger] at[k]] == rows.filter(keep)[k],
        forall|k: int| 0 <= k < at.len() ==> keep(rows[#[trigger] at[k]]),
        forall|k: int, l: int| 0 <= k < l < at.len() ==> #[trigger] at[k] < #[trigger] at[l],
        forall|i: int| 0 <= i < rows.len() && keep(#[trigger] rows[i]) ==> at.contains(i),
    decreases rows.len(),
{
    reveal(Seq::filter);
    if rows.len() == 0 {
        Seq::empty()
    } else {
        let front = rows.drop_last();
        let n = rows.len() - 1;
        let before = lemma_filter_places(front, keep);
        let at = if keep(rows.last()) {
            before.push(n)
        } else {
            before
        };
        assert forall|i: int| 0 <= i < rows.len() && keep(#[trigger] rows[i]) implies at.contains(i) by {
            if i < n {
                assert(front[i] == rows[i]);
                let k = choose|k: int| 0 <= k < before.len() && before[k] == i;
                assert(at[k] == i);
            } else {
                assert(at[at.len() - 1] == n);
            }
        }
        assert forall|k: int| 0 <= k < at.len() implies rows[#[trigger] at[k]] == rows.filter(keep)[k]
            && keep(rows[at[k]]) && 0 <= at[k] < rows.len() by {
            if k < before.len() {
                assert(front[before[k]] == rows[before[k]]);
            }
        }
        at
    }
}

/// Where the rows stand that a page shows: in their order, as many as the limit admits, and none is
/// left out before one that is shown.
pub proof fn lemma_shown_places<T, V>(
    rows: Seq<T>,
    keep: spec_fn(T) -> bool,
    limit: int,
    items: Seq<V>,
    is_value: spec_fn(T, V) -> bool,
) -> (at: Seq<int>)
    requires
        table::presents(rows, keep, limit, items, is_value),
    ensures
        at.len() == items.len(),
        limit > 0 ==> items.len() <= limit,
        limit <= 0 ==> items.len() == 0,
        forall|k: int| 0 <= k < at.len() ==> 0 <= #[trigger] at[k] < rows.len(),
        forall|k: int| 0 <= k < at.len() ==> keep(rows[#[trigger] at[k]]),
        forall|k: int| 0 <= k < at.len() ==> rows[#[trigger] at[k]] == rows.filter(keep)[k],
        forall|k: int| 0 <= k < items.len() ==> is_value(rows[at[k]], #[trigger] items[k]),
        forall|k: int, l: int| 0 <= k < l < at.len() ==> #[trigger] at[k] < #[trigger] at[l],
        forall|i: int|
            0 <= i < rows.len() && keep(#[trigger] rows[i]) ==> at.contains(i) || left_out(at, limit, i),
        rows.filter(keep).len() <= items.len() ==> forall|i: int|
            0 <= i < rows.len() && keep(#[trigger] rows[i]) ==> at.contains(i),
        rows.filter(keep).len() > items.len() ==> exists|i: int|
            0 <= i < rows.len() && keep(#[trigger] rows[i]) && !at.contains(i),
{
    let all = lemma_filter_places(rows, keep);
    let n = items.len() as int;
    let at = all.take(n);
    assert forall|i: int| 0 <= i < rows.len() && keep(#[trigger] rows[i]) implies at.contains(i)
        || left_out(at, limit, i) by {
        let k = choose|k: int| 0 <= k < all.len() && all[k] == i;
        if k < n {
            assert(at[k] == i);
        } else {
            assert forall|l: int| 0 <= l < at.len() implies #[trigger] at[l] < i by {
                assert(all[l] < all[k]);
            }
        }
    }
    if all.len() <= n {
        assert(at == all);
    } else {
        let i = all[n];
        assert(keep(rows[i]));
        if at.contains(i) {
            let k = choose|k: int| 0 <= k < at.len() && at[k] == i;
            assert(all[k] < all[n]);
        }
    }
    at
}

/// Whether a row comes after all that are shown, of which there are as many as the limit admits.
pub open spec fn left_out(at: Seq<int>, limit: int, i: int) -> bool {
    &&& limit <= 0 || at.len() == limit
    &&& forall|k: int| 0 <= k < at.len() ==> #[trigger] at[k] < i
}

/// The position that a cursor stands for: the start where there is none.
pub open spec fn position(after: Option<String>) -> int {
    match after {
        Some(text) => validate::revision_value(text@)->0,
        None => 0,
    }
}

/// Whether a filter that is set names the text.
pub open spec fn names(filter: Option<String>, text: Seq<char>) -> bool {
    filter matches Some(wanted) ==> wanted@ == text
}

/// Whether a filter that is set names the optional text.
pub open spec fn names_optional(filter: Option<String>, text: Option<String>) -> bool {
    filter matches Some(wanted) ==> text matches Some(text) && text@ == wanted@
}

/// Whether a page says where it goes on: exactly where rows are left out after one that is shown, and
/// then with the number of the last one shown.
pub open spec fn goes_on(cursor: Option<String>, at: Seq<int>, limit: int, last: int, more: bool) -> bool {
    match cursor {
        Some(text) => at.len() > 0 && at.len() == limit && more && text@ == text::integer_text(last),
        None => limit <= 0 || !more,
    }
}

/// Whether a value shows every field of a row.
pub open spec fn shows_issue(row: Issue, value: IssueValue) -> bool {
    &&& value.issue_id@ == row.issue_id@
    &&& value.organization_id@ == row.organization_id@
    &&& value.project_id@ == row.project_id@
    &&& value.team_id@ == row.team_id@
    &&& value.identifier@ == row.identifier@
    &&& value.title@ == row.title@
    &&& text::text_of(value.description) == text::text_of(row.description)
    &&& value.priority == row.priority
    &&& value.workflow_state_id@ == row.workflow_state_id@
    &&& text::text_of(value.cycle_id) == text::text_of(row.cycle_id)
    &&& text::text_of(value.milestone_id) == text::text_of(row.milestone_id)
    &&& text::text_of(value.parent_issue_id) == text::text_of(row.parent_issue_id)
    &&& value.label_ids@ == row.label_ids@
    &&& value.archived == row.archived
    &&& value.revision@ == text::integer_text(row.revision as int)
    &&& value.created_at@ == row.created_at.text@
    &&& value.updated_at@ == row.updated_at.text@
}

/// Whether a value shows every field of a row.
pub open spec fn shows_project(row: Project, value: ProjectValue) -> bool {
    &&& value.project_id@ == row.project_id@
    &&& value.organization_id@ == row.organization_id@
    &&& value.name@ == row.name@
    &&& text::text_of(value.summary) == text::text_of(row.summary)
    &&& value.lead_team_id@ == row.lead_team_id@
    &&& value.team_ids@ == row.team_ids@
    &&& value.status_id@ == row.status_id@
    &&& text::text_of(value.milestone_id) == text::text_of(row.milestone_id)
    &&& text::text_of(value.start_date) == clock::date_text(row.starts_on)
    &&& text::text_of(value.target_date) == clock::date_text(row.target_date)
    &&& text::text_of(value.completed_at) == clock::time_text(row.completed_at)
    &&& text::text_of(value.canceled_at) == clock::time_text(row.canceled_at)
    &&& value.archived == row.archived
    &&& value.revision@ == text::integer_text(row.revision as int)
    &&& value.created_at@ == row.created_at.text@
    &&& value.updated_at@ == row.updated_at.text@
}

/// Whether a value shows every field of a row.
pub open spec fn shows_team(row: Team, value: TeamValue) -> bool {
    &&& value.team_id@ == row.team_id@
    &&& value.organization_id@ == row.organization_id@
    &&& value.key@ == row.key@
    &&& value.name@ == row.name@
    &&& text::text_of(value.description) == text::text_of(row.description)
    &&& value.private == row.private
    &&& value.default_workflow_state_id@ == row.default_workflow_state_id@
    &&& value.revision@ == text::integer_text(row.revision as int)
    &&& value.created_at@ == row.created_at.text@
    &&& value.updated_at@ == row.updated_at.text@
}

/// Whether a value shows every field of a row.
pub open spec fn shows_label(row: Label, value: LabelValue) -> bool {
    &&& value.label_id@ == row.label_id@
    &&& value.organization_id@ == row.organization_id@
    &&& text::text_of(value.team_id) == text::text_of(row.team_id)
    &&& value.name@ == row.name@
    &&& text::text_of(value.description) == text::text_of(row.description)
    &&& value.color@ == row.color@
    &&& value.revision@ == text::integer_text(row.revision as int)
}

/// Whether a value shows every field of a row.
pub open spec fn shows_cycle(row: Cycle, value: CycleValue) -> bool {
    &&& value.cycle_id@ == row.cycle_id@
    &&& value.organization_id@ == row.organization_id@
    &&& value.team_id@ == row.team_id@
    &&& value.number == row.number
    &&& text::text_of(value.name) == text::text_of(row.name)
    &&& value.starts_on@ == row.starts_on.text@
    &&& value.ends_on@ == row.ends_on.text@
    &&& value.revision@ == text::integer_text(row.revision as int)
}

/// Whether a value shows every field of a row.
pub open spec fn shows_milestone(row: Milestone, value: MilestoneValue) -> bool {
    &&& value.milestone_id@ == row.milestone_id@
    &&& value.organization_id@ == row.organization_id@
    &&& value.project_id@ == row.project_id@
    &&& value.name@ == row.name@
    &&& text::text_of(value.description) == text::text_of(row.description)
    &&& text::text_of(value.target_date) == clock::date_text(row.target_date)
    &&& value.revision@ == text::integer_text(row.revision as int)
}

/// Whether a value shows every field of a row.
pub open spec fn shows_comment(row: Comment, value: CommentValue) -> bool {
    &&& value.comment_id@ == row.comment_id@
    &&& value.organization_id@ == row.organization_id@
    &&& value.issue_id@ == row.issue_id@
    &&& value.author_subject@ == row.author_subject@
    &&& value.body@ == row.body@
    &&& value.deleted == row.deleted
    &&& value.revision@ == text::integer_text(row.revision as int)
    &&& value.created_at@ == row.created_at.text@
    &&& value.updated_at@ == row.updated_at.text@
}

/// Whether a value shows every field of a row.
pub open spec fn shows_update(row: ProjectUpdate, value: ProjectUpdateValue) -> bool {
    &&& value.update_id@ == row.update_id@
    &&& value.organization_id@ == row.organization_id@
    &&& value.project_id@ == row.project_id@
    &&& value.author_subject@ == row.author_subject@
    &&& value.body@ == row.body@
    &&& value.health == row.health
    &&& value.created_at@ == row.created_at.text@
}

/// Whether a value shows every field of an activity record.
pub open spec fn shows_activity(row: Activity, value: ActivityValue) -> bool {
    &&& value.activity_id@ == text::integer_text(row.activity_id as int)
    &&& value.organization_id@ == row.organization_id@
    &&& text::text_of(value.project_id) == text::text_of(row.project_id)
    &&& text::text_of(value.issue_id) == text::text_of(row.issue_id)
    &&& value.actor_subject@ == row.actor_subject@
    &&& value.operation@ == row.operation@
    &&& value.entity_kind@ == row.entity_kind@
    &&& value.entity_id@ == row.entity_id@
    &&& value.revision is Some == row.revision is Some
    &&& value.revision is Some ==> value.revision->0@ == text::integer_text(row.revision->0 as int)
    &&& value.occurred_at@ == row.occurred_at.text@
}

/// Whether a listing of issues asks for this one.
pub open spec fn wants_issue(s: Store, actor: Seq<char>, r: ListIssuesRequest, row: Issue) -> bool {
    &&& row.organization_id@ == r.organization_id@
    &&& row.row_seq > position(r.after)
    &&& names(r.project_id, row.project_id@)
    &&& names(r.team_id, row.team_id@)
    &&& names(r.workflow_state_id, row.workflow_state_id@)
    &&& !row.archived || r.include_archived
    &&& seen::open_issue(s, row, actor)
}

/// A page of issues shows exactly those, in the order of the rows, from the first after the cursor
/// on, as many as the limit admits; the cursor says where it goes on: the issues of the organization
/// that the actor can see, of the project, the team and the state that the request names, and
/// unarchived ones only unless the request asks for all.
#[verifier::rlimit(40)]
pub proof fn law_listed_issues_are_those_asked_for(
    s: Store,
    actor: Seq<char>,
    r: ListIssuesRequest,
    page: Page<IssueValue>,
) -> (at: Seq<int>)
    requires
        issues::list_issues_outcome(s, actor, r, Ok::<Page<IssueValue>, StorageError>(page)),
    ensures
        at.len() == page.items@.len(),
        page.items@.len() <= r.limit || page.items@.len() == 0,
        forall|k: int|
            0 <= k < at.len() ==> 0 <= #[trigger] at[k] < s.issues@.len() && wants_issue(s, actor, r, s.issues@[at[k]]),
        forall|k: int|
            0 <= k < at.len() ==> shows_issue(s.issues@[at[k]], #[trigger] page.items@[k]),
        forall|k: int, l: int| 0 <= k < l < at.len() ==> #[trigger] at[k] < #[trigger] at[l],
        forall|i: int|
            0 <= i < s.issues@.len() && wants_issue(s, actor, r, #[trigger] s.issues@[i]) ==> at.contains(i)
                || left_out(at, r.limit as int, i),
        forall|k: int|
            0 <= k < page.items@.len() ==> {
                let item = #[trigger] page.items@[k];
                &&& item.organization_id@ == r.organization_id@
                &&& names(r.project_id, item.project_id@)
                &&& names(r.team_id, item.team_id@)
                &&& names(r.workflow_state_id, item.workflow_state_id@)
                &&& (item.archived ==> r.include_archived)
            },
        goes_on(
            page.next_cursor,
            at,
            r.limit as int,
            s.issues@[at[at.len() - 1]].row_seq as int,
            exists|i: int|
                0 <= i < s.issues@.len() && wants_issue(s, actor, r, #[trigger] s.issues@[i])
                    && !at.contains(i),
        ),
{
    let keep = issues::is_listed_issue(s, actor, r, validate::cursor_value(text::text_of(r.after))->0);
    assert forall|row: Issue| #[trigger] keep(row) == wants_issue(s, actor, r, row) by {
        seen::lemma_open_issue(s, row, actor);
    }
    let rows = s.issues@;
    let at = lemma_shown_places(rows, keep, r.limit as int, page.items@, issues::shows_issue(s));
    assert forall|k: int| 0 <= k < at.len() implies 0 <= #[trigger] at[k] < rows.len() && wants_issue(s, actor, r, rows[at[k]]) by {
        assert(keep(rows[at[k]]));
    }
    assert forall|i: int| 0 <= i < rows.len() && wants_issue(s, actor, r, #[trigger] rows[i]) implies at.contains(i)
        || left_out(at, r.limit as int, i) by {
        assert(keep(rows[i]));
    }
    assert forall|k: int| 0 <= k < page.items@.len() implies shows_issue(rows[at[k]], #[trigger] page.items@[k])
        && wants_issue(s, actor, r, rows[at[k]]) by {
        assert(keep(rows[at[k]]));
    }
    let found = rows.filter(keep);
    let more = exists|i: int| 0 <= i < rows.len() && wants_issue(s, actor, r, #[trigger] rows[i]) && !at.contains(i);
    if found.len() > at.len() {
        let i = choose|i: int| 0 <= i < rows.len() && keep(#[trigger] rows[i]) && !at.contains(i);
        assert(wants_issue(s, actor, r, rows[i]));
    } else {
        assert forall|i: int| 0 <= i < rows.len() && wants_issue(s, actor, r, #[trigger] rows[i]) implies at.contains(i) by {
            assert(keep(rows[i]));
        }
    }
    assert(more == (found.len() > at.len()));
    at
}

/// Whether a listing of projects asks for this one.
pub open spec fn wants_project(s: Store, actor: Seq<char>, r: ListProjectsRequest, row: Project) -> bool {
    &&& row.organization_id@ == r.organization_id@
    &&& row.row_seq > position(r.after)
    &&& (exists|k: int| 0 <= k < row.team_ids@.len() && names(r.team_id, (#[trigger] row.team_ids@[k])@))
    &&& !row.archived || r.include_archived
    &&& !seen::closed_among(s, row.organization_id@, row.team_ids@, actor)
}

/// A page of projects shows exactly those, in the order of the rows, from the first after the cursor
/// on, as many as the limit admits; the cursor says where it goes on: the projects of the
/// organization none of whose teams is closed to the actor, which have the team that the request
/// names, and unarchived ones only unless the request asks for all.
#[verifier::rlimit(40)]
pub proof fn law_listed_projects_are_those_asked_for(
    s: Store,
    actor: Seq<char>,
    r: ListProjectsRequest,
    page: Page<ProjectValue>,
) -> (at: Seq<int>)
    requires
        projects::list_projects_outcome(s, actor, r, Ok::<Page<ProjectValue>, StorageError>(page)),
    ensures
        at.len() == page.items@.len(),
        page.items@.len() <= r.limit || page.items@.len() == 0,
        forall|k: int|
            0 <= k < at.len() ==> 0 <= #[trigger] at[k] < s.projects@.len() && wants_project(s, actor, r, s.projects@[at[k]]),
        forall|k: int|
            0 <= k < at.len() ==> shows_project(s.projects@[at[k]], #[trigger] page.items@[k]),
        forall|k: int, l: int| 0 <= k < l < at.len() ==> #[trigger] at[k] < #[trigger] at[l],
        forall|i: int|
            0 <= i < s.projects@.len() && wants_project(s, actor, r, #[trigger] s.projects@[i]) ==> at.contains(i)
                || left_out(at, r.limit as int, i),
        forall|k: int|
            0 <= k < page.items@.len() ==> {
                let item = #[trigger] page.items@[k];
                &&& item.organization_id@ == r.organization_id@
                &&& (item.archived ==> r.include_archived)
                &&& (r.team_id matches Some(wanted) ==> text::has_text(item.team_ids@, wanted@))
            },
        goes_on(
            page.next_cursor,
            at,
            r.limit as int,
            s.projects@[at[at.len() - 1]].row_seq as int,
            exists|i: int|
                0 <= i < s.projects@.len() && wants_project(s, actor, r, #[trigger] s.projects@[i])
                    && !at.contains(i),
        ),
{
    let keep = projects::is_listed_project(s, actor, r, validate::cursor_value(text::text_of(r.after))->0);
    assert forall|row: Project| #[trigger] keep(row) == wants_project(s, actor, r, row) by {
        seen::lemma_hidden_among(s, row.organization_id@, row.team_ids@, actor);
        let teams = row.team_ids@;
        if projects::admits_team(r.team_id, teams) {
            let k = choose|k: int| 0 <= k < teams.len() && issues::admits(r.team_id, (#[trigger] teams[k])@);
            assert(names(r.team_id, teams[k]@));
        }
        if exists|k: int| 0 <= k < teams.len() && names(r.team_id, (#[trigger] teams[k])@) {
            let k = choose|k: int| 0 <= k < teams.len() && names(r.team_id, (#[trigger] teams[k])@);
            assert(issues::admits(r.team_id, teams[k]@));
        }
    }
    let rows = s.projects@;
    let at = lemma_shown_places(rows, keep, r.limit as int, page.items@, projects::shows_project());
    assert forall|k: int| 0 <= k < at.len() implies 0 <= #[trigger] at[k] < rows.len() && wants_project(s, actor, r, rows[at[k]]) by {
        assert(keep(rows[at[k]]));
    }
    assert forall|i: int| 0 <= i < rows.len() && wants_project(s, actor, r, #[trigger] rows[i]) implies at.contains(i)
        || left_out(at, r.limit as int, i) by {
        assert(keep(rows[i]));
    }
    assert forall|k: int| 0 <= k < page.items@.len() implies shows_project(rows[at[k]], #[trigger] page.items@[k])
        && wants_project(s, actor, r, rows[at[k]]) by {
        assert(keep(rows[at[k]]));
    }
    let found = rows.filter(keep);
    let more = exists|i: int| 0 <= i < rows.len() && wants_project(s, actor, r, #[trigger] rows[i]) && !at.contains(i);
    if found.len() > at.len() {
        let i = choose|i: int| 0 <= i < rows.len() && keep(#[trigger] rows[i]) && !at.contains(i);
        assert(wants_project(s, actor, r, rows[i]));
    } else {
        assert forall|i: int| 0 <= i < rows.len() && wants_project(s, actor, r, #[trigger] rows[i]) implies at.contains(i) by {
            assert(keep(rows[i]));
        }
    }
    assert(more == (found.len() > at.len()));
    at
}

proof fn lemma_seen_record(s: Store, actor: Seq<char>, row: Activity)
    ensures
        s.sees_activity(row, actor) == ((row.project_id is Some || row.issue_id is Some) && (
        row.project_id matches Some(project) ==> !seen::closed_project(
            s,
            row.organization_id@,
            project@,
            actor,
        )) && (row.issue_id matches Some(issue) ==> exists|i: int| #[trigger]
            seen::issue_row(s, i, row.organization_id@, issue@) && seen::team_exists(
                s,
                row.organization_id@,
                s.issues@[i].team_id@,
            ) && !seen::closed_team(s, row.organization_id@, s.issues@[i].team_id@, actor))),
{
    if let Some(project) = row.project_id {
        seen::law_hidden_project_has_a_hidden_team(s, row.organization_id@, project@, actor);
    }
    if let Some(issue) = row.issue_id {
        seen::lemma_issue_row(s, row.organization_id@, issue@);
        if let Some(i) = s.issue_at(row.organization_id@, issue@) {
            let team = s.issues@[i].team_id@;
            seen::lemma_team_row(s, row.organization_id@, team);
            seen::law_hidden_is_private_without_membership(s, row.organization_id@, team, actor);
            assert(seen::issue_row(s, i, row.organization_id@, issue@));
        }
    }
}

/// Whether a listing of activity asks for this record.
pub open spec fn wants_record(s: Store, actor: Seq<char>, r: ListActivityRequest, row: Activity) -> bool {
    &&& row.organization_id@ == r.organization_id@
    &&& row.activity_id > position(r.after)
    &&& names_optional(r.project_id, row.project_id)
    &&& names_optional(r.issue_id, row.issue_id)
    &&& row.project_id is Some || row.issue_id is Some
    &&& (row.project_id matches Some(project) ==> !seen::closed_project(
        s,
        row.organization_id@,
        project@,
        actor,
    ))
    &&& (row.issue_id matches Some(issue) ==> exists|i: int| #[trigger]
        seen::issue_row(s, i, row.organization_id@, issue@) && seen::team_exists(
            s,
            row.organization_id@,
            s.issues@[i].team_id@,
        ) && !seen::closed_team(s, row.organization_id@, s.issues@[i].team_id@, actor))
}

/// A page of activity shows exactly the records after the checkpoint that the request asks for, in
/// the order of their numbers as the rows have them, as many as the limit admits: those of the
/// organization, of the project and of the issue that the request names, as far as the actor can see
/// that project and that issue. Its checkpoint is the number of the last record shown, or the one
/// that was given where none is.
#[verifier::rlimit(40)]
pub proof fn law_listed_activity_is_that_asked_for(
    s: Store,
    actor: Seq<char>,
    r: ListActivityRequest,
    page: Page<ActivityValue>,
) -> (at: Seq<int>)
    requires
        activity::list_activity_outcome(
            s,
            actor,
            r,
            Ok::<Page<ActivityValue>, StorageError>(page),
        ),
    ensures
        at.len() == page.items@.len(),
        page.items@.len() <= r.limit || page.items@.len() == 0,
        forall|k: int|
            0 <= k < at.len() ==> 0 <= #[trigger] at[k] < s.activity@.len() && wants_record(s, actor, r, s.activity@[at[k]]),
        forall|k: int|
            0 <= k < at.len() ==> shows_activity(s.activity@[at[k]], #[trigger] page.items@[k]),
        forall|k: int, l: int| 0 <= k < l < at.len() ==> #[trigger] at[k] < #[trigger] at[l],
        forall|i: int|
            0 <= i < s.activity@.len() && wants_record(s, actor, r, #[trigger] s.activity@[i]) ==> at.contains(i)
                || left_out(at, r.limit as int, i),
        forall|k: int|
            0 <= k < page.items@.len() ==> {
                let item = #[trigger] page.items@[k];
                &&& item.organization_id@ == r.organization_id@
                &&& (r.issue_id matches Some(wanted) ==> text::text_of(item.issue_id) == Some(wanted@))
                &&& (r.project_id matches Some(wanted) ==> text::text_of(item.project_id) == Some(wanted@))
            },
        text::text_of(page.next_cursor) == if at.len() > 0 {
            Some(text::integer_text(s.activity@[at[at.len() - 1]].activity_id as int))
        } else {
            text::text_of(r.after)
        },
{
    let keep = activity::is_listed_activity(s, actor, r, validate::cursor_value(text::text_of(r.after))->0);
    assert forall|row: Activity| #[trigger] keep(row) == wants_record(s, actor, r, row) by {
        lemma_seen_record(s, actor, row);
    }
    let rows = s.activity@;
    let at = lemma_shown_places(rows, keep, r.limit as int, page.items@, activity::shows_activity());
    assert forall|k: int| 0 <= k < at.len() implies 0 <= #[trigger] at[k] < rows.len() && wants_record(s, actor, r, rows[at[k]]) by {
        assert(keep(rows[at[k]]));
    }
    assert forall|i: int| 0 <= i < rows.len() && wants_record(s, actor, r, #[trigger] rows[i]) implies at.contains(i)
        || left_out(at, r.limit as int, i) by {
        assert(keep(rows[i]));
    }
    assert forall|k: int| 0 <= k < page.items@.len() implies shows_activity(rows[at[k]], #[trigger] page.items@[k])
        && wants_record(s, actor, r, rows[at[k]]) by {
        assert(keep(rows[at[k]]));
    }
    at
}

/// Whether a listing of comments asks for this row.
pub open spec fn wants_comment(s: Store, actor: Seq<char>, r: ListCommentsRequest, row: Comment) -> bool {
    &&& row.organization_id@ == r.organization_id@
    &&& row.issue_id@ == r.issue_id@
    &&& row.row_seq > position(r.after)
}

/// A page of comments shows exactly those, in the order of the rows, from the first after the cursor
/// on, as many as the limit admits; the cursor says where it goes on: those on the issue.
#[verifier::rlimit(40)]
pub proof fn law_listed_comments_are_those_asked_for(
    s: Store,
    actor: Seq<char>,
    r: ListCommentsRequest,
    page: Page<CommentValue>,
) -> (at: Seq<int>)
    requires
        collaboration::list_comments_outcome(
            s,
            actor,
            r,
            Ok::<Page<CommentValue>, StorageError>(page),
        ),
    ensures
        at.len() == page.items@.len(),
        page.items@.len() <= r.limit || page.items@.len() == 0,
        forall|k: int|
            0 <= k < at.len() ==> 0 <= #[trigger] at[k] < s.comments@.len() && wants_comment(s, actor, r, s.comments@[at[k]]),
        forall|k: int|
            0 <= k < at.len() ==> shows_comment(s.comments@[at[k]], #[trigger] page.items@[k]),
        forall|k: int, l: int| 0 <= k < l < at.len() ==> #[trigger] at[k] < #[trigger] at[l],
        forall|i: int|
            0 <= i < s.comments@.len() && wants_comment(s, actor, r, #[trigger] s.comments@[i]) ==> at.contains(i)
                || left_out(at, r.limit as int, i),
        forall|k: int|
            0 <= k < page.items@.len() ==> {
                let item = #[trigger] page.items@[k];
                &&& item.organization_id@ == r.organization_id@
                &&& item.issue_id@ == r.issue_id@
            },
        goes_on(
            page.next_cursor,
            at,
            r.limit as int,
            s.comments@[at[at.len() - 1]].row_seq as int,
            exists|i: int|
                0 <= i < s.comments@.len() && wants_comment(s, actor, r, #[trigger] s.comments@[i])
                    && !at.contains(i),
        ),
{
    let keep = collaboration::is_listed_comment(r.organization_id@, r.issue_id@, validate::cursor_value(text::text_of(r.after))->0);
    assert forall|row: Comment| #[trigger] keep(row) == wants_comment(s, actor, r, row) by {}
    let rows = s.comments@;
    let at = lemma_shown_places(rows, keep, r.limit as int, page.items@, collaboration::shows_comment());
    assert forall|k: int| 0 <= k < at.len() implies 0 <= #[trigger] at[k] < rows.len() && wants_comment(s, actor, r, rows[at[k]]) by {
        assert(keep(rows[at[k]]));
    }
    assert forall|i: int| 0 <= i < rows.len() && wants_comment(s, actor, r, #[trigger] rows[i]) implies at.contains(i)
        || left_out(at, r.limit as int, i) by {
        assert(keep(rows[i]));
    }
    assert forall|k: int| 0 <= k < page.items@.len() implies shows_comment(rows[at[k]], #[trigger] page.items@[k])
        && wants_comment(s, actor, r, rows[at[k]]) by {
        assert(keep(rows[at[k]]));
    }
    let found = rows.filter(keep);
    let more = exists|i: int| 0 <= i < rows.len() && wants_comment(s, actor, r, #[trigger] rows[i]) && !at.contains(i);
    if found.len() > at.len() {
        let i = choose|i: int| 0 <= i < rows.len() && keep(#[trigger] rows[i]) && !at.contains(i);
        assert(wants_comment(s, actor, r, rows[i]));
    } else {
        assert forall|i: int| 0 <= i < rows.len() && wants_comment(s, actor, r, #[trigger] rows[i]) implies at.contains(i) by {
            assert(keep(rows[i]));
        }
    }
    assert(more == (found.len() > at.len()));
    at
}

/// Whether a listing of project updates asks for this row.
pub open spec fn wants_update(s: Store, actor: Seq<char>, r: ListProjectUpdatesRequest, row: ProjectUpdate) -> bool {
    &&& row.organization_id@ == r.organization_id@
    &&& row.project_id@ == r.project_id@
    &&& row.row_seq > position(r.after)
}

/// A page of project updates shows exactly those, in the order of the rows, from the first after the
/// cursor on, as many as the limit admits; the cursor says where it goes on: those of the project.
#[verifier::rlimit(40)]
pub proof fn law_listed_updates_are_those_asked_for(
    s: Store,
    actor: Seq<char>,
    r: ListProjectUpdatesRequest,
    page: Page<ProjectUpdateValue>,
) -> (at: Seq<int>)
    requires
        collaboration::list_project_updates_outcome(
            s,
            actor,
            r,
            Ok::<Page<ProjectUpdateValue>, StorageError>(page),
        ),
    ensures
        at.len() == page.items@.len(),
        page.items@.len() <= r.limit || page.items@.len() == 0,
        forall|k: int|
            0 <= k < at.len() ==> 0 <= #[trigger] at[k] < s.project_updates@.len() && wants_update(s, actor, r, s.project_updates@[at[k]]),
        forall|k: int|
            0 <= k < at.len() ==> shows_update(s.project_updates@[at[k]], #[trigger] page.items@[k]),
        forall|k: int, l: int| 0 <= k < l < at.len() ==> #[trigger] at[k] < #[trigger] at[l],
        forall|i: int|
            0 <= i < s.project_updates@.len() && wants_update(s, actor, r, #[trigger] s.project_updates@[i]) ==> at.contains(i)
                || left_out(at, r.limit as int, i),
        forall|k: int|
            0 <= k < page.items@.len() ==> {
                let item = #[trigger] page.items@[k];
                &&& item.organization_id@ == r.organization_id@
                &&& item.project_id@ == r.project_id@
            },
        goes_on(
            page.next_cursor,
            at,
            r.limit as int,
            s.project_updates@[at[at.len() - 1]].row_seq as int,
            exists|i: int|
                0 <= i < s.project_updates@.len() && wants_update(s, actor, r, #[trigger] s.project_updates@[i])
                    && !at.contains(i),
        ),
{
    let keep = collaboration::is_listed_update(r.organization_id@, r.project_id@, validate::cursor_value(text::text_of(r.after))->0);
    assert forall|row: ProjectUpdate| #[trigger] keep(row) == wants_update(s, actor, r, row) by {}
    let rows = s.project_updates@;
    let at = lemma_shown_places(rows, keep, r.limit as int, page.items@, collaboration::shows_update());
    assert forall|k: int| 0 <= k < at.len() implies 0 <= #[trigger] at[k] < rows.len() && wants_update(s, actor, r, rows[at[k]]) by {
        assert(keep(rows[at[k]]));
    }
    assert forall|i: int| 0 <= i < rows.len() && wants_update(s, actor, r, #[trigger] rows[i]) implies at.contains(i)
        || left_out(at, r.limit as int, i) by {
        assert(keep(rows[i]));
    }
    assert forall|k: int| 0 <= k < page.items@.len() implies shows_update(rows[at[k]], #[trigger] page.items@[k])
        && wants_update(s, actor, r, rows[at[k]]) by {
        assert(keep(rows[at[k]]));
    }
    let found = rows.filter(keep);
    let more = exists|i: int| 0 <= i < rows.len() && wants_update(s, actor, r, #[trigger] rows[i]) && !at.contains(i);
    if found.len() > at.len() {
        let i = choose|i: int| 0 <= i < rows.len() && keep(#[trigger] rows[i]) && !at.contains(i);
        assert(wants_update(s, actor, r, rows[i]));
    } else {
        assert forall|i: int| 0 <= i < rows.len() && wants_update(s, actor, r, #[trigger] rows[i]) implies at.contains(i) by {
            assert(keep(rows[i]));
        }
    }
    assert(more == (found.len() > at.len()));
    at
}

/// Whether a listing of teams asks for this row.
pub open spec fn wants_team(s: Store, r: ListTeamsRequest, row: Team) -> bool {
    &&& row.organization_id@ == r.organization_id@
    &&& row.row_seq > position(r.after)
}

/// A page of teams shows exactly those, in the order of the rows, from the first after the cursor on,
/// as many as the limit admits; the cursor says where it goes on: those of the organization.
#[verifier::rlimit(40)]
pub proof fn law_listed_teams_are_those_asked_for(
    s: Store,
    r: ListTeamsRequest,
    page: Page<TeamValue>,
) -> (at: Seq<int>)
    requires
        teams::list_teams_outcome(s, r, Ok::<Page<TeamValue>, StorageError>(page)),
    ensures
        at.len() == page.items@.len(),
        page.items@.len() <= r.limit || page.items@.len() == 0,
        forall|k: int|
            0 <= k < at.len() ==> 0 <= #[trigger] at[k] < s.teams@.len() && wants_team(s, r, s.teams@[at[k]]),
        forall|k: int|
            0 <= k < at.len() ==> shows_team(s.teams@[at[k]], #[trigger] page.items@[k]),
        forall|k: int, l: int| 0 <= k < l < at.len() ==> #[trigger] at[k] < #[trigger] at[l],
        forall|i: int|
            0 <= i < s.teams@.len() && wants_team(s, r, #[trigger] s.teams@[i]) ==> at.contains(i)
                || left_out(at, r.limit as int, i),
        forall|k: int|
            0 <= k < page.items@.len() ==> {
                let item = #[trigger] page.items@[k];
                &&& item.organization_id@ == r.organization_id@
            },
        goes_on(
            page.next_cursor,
            at,
            r.limit as int,
            s.teams@[at[at.len() - 1]].row_seq as int,
            exists|i: int|
                0 <= i < s.teams@.len() && wants_team(s, r, #[trigger] s.teams@[i])
                    && !at.contains(i),
        ),
{
    let keep = teams::is_listed_team(r.organization_id@, validate::cursor_value(text::text_of(r.after))->0);
    assert forall|row: Team| #[trigger] keep(row) == wants_team(s, r, row) by {}
    let rows = s.teams@;
    let at = lemma_shown_places(rows, keep, r.limit as int, page.items@, teams::shows_team());
    assert forall|k: int| 0 <= k < at.len() implies 0 <= #[trigger] at[k] < rows.len() && wants_team(s, r, rows[at[k]]) by {
        assert(keep(rows[at[k]]));
    }
    assert forall|i: int| 0 <= i < rows.len() && wants_team(s, r, #[trigger] rows[i]) implies at.contains(i)
        || left_out(at, r.limit as int, i) by {
        assert(keep(rows[i]));
    }
    assert forall|k: int| 0 <= k < page.items@.len() implies shows_team(rows[at[k]], #[trigger] page.items@[k])
        && wants_team(s, r, rows[at[k]]) by {
        assert(keep(rows[at[k]]));
    }
    let found = rows.filter(keep);
    let more = exists|i: int| 0 <= i < rows.len() && wants_team(s, r, #[trigger] rows[i]) && !at.contains(i);
    if found.len() > at.len() {
        let i = choose|i: int| 0 <= i < rows.len() && keep(#[trigger] rows[i]) && !at.contains(i);
        assert(wants_team(s, r, rows[i]));
    } else {
        assert forall|i: int| 0 <= i < rows.len() && wants_team(s, r, #[trigger] rows[i]) implies at.contains(i) by {
            assert(keep(rows[i]));
        }
    }
    assert(more == (found.len() > at.len()));
    at
}

/// Whether a listing of labels asks for this row.
pub open spec fn wants_label(s: Store, r: ListLabelsRequest, row: Label) -> bool {
    &&& row.organization_id@ == r.organization_id@
    &&& row.row_seq > position(r.after)
    &&& (r.team_id matches Some(wanted) ==> (row.team_id matches Some(owner) ==> owner@ == wanted@))
}

/// A page of labels shows exactly those, in the order of the rows, from the first after the cursor
/// on, as many as the limit admits; the cursor says where it goes on: those of the organization, or,
/// where the request names a team, those of no team and of that team.
#[verifier::rlimit(40)]
pub proof fn law_listed_labels_are_those_asked_for(
    s: Store,
    r: ListLabelsRequest,
    page: Page<LabelValue>,
) -> (at: Seq<int>)
    requires
        planning::list_labels_outcome(s, r, Ok::<Page<LabelValue>, StorageError>(page)),
    ensures
        at.len() == page.items@.len(),
        page.items@.len() <= r.limit || page.items@.len() == 0,
        forall|k: int|
            0 <= k < at.len() ==> 0 <= #[trigger] at[k] < s.labels@.len() && wants_label(s, r, s.labels@[at[k]]),
        forall|k: int|
            0 <= k < at.len() ==> shows_label(s.labels@[at[k]], #[trigger] page.items@[k]),
        forall|k: int, l: int| 0 <= k < l < at.len() ==> #[trigger] at[k] < #[trigger] at[l],
        forall|i: int|
            0 <= i < s.labels@.len() && wants_label(s, r, #[trigger] s.labels@[i]) ==> at.contains(i)
                || left_out(at, r.limit as int, i),
        forall|k: int|
            0 <= k < page.items@.len() ==> {
                let item = #[trigger] page.items@[k];
                &&& item.organization_id@ == r.organization_id@
                &&& (r.team_id matches Some(wanted) ==> (item.team_id matches Some(owner) ==> owner@ == wanted@))
            },
        goes_on(
            page.next_cursor,
            at,
            r.limit as int,
            s.labels@[at[at.len() - 1]].row_seq as int,
            exists|i: int|
                0 <= i < s.labels@.len() && wants_label(s, r, #[trigger] s.labels@[i])
                    && !at.contains(i),
        ),
{
    let keep = planning::is_listed_label(r, validate::cursor_value(text::text_of(r.after))->0);
    assert forall|row: Label| #[trigger] keep(row) == wants_label(s, r, row) by {}
    let rows = s.labels@;
    let at = lemma_shown_places(rows, keep, r.limit as int, page.items@, planning::shows_label());
    assert forall|k: int| 0 <= k < at.len() implies 0 <= #[trigger] at[k] < rows.len() && wants_label(s, r, rows[at[k]]) by {
        assert(keep(rows[at[k]]));
    }
    assert forall|i: int| 0 <= i < rows.len() && wants_label(s, r, #[trigger] rows[i]) implies at.contains(i)
        || left_out(at, r.limit as int, i) by {
        assert(keep(rows[i]));
    }
    assert forall|k: int| 0 <= k < page.items@.len() implies shows_label(rows[at[k]], #[trigger] page.items@[k])
        && wants_label(s, r, rows[at[k]]) by {
        assert(keep(rows[at[k]]));
    }
    let found = rows.filter(keep);
    let more = exists|i: int| 0 <= i < rows.len() && wants_label(s, r, #[trigger] rows[i]) && !at.contains(i);
    if found.len() > at.len() {
        let i = choose|i: int| 0 <= i < rows.len() && keep(#[trigger] rows[i]) && !at.contains(i);
        assert(wants_label(s, r, rows[i]));
    } else {
        assert forall|i: int| 0 <= i < rows.len() && wants_label(s, r, #[trigger] rows[i]) implies at.contains(i) by {
            assert(keep(rows[i]));
        }
    }
    assert(more == (found.len() > at.len()));
    at
}

/// Whether a listing of cycles asks for this row.
pub open spec fn wants_cycle(s: Store, r: ListCyclesRequest, row: Cycle) -> bool {
    &&& row.organization_id@ == r.organization_id@
    &&& row.team_id@ == r.team_id@
    &&& row.row_seq > position(r.after)
}

/// A page of cycles shows exactly those, in the order of the rows, from the first after the cursor
/// on, as many as the limit admits; the cursor says where it goes on: those of the team.
#[verifier::rlimit(40)]
pub proof fn law_listed_cycles_are_those_asked_for(
    s: Store,
    r: ListCyclesRequest,
    page: Page<CycleValue>,
) -> (at: Seq<int>)
    requires
        planning::list_cycles_outcome(s, r, Ok::<Page<CycleValue>, StorageError>(page)),
    ensures
        at.len() == page.items@.len(),
        page.items@.len() <= r.limit || page.items@.len() == 0,
        forall|k: int|
            0 <= k < at.len() ==> 0 <= #[trigger] at[k] < s.cycles@.len() && wants_cycle(s, r, s.cycles@[at[k]]),
        forall|k: int|
            0 <= k < at.len() ==> shows_cycle(s.cycles@[at[k]], #[trigger] page.items@[k]),
        forall|k: int, l: int| 0 <= k < l < at.len() ==> #[trigger] at[k] < #[trigger] at[l],
        forall|i: int|
            0 <= i < s.cycles@.len() && wants_cycle(s, r, #[trigger] s.cycles@[i]) ==> at.contains(i)
                || left_out(at, r.limit as int, i),
        forall|k: int|
            0 <= k < page.items@.len() ==> {
                let item = #[trigger] page.items@[k];
                &&& item.organization_id@ == r.organization_id@
                &&& item.team_id@ == r.team_id@
            },
        goes_on(
            page.next_cursor,
            at,
            r.limit as int,
            s.cycles@[at[at.len() - 1]].row_seq as int,
            exists|i: int|
                0 <= i < s.cycles@.len() && wants_cycle(s, r, #[trigger] s.cycles@[i])
                    && !at.contains(i),
        ),
{
    let keep = planning::is_listed_cycle(r.organization_id@, r.team_id@, validate::cursor_value(text::text_of(r.after))->0);
    assert forall|row: Cycle| #[trigger] keep(row) == wants_cycle(s, r, row) by {}
    let rows = s.cycles@;
    let at = lemma_shown_places(rows, keep, r.limit as int, page.items@, planning::shows_cycle());
    assert forall|k: int| 0 <= k < at.len() implies 0 <= #[trigger] at[k] < rows.len() && wants_cycle(s, r, rows[at[k]]) by {
        assert(keep(rows[at[k]]));
    }
    assert forall|i: int| 0 <= i < rows.len() && wants_cycle(s, r, #[trigger] rows[i]) implies at.contains(i)
        || left_out(at, r.limit as int, i) by {
        assert(keep(rows[i]));
    }
    assert forall|k: int| 0 <= k < page.items@.len() implies shows_cycle(rows[at[k]], #[trigger] page.items@[k])
        && wants_cycle(s, r, rows[at[k]]) by {
        assert(keep(rows[at[k]]));
    }
    let found = rows.filter(keep);
    let more = exists|i: int| 0 <= i < rows.len() && wants_cycle(s, r, #[trigger] rows[i]) && !at.contains(i);
    if found.len() > at.len() {
        let i = choose|i: int| 0 <= i < rows.len() && keep(#[trigger] rows[i]) && !at.contains(i);
        assert(wants_cycle(s, r, rows[i]));
    } else {
        assert forall|i: int| 0 <= i < rows.len() && wants_cycle(s, r, #[trigger] rows[i]) implies at.contains(i) by {
            assert(keep(rows[i]));
        }
    }
    assert(more == (found.len() > at.len()));
    at
}

/// Whether a listing of milestones asks for this row.
pub open spec fn wants_milestone(s: Store, r: ListMilestonesRequest, row: Milestone) -> bool {
    &&& row.organization_id@ == r.organization_id@
    &&& row.project_id@ == r.project_id@
    &&& row.row_seq > position(r.after)
}

/// A page of milestones shows exactly those, in the order of the rows, from the first after the
/// cursor on, as many as the limit admits; the cursor says where it goes on: those of the project.
#[verifier::rlimit(40)]
pub proof fn law_listed_milestones_are_those_asked_for(
    s: Store,
    r: ListMilestonesRequest,
    page: Page<MilestoneValue>,
) -> (at: Seq<int>)
    requires
        planning::list_milestones_outcome(s, r, Ok::<Page<MilestoneValue>, StorageError>(page)),
    ensures
        at.len() == page.items@.len(),
        page.items@.len() <= r.limit || page.items@.len() == 0,
        forall|k: int|
            0 <= k < at.len() ==> 0 <= #[trigger] at[k] < s.milestones@.len() && wants_milestone(s, r, s.milestones@[at[k]]),
        forall|k: int|
            0 <= k < at.len() ==> shows_milestone(s.milestones@[at[k]], #[trigger] page.items@[k]),
        forall|k: int, l: int| 0 <= k < l < at.len() ==> #[trigger] at[k] < #[trigger] at[l],
        forall|i: int|
            0 <= i < s.milestones@.len() && wants_milestone(s, r, #[trigger] s.milestones@[i]) ==> at.contains(i)
                || left_out(at, r.limit as int, i),
        forall|k: int|
            0 <= k < page.items@.len() ==> {
                let item = #[trigger] page.items@[k];
                &&& item.organization_id@ == r.organization_id@
                &&& item.project_id@ == r.project_id@
            },
        goes_on(
            page.next_cursor,
            at,
            r.limit as int,
            s.milestones@[at[at.len() - 1]].row_seq as int,
            exists|i: int|
                0 <= i < s.milestones@.len() && wants_milestone(s, r, #[trigger] s.milestones@[i])
                    && !at.contains(i),
        ),
{
    let keep = planning::is_listed_milestone(r.organization_id@, r.project_id@, validate::cursor_value(text::text_of(r.after))->0);
    assert forall|row: Milestone| #[trigger] keep(row) == wants_milestone(s, r, row) by {}
    let rows = s.milestones@;
    let at = lemma_shown_places(rows, keep, r.limit as int, page.items@, planning::shows_milestone());
    assert forall|k: int| 0 <= k < at.len() implies 0 <= #[trigger] at[k] < rows.len() && wants_milestone(s, r, rows[at[k]]) by {
        assert(keep(rows[at[k]]));
    }
    assert forall|i: int| 0 <= i < rows.len() && wants_milestone(s, r, #[trigger] rows[i]) implies at.contains(i)
        || left_out(at, r.limit as int, i) by {
        assert(keep(rows[i]));
    }
    assert forall|k: int| 0 <= k < page.items@.len() implies shows_milestone(rows[at[k]], #[trigger] page.items@[k])
        && wants_milestone(s, r, rows[at[k]]) by {
        assert(keep(rows[at[k]]));
    }
    let found = rows.filter(keep);
    let more = exists|i: int| 0 <= i < rows.len() && wants_milestone(s, r, #[trigger] rows[i]) && !at.contains(i);
    if found.len() > at.len() {
        let i = choose|i: int| 0 <= i < rows.len() && keep(#[trigger] rows[i]) && !at.contains(i);
        assert(wants_milestone(s, r, rows[i]));
    } else {
        assert forall|i: int| 0 <= i < rows.len() && wants_milestone(s, r, #[trigger] rows[i]) implies at.contains(i) by {
            assert(keep(rows[i]));
        }
    }
    assert(more == (found.len() > at.len()));
    at
}

/// Whether a listing of workflow states asks for this row.
pub open spec fn wants_state(s: Store, r: ListWorkflowStatesRequest, row: WorkflowState) -> bool {
    &&& row.organization_id@ == r.organization_id@
    &&& row.team_id@ == r.team_id@
    &&& row.row_seq > position(r.after)
}

/// A page of workflow states shows exactly those, in the order of the rows, from the first after the
/// cursor on, as many as the limit admits; the cursor says where it goes on: those of the team.
#[verifier::rlimit(40)]
pub proof fn law_listed_states_are_those_asked_for(
    s: Store,
    r: ListWorkflowStatesRequest,
    page: Page<WorkflowStateValue>,
) -> (at: Seq<int>)
    requires
        workflow::list_workflow_states_outcome(
            s,
            r,
            Ok::<Page<WorkflowStateValue>, StorageError>(page),
        ),
    ensures
        at.len() == page.items@.len(),
        page.items@.len() <= r.limit || page.items@.len() == 0,
        forall|k: int|
            0 <= k < at.len() ==> 0 <= #[trigger] at[k] < s.workflow_states@.len() && wants_state(s, r, s.workflow_states@[at[k]]),
        forall|k: int|
            0 <= k < at.len() ==> catalogs::shows_state(s.workflow_states@[at[k]], #[trigger] page.items@[k]),
        forall|k: int, l: int| 0 <= k < l < at.len() ==> #[trigger] at[k] < #[trigger] at[l],
        forall|i: int|
            0 <= i < s.workflow_states@.len() && wants_state(s, r, #[trigger] s.workflow_states@[i]) ==> at.contains(i)
                || left_out(at, r.limit as int, i),
        forall|k: int|
            0 <= k < page.items@.len() ==> {
                let item = #[trigger] page.items@[k];
                &&& item.organization_id@ == r.organization_id@
                &&& item.team_id@ == r.team_id@
            },
        goes_on(
            page.next_cursor,
            at,
            r.limit as int,
            s.workflow_states@[at[at.len() - 1]].row_seq as int,
            exists|i: int|
                0 <= i < s.workflow_states@.len() && wants_state(s, r, #[trigger] s.workflow_states@[i])
                    && !at.contains(i),
        ),
{
    let keep = workflow::is_listed_state(r.organization_id@, r.team_id@, validate::cursor_value(text::text_of(r.after))->0);
    assert forall|row: WorkflowState| #[trigger] keep(row) == wants_state(s, r, row) by {}
    let rows = s.workflow_states@;
    let at = lemma_shown_places(rows, keep, r.limit as int, page.items@, workflow::shows_state());
    assert forall|k: int| 0 <= k < at.len() implies 0 <= #[trigger] at[k] < rows.len() && wants_state(s, r, rows[at[k]]) by {
        assert(keep(rows[at[k]]));
    }
    assert forall|i: int| 0 <= i < rows.len() && wants_state(s, r, #[trigger] rows[i]) implies at.contains(i)
        || left_out(at, r.limit as int, i) by {
        assert(keep(rows[i]));
    }
    assert forall|k: int| 0 <= k < page.items@.len() implies catalogs::shows_state(rows[at[k]], #[trigger] page.items@[k])
        && wants_state(s, r, rows[at[k]]) by {
        assert(keep(rows[at[k]]));
    }
    let found = rows.filter(keep);
    let more = exists|i: int| 0 <= i < rows.len() && wants_state(s, r, #[trigger] rows[i]) && !at.contains(i);
    if found.len() > at.len() {
        let i = choose|i: int| 0 <= i < rows.len() && keep(#[trigger] rows[i]) && !at.contains(i);
        assert(wants_state(s, r, rows[i]));
    } else {
        assert forall|i: int| 0 <= i < rows.len() && wants_state(s, r, #[trigger] rows[i]) implies at.contains(i) by {
            assert(keep(rows[i]));
        }
    }
    assert(more == (found.len() > at.len()));
    at
}

/// Whether a listing of workflow states for issues asks for this row.
pub open spec fn wants_issue_state(s: Store, actor: Seq<char>, r: ListIssueWorkflowStatesRequest, row: WorkflowState) -> bool {
    &&& row.organization_id@ == r.organization_id@
    &&& row.team_id@ == r.team_id@
    &&& row.row_seq > position(r.after)
}

/// A page of workflow states for issues shows exactly those, in the order of the rows, from the first
/// after the cursor on, as many as the limit admits; the cursor says where it goes on: those of the
/// team.
#[verifier::rlimit(40)]
pub proof fn law_states_for_issues_are_those_asked_for(
    s: Store,
    actor: Seq<char>,
    r: ListIssueWorkflowStatesRequest,
    page: Page<WorkflowStateValue>,
) -> (at: Seq<int>)
    requires
        workflow::list_issue_workflow_states_outcome(
            s,
            actor,
            r,
            Ok::<Page<WorkflowStateValue>, StorageError>(page),
        ),
    ensures
        at.len() == page.items@.len(),
        page.items@.len() <= r.limit || page.items@.len() == 0,
        forall|k: int|
            0 <= k < at.len() ==> 0 <= #[trigger] at[k] < s.workflow_states@.len() && wants_issue_state(s, actor, r, s.workflow_states@[at[k]]),
        forall|k: int|
            0 <= k < at.len() ==> catalogs::shows_state(s.workflow_states@[at[k]], #[trigger] page.items@[k]),
        forall|k: int, l: int| 0 <= k < l < at.len() ==> #[trigger] at[k] < #[trigger] at[l],
        forall|i: int|
            0 <= i < s.workflow_states@.len() && wants_issue_state(s, actor, r, #[trigger] s.workflow_states@[i]) ==> at.contains(i)
                || left_out(at, r.limit as int, i),
        forall|k: int|
            0 <= k < page.items@.len() ==> {
                let item = #[trigger] page.items@[k];
                &&& item.organization_id@ == r.organization_id@
                &&& item.team_id@ == r.team_id@
            },
        goes_on(
            page.next_cursor,
            at,
            r.limit as int,
            s.workflow_states@[at[at.len() - 1]].row_seq as int,
            exists|i: int|
                0 <= i < s.workflow_states@.len() && wants_issue_state(s, actor, r, #[trigger] s.workflow_states@[i])
                    && !at.contains(i),
        ),
{
    let keep = workflow::is_listed_state(r.organization_id@, r.team_id@, validate::cursor_value(text::text_of(r.after))->0);
    assert forall|row: WorkflowState| #[trigger] keep(row) == wants_issue_state(s, actor, r, row) by {}
    let rows = s.workflow_states@;
    let at = lemma_shown_places(rows, keep, r.limit as int, page.items@, workflow::shows_state());
    assert forall|k: int| 0 <= k < at.len() implies 0 <= #[trigger] at[k] < rows.len() && wants_issue_state(s, actor, r, rows[at[k]]) by {
        assert(keep(rows[at[k]]));
    }
    assert forall|i: int| 0 <= i < rows.len() && wants_issue_state(s, actor, r, #[trigger] rows[i]) implies at.contains(i)
        || left_out(at, r.limit as int, i) by {
        assert(keep(rows[i]));
    }
    assert forall|k: int| 0 <= k < page.items@.len() implies catalogs::shows_state(rows[at[k]], #[trigger] page.items@[k])
        && wants_issue_state(s, actor, r, rows[at[k]]) by {
        assert(keep(rows[at[k]]));
    }
    let found = rows.filter(keep);
    let more = exists|i: int| 0 <= i < rows.len() && wants_issue_state(s, actor, r, #[trigger] rows[i]) && !at.contains(i);
    if found.len() > at.len() {
        let i = choose|i: int| 0 <= i < rows.len() && keep(#[trigger] rows[i]) && !at.contains(i);
        assert(wants_issue_state(s, actor, r, rows[i]));
    } else {
        assert forall|i: int| 0 <= i < rows.len() && wants_issue_state(s, actor, r, #[trigger] rows[i]) implies at.contains(i) by {
            assert(keep(rows[i]));
        }
    }
    assert(more == (found.len() > at.len()));
    at
}

/// Whether a listing of project statuses asks for this row.
pub open spec fn wants_status(s: Store, r: ListProjectStatusesRequest, row: ProjectStatus) -> bool {
    &&& row.organization_id@ == r.organization_id@
    &&& row.row_seq > position(r.after)
}

/// A page of project statuses shows exactly those, in the order of the rows, from the first after the
/// cursor on, as many as the limit admits; the cursor says where it goes on: those of the
/// organization, whose catalog is set up then.
#[verifier::rlimit(40)]
pub proof fn law_listed_statuses_are_those_asked_for(
    before: Store,
    after: Store,
    ids: StatusIds,
    r: ListProjectStatusesRequest,
    page: Page<ProjectStatusValue>,
) -> (at: Seq<int>)
    requires
        project_status::list_project_statuses_outcome(
            before,
            after,
            r,
            ids,
            Ok::<Page<ProjectStatusValue>, StorageError>(page),
        ),
    ensures
        at.len() == page.items@.len(),
        page.items@.len() <= r.limit || page.items@.len() == 0,
        forall|k: int|
            0 <= k < at.len() ==> 0 <= #[trigger] at[k] < after.project_statuses@.len() && wants_status(after, r, after.project_statuses@[at[k]]),
        forall|k: int|
            0 <= k < at.len() ==> catalogs::shows_status(after.project_statuses@[at[k]], #[trigger] page.items@[k]),
        forall|k: int, l: int| 0 <= k < l < at.len() ==> #[trigger] at[k] < #[trigger] at[l],
        forall|i: int|
            0 <= i < after.project_statuses@.len() && wants_status(after, r, #[trigger] after.project_statuses@[i]) ==> at.contains(i)
                || left_out(at, r.limit as int, i),
        forall|k: int|
            0 <= k < page.items@.len() ==> {
                let item = #[trigger] page.items@[k];
                &&& item.organization_id@ == r.organization_id@
            },
        goes_on(
            page.next_cursor,
            at,
            r.limit as int,
            after.project_statuses@[at[at.len() - 1]].row_seq as int,
            exists|i: int|
                0 <= i < after.project_statuses@.len() && wants_status(after, r, #[trigger] after.project_statuses@[i])
                    && !at.contains(i),
        ),
{
    let keep = project_status::is_listed_status(r.organization_id@, validate::cursor_value(text::text_of(r.after))->0);
    assert forall|row: ProjectStatus| #[trigger] keep(row) == wants_status(after, r, row) by {}
    let rows = after.project_statuses@;
    let at = lemma_shown_places(rows, keep, r.limit as int, page.items@, project_status::shows_status());
    assert forall|k: int| 0 <= k < at.len() implies 0 <= #[trigger] at[k] < rows.len() && wants_status(after, r, rows[at[k]]) by {
        assert(keep(rows[at[k]]));
    }
    assert forall|i: int| 0 <= i < rows.len() && wants_status(after, r, #[trigger] rows[i]) implies at.contains(i)
        || left_out(at, r.limit as int, i) by {
        assert(keep(rows[i]));
    }
    assert forall|k: int| 0 <= k < page.items@.len() implies catalogs::shows_status(rows[at[k]], #[trigger] page.items@[k])
        && wants_status(after, r, rows[at[k]]) by {
        assert(keep(rows[at[k]]));
    }
    let found = rows.filter(keep);
    let more = exists|i: int| 0 <= i < rows.len() && wants_status(after, r, #[trigger] rows[i]) && !at.contains(i);
    if found.len() > at.len() {
        let i = choose|i: int| 0 <= i < rows.len() && keep(#[trigger] rows[i]) && !at.contains(i);
        assert(wants_status(after, r, rows[i]));
    } else {
        assert forall|i: int| 0 <= i < rows.len() && wants_status(after, r, #[trigger] rows[i]) implies at.contains(i) by {
            assert(keep(rows[i]));
        }
    }
    assert(more == (found.len() > at.len()));
    at
}

} // verus!
