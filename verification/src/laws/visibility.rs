//! Private teams stay private: who is not an active member neither reads nor changes what is in them.
use crate::collaboration;
use crate::failure::{DomainFailure, StorageError};
use crate::issues;
use crate::laws::history;
use crate::laws::history::{History, Step};
use crate::laws::pages;
use crate::model::{
    AddCommentRequest, ArchiveIssueRequest, Completion, GetIssueRequest, IssueValue,
    ListIssuesRequest, ListProjectsRequest, MoveIssueRequest, ProjectValue, SetTeamMemberRequest,
    TeamMember, TeamMemberValue, UpdateIssueRequest,
};
use crate::projects;
use crate::store;
use crate::store::{Invocation, Store, Verdict};
use crate::table;
use crate::table::Page;
use crate::teams;
use crate::text;
use crate::validate;
use vstd::prelude::*;

verus! {

/// Whether an issue is in a team that is hidden from the subject.
pub open spec fn issue_hidden(s: Store, organization: Seq<char>, issue: Seq<char>, subject: Seq<char>) -> bool {
    match s.issue_at(organization, issue) {
        Some(i) => s.hidden_team(organization, s.issues@[i].team_id@, subject),
        None => false,
    }
}

proof fn lemma_hidden_issue_is_refused(
    s: Store,
    organization: Seq<char>,
    issue: Seq<char>,
    subject: Seq<char>,
)
    requires
        issue_hidden(s, organization, issue, subject),
    ensures
        s.issue_refusal(organization, issue, subject) == Some(DomainFailure::PrivateTeam),
{
    table::lemma_first_where(s.issues@, store::is_issue(organization, issue));
}

/// An issue in a hidden team is not read, by whatever reference.
pub proof fn law_hidden_issue_is_not_read(
    s: Store,
    actor: Seq<char>,
    r: GetIssueRequest,
    id: Seq<char>,
    result: Result<IssueValue, StorageError>,
)
    requires
        issues::resolved_issue(s, r.organization_id@, r.issue_ref@) == Some(id),
        issue_hidden(s, r.organization_id@, id, actor),
        issues::get_issue_outcome(s, actor, r, result),
    ensures
        result == Err::<IssueValue, StorageError>(StorageError::Domain(DomainFailure::PrivateTeam)),
{
    lemma_hidden_issue_is_refused(s, r.organization_id@, id, actor);
}

/// Every issue that a listing shows is in a team and a project that the actor can see.
pub proof fn law_listed_issues_are_visible(
    s: Store,
    actor: Seq<char>,
    r: ListIssuesRequest,
    page: Page<IssueValue>,
    i: int,
)
    requires
        issues::list_issues_outcome(s, actor, r, Ok::<Page<IssueValue>, StorageError>(page)),
        0 <= i < page.items@.len(),
    ensures
        exists|k: int|
            0 <= k < s.issues@.len() && s.is_issue_value(#[trigger] s.issues@[k], page.items@[i])
                && s.issues@[k].organization_id@ == r.organization_id@ && s.sees_issue(
                s.issues@[k],
                actor,
            ),
{
    let after = validate::cursor_value(text::text_of(r.after))->0;
    let keep = issues::is_listed_issue(s, actor, r, after);
    let k = pages::lemma_found(s.issues@, keep, i);
    assert(issues::shows_issue(s)(s.issues@.filter(keep)[i], page.items@[i]));
}

/// Every project that a listing shows has no team that is hidden from the actor.
pub proof fn law_listed_projects_are_visible(
    s: Store,
    actor: Seq<char>,
    r: ListProjectsRequest,
    page: Page<ProjectValue>,
    i: int,
)
    requires
        projects::list_projects_outcome(s, actor, r, Ok::<Page<ProjectValue>, StorageError>(page)),
        0 <= i < page.items@.len(),
    ensures
        exists|k: int|
            0 <= k < s.projects@.len() && projects::is_project_value(
                #[trigger] s.projects@[k],
                page.items@[i],
            ) && !s.hidden_among(r.organization_id@, s.projects@[k].team_ids@, actor),
{
    let after = validate::cursor_value(text::text_of(r.after))->0;
    let keep = projects::is_listed_project(s, actor, r, after);
    let k = pages::lemma_found(s.projects@, keep, i);
    assert(projects::shows_project()(s.projects@.filter(keep)[i], page.items@[i]));
}

/// Nothing that an actor asks for changes an issue in a team that is hidden from it.
pub proof fn law_hidden_issue_is_not_changed(
    s: Store,
    call: Invocation,
    organization: Seq<char>,
    issue: Seq<char>,
    update: UpdateIssueRequest,
    moving: MoveIssueRequest,
    archival: ArchiveIssueRequest,
    comment: AddCommentRequest,
)
    requires
        issue_hidden(s, organization, issue, call.actor@),
        update.organization_id@ == organization && update.issue_id@ == issue,
        moving.organization_id@ == organization && moving.issue_id@ == issue,
        archival.organization_id@ == organization && archival.issue_id@ == issue,
        comment.organization_id@ == organization && comment.issue_id@ == issue,
    ensures
        issues::update_issue_verdict(s, call, update) == Verdict::Refuse(
            DomainFailure::PrivateTeam,
        ),
        issues::move_issue_verdict(s, call, moving) == Verdict::Refuse(DomainFailure::PrivateTeam),
        issues::archive_issue_verdict(s, call, archival) == Verdict::Refuse(
            DomainFailure::PrivateTeam,
        ),
        collaboration::add_comment_verdict(s, call, comment) == Verdict::Refuse(
            DomainFailure::PrivateTeam,
        ),
{
    lemma_hidden_issue_is_refused(s, organization, issue, call.actor@);
}

/// A public team is hidden from nobody, and no team is hidden from its active members.
pub proof fn law_members_see_their_team(
    s: Store,
    organization: Seq<char>,
    team: Seq<char>,
    subject: Seq<char>,
)
    ensures
        s.member(organization, team, subject) ==> !s.hidden_team(organization, team, subject),
        s.team_at(organization, team) is Some && !s.teams@[s.team_at(
            organization,
            team,
        )->0].private ==> !s.hidden_team(organization, team, subject),
{
}

/// Whether no subject is on record twice for a team.
pub open spec fn members_unique(s: Store) -> bool {
    forall|i: int, j: int|
        0 <= i < j < s.team_members@.len() ==> !same_member(
            #[trigger] s.team_members@[i],
            #[trigger] s.team_members@[j],
        )
}

/// Whether two records speak of the same subject and team.
pub open spec fn same_member(a: TeamMember, b: TeamMember) -> bool {
    a.organization_id@ == b.organization_id@ && a.team_id@ == b.team_id@ && a.subject@ == b.subject@
}

/// Setting a membership decides at once whether the subject is a member, and keeps one record for
/// each subject of a team.
pub proof fn law_membership_is_what_was_set(
    before: Store,
    after: Store,
    call: Invocation,
    r: SetTeamMemberRequest,
    value: TeamMemberValue,
)
    requires
        members_unique(before),
        teams::set_team_member_outcome(
            before,
            after,
            call,
            r,
            Ok::<Completion<TeamMemberValue>, StorageError>(Completion::Fresh(value)),
        ),
    ensures
        after.member(r.organization_id@, r.team_id@, r.subject@) == r.active,
        members_unique(after),
{
    let keep = store::is_member(r.organization_id@, r.team_id@, r.subject@);
    let active = store::is_active_member(r.organization_id@, r.team_id@, r.subject@);
    table::lemma_first_where(before.team_members@, keep);
    let rows = after.team_members@;
    let at = match before.member_at(r.organization_id@, r.team_id@, r.subject@) {
        Some(i) => i,
        None => rows.len() - 1,
    };
    assert(keep(rows[at]) && rows[at].active == r.active);
    assert forall|i: int, j: int| 0 <= i < j < rows.len() implies !same_member(
        #[trigger] rows[i],
        #[trigger] rows[j],
    ) by {
        if before.member_at(r.organization_id@, r.team_id@, r.subject@) is None {
            assert(rows.drop_last()[i] == rows[i]);
            assert(rows[i] == before.team_members@[i]);
            if j < at {
                assert(rows.drop_last()[j] == rows[j]);
                assert(rows[j] == before.team_members@[j]);
            } else {
                assert(!keep(before.team_members@[i]));
            }
        } else {
            assert(!same_member(before.team_members@[i], before.team_members@[j]));
        }
    }
    if r.active {
        assert(active(rows[at]));
    } else if after.member(r.organization_id@, r.team_id@, r.subject@) {
        let k = choose|k: int| 0 <= k < rows.len() && active(#[trigger] rows[k]);
        if k < at {
            assert(!same_member(rows[k], rows[at]));
        } else if at < k {
            assert(!same_member(rows[at], rows[k]));
        }
    }
}

/// No operation puts a subject on record twice for a team.
#[verifier::spinoff_prover]
#[verifier::rlimit(60)]
pub proof fn law_every_operation_keeps_members_unique(before: Store, after: Store, step: Step)
    requires
        members_unique(before),
        history::takes(before, after, step),
    ensures
        members_unique(after),
{
    match step {
        Step::SetTeamMember { call, r, result } => {
            if let Ok(Completion::Fresh(value)) = result {
                law_membership_is_what_was_set(before, after, call, r, value);
            }
        },
        _ => {},
    }
}

/// Over any operations from an empty store, no subject is on record twice for a team.
pub proof fn law_members_are_always_unique(history: History, k: int)
    requires
        history.starts_empty(),
        0 <= k < history.stores.len(),
    ensures
        members_unique(history.stores[k]),
    decreases k,
{
    if k > 0 {
        law_members_are_always_unique(history, k - 1);
        assert(history.steps_on(k - 1));
        law_every_operation_keeps_members_unique(
            history.stores[k - 1],
            history.stores[k],
            history.steps[k - 1],
        );
    }
}

} // verus!
