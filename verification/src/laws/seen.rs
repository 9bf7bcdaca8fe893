//! Who sees what, said of the rows alone.
use crate::failure::DomainFailure;
use crate::model::Issue;
use crate::store::Store;
use crate::store;
use crate::table;
use vstd::prelude::*;

verus! {

/// Whether this is the first row of the team.
pub open spec fn team_row(s: Store, t: int, organization: Seq<char>, team: Seq<char>) -> bool {
    &&& 0 <= t < s.teams@.len()
    &&& s.teams@[t].organization_id@ == organization
    &&& s.teams@[t].team_id@ == team
    &&& forall|u: int|
        0 <= u < t ==> !((#[trigger] s.teams@[u]).organization_id@ == organization
            && s.teams@[u].team_id@ == team)
}

/// Whether this is the first row of the project.
pub open spec fn project_row(s: Store, p: int, organization: Seq<char>, project: Seq<char>) -> bool {
    &&& 0 <= p < s.projects@.len()
    &&& s.projects@[p].organization_id@ == organization
    &&& s.projects@[p].project_id@ == project
    &&& forall|u: int|
        0 <= u < p ==> !((#[trigger] s.projects@[u]).organization_id@ == organization
            && s.projects@[u].project_id@ == project)
}

/// Whether this is the first row of the issue.
pub open spec fn issue_row(s: Store, i: int, organization: Seq<char>, issue: Seq<char>) -> bool {
    &&& 0 <= i < s.issues@.len()
    &&& s.issues@[i].organization_id@ == organization
    &&& s.issues@[i].issue_id@ == issue
    &&& forall|u: int|
        0 <= u < i ==> !((#[trigger] s.issues@[u]).organization_id@ == organization
            && s.issues@[u].issue_id@ == issue)
}

/// Whether an active membership of the subject in the team is on record.
pub open spec fn belongs(s: Store, organization: Seq<char>, team: Seq<char>, subject: Seq<char>) -> bool {
    exists|m: int|
        {
            &&& 0 <= m < s.team_members@.len()
            &&& (#[trigger] s.team_members@[m]).organization_id@ == organization
            &&& s.team_members@[m].team_id@ == team
            &&& s.team_members@[m].subject@ == subject
            &&& s.team_members@[m].active
        }
}

/// Whether the team exists.
pub open spec fn team_exists(s: Store, organization: Seq<char>, team: Seq<char>) -> bool {
    exists|t: int| #[trigger] team_row(s, t, organization, team)
}

/// Whether the project exists.
pub open spec fn project_exists(s: Store, organization: Seq<char>, project: Seq<char>) -> bool {
    exists|p: int| #[trigger] project_row(s, p, organization, project)
}

/// Whether the team is private, and the subject does not belong to it.
pub open spec fn closed_team(s: Store, organization: Seq<char>, team: Seq<char>, subject: Seq<char>) -> bool {
    exists|t: int|
        #[trigger] team_row(s, t, organization, team) && s.teams@[t].private && !belongs(
            s,
            organization,
            team,
            subject,
        )
}

/// Whether one of these teams is closed to the subject.
pub open spec fn closed_among(s: Store, organization: Seq<char>, teams: Seq<String>, subject: Seq<char>) -> bool {
    exists|k: int|
        0 <= k < teams.len() && closed_team(s, organization, (#[trigger] teams[k])@, subject)
}

/// Whether the project has a team that is closed to the subject.
pub open spec fn closed_project(s: Store, organization: Seq<char>, project: Seq<char>, subject: Seq<char>) -> bool {
    exists|p: int|
        #[trigger] project_row(s, p, organization, project) && closed_among(
            s,
            organization,
            s.projects@[p].team_ids@,
            subject,
        )
}

/// Whether the subject can see the issue: its team exists and is open to it, and so is every team of
/// its project.
pub open spec fn open_issue(s: Store, row: Issue, subject: Seq<char>) -> bool {
    &&& team_exists(s, row.organization_id@, row.team_id@)
    &&& !closed_team(s, row.organization_id@, row.team_id@, subject)
    &&& !closed_project(s, row.organization_id@, row.project_id@, subject)
}

pub proof fn lemma_team_row(s: Store, organization: Seq<char>, team: Seq<char>)
    ensures
        match s.team_at(organization, team) {
            Some(t) => team_row(s, t, organization, team),
            None => !team_exists(s, organization, team),
        },
        forall|t: int| #[trigger]
            team_row(s, t, organization, team) ==> s.team_at(organization, team) == Some(t),
        s.team_at(organization, team) is Some == team_exists(s, organization, team),
{
    let keep = store::is_team(organization, team);
    table::lemma_first_where(s.teams@, keep);
    assert forall|t: int| #[trigger] team_row(s, t, organization, team) implies s.team_at(
        organization,
        team,
    ) == Some(t) by {
        assert(keep(s.teams@[t]));
        let f = s.team_at(organization, team)->0;
        if f < t {
            assert(keep(s.teams@[f]));
        }
    }
    if let Some(t) = s.team_at(organization, team) {
        assert forall|u: int| 0 <= u < t implies !((
        #[trigger] s.teams@[u]).organization_id@ == organization && s.teams@[u].team_id@ == team) by {
            assert(!keep(s.teams@[u]));
        }
        assert(keep(s.teams@[t]));
        assert(team_row(s, t, organization, team));
    }
}

pub proof fn lemma_project_row(s: Store, organization: Seq<char>, project: Seq<char>)
    ensures
        match s.project_at(organization, project) {
            Some(p) => project_row(s, p, organization, project),
            None => !project_exists(s, organization, project),
        },
        forall|p: int| #[trigger]
            project_row(s, p, organization, project) ==> s.project_at(organization, project) == Some(
                p,
            ),
        s.project_at(organization, project) is Some == project_exists(s, organization, project),
{
    let keep = store::is_project(organization, project);
    table::lemma_first_where(s.projects@, keep);
    assert forall|p: int| #[trigger] project_row(s, p, organization, project) implies s.project_at(
        organization,
        project,
    ) == Some(p) by {
        assert(keep(s.projects@[p]));
        let f = s.project_at(organization, project)->0;
        if f < p {
            assert(keep(s.projects@[f]));
        }
    }
    if let Some(p) = s.project_at(organization, project) {
        assert forall|u: int| 0 <= u < p implies !((
        #[trigger] s.projects@[u]).organization_id@ == organization && s.projects@[u].project_id@
            == project) by {
            assert(!keep(s.projects@[u]));
        }
        assert(keep(s.projects@[p]));
        assert(project_row(s, p, organization, project));
    }
}

pub proof fn lemma_issue_row(s: Store, organization: Seq<char>, issue: Seq<char>)
    ensures
        match s.issue_at(organization, issue) {
            Some(i) => issue_row(s, i, organization, issue),
            None => forall|i: int| !(#[trigger] issue_row(s, i, organization, issue)),
        },
        forall|i: int| #[trigger]
            issue_row(s, i, organization, issue) ==> s.issue_at(organization, issue) == Some(i),
{
    let keep = store::is_issue(organization, issue);
    table::lemma_first_where(s.issues@, keep);
    assert forall|i: int| #[trigger] issue_row(s, i, organization, issue) implies s.issue_at(
        organization,
        issue,
    ) == Some(i) by {
        assert(keep(s.issues@[i]));
        let f = s.issue_at(organization, issue)->0;
        if f < i {
            assert(keep(s.issues@[f]));
        }
    }
    if let Some(i) = s.issue_at(organization, issue) {
        assert forall|u: int| 0 <= u < i implies !((
        #[trigger] s.issues@[u]).organization_id@ == organization && s.issues@[u].issue_id@ == issue) by {
            assert(!keep(s.issues@[u]));
        }
        assert(keep(s.issues@[i]));
    }
}

/// A team is hidden from a subject exactly where it is private and no active membership of the
/// subject in it is on record.
pub proof fn law_hidden_is_private_without_membership(
    s: Store,
    organization: Seq<char>,
    team: Seq<char>,
    subject: Seq<char>,
)
    ensures
        s.hidden_team(organization, team, subject) == closed_team(s, organization, team, subject),
        s.member(organization, team, subject) == belongs(s, organization, team, subject),
{
    lemma_team_row(s, organization, team);
    let keep = store::is_active_member(organization, team, subject);
    if s.member(organization, team, subject) {
        let m = choose|m: int| 0 <= m < s.team_members@.len() && keep(#[trigger] s.team_members@[m]);
        assert(s.team_members@[m].organization_id@ == organization);
    }
    if belongs(s, organization, team, subject) {
        let m = choose|m: int|
            {
                &&& 0 <= m < s.team_members@.len()
                &&& (#[trigger] s.team_members@[m]).organization_id@ == organization
                &&& s.team_members@[m].team_id@ == team
                &&& s.team_members@[m].subject@ == subject
                &&& s.team_members@[m].active
            };
        assert(keep(s.team_members@[m]));
    }
}

/// A project is hidden from a subject exactly where one of its teams is.
pub proof fn law_hidden_project_has_a_hidden_team(
    s: Store,
    organization: Seq<char>,
    project: Seq<char>,
    subject: Seq<char>,
)
    ensures
        s.hidden_project(organization, project, subject) == closed_project(
            s,
            organization,
            project,
            subject,
        ),
{
    lemma_project_row(s, organization, project);
    if let Some(p) = s.project_at(organization, project) {
        lemma_hidden_among(s, organization, s.projects@[p].team_ids@, subject);
    }
}

pub proof fn lemma_hidden_among(s: Store, organization: Seq<char>, teams: Seq<String>, subject: Seq<char>)
    ensures
        s.hidden_among(organization, teams, subject) == closed_among(s, organization, teams, subject),
{
    assert forall|k: int| 0 <= k < teams.len() implies s.hidden_team(
        organization,
        (#[trigger] teams[k])@,
        subject,
    ) == closed_team(s, organization, teams[k]@, subject) by {
        law_hidden_is_private_without_membership(s, organization, teams[k]@, subject);
    }
    if s.hidden_among(organization, teams, subject) {
        let k = choose|k: int|
            0 <= k < teams.len() && s.hidden_team(organization, (#[trigger] teams[k])@, subject);
        assert(closed_team(s, organization, teams[k]@, subject));
    }
    if closed_among(s, organization, teams, subject) {
        let k = choose|k: int|
            0 <= k < teams.len() && closed_team(s, organization, (#[trigger] teams[k])@, subject);
        assert(s.hidden_team(organization, teams[k]@, subject));
    }
}

pub proof fn lemma_open_issue(s: Store, row: Issue, subject: Seq<char>)
    ensures
        open_issue(s, row, subject) == (s.team_at(row.organization_id@, row.team_id@) is Some
            && s.sees_issue(row, subject)),
{
    lemma_team_row(s, row.organization_id@, row.team_id@);
    law_hidden_is_private_without_membership(s, row.organization_id@, row.team_id@, subject);
    law_hidden_project_has_a_hidden_team(s, row.organization_id@, row.project_id@, subject);
}

/// A project is refused exactly where it does not exist, as not found, or where one of its teams is
/// closed to the subject, as private.
pub proof fn law_project_refusals(
    s: Store,
    organization: Seq<char>,
    project: Seq<char>,
    subject: Seq<char>,
)
    ensures
        s.project_refusal(organization, project, subject) == if !project_exists(
            s,
            organization,
            project,
        ) {
            Some(DomainFailure::NotFound)
        } else if closed_project(s, organization, project, subject) {
            Some(DomainFailure::PrivateTeam)
        } else {
            None
        },
{
    lemma_project_row(s, organization, project);
    law_hidden_project_has_a_hidden_team(s, organization, project, subject);
}

/// An issue is refused exactly where there is none, or none in a team, as not found, or where its
/// team or one of the teams of its project is closed to the subject, as private.
pub proof fn law_issue_refusals(s: Store, organization: Seq<char>, issue: Seq<char>, subject: Seq<char>)
    ensures
        match s.issue_refusal(organization, issue, subject) {
            None => exists|i: int| #[trigger]
                issue_row(s, i, organization, issue) && open_issue(s, s.issues@[i], subject),
            Some(DomainFailure::PrivateTeam) => exists|i: int| #[trigger]
                issue_row(s, i, organization, issue) && team_exists(
                    s,
                    organization,
                    s.issues@[i].team_id@,
                ) && !open_issue(s, s.issues@[i], subject),
            Some(failure) => failure == DomainFailure::NotFound && forall|i: int| #[trigger]
                issue_row(s, i, organization, issue) ==> !team_exists(
                    s,
                    organization,
                    s.issues@[i].team_id@,
                ),
        },
{
    lemma_issue_row(s, organization, issue);
    if let Some(i) = s.issue_at(organization, issue) {
        lemma_open_issue(s, s.issues@[i], subject);
        lemma_team_row(s, organization, s.issues@[i].team_id@);
        assert(issue_row(s, i, organization, issue));
    }
}

} // verus!
