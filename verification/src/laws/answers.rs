//! How the changes of issues, comments, relations and projects end.
use crate::collaboration;
use crate::failure::{DomainFailure, StorageError};
use crate::issues;
use crate::laws::hierarchy;
use crate::laws::seen;
use crate::model::{
    AddCommentRequest, AddIssueRelationRequest, ArchiveIssueRequest, ArchiveProjectRequest,
    AssigneeValue, Comment, CommentValue, Completion, CreateIssueRequest,
    CreateProjectUpdateRequest, DeleteCommentRequest, ExternalLinkValue, Issue, IssueRelation,
    IssueValue, MoveIssueRequest, Project, ProjectUpdateValue, ProjectValue, PutExternalLinkRequest,
    RelationValue, RemoveIssueRelationRequest, SetIssueAssigneeRequest, Team, UpdateCommentRequest,
    UpdateIssueRequest,
};
use crate::projects;
use crate::store::{Invocation, Store};
use crate::store;
use crate::table;
use crate::text;
use crate::validate;
use vstd::prelude::*;

verus! {

/// Whether a mutation was refused for this reason.
pub open spec fn refused<T>(result: Result<Completion<T>, StorageError>, reason: DomainFailure) -> bool {
    result matches Err(StorageError::Domain(failure)) && failure == reason
}

/// Whether a mutation failed for want of a number, or because an earlier run of it is not completed.
pub open spec fn faulted<T>(result: Result<Completion<T>, StorageError>) -> bool {
    result matches Err(StorageError::Runtime(_))
}

/// Whether a mutation took effect now.
pub open spec fn took_effect<T>(result: Result<Completion<T>, StorageError>) -> bool {
    result matches Ok(Completion::Fresh(_))
}

/// Whether this is the first receipt of the command.
pub open spec fn receipt_row(s: Store, c: int, call: Invocation, operation: Seq<char>, key: Seq<char>) -> bool {
    &&& 0 <= c < s.commands@.len()
    &&& s.commands@[c].caller@ == call.caller@
    &&& s.commands@[c].actor@ == call.actor@
    &&& s.commands@[c].operation@ == operation
    &&& s.commands@[c].idempotency_key@ == key
    &&& forall|d: int|
        0 <= d < c ==> !((#[trigger] s.commands@[d]).caller@ == call.caller@ && s.commands@[d].actor@
            == call.actor@ && s.commands@[d].operation@ == operation
            && s.commands@[d].idempotency_key@ == key)
}

/// Whether the same caller ran the operation for the same actor under this key before.
pub open spec fn key_used(s: Store, call: Invocation, operation: Seq<char>, key: Seq<char>) -> bool {
    exists|c: int| #[trigger] receipt_row(s, c, call, operation, key)
}

/// Whether a command that was run before is answered from its receipt: refused where the request is
/// another one, else with the response that was completed.
pub open spec fn answered_before<T>(
    s: Store,
    call: Invocation,
    operation: Seq<char>,
    key: Seq<char>,
    result: Result<Completion<T>, StorageError>,
) -> bool {
    exists|c: int| #[trigger]
        receipt_row(s, c, call, operation, key) && if s.commands@[c].request@ != call.request_json@ {
            refused(result, DomainFailure::IdempotencyConflict)
        } else {
            match s.commands@[c].response {
                Some(response) => result matches Ok(Completion::Replayed(text)) && text@ == response@,
                None => faulted(result),
            }
        }
}

pub proof fn lemma_key_used<T>(
    s: Store,
    call: Invocation,
    operation: Seq<char>,
    key: Seq<char>,
    result: Result<Completion<T>, StorageError>,
)
    ensures
        key_used(s, call, operation, key) == (s.command_verdict(call, operation, key) !is Proceed),
        key_used(s, call, operation, key) && store::settles(
            s.command_verdict(call, operation, key),
            result,
        ) ==> answered_before(s, call, operation, key, result),
{
    let keep = store::is_command(call.caller@, call.actor@, operation, key);
    table::lemma_first_where(s.commands@, keep);
    if key_used(s, call, operation, key) {
        let c = choose|c: int| #[trigger] receipt_row(s, c, call, operation, key);
        assert(keep(s.commands@[c]));
        let f = s.command_at(call.caller@, call.actor@, operation, key)->0;
        assert(keep(s.commands@[f]));
    }
    if let Some(c) = s.command_at(call.caller@, call.actor@, operation, key) {
        assert(keep(s.commands@[c]));
        assert forall|d: int| 0 <= d < c implies !((#[trigger] s.commands@[d]).caller@ == call.caller@
            && s.commands@[d].actor@ == call.actor@ && s.commands@[d].operation@ == operation
            && s.commands@[d].idempotency_key@ == key) by {
            assert(!keep(s.commands@[d]));
        }
        assert(receipt_row(s, c, call, operation, key));
    }
}

/// Whether the issue exists in a team that exists.
pub open spec fn issue_found(s: Store, organization: Seq<char>, issue: Seq<char>) -> bool {
    exists|i: int| #[trigger]
        seen::issue_row(s, i, organization, issue) && seen::team_exists(
            s,
            organization,
            s.issues@[i].team_id@,
        )
}

/// The issue with this id.
pub open spec fn the_issue(s: Store, organization: Seq<char>, issue: Seq<char>) -> Issue {
    s.issues@[choose|i: int| #[trigger] seen::issue_row(s, i, organization, issue)]
}

/// The team with this id.
pub open spec fn the_team(s: Store, organization: Seq<char>, team: Seq<char>) -> Team {
    s.teams@[choose|t: int| #[trigger] seen::team_row(s, t, organization, team)]
}

/// The project with this id.
pub open spec fn the_project(s: Store, organization: Seq<char>, project: Seq<char>) -> Project {
    s.projects@[choose|p: int| #[trigger] seen::project_row(s, p, organization, project)]
}

pub proof fn lemma_issue(s: Store, organization: Seq<char>, issue: Seq<char>, subject: Seq<char>)
    ensures
        s.issue_at(organization, issue) is Some ==> the_issue(s, organization, issue)
            == s.issues@[s.issue_at(organization, issue)->0],
        s.issue_refusal(organization, issue, subject) == if !issue_found(s, organization, issue) {
            Some(DomainFailure::NotFound)
        } else if !seen::open_issue(s, the_issue(s, organization, issue), subject) {
            Some(DomainFailure::PrivateTeam)
        } else {
            None
        },
        issue_found(s, organization, issue) ==> s.issue_at(organization, issue) is Some,
        s.issue_at(organization, issue) is Some ==> s.issues@[s.issue_at(
            organization,
            issue,
        )->0].organization_id@ == organization && s.issues@[s.issue_at(
            organization,
            issue,
        )->0].issue_id@ == issue,
{
    seen::lemma_issue_row(s, organization, issue);
    if let Some(i) = s.issue_at(organization, issue) {
        assert(seen::issue_row(s, i, organization, issue));
        seen::lemma_open_issue(s, s.issues@[i], subject);
        seen::lemma_team_row(s, organization, s.issues@[i].team_id@);
    }
}

pub proof fn lemma_team(s: Store, organization: Seq<char>, team: Seq<char>, subject: Seq<char>)
    ensures
        s.team_at(organization, team) is Some == seen::team_exists(s, organization, team),
        s.team_at(organization, team) is Some ==> the_team(s, organization, team)
            == s.teams@[s.team_at(organization, team)->0],
        s.hidden_team(organization, team, subject) == seen::closed_team(
            s,
            organization,
            team,
            subject,
        ),
{
    seen::lemma_team_row(s, organization, team);
    seen::law_hidden_is_private_without_membership(s, organization, team, subject);
}

pub proof fn lemma_project(s: Store, organization: Seq<char>, project: Seq<char>, subject: Seq<char>)
    ensures
        s.project_at(organization, project) is Some == seen::project_exists(
            s,
            organization,
            project,
        ),
        s.project_at(organization, project) is Some ==> the_project(s, organization, project)
            == s.projects@[s.project_at(organization, project)->0],
        s.project_refusal(organization, project, subject) == if !seen::project_exists(
            s,
            organization,
            project,
        ) {
            Some(DomainFailure::NotFound)
        } else if seen::closed_project(s, organization, project, subject) {
            Some(DomainFailure::PrivateTeam)
        } else {
            None
        },
{
    seen::lemma_project_row(s, organization, project);
    seen::law_project_refusals(s, organization, project, subject);
}

/// Whether the team is one of those of the project.
pub open spec fn in_project(s: Store, organization: Seq<char>, project: Seq<char>, team: Seq<char>) -> bool {
    exists|p: int| #[trigger]
        seen::project_row(s, p, organization, project) && exists|k: int|
            0 <= k < s.projects@[p].team_ids@.len() && (#[trigger] s.projects@[p].team_ids@[k])@ == team
}

/// Whether a cycle that is named is one of the team.
pub open spec fn cycle_known(s: Store, organization: Seq<char>, team: Seq<char>, cycle: Option<String>) -> bool {
    cycle matches Some(id) ==> exists|c: int|
        {
            &&& 0 <= c < s.cycles@.len()
            &&& (#[trigger] s.cycles@[c]).organization_id@ == organization
            &&& s.cycles@[c].team_id@ == team
            &&& s.cycles@[c].cycle_id@ == id@
        }
}

/// Whether a milestone that is named is one of the project.
pub open spec fn milestone_known(s: Store, organization: Seq<char>, project: Seq<char>, milestone: Option<String>) -> bool {
    milestone matches Some(id) ==> exists|m: int|
        {
            &&& 0 <= m < s.milestones@.len()
            &&& (#[trigger] s.milestones@[m]).organization_id@ == organization
            &&& s.milestones@[m].project_id@ == project
            &&& s.milestones@[m].milestone_id@ == id@
        }
}

/// Whether a parent that is named is an issue of the project.
pub open spec fn parent_known(s: Store, organization: Seq<char>, project: Seq<char>, parent: Option<String>) -> bool {
    parent matches Some(id) ==> exists|i: int| #[trigger]
        seen::issue_row(s, i, organization, id@) && s.issues@[i].project_id@ == project
}

/// Whether this is the first label with this id, and of no team or of this one.
pub open spec fn label_fits(s: Store, l: int, organization: Seq<char>, team: Seq<char>, label: Seq<char>) -> bool {
    &&& 0 <= l < s.labels@.len()
    &&& s.labels@[l].organization_id@ == organization
    &&& s.labels@[l].label_id@ == label
    &&& forall|m: int|
        0 <= m < l ==> !((#[trigger] s.labels@[m]).organization_id@ == organization
            && s.labels@[m].label_id@ == label)
    &&& s.labels@[l].team_id matches Some(owner) ==> owner@ == team
}

/// Whether the labels differ from each other, and every one can be on an issue of the team.
pub open spec fn labels_known(s: Store, organization: Seq<char>, team: Seq<char>, labels: Seq<String>) -> bool {
    &&& forall|j: int, k: int|
        0 <= j < k < labels.len() ==> (#[trigger] labels[j])@ != (#[trigger] labels[k])@
    &&& forall|k: int|
        0 <= k < labels.len() ==> label_known(s, organization, team, (#[trigger] labels[k])@)
}

/// Whether the label can be on an issue of the team.
pub open spec fn label_known(s: Store, organization: Seq<char>, team: Seq<char>, label: Seq<char>) -> bool {
    exists|l: int| #[trigger] label_fits(s, l, organization, team, label)
}

/// Whether an issue of the team can be in the state: the team exists, and its first state with this id
/// is not archived.
pub open spec fn state_usable(s: Store, organization: Seq<char>, team: Seq<char>, state: Seq<char>) -> bool {
    &&& seen::team_exists(s, organization, team)
    &&& exists|k: int| #[trigger]
        state_row(s, k, organization, team, state) && !s.workflow_states@[k].archived
}

/// Whether this is the first state of the team with this id.
pub open spec fn state_row(s: Store, k: int, organization: Seq<char>, team: Seq<char>, state: Seq<char>) -> bool {
    &&& 0 <= k < s.workflow_states@.len()
    &&& s.workflow_states@[k].organization_id@ == organization
    &&& s.workflow_states@[k].team_id@ == team
    &&& s.workflow_states@[k].state_id@ == state
    &&& forall|u: int|
        0 <= u < k ==> !((#[trigger] s.workflow_states@[u]).organization_id@ == organization
            && s.workflow_states@[u].team_id@ == team && s.workflow_states@[u].state_id@ == state)
}

/// The state that a new issue of the team gets: the requested one, or the team's default.
pub open spec fn wanted_state(s: Store, organization: Seq<char>, team: Seq<char>, requested: Option<String>) -> Seq<char> {
    match requested {
        Some(id) => id@,
        None => the_team(s, organization, team).default_workflow_state_id@,
    }
}

pub proof fn lemma_in_project(s: Store, organization: Seq<char>, project: Seq<char>, team: Seq<char>)
    ensures
        s.attached(organization, project, team) == in_project(s, organization, project, team),
{
    seen::lemma_project_row(s, organization, project);
    if let Some(p) = s.project_at(organization, project) {
        assert(seen::project_row(s, p, organization, project));
    }
}

pub proof fn lemma_dependencies(
    s: Store,
    organization: Seq<char>,
    project: Seq<char>,
    team: Seq<char>,
    cycle: Option<String>,
    milestone: Option<String>,
    parent: Option<String>,
    labels: Seq<String>,
)
    ensures
        s.dependency_refusal(
            organization,
            project,
            team,
            text::text_of(cycle),
            text::text_of(milestone),
            text::text_of(parent),
            labels,
        ) == if !in_project(s, organization, project, team) {
            Some(DomainFailure::TeamNotFound)
        } else if !cycle_known(s, organization, team, cycle) {
            Some(DomainFailure::CycleNotFound)
        } else if !milestone_known(s, organization, project, milestone) {
            Some(DomainFailure::MilestoneNotFound)
        } else if !parent_known(s, organization, project, parent) {
            Some(DomainFailure::ParentNotFound)
        } else if !labels_known(s, organization, team, labels) {
            Some(DomainFailure::LabelNotFound)
        } else {
            None
        },
{
    lemma_in_project(s, organization, project, team);
    if let Some(id) = cycle {
        lemma_cycle(s, organization, team, id@);
    }
    if let Some(id) = milestone {
        lemma_milestone(s, organization, project, id@);
    }
    if let Some(id) = parent {
        seen::lemma_issue_row(s, organization, id@);
        if let Some(i) = s.issue_at(organization, id@) {
            assert(seen::issue_row(s, i, organization, id@));
        }
    }
    assert forall|k: int| 0 <= k < labels.len() implies s.usable_label(
        organization,
        team,
        (#[trigger] labels[k])@,
    ) == label_known(s, organization, team, labels[k]@) by {
        lemma_label(s, organization, team, labels[k]@);
    }
}

pub proof fn lemma_cycle(s: Store, organization: Seq<char>, team: Seq<char>, id: Seq<char>)
    ensures
        s.cycle_at(organization, team, id) is Some == exists|c: int|
            {
                &&& 0 <= c < s.cycles@.len()
                &&& (#[trigger] s.cycles@[c]).organization_id@ == organization
                &&& s.cycles@[c].team_id@ == team
                &&& s.cycles@[c].cycle_id@ == id
            },
{
    let keep = store::is_cycle(organization, team, id);
    table::lemma_first_where(s.cycles@, keep);
    if let Some(c) = s.cycle_at(organization, team, id) {
        assert(keep(s.cycles@[c]));
        assert(s.cycles@[c].organization_id@ == organization);
    } else {
        assert forall|c: int| 0 <= c < s.cycles@.len() implies !((
        #[trigger] s.cycles@[c]).organization_id@ == organization && s.cycles@[c].team_id@ == team
            && s.cycles@[c].cycle_id@ == id) by {
            assert(!keep(s.cycles@[c]));
        }
    }
}

pub proof fn lemma_milestone(s: Store, organization: Seq<char>, project: Seq<char>, id: Seq<char>)
    ensures
        s.milestone_at(organization, project, id) is Some == exists|m: int|
            {
                &&& 0 <= m < s.milestones@.len()
                &&& (#[trigger] s.milestones@[m]).organization_id@ == organization
                &&& s.milestones@[m].project_id@ == project
                &&& s.milestones@[m].milestone_id@ == id
            },
{
    let keep = store::is_milestone(organization, project, id);
    table::lemma_first_where(s.milestones@, keep);
    if let Some(m) = s.milestone_at(organization, project, id) {
        assert(keep(s.milestones@[m]));
        assert(s.milestones@[m].organization_id@ == organization);
    } else {
        assert forall|m: int| 0 <= m < s.milestones@.len() implies !((
        #[trigger] s.milestones@[m]).organization_id@ == organization && s.milestones@[m].project_id@
            == project && s.milestones@[m].milestone_id@ == id) by {
            assert(!keep(s.milestones@[m]));
        }
    }
}

pub proof fn lemma_label(s: Store, organization: Seq<char>, team: Seq<char>, label: Seq<char>)
    ensures
        s.usable_label(organization, team, label) == label_known(s, organization, team, label),
{
    let keep = store::is_label(organization, label);
    table::lemma_first_where(s.labels@, keep);
    if label_known(s, organization, team, label) {
        let l = choose|l: int| #[trigger] label_fits(s, l, organization, team, label);
        assert(keep(s.labels@[l]));
        let f = s.label_at(organization, label)->0;
        assert(keep(s.labels@[f]));
        assert(f == l);
    }
    if let Some(l) = s.label_at(organization, label) {
        assert(keep(s.labels@[l]));
        assert forall|m: int| 0 <= m < l implies !((
        #[trigger] s.labels@[m]).organization_id@ == organization && s.labels@[m].label_id@ == label) by {
            assert(!keep(s.labels@[m]));
        }
        if s.usable_label(organization, team, label) {
            assert(label_fits(s, l, organization, team, label));
        }
    }
}

pub proof fn lemma_state(s: Store, organization: Seq<char>, team: Seq<char>, requested: Option<Seq<char>>)
    ensures
        s.resolved_state(organization, team, requested) is Some == state_usable(
            s,
            organization,
            team,
            match requested {
                Some(id) => id,
                None => the_team(s, organization, team).default_workflow_state_id@,
            },
        ),
{
    seen::lemma_team_row(s, organization, team);
    if let Some(t) = s.team_at(organization, team) {
        assert(seen::team_row(s, t, organization, team));
        let id = match requested {
            Some(id) => id,
            None => s.teams@[t].default_workflow_state_id@,
        };
        lemma_state_row(s, organization, team, id);
    }
}

pub proof fn lemma_state_row(s: Store, organization: Seq<char>, team: Seq<char>, state: Seq<char>)
    ensures
        match s.team_state_at(organization, team, state) {
            Some(k) => state_row(s, k, organization, team, state),
            None => forall|k: int| !(#[trigger] state_row(s, k, organization, team, state)),
        },
        forall|k: int| #[trigger]
            state_row(s, k, organization, team, state) ==> s.team_state_at(
                organization,
                team,
                state,
            ) == Some(k),
{
    let keep = store::is_team_state(organization, team, state);
    table::lemma_first_where(s.workflow_states@, keep);
    assert forall|k: int| #[trigger] state_row(s, k, organization, team, state) implies s.team_state_at(
        organization,
        team,
        state,
    ) == Some(k) by {
        assert(keep(s.workflow_states@[k]));
        let f = s.team_state_at(organization, team, state)->0;
        if f < k {
            assert(keep(s.workflow_states@[f]));
        }
    }
    if let Some(k) = s.team_state_at(organization, team, state) {
        assert(keep(s.workflow_states@[k]));
        assert forall|u: int| 0 <= u < k implies !((
        #[trigger] s.workflow_states@[u]).organization_id@ == organization
            && s.workflow_states@[u].team_id@ == team && s.workflow_states@[u].state_id@ == state) by {
            assert(!keep(s.workflow_states@[u]));
        }
    }
}

/// Whether an issue now has this identifier.
pub open spec fn identifier_taken(s: Store, organization: Seq<char>, identifier: Seq<char>) -> bool {
    exists|i: int|
        0 <= i < s.issues@.len() && (#[trigger] s.issues@[i]).organization_id@ == organization
            && s.issues@[i].identifier@ == identifier
}

/// Whether an issue has or had this identifier.
pub open spec fn identifier_known(s: Store, organization: Seq<char>, identifier: Seq<char>) -> bool {
    exists|a: int|
        0 <= a < s.aliases@.len() && (#[trigger] s.aliases@[a]).organization_id@ == organization
            && s.aliases@[a].identifier@ == identifier
}

pub proof fn lemma_identifier(s: Store, organization: Seq<char>, identifier: Seq<char>)
    ensures
        s.identified_at(organization, identifier) is Some == identifier_taken(
            s,
            organization,
            identifier,
        ),
        s.alias_at(organization, identifier) is Some == identifier_known(
            s,
            organization,
            identifier,
        ),
{
    let owns = store::is_identified(organization, identifier);
    table::lemma_first_where(s.issues@, owns);
    if let Some(i) = s.identified_at(organization, identifier) {
        assert(owns(s.issues@[i]));
        assert(s.issues@[i].organization_id@ == organization);
    } else {
        assert forall|i: int| 0 <= i < s.issues@.len() implies !((
        #[trigger] s.issues@[i]).organization_id@ == organization && s.issues@[i].identifier@
            == identifier) by {
            assert(!owns(s.issues@[i]));
        }
    }
    let owned = store::is_alias(organization, identifier);
    table::lemma_first_where(s.aliases@, owned);
    if let Some(a) = s.alias_at(organization, identifier) {
        assert(owned(s.aliases@[a]));
        assert(s.aliases@[a].organization_id@ == organization);
    } else {
        assert forall|a: int| 0 <= a < s.aliases@.len() implies !((
        #[trigger] s.aliases@[a]).organization_id@ == organization && s.aliases@[a].identifier@
            == identifier) by {
            assert(!owned(s.aliases@[a]));
        }
    }
}

/// The identifier that the next issue of the team gets.
pub open spec fn coming_identifier(s: Store, organization: Seq<char>, team: Seq<char>) -> Seq<char> {
    let row = the_team(s, organization, team);
    row.key@ + "-"@ + text::integer_text(row.next_issue_number as int)
}

/// Whether following the parents of one issue leads to another.
pub open spec fn descends(s: Store, organization: Seq<char>, below: Option<String>, issue: Seq<char>) -> bool {
    below matches Some(below) && exists|steps: nat|
        1 <= steps <= s.issues@.len() && #[trigger] hierarchy::ancestor(
            s,
            organization,
            below@,
            steps,
        ) == Some(issue)
}

pub proof fn lemma_descends(s: Store, organization: Seq<char>, issue: Seq<char>, parent: Option<String>)
    ensures
        s.would_cycle(organization, issue, text::text_of(parent)) == descends(
            s,
            organization,
            parent,
            issue,
        ),
{
    if let Some(below) = parent {
        if s.is_descendant(organization, below@, issue) {
            let steps = choose|steps: nat|
                1 <= steps <= s.issues@.len() && #[trigger] s.arrives(
                    organization,
                    below@,
                    issue,
                    steps,
                );
            hierarchy::lemma_climbs_is_ancestor(s, organization, below@, issue, steps);
            assert(hierarchy::ancestor(s, organization, below@, steps) == Some(issue));
        }
        if descends(s, organization, parent, issue) {
            let steps = choose|steps: nat|
                1 <= steps <= s.issues@.len() && #[trigger] hierarchy::ancestor(
                    s,
                    organization,
                    below@,
                    steps,
                ) == Some(issue);
            hierarchy::lemma_climbs_is_ancestor(s, organization, below@, issue, steps);
            assert(s.arrives(organization, below@, issue, steps));
        }
    }
}

/// The update of an issue ends as its first unmet condition says, and takes effect where all are met;
/// what does not take effect changes nothing. In their order: the issue exists; the actor can see it;
/// its team is in its project, and the cycle, the milestone, the parent and the labels of the request
/// can be on it; the expected revision is a number; the key was not used; the parent is not below the
/// issue; the state can be used; the revision is the expected one.
#[verifier::rlimit(40)]
pub proof fn law_update_issue_answers(
    before: Store,
    after: Store,
    call: Invocation,
    r: UpdateIssueRequest,
    result: Result<Completion<IssueValue>, StorageError>,
)
    requires
        issues::update_issue_outcome(before, after, call, r, result),
    ensures
        ({
            let row = the_issue(before, r.organization_id@, r.issue_id@);
            if !issue_found(before, r.organization_id@, r.issue_id@) {
                refused(result, DomainFailure::NotFound)
            } else if !seen::open_issue(before, row, call.actor@) {
                refused(result, DomainFailure::PrivateTeam)
            } else if !in_project(before, r.organization_id@, row.project_id@, row.team_id@) {
                refused(result, DomainFailure::TeamNotFound)
            } else if !cycle_known(before, r.organization_id@, row.team_id@, r.cycle_id) {
                refused(result, DomainFailure::CycleNotFound)
            } else if !milestone_known(before, r.organization_id@, row.project_id@, r.milestone_id) {
                refused(result, DomainFailure::MilestoneNotFound)
            } else if !parent_known(before, r.organization_id@, row.project_id@, r.parent_issue_id) {
                refused(result, DomainFailure::ParentNotFound)
            } else if !labels_known(before, r.organization_id@, row.team_id@, r.label_ids@) {
                refused(result, DomainFailure::LabelNotFound)
            } else if validate::revision_value(r.expected_revision@) is None {
                refused(result, DomainFailure::InvalidRequest)
            } else if key_used(before, call, "update_issue"@, r.idempotency_key@) {
                answered_before(before, call, "update_issue"@, r.idempotency_key@, result)
            } else if descends(before, r.organization_id@, r.parent_issue_id, r.issue_id@) {
                refused(result, DomainFailure::InvalidRequest)
            } else if !state_usable(before, r.organization_id@, row.team_id@, r.workflow_state_id@) {
                refused(result, DomainFailure::WorkflowStateNotFound)
            } else if validate::revision_value(r.expected_revision@) != Some(row.revision as int) {
                refused(result, DomainFailure::RevisionConflict)
            } else if row.revision == i64::MAX {
                faulted(result)
            } else if before.next_activity == i64::MAX {
                faulted(result)
            } else {
                took_effect(result)
            }
        }),
        !took_effect(result) ==> after == before,
{
    lemma_key_used(before, call, "update_issue"@, r.idempotency_key@, result);
    lemma_issue(before, r.organization_id@, r.issue_id@, call.actor@);
    let row = the_issue(before, r.organization_id@, r.issue_id@);
    lemma_dependencies(
        before,
        r.organization_id@,
        row.project_id@,
        row.team_id@,
        r.cycle_id,
        r.milestone_id,
        r.parent_issue_id,
        r.label_ids@,
    );
    lemma_descends(before, r.organization_id@, r.issue_id@, r.parent_issue_id);
    lemma_state(before, r.organization_id@, row.team_id@, Some(r.workflow_state_id@));
}

/// The creation of an issue ends as its first unmet condition says, and takes effect where all are
/// met; what does not take effect changes nothing. In their order: the project exists; the actor can
/// see it; the team is in the project, and the cycle, the milestone, the parent and the labels of the
/// request can be on the issue; the key was not used; the state that is asked for, or else the
/// default of the team, can be used; the id and the identifier are free.
#[verifier::rlimit(40)]
pub proof fn law_create_issue_answers(
    before: Store,
    after: Store,
    call: Invocation,
    r: CreateIssueRequest,
    result: Result<Completion<IssueValue>, StorageError>,
)
    requires
        issues::create_issue_outcome(before, after, call, r, result),
    ensures
        ({
            let coming = coming_identifier(before, r.organization_id@, r.team_id@);
            if !seen::project_exists(before, r.organization_id@, r.project_id@) {
                refused(result, DomainFailure::NotFound)
            } else if seen::closed_project(before, r.organization_id@, r.project_id@, call.actor@) {
                refused(result, DomainFailure::PrivateTeam)
            } else if !in_project(before, r.organization_id@, r.project_id@, r.team_id@) {
                refused(result, DomainFailure::TeamNotFound)
            } else if !cycle_known(before, r.organization_id@, r.team_id@, r.cycle_id) {
                refused(result, DomainFailure::CycleNotFound)
            } else if !milestone_known(before, r.organization_id@, r.project_id@, r.milestone_id) {
                refused(result, DomainFailure::MilestoneNotFound)
            } else if !parent_known(before, r.organization_id@, r.project_id@, r.parent_issue_id) {
                refused(result, DomainFailure::ParentNotFound)
            } else if !labels_known(before, r.organization_id@, r.team_id@, r.label_ids@) {
                refused(result, DomainFailure::LabelNotFound)
            } else if key_used(before, call, "create_issue"@, r.idempotency_key@) {
                answered_before(before, call, "create_issue"@, r.idempotency_key@, result)
            } else if !state_usable(
                before,
                r.organization_id@,
                r.team_id@,
                wanted_state(before, r.organization_id@, r.team_id@, r.workflow_state_id),
            ) {
                refused(result, DomainFailure::WorkflowStateNotFound)
            } else if the_team(before, r.organization_id@, r.team_id@).next_issue_number == i64::MAX {
                faulted(result)
            } else if before.next_row == i64::MAX {
                faulted(result)
            } else if identifier_taken(before, r.organization_id@, coming) || exists|i: int|
                0 <= i < before.issues@.len() && (#[trigger] before.issues@[i]).issue_id@ == r.issue_id@ {
                refused(result, DomainFailure::IdentifierConflict)
            } else if identifier_known(before, r.organization_id@, coming) {
                faulted(result)
            } else if before.next_activity == i64::MAX {
                faulted(result)
            } else {
                took_effect(result)
            }
        }),
        !took_effect(result) ==> after == before,
{
    lemma_key_used(before, call, "create_issue"@, r.idempotency_key@, result);
    lemma_project(before, r.organization_id@, r.project_id@, call.actor@);
    lemma_team(before, r.organization_id@, r.team_id@, call.actor@);
    lemma_dependencies(
        before,
        r.organization_id@,
        r.project_id@,
        r.team_id@,
        r.cycle_id,
        r.milestone_id,
        r.parent_issue_id,
        r.label_ids@,
    );
    lemma_state(before, r.organization_id@, r.team_id@, text::text_of(r.workflow_state_id));
    lemma_identifier(before, r.organization_id@, before.next_identifier(r.organization_id@, r.team_id@));
    let taken = store::has_issue_id(r.issue_id@);
    if table::some_row(before.issues@, taken) {
        let i = choose|i: int| 0 <= i < before.issues@.len() && taken(#[trigger] before.issues@[i]);
        assert(before.issues@[i].issue_id@ == r.issue_id@);
    }
    assert forall|i: int|
        0 <= i < before.issues@.len() && (#[trigger] before.issues@[i]).issue_id@ == r.issue_id@ implies table::some_row(
        before.issues@,
        taken,
    ) by {
        assert(taken(before.issues@[i]));
    }
}

/// The move of an issue ends as its first unmet condition says, and takes effect where all are met;
/// what does not take effect changes nothing. In their order: the issue exists; the actor can see it;
/// the team exists, the actor can see it, and it is in the project of the issue; the expected
/// revision is a number; the key was not used; the state can be used in that team; the revision is
/// the expected one.
#[verifier::rlimit(40)]
pub proof fn law_move_issue_answers(
    before: Store,
    after: Store,
    call: Invocation,
    r: MoveIssueRequest,
    result: Result<Completion<IssueValue>, StorageError>,
)
    requires
        issues::move_issue_outcome(before, after, call, r, result),
    ensures
        ({
            let row = the_issue(before, r.organization_id@, r.issue_id@);
            let coming = coming_identifier(before, r.organization_id@, r.team_id@);
            if !issue_found(before, r.organization_id@, r.issue_id@) {
                refused(result, DomainFailure::NotFound)
            } else if !seen::open_issue(before, row, call.actor@) {
                refused(result, DomainFailure::PrivateTeam)
            } else if !seen::team_exists(before, r.organization_id@, r.team_id@) {
                refused(result, DomainFailure::TeamNotFound)
            } else if seen::closed_team(before, r.organization_id@, r.team_id@, call.actor@) {
                refused(result, DomainFailure::PrivateTeam)
            } else if !in_project(before, r.organization_id@, row.project_id@, r.team_id@) {
                refused(result, DomainFailure::TeamNotFound)
            } else if validate::revision_value(r.expected_revision@) is None {
                refused(result, DomainFailure::InvalidRequest)
            } else if key_used(before, call, "move_issue"@, r.idempotency_key@) {
                answered_before(before, call, "move_issue"@, r.idempotency_key@, result)
            } else if !state_usable(before, r.organization_id@, r.team_id@, r.workflow_state_id@) {
                refused(result, DomainFailure::WorkflowStateNotFound)
            } else if the_team(before, r.organization_id@, r.team_id@).next_issue_number == i64::MAX {
                faulted(result)
            } else if validate::revision_value(r.expected_revision@) != Some(row.revision as int) {
                refused(result, DomainFailure::RevisionConflict)
            } else if row.revision == i64::MAX {
                faulted(result)
            } else if identifier_taken(before, r.organization_id@, coming) || identifier_known(before, r.organization_id@, coming) {
                faulted(result)
            } else if before.next_activity == i64::MAX {
                faulted(result)
            } else {
                took_effect(result)
            }
        }),
        !took_effect(result) ==> after == before,
{
    lemma_key_used(before, call, "move_issue"@, r.idempotency_key@, result);
    lemma_issue(before, r.organization_id@, r.issue_id@, call.actor@);
    let row = the_issue(before, r.organization_id@, r.issue_id@);
    lemma_team(before, r.organization_id@, r.team_id@, call.actor@);
    lemma_in_project(before, r.organization_id@, row.project_id@, r.team_id@);
    lemma_state(before, r.organization_id@, r.team_id@, Some(r.workflow_state_id@));
    lemma_identifier(before, r.organization_id@, before.next_identifier(r.organization_id@, r.team_id@));
}

/// The archival of an issue ends as its first unmet condition says, and takes effect where all are
/// met; what does not take effect changes nothing. In their order: the issue exists; the actor can
/// see it; the expected revision is a number; the key was not used; the revision is the expected one.
#[verifier::rlimit(40)]
pub proof fn law_archive_issue_answers(
    before: Store,
    after: Store,
    call: Invocation,
    r: ArchiveIssueRequest,
    result: Result<Completion<IssueValue>, StorageError>,
)
    requires
        issues::archive_issue_outcome(before, after, call, r, result),
    ensures
        ({
            let row = the_issue(before, r.organization_id@, r.issue_id@);
            if !issue_found(before, r.organization_id@, r.issue_id@) {
                refused(result, DomainFailure::NotFound)
            } else if !seen::open_issue(before, row, call.actor@) {
                refused(result, DomainFailure::PrivateTeam)
            } else if validate::revision_value(r.expected_revision@) is None {
                refused(result, DomainFailure::InvalidRequest)
            } else if key_used(before, call, "archive_issue"@, r.idempotency_key@) {
                answered_before(before, call, "archive_issue"@, r.idempotency_key@, result)
            } else if validate::revision_value(r.expected_revision@) != Some(row.revision as int) {
                refused(result, DomainFailure::RevisionConflict)
            } else if row.revision == i64::MAX {
                faulted(result)
            } else if before.next_activity == i64::MAX {
                faulted(result)
            } else {
                took_effect(result)
            }
        }),
        !took_effect(result) ==> after == before,
{
    lemma_key_used(before, call, "archive_issue"@, r.idempotency_key@, result);
    lemma_issue(before, r.organization_id@, r.issue_id@, call.actor@);
}

/// The assignment of an issue ends as its first unmet condition says, and takes effect where all are
/// met; what does not take effect changes nothing. In their order: the issue exists; the actor can
/// see it; whoever it is assigned to can see it; the expected revision is a number; the key was not
/// used; the revision is the expected one.
#[verifier::rlimit(40)]
pub proof fn law_set_issue_assignee_answers(
    before: Store,
    after: Store,
    call: Invocation,
    r: SetIssueAssigneeRequest,
    result: Result<Completion<AssigneeValue>, StorageError>,
)
    requires
        issues::set_issue_assignee_outcome(before, after, call, r, result),
    ensures
        ({
            let row = the_issue(before, r.organization_id@, r.issue_id@);
            if !issue_found(before, r.organization_id@, r.issue_id@) {
                refused(result, DomainFailure::NotFound)
            } else if !seen::open_issue(before, row, call.actor@) {
                refused(result, DomainFailure::PrivateTeam)
            } else if r.assignee_subject matches Some(assignee) && !seen::open_issue(before, row, assignee@) {
                refused(result, DomainFailure::PrivateTeam)
            } else if validate::revision_value(r.expected_revision@) is None {
                refused(result, DomainFailure::InvalidRequest)
            } else if key_used(before, call, "set_issue_assignee"@, r.idempotency_key@) {
                answered_before(before, call, "set_issue_assignee"@, r.idempotency_key@, result)
            } else if validate::revision_value(r.expected_revision@) != Some(row.revision as int) {
                refused(result, DomainFailure::RevisionConflict)
            } else if row.revision == i64::MAX {
                faulted(result)
            } else if before.next_activity == i64::MAX {
                faulted(result)
            } else {
                took_effect(result)
            }
        }),
        !took_effect(result) ==> after == before,
{
    lemma_key_used(before, call, "set_issue_assignee"@, r.idempotency_key@, result);
    lemma_issue(before, r.organization_id@, r.issue_id@, call.actor@);
    if let Some(assignee) = r.assignee_subject {
        lemma_issue(before, r.organization_id@, r.issue_id@, assignee@);
    }
}

/// Whether the first association with this provider and key is that of another issue.
pub open spec fn linked_elsewhere(s: Store, organization: Seq<char>, provider: Seq<char>, key: Seq<char>, issue: Seq<char>) -> bool {
    exists|l: int|
        {
            &&& 0 <= l < s.links@.len()
            &&& (#[trigger] s.links@[l]).organization_id@ == organization
            &&& s.links@[l].provider@ == provider
            &&& s.links@[l].external_key@ == key
            &&& s.links@[l].issue_id@ != issue
            &&& forall|m: int|
                0 <= m < l ==> !((#[trigger] s.links@[m]).organization_id@ == organization
                    && s.links@[m].provider@ == provider && s.links@[m].external_key@ == key)
        }
}

pub proof fn lemma_linked(s: Store, organization: Seq<char>, provider: Seq<char>, key: Seq<char>, issue: Seq<char>)
    ensures
        linked_elsewhere(s, organization, provider, key, issue) == match s.link_at(
            organization,
            provider,
            key,
        ) {
            Some(l) => s.links@[l].issue_id@ != issue,
            None => false,
        },
{
    let keep = store::is_link(organization, provider, key);
    table::lemma_first_where(s.links@, keep);
    if linked_elsewhere(s, organization, provider, key, issue) {
        let l = choose|l: int|
            {
                &&& 0 <= l < s.links@.len()
                &&& (#[trigger] s.links@[l]).organization_id@ == organization
                &&& s.links@[l].provider@ == provider
                &&& s.links@[l].external_key@ == key
                &&& s.links@[l].issue_id@ != issue
                &&& forall|m: int|
                    0 <= m < l ==> !((#[trigger] s.links@[m]).organization_id@ == organization
                        && s.links@[m].provider@ == provider && s.links@[m].external_key@ == key)
            };
        assert(keep(s.links@[l]));
        let f = s.link_at(organization, provider, key)->0;
        assert(keep(s.links@[f]));
        assert(f == l);
    }
    if let Some(l) = s.link_at(organization, provider, key) {
        assert(keep(s.links@[l]));
        assert forall|m: int| 0 <= m < l implies !((
        #[trigger] s.links@[m]).organization_id@ == organization && s.links@[m].provider@ == provider
            && s.links@[m].external_key@ == key) by {
            assert(!keep(s.links@[m]));
        }
    }
}

/// The recording of an external association ends as its first unmet condition says, and takes effect
/// where all are met; what does not take effect changes nothing. In their order: the issue exists;
/// the actor can see it; the key was not used; the external object is associated with no other issue.
#[verifier::rlimit(40)]
pub proof fn law_put_external_link_answers(
    before: Store,
    after: Store,
    call: Invocation,
    r: PutExternalLinkRequest,
    result: Result<Completion<ExternalLinkValue>, StorageError>,
)
    requires
        issues::put_external_link_outcome(before, after, call, r, result),
    ensures
        ({
            let row = the_issue(before, r.organization_id@, r.issue_id@);
            if !issue_found(before, r.organization_id@, r.issue_id@) {
                refused(result, DomainFailure::NotFound)
            } else if !seen::open_issue(before, row, call.actor@) {
                refused(result, DomainFailure::PrivateTeam)
            } else if key_used(before, call, "put_external_link"@, r.idempotency_key@) {
                answered_before(before, call, "put_external_link"@, r.idempotency_key@, result)
            } else if linked_elsewhere(before, r.organization_id@, r.provider@, r.external_key@, r.issue_id@) {
                refused(result, DomainFailure::IdentifierConflict)
            } else if before.next_activity == i64::MAX {
                faulted(result)
            } else {
                took_effect(result)
            }
        }),
        !took_effect(result) ==> after == before,
{
    lemma_key_used(before, call, "put_external_link"@, r.idempotency_key@, result);
    lemma_issue(before, r.organization_id@, r.issue_id@, call.actor@);
    lemma_linked(before, r.organization_id@, r.provider@, r.external_key@, r.issue_id@);
}

/// Adding a comment ends as its first unmet condition says, and takes effect where all are met; what
/// does not take effect changes nothing. In their order: the issue exists; the actor can see it; the
/// key was not used; the id is free.
#[verifier::rlimit(40)]
pub proof fn law_add_comment_answers(
    before: Store,
    after: Store,
    call: Invocation,
    r: AddCommentRequest,
    result: Result<Completion<CommentValue>, StorageError>,
)
    requires
        collaboration::add_comment_outcome(before, after, call, r, result),
    ensures
        ({
            let row = the_issue(before, r.organization_id@, r.issue_id@);
            if !issue_found(before, r.organization_id@, r.issue_id@) {
                refused(result, DomainFailure::NotFound)
            } else if !seen::open_issue(before, row, call.actor@) {
                refused(result, DomainFailure::PrivateTeam)
            } else if key_used(before, call, "add_comment"@, r.idempotency_key@) {
                answered_before(before, call, "add_comment"@, r.idempotency_key@, result)
            } else if before.next_row == i64::MAX {
                faulted(result)
            } else if exists|j: int|
                0 <= j < before.comments@.len() && (#[trigger] before.comments@[j]).comment_id@ == r.comment_id@ {
                refused(result, DomainFailure::IdentifierConflict)
            } else if before.next_activity == i64::MAX {
                faulted(result)
            } else {
                took_effect(result)
            }
        }),
        !took_effect(result) ==> after == before,
{
    lemma_key_used(before, call, "add_comment"@, r.idempotency_key@, result);
    lemma_issue(before, r.organization_id@, r.issue_id@, call.actor@);
    let taken = store::has_comment_id(r.comment_id@);
    if table::some_row(before.comments@, taken) {
        let j = choose|j: int| 0 <= j < before.comments@.len() && taken(#[trigger] before.comments@[j]);
        assert(before.comments@[j].comment_id@ == r.comment_id@);
    }
    assert forall|j: int|
        0 <= j < before.comments@.len() && (#[trigger] before.comments@[j]).comment_id@ == r.comment_id@ implies table::some_row(
        before.comments@,
        taken,
    ) by {
        assert(taken(before.comments@[j]));
    }
}

/// Posting a project update ends as its first unmet condition says, and takes effect where all are
/// met; what does not take effect changes nothing. In their order: the project exists; the actor can
/// see it; the key was not used; the id is free.
#[verifier::rlimit(40)]
pub proof fn law_create_project_update_answers(
    before: Store,
    after: Store,
    call: Invocation,
    r: CreateProjectUpdateRequest,
    result: Result<Completion<ProjectUpdateValue>, StorageError>,
)
    requires
        collaboration::create_project_update_outcome(before, after, call, r, result),
    ensures
        ({
            if !seen::project_exists(before, r.organization_id@, r.project_id@) {
                refused(result, DomainFailure::NotFound)
            } else if seen::closed_project(before, r.organization_id@, r.project_id@, call.actor@) {
                refused(result, DomainFailure::PrivateTeam)
            } else if key_used(before, call, "create_project_update"@, r.idempotency_key@) {
                answered_before(before, call, "create_project_update"@, r.idempotency_key@, result)
            } else if before.next_row == i64::MAX {
                faulted(result)
            } else if exists|j: int|
                0 <= j < before.project_updates@.len() && (#[trigger] before.project_updates@[j]).update_id@ == r.update_id@ {
                refused(result, DomainFailure::IdentifierConflict)
            } else if before.next_activity == i64::MAX {
                faulted(result)
            } else {
                took_effect(result)
            }
        }),
        !took_effect(result) ==> after == before,
{
    lemma_key_used(before, call, "create_project_update"@, r.idempotency_key@, result);
    lemma_project(before, r.organization_id@, r.project_id@, call.actor@);
    let taken = store::has_update_id(r.update_id@);
    if table::some_row(before.project_updates@, taken) {
        let j = choose|j: int| 0 <= j < before.project_updates@.len() && taken(#[trigger] before.project_updates@[j]);
        assert(before.project_updates@[j].update_id@ == r.update_id@);
    }
    assert forall|j: int|
        0 <= j < before.project_updates@.len() && (#[trigger] before.project_updates@[j]).update_id@ == r.update_id@ implies table::some_row(
        before.project_updates@,
        taken,
    ) by {
        assert(taken(before.project_updates@[j]));
    }
}

/// Whether this is the first comment with this id.
pub open spec fn comment_row(s: Store, c: int, organization: Seq<char>, comment: Seq<char>) -> bool {
    &&& 0 <= c < s.comments@.len()
    &&& s.comments@[c].organization_id@ == organization
    &&& s.comments@[c].comment_id@ == comment
    &&& forall|d: int|
        0 <= d < c ==> !((#[trigger] s.comments@[d]).organization_id@ == organization
            && s.comments@[d].comment_id@ == comment)
}

/// The comment with this id.
pub open spec fn the_comment(s: Store, organization: Seq<char>, comment: Seq<char>) -> Comment {
    s.comments@[choose|c: int| #[trigger] comment_row(s, c, organization, comment)]
}

/// Whether the comment and the issue that it is on exist.
pub open spec fn comment_found(s: Store, organization: Seq<char>, comment: Seq<char>) -> bool {
    exists|c: int, i: int| #[trigger]
        comment_row(s, c, organization, comment) && #[trigger] seen::issue_row(
            s,
            i,
            organization,
            s.comments@[c].issue_id@,
        )
}

pub proof fn lemma_comment(s: Store, organization: Seq<char>, comment: Seq<char>)
    ensures
        comment_found(s, organization, comment) == collaboration::placed_comment(
            s,
            organization,
            comment,
        ) is Some,
        comment_found(s, organization, comment) ==> the_comment(s, organization, comment)
            == s.comments@[(collaboration::placed_comment(s, organization, comment)->0).0],
{
    let keep = store::is_comment(organization, comment);
    table::lemma_first_where(s.comments@, keep);
    assert forall|c: int| #[trigger] comment_row(s, c, organization, comment) implies s.comment_at(
        organization,
        comment,
    ) == Some(c) by {
        assert(keep(s.comments@[c]));
        let f = s.comment_at(organization, comment)->0;
        if f < c {
            assert(keep(s.comments@[f]));
        }
    }
    if let Some(c) = s.comment_at(organization, comment) {
        assert(keep(s.comments@[c]));
        assert forall|d: int| 0 <= d < c implies !((
        #[trigger] s.comments@[d]).organization_id@ == organization && s.comments@[d].comment_id@
            == comment) by {
            assert(!keep(s.comments@[d]));
        }
        assert(comment_row(s, c, organization, comment));
        seen::lemma_issue_row(s, organization, s.comments@[c].issue_id@);
    }
}

/// Whether this is the first relation with this id.
pub open spec fn relation_row(s: Store, k: int, organization: Seq<char>, relation: Seq<char>) -> bool {
    &&& 0 <= k < s.relations@.len()
    &&& s.relations@[k].organization_id@ == organization
    &&& s.relations@[k].relation_id@ == relation
    &&& forall|d: int|
        0 <= d < k ==> !((#[trigger] s.relations@[d]).organization_id@ == organization
            && s.relations@[d].relation_id@ == relation)
}

/// The relation with this id.
pub open spec fn the_relation(s: Store, organization: Seq<char>, relation: Seq<char>) -> IssueRelation {
    s.relations@[choose|k: int| #[trigger] relation_row(s, k, organization, relation)]
}

/// Whether the relation and the issue that it goes from exist.
pub open spec fn relation_found(s: Store, organization: Seq<char>, relation: Seq<char>) -> bool {
    exists|k: int, i: int| #[trigger]
        relation_row(s, k, organization, relation) && #[trigger] seen::issue_row(
            s,
            i,
            organization,
            s.relations@[k].issue_id@,
        )
}

pub proof fn lemma_relation(s: Store, organization: Seq<char>, relation: Seq<char>)
    ensures
        relation_found(s, organization, relation) == collaboration::placed_relation(
            s,
            organization,
            relation,
        ) is Some,
        relation_found(s, organization, relation) ==> the_relation(s, organization, relation)
            == s.relations@[(collaboration::placed_relation(s, organization, relation)->0).0],
{
    let keep = store::is_relation(organization, relation);
    table::lemma_first_where(s.relations@, keep);
    assert forall|k: int| #[trigger] relation_row(s, k, organization, relation) implies s.relation_at(
        organization,
        relation,
    ) == Some(k) by {
        assert(keep(s.relations@[k]));
        let f = s.relation_at(organization, relation)->0;
        if f < k {
            assert(keep(s.relations@[f]));
        }
    }
    if let Some(k) = s.relation_at(organization, relation) {
        assert(keep(s.relations@[k]));
        assert forall|d: int| 0 <= d < k implies !((
        #[trigger] s.relations@[d]).organization_id@ == organization && s.relations@[d].relation_id@
            == relation) by {
            assert(!keep(s.relations@[d]));
        }
        assert(relation_row(s, k, organization, relation));
        seen::lemma_issue_row(s, organization, s.relations@[k].issue_id@);
    }
}

/// The change of a comment ends as its first unmet condition says, and takes effect where all are
/// met; what does not take effect changes nothing. In their order: the comment and its issue exist;
/// the actor wrote it; the actor can see its issue; the expected revision is a number; the key was
/// not used; the revision is the expected one; the comment is not deleted.
#[verifier::rlimit(40)]
pub proof fn law_update_comment_answers(
    before: Store,
    after: Store,
    call: Invocation,
    r: UpdateCommentRequest,
    result: Result<Completion<CommentValue>, StorageError>,
)
    requires
        collaboration::update_comment_outcome(before, after, call, r, result),
    ensures
        ({
            let row = the_comment(before, r.organization_id@, r.comment_id@);
            if !comment_found(before, r.organization_id@, r.comment_id@) {
                refused(result, DomainFailure::NotFound)
            } else if row.author_subject@ != call.actor@ {
                refused(result, DomainFailure::AuthorRequired)
            } else if !issue_found(before, r.organization_id@, row.issue_id@) {
                refused(result, DomainFailure::NotFound)
            } else if !seen::open_issue(before, the_issue(before, r.organization_id@, row.issue_id@), call.actor@) {
                refused(result, DomainFailure::PrivateTeam)
            } else if validate::revision_value(r.expected_revision@) is None {
                refused(result, DomainFailure::InvalidRequest)
            } else if key_used(before, call, "update_comment"@, r.idempotency_key@) {
                answered_before(before, call, "update_comment"@, r.idempotency_key@, result)
            } else if validate::revision_value(r.expected_revision@) != Some(row.revision as int) {
                refused(result, DomainFailure::RevisionConflict)
            } else if row.deleted {
                refused(result, DomainFailure::RevisionConflict)
            } else if row.revision == i64::MAX {
                faulted(result)
            } else if before.next_activity == i64::MAX {
                faulted(result)
            } else {
                took_effect(result)
            }
        }),
        !took_effect(result) ==> after == before,
{
    lemma_key_used(before, call, "update_comment"@, r.idempotency_key@, result);
    lemma_comment(before, r.organization_id@, r.comment_id@);
    lemma_issue(
        before,
        r.organization_id@,
        the_comment(before, r.organization_id@, r.comment_id@).issue_id@,
        call.actor@,
    );
}

/// The deletion of a comment ends as its first unmet condition says, and takes effect where all are
/// met; what does not take effect changes nothing. In their order: the comment and its issue exist;
/// the actor wrote it; the actor can see its issue; the expected revision is a number; the key was
/// not used; the revision is the expected one.
#[verifier::rlimit(40)]
pub proof fn law_delete_comment_answers(
    before: Store,
    after: Store,
    call: Invocation,
    r: DeleteCommentRequest,
    result: Result<Completion<CommentValue>, StorageError>,
)
    requires
        collaboration::delete_comment_outcome(before, after, call, r, result),
    ensures
        ({
            let row = the_comment(before, r.organization_id@, r.comment_id@);
            if !comment_found(before, r.organization_id@, r.comment_id@) {
                refused(result, DomainFailure::NotFound)
            } else if row.author_subject@ != call.actor@ {
                refused(result, DomainFailure::AuthorRequired)
            } else if !issue_found(before, r.organization_id@, row.issue_id@) {
                refused(result, DomainFailure::NotFound)
            } else if !seen::open_issue(before, the_issue(before, r.organization_id@, row.issue_id@), call.actor@) {
                refused(result, DomainFailure::PrivateTeam)
            } else if validate::revision_value(r.expected_revision@) is None {
                refused(result, DomainFailure::InvalidRequest)
            } else if key_used(before, call, "delete_comment"@, r.idempotency_key@) {
                answered_before(before, call, "delete_comment"@, r.idempotency_key@, result)
            } else if validate::revision_value(r.expected_revision@) != Some(row.revision as int) {
                refused(result, DomainFailure::RevisionConflict)
            } else if row.revision == i64::MAX {
                faulted(result)
            } else if before.next_activity == i64::MAX {
                faulted(result)
            } else {
                took_effect(result)
            }
        }),
        !took_effect(result) ==> after == before,
{
    lemma_key_used(before, call, "delete_comment"@, r.idempotency_key@, result);
    lemma_comment(before, r.organization_id@, r.comment_id@);
    lemma_issue(
        before,
        r.organization_id@,
        the_comment(before, r.organization_id@, r.comment_id@).issue_id@,
        call.actor@,
    );
}

/// Relating two issues ends as its first unmet condition says, and takes effect where all are met;
/// what does not take effect changes nothing. In their order: they are two; the first exists; the
/// actor can see it; the second exists; the actor can see it; the key was not used; the id is free.
#[verifier::rlimit(40)]
pub proof fn law_add_issue_relation_answers(
    before: Store,
    after: Store,
    call: Invocation,
    r: AddIssueRelationRequest,
    result: Result<Completion<RelationValue>, StorageError>,
)
    requires
        collaboration::add_issue_relation_outcome(before, after, call, r, result),
    ensures
        ({
            let row = the_issue(before, r.organization_id@, r.issue_id@);
            if r.issue_id@ == r.related_issue_id@ {
                refused(result, DomainFailure::CannotRelateSelf)
            } else if !issue_found(before, r.organization_id@, r.issue_id@) {
                refused(result, DomainFailure::NotFound)
            } else if !seen::open_issue(before, row, call.actor@) {
                refused(result, DomainFailure::PrivateTeam)
            } else if !issue_found(before, r.organization_id@, r.related_issue_id@) {
                refused(result, DomainFailure::NotFound)
            } else if !seen::open_issue(
                before,
                the_issue(before, r.organization_id@, r.related_issue_id@),
                call.actor@,
            ) {
                refused(result, DomainFailure::PrivateTeam)
            } else if key_used(before, call, "add_issue_relation"@, r.idempotency_key@) {
                answered_before(before, call, "add_issue_relation"@, r.idempotency_key@, result)
            } else if exists|j: int|
                0 <= j < before.relations@.len() && (#[trigger] before.relations@[j]).relation_id@ == r.relation_id@ {
                refused(result, DomainFailure::RelationConflict)
            } else if before.next_activity == i64::MAX {
                faulted(result)
            } else {
                took_effect(result)
            }
        }),
        !took_effect(result) ==> after == before,
{
    lemma_key_used(before, call, "add_issue_relation"@, r.idempotency_key@, result);
    lemma_issue(before, r.organization_id@, r.issue_id@, call.actor@);
    lemma_issue(before, r.organization_id@, r.related_issue_id@, call.actor@);
    let taken = store::has_relation_id(r.relation_id@);
    if table::some_row(before.relations@, taken) {
        let j = choose|j: int| 0 <= j < before.relations@.len() && taken(#[trigger] before.relations@[j]);
        assert(before.relations@[j].relation_id@ == r.relation_id@);
    }
    assert forall|j: int|
        0 <= j < before.relations@.len() && (#[trigger] before.relations@[j]).relation_id@ == r.relation_id@ implies table::some_row(
        before.relations@,
        taken,
    ) by {
        assert(taken(before.relations@[j]));
    }
}

/// Ending a relation ends as its first unmet condition says, and takes effect where all are met; what
/// does not take effect changes nothing. In their order: the relation and the issue that it goes from
/// exist; the actor can see that issue; the key was not used.
#[verifier::rlimit(40)]
pub proof fn law_remove_issue_relation_answers(
    before: Store,
    after: Store,
    call: Invocation,
    r: RemoveIssueRelationRequest,
    result: Result<Completion<RelationValue>, StorageError>,
)
    requires
        collaboration::remove_issue_relation_outcome(before, after, call, r, result),
    ensures
        ({
            let row = the_relation(before, r.organization_id@, r.relation_id@);
            if !relation_found(before, r.organization_id@, r.relation_id@) {
                refused(result, DomainFailure::NotFound)
            } else if !issue_found(before, r.organization_id@, row.issue_id@) {
                refused(result, DomainFailure::NotFound)
            } else if !seen::open_issue(before, the_issue(before, r.organization_id@, row.issue_id@), call.actor@) {
                refused(result, DomainFailure::PrivateTeam)
            } else if key_used(before, call, "remove_issue_relation"@, r.idempotency_key@) {
                answered_before(before, call, "remove_issue_relation"@, r.idempotency_key@, result)
            } else if before.next_activity == i64::MAX {
                faulted(result)
            } else {
                took_effect(result)
            }
        }),
        !took_effect(result) ==> after == before,
{
    lemma_key_used(before, call, "remove_issue_relation"@, r.idempotency_key@, result);
    lemma_relation(before, r.organization_id@, r.relation_id@);
    lemma_issue(
        before,
        r.organization_id@,
        the_relation(before, r.organization_id@, r.relation_id@).issue_id@,
        call.actor@,
    );
}

/// The archival of a project ends as its first unmet condition says, and takes effect where all are
/// met; what does not take effect changes nothing. In their order: the project exists; the actor can
/// see it; the expected revision is a number; the key was not used; the revision is the expected one;
/// it has a team.
#[verifier::rlimit(40)]
pub proof fn law_archive_project_answers(
    before: Store,
    after: Store,
    call: Invocation,
    r: ArchiveProjectRequest,
    result: Result<Completion<ProjectValue>, StorageError>,
)
    requires
        projects::archive_project_outcome(before, after, call, r, result),
    ensures
        ({
            let row = the_project(before, r.organization_id@, r.project_id@);
            if !seen::project_exists(before, r.organization_id@, r.project_id@) {
                refused(result, DomainFailure::NotFound)
            } else if seen::closed_project(before, r.organization_id@, r.project_id@, call.actor@) {
                refused(result, DomainFailure::PrivateTeam)
            } else if validate::revision_value(r.expected_revision@) is None {
                refused(result, DomainFailure::InvalidRequest)
            } else if key_used(before, call, "archive_project"@, r.idempotency_key@) {
                answered_before(before, call, "archive_project"@, r.idempotency_key@, result)
            } else if validate::revision_value(r.expected_revision@) != Some(row.revision as int) {
                refused(result, DomainFailure::RevisionConflict)
            } else if row.revision == i64::MAX {
                faulted(result)
            } else if before.next_activity == i64::MAX {
                faulted(result)
            } else if row.team_ids@.len() == 0 {
                faulted(result)
            } else {
                took_effect(result)
            }
        }),
        !took_effect(result) ==> after == before,
{
    lemma_key_used(before, call, "archive_project"@, r.idempotency_key@, result);
    lemma_project(before, r.organization_id@, r.project_id@, call.actor@);
}

} // verus!
