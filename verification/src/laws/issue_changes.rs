//! What each change of an issue makes of it, and what it leaves alone.
use crate::failure::StorageError;
use crate::issues;
use crate::laws::traces;
use crate::model::{
    ArchiveIssueRequest, AssigneeValue, Completion, CreateIssueRequest, ExternalLinkValue,
    GetIssueAssigneeRequest, GetIssueRequest, IssueValue, MoveIssueRequest, PutExternalLinkRequest,
    SetIssueAssigneeRequest, Team, UpdateIssueRequest,
};
use crate::store::{Invocation, Store};
use crate::store;
use crate::table;
use crate::text;
use crate::validate;
use vstd::prelude::*;

verus! {

/// An update that takes effect finds the issue that it names under the revision that it expects,
/// gives it every field of the request, the texts without the white space around them, and nothing
/// else of another value; the answer shows the same. Every other issue and every other table stay as
/// they were.
pub proof fn law_update_gives_the_request(
    before: Store,
    after: Store,
    call: Invocation,
    r: UpdateIssueRequest,
    value: IssueValue,
) -> (i: int)
    requires
        issues::update_issue_outcome(
            before,
            after,
            call,
            r,
            Ok::<Completion<IssueValue>, StorageError>(Completion::Fresh(value)),
        ),
    ensures
        0 <= i < before.issues@.len(),
        before.issues@[i].organization_id@ == r.organization_id@,
        before.issues@[i].issue_id@ == r.issue_id@,
        forall|j: int|
            0 <= j < i ==> !((#[trigger] before.issues@[j]).organization_id@ == r.organization_id@
                && before.issues@[j].issue_id@ == r.issue_id@),
        validate::revision_value(r.expected_revision@) == Some(before.issues@[i].revision as int),
        after.issues@.len() == before.issues@.len(),
        forall|j: int|
            0 <= j < before.issues@.len() && j != i ==> #[trigger] after.issues@[j] == before.issues@[j],
        after.issues@[i].title@ == text::trimmed(r.title@),
        text::text_of(after.issues@[i].description)
            == text::trimmed_option(text::text_of(r.description)),
        after.issues@[i].priority == r.priority,
        after.issues@[i].workflow_state_id@ == r.workflow_state_id@,
        text::text_of(after.issues@[i].cycle_id) == text::text_of(r.cycle_id),
        text::text_of(after.issues@[i].milestone_id) == text::text_of(r.milestone_id),
        text::text_of(after.issues@[i].parent_issue_id) == text::text_of(r.parent_issue_id),
        traces::lists_same(after.issues@[i].label_ids@, r.label_ids@),
        traces::ascending_texts(after.issues@[i].label_ids@),
        after.issues@[i].revision == before.issues@[i].revision + 1,
        after.issues@[i].updated_at == call.now,
        after.issues@[i].issue_id == before.issues@[i].issue_id,
        after.issues@[i].organization_id == before.issues@[i].organization_id,
        after.issues@[i].project_id == before.issues@[i].project_id,
        after.issues@[i].team_id == before.issues@[i].team_id,
        after.issues@[i].identifier == before.issues@[i].identifier,
        after.issues@[i].assignee_subject == before.issues@[i].assignee_subject,
        after.issues@[i].archived == before.issues@[i].archived,
        after.issues@[i].created_at == before.issues@[i].created_at,
        after.issues@[i].row_seq == before.issues@[i].row_seq,
        value.title@ == text::trimmed(r.title@),
        text::text_of(value.description) == text::trimmed_option(text::text_of(r.description)),
        value.priority == r.priority,
        value.workflow_state_id@ == r.workflow_state_id@,
        text::text_of(value.cycle_id) == text::text_of(r.cycle_id),
        text::text_of(value.milestone_id) == text::text_of(r.milestone_id),
        text::text_of(value.parent_issue_id) == text::text_of(r.parent_issue_id),
        traces::lists_same(value.label_ids@, r.label_ids@),
        traces::ascending_texts(value.label_ids@),
        value.revision@ == text::integer_text(before.issues@[i].revision + 1),
        value.updated_at@ == call.now.text@,
        value.issue_id@ == before.issues@[i].issue_id@,
        value.organization_id@ == before.issues@[i].organization_id@,
        value.project_id@ == before.issues@[i].project_id@,
        value.team_id@ == before.issues@[i].team_id@,
        value.identifier@ == before.issues@[i].identifier@,
        value.archived == before.issues@[i].archived,
        value.created_at@ == before.issues@[i].created_at.text@,
        after.teams == before.teams,
        after.team_members == before.team_members,
        after.workflow_states == before.workflow_states,
        after.workspaces == before.workspaces,
        after.project_statuses == before.project_statuses,
        after.projects == before.projects,
        after.aliases == before.aliases,
        after.links == before.links,
        after.cycles == before.cycles,
        after.milestones == before.milestones,
        after.labels == before.labels,
        after.comments == before.comments,
        after.project_updates == before.project_updates,
        after.relations == before.relations,
        after.receipts == before.receipts,
        after.next_row == before.next_row,
        traces::logged(
            before,
            after,
            call,
            r.idempotency_key@,
            (traces::Trace {
                organization: r.organization_id@,
                project: Some(before.issues@[i].project_id@),
                issue: Some(r.issue_id@),
                operation: "update_issue"@,
                kind: "issue"@,
                entity: r.issue_id@,
                revision: Some(before.issues@[i].revision + 1),
            }),
        ),
{
    let i = before.issue_at(r.organization_id@, r.issue_id@)->0;
    table::lemma_first_where(before.issues@, store::is_issue(r.organization_id@, r.issue_id@));
    table::lemma_appended(before.activity@, after.activity@);
    table::lemma_appended(before.commands@, after.commands@);
    traces::law_sorted_lists(after.issues@[i].label_ids@, r.label_ids@);
    i
}

/// Whether the first label with this id in the organization belongs to another team.
pub open spec fn owned_elsewhere(s: Store, organization: Seq<char>, label: Seq<char>, team: Seq<char>) -> bool {
    exists|l: int|
        {
            &&& 0 <= l < s.labels@.len()
            &&& (#[trigger] s.labels@[l]).organization_id@ == organization
            &&& s.labels@[l].label_id@ == label
            &&& forall|m: int|
                0 <= m < l ==> !((#[trigger] s.labels@[m]).organization_id@ == organization
                    && s.labels@[m].label_id@ == label)
            &&& s.labels@[l].team_id matches Some(owner) && owner@ != team
        }
}

proof fn lemma_kept_labels(s: Store, organization: Seq<char>, team: Seq<char>, label: String)
    ensures
        issues::keeps_label(s, organization, team)(label) == !owned_elsewhere(
            s,
            organization,
            label@,
            team,
        ),
{
    table::lemma_first_where(s.labels@, store::is_label(organization, label@));
    let found = s.label_at(organization, label@);
    if owned_elsewhere(s, organization, label@, team) {
        let l = choose|l: int|
            {
                &&& 0 <= l < s.labels@.len()
                &&& (#[trigger] s.labels@[l]).organization_id@ == organization
                &&& s.labels@[l].label_id@ == label@
                &&& forall|m: int|
                    0 <= m < l ==> !((#[trigger] s.labels@[m]).organization_id@ == organization
                        && s.labels@[m].label_id@ == label@)
                &&& s.labels@[l].team_id matches Some(owner) && owner@ != team
            };
        assert(store::is_label(organization, label@)(s.labels@[l]));
        assert(found == Some(l));
    }
    if let Some(l) = found {
        assert(store::is_label(organization, label@)(s.labels@[l]));
        assert forall|m: int| 0 <= m < l implies !((
        #[trigger] s.labels@[m]).organization_id@ == organization && s.labels@[m].label_id@
            == label@) by {
            assert(!store::is_label(organization, label@)(s.labels@[m]));
        }
    }
}

/// A move that takes effect gives the issue the team and the state of the request and that team's
/// next identifier, takes its cycle and the labels of other teams from it, and keeps everything else:
/// project, title, description, priority, milestone, parent, assignee, archival and creation. The
/// answer shows the same. The team's next number goes on by one, and the identifier is recorded for
/// the issue.
pub proof fn law_move_keeps_the_issue(
    before: Store,
    after: Store,
    call: Invocation,
    r: MoveIssueRequest,
    value: IssueValue,
) -> (at: (int, int))
    requires
        issues::move_issue_outcome(
            before,
            after,
            call,
            r,
            Ok::<Completion<IssueValue>, StorageError>(Completion::Fresh(value)),
        ),
    ensures
        ({
            let (i, t) = at;
            &&& 0 <= i < before.issues@.len()
            &&& before.issues@[i].organization_id@ == r.organization_id@
            &&& before.issues@[i].issue_id@ == r.issue_id@
            &&& forall|j: int|
                0 <= j < i ==> !((#[trigger] before.issues@[j]).organization_id@ == r.organization_id@
                    && before.issues@[j].issue_id@ == r.issue_id@)
            &&& validate::revision_value(r.expected_revision@) == Some(before.issues@[i].revision as int)
            &&& 0 <= t < before.teams@.len()
            &&& before.teams@[t].organization_id@ == r.organization_id@
            &&& before.teams@[t].team_id@ == r.team_id@
            &&& after.issues@.len() == before.issues@.len()
            &&& forall|j: int|
                0 <= j < before.issues@.len() && j != i ==> #[trigger] after.issues@[j] == before.issues@[j]
            &&& after.issues@[i].team_id@ == r.team_id@
            &&& after.issues@[i].workflow_state_id@ == r.workflow_state_id@
            &&& after.issues@[i].identifier@ == before.teams@[t].key@ + "-"@ + text::integer_text(before.teams@[t].next_issue_number as int)
            &&& text::text_of(after.issues@[i].cycle_id) == None::<Seq<char>>
            &&& after.issues@[i].revision == before.issues@[i].revision + 1
            &&& after.issues@[i].updated_at == call.now
            &&& after.issues@[i].issue_id == before.issues@[i].issue_id
            &&& after.issues@[i].organization_id == before.issues@[i].organization_id
            &&& after.issues@[i].project_id == before.issues@[i].project_id
            &&& after.issues@[i].title == before.issues@[i].title
            &&& after.issues@[i].description == before.issues@[i].description
            &&& after.issues@[i].priority == before.issues@[i].priority
            &&& after.issues@[i].milestone_id == before.issues@[i].milestone_id
            &&& after.issues@[i].parent_issue_id == before.issues@[i].parent_issue_id
            &&& after.issues@[i].assignee_subject == before.issues@[i].assignee_subject
            &&& after.issues@[i].archived == before.issues@[i].archived
            &&& after.issues@[i].created_at == before.issues@[i].created_at
            &&& after.issues@[i].row_seq == before.issues@[i].row_seq
            &&& value.team_id@ == r.team_id@
            &&& value.workflow_state_id@ == r.workflow_state_id@
            &&& value.identifier@ == before.teams@[t].key@ + "-"@ + text::integer_text(before.teams@[t].next_issue_number as int)
            &&& text::text_of(value.cycle_id) == None::<Seq<char>>
            &&& value.revision@ == text::integer_text(before.issues@[i].revision + 1)
            &&& value.updated_at@ == call.now.text@
            &&& value.issue_id@ == before.issues@[i].issue_id@
            &&& value.organization_id@ == before.issues@[i].organization_id@
            &&& value.project_id@ == before.issues@[i].project_id@
            &&& value.title@ == before.issues@[i].title@
            &&& text::text_of(value.description) == text::text_of(before.issues@[i].description)
            &&& value.priority == before.issues@[i].priority
            &&& text::text_of(value.milestone_id) == text::text_of(before.issues@[i].milestone_id)
            &&& text::text_of(value.parent_issue_id) == text::text_of(before.issues@[i].parent_issue_id)
            &&& value.archived == before.issues@[i].archived
            &&& value.created_at@ == before.issues@[i].created_at.text@
            &&& value.label_ids@ == after.issues@[i].label_ids@
            &&& forall|label: String| #[trigger] after.issues@[i].label_ids@.contains(label) <==> before.issues@[i].label_ids@.contains(label)
                && !owned_elsewhere(before, r.organization_id@, label@, r.team_id@)
            &&& after.teams@ == before.teams@.update(
                t,
                Team {
                    next_issue_number: (before.teams@[t].next_issue_number + 1) as i64,
                    ..before.teams@[t]
                },
            )
            &&& after.aliases@.len() == before.aliases@.len() + 1
            &&& forall|j: int|
                0 <= j < before.aliases@.len() ==> #[trigger] after.aliases@[j] == before.aliases@[j]
            &&& after.aliases@.last().organization_id@ == r.organization_id@
            &&& after.aliases@.last().issue_id@ == r.issue_id@
            &&& after.aliases@.last().identifier@ == value.identifier@
            &&& after.aliases@.last().created_at == call.now
            &&& after.team_members == before.team_members
            &&& after.workflow_states == before.workflow_states
            &&& after.workspaces == before.workspaces
            &&& after.project_statuses == before.project_statuses
            &&& after.projects == before.projects
            &&& after.links == before.links
            &&& after.cycles == before.cycles
            &&& after.milestones == before.milestones
            &&& after.labels == before.labels
            &&& after.comments == before.comments
            &&& after.project_updates == before.project_updates
            &&& after.relations == before.relations
            &&& after.receipts == before.receipts
            &&& after.next_row == before.next_row
            &&& traces::logged(
                before,
                after,
                call,
                r.idempotency_key@,
                (traces::Trace {
                    organization: r.organization_id@,
                    project: Some(before.issues@[i].project_id@),
                    issue: Some(r.issue_id@),
                    operation: "move_issue"@,
                    kind: "issue"@,
                    entity: r.issue_id@,
                    revision: Some(before.issues@[i].revision + 1),
                }),
            )
        }),
{
    let i = before.issue_at(r.organization_id@, r.issue_id@)->0;
    table::lemma_first_where(before.issues@, store::is_issue(r.organization_id@, r.issue_id@));
    table::lemma_appended(before.activity@, after.activity@);
    table::lemma_appended(before.commands@, after.commands@);
    let t = before.team_at(r.organization_id@, r.team_id@)->0;
    table::lemma_first_where(before.teams@, store::is_team(r.organization_id@, r.team_id@));
    table::lemma_appended(before.aliases@, after.aliases@);
    let keep = issues::keeps_label(before, r.organization_id@, r.team_id@);
    let old_labels = before.issues@[i].label_ids@;
    assert forall|label: String| #[trigger] after.issues@[i].label_ids@.contains(label) <==> old_labels.contains(
        label,
    ) && !owned_elsewhere(before, r.organization_id@, label@, r.team_id@) by {
        lemma_kept_labels(before, r.organization_id@, r.team_id@, label);
        if old_labels.filter(keep).contains(label) {
            old_labels.lemma_filter_contains_rev(keep, label);
            let k = choose|k: int| 0 <= k < old_labels.filter(keep).len() && old_labels.filter(keep)[k] == label;
            old_labels.lemma_filter_pred(keep, k);
        }
        if old_labels.contains(label) && keep(label) {
            let k = choose|k: int| 0 <= k < old_labels.len() && old_labels[k] == label;
            old_labels.lemma_filter_contains(keep, k);
        }
    }
    (i, t)
}

/// A created issue has the id, project, team and every field of the request, the team's next
/// identifier, the state that is asked for or else the team's default, nobody assigned, and the first
/// revision; the answer shows the same. It follows the issues that were there, which stay as they
/// were. The team's next number goes on by one, and the identifier is recorded for the issue.
pub proof fn law_creation_gives_the_request(
    before: Store,
    after: Store,
    call: Invocation,
    r: CreateIssueRequest,
    value: IssueValue,
) -> (t: int)
    requires
        issues::create_issue_outcome(
            before,
            after,
            call,
            r,
            Ok::<Completion<IssueValue>, StorageError>(Completion::Fresh(value)),
        ),
    ensures
        0 <= t < before.teams@.len(),
        before.teams@[t].organization_id@ == r.organization_id@,
        before.teams@[t].team_id@ == r.team_id@,
        after.issues@.len() == before.issues@.len() + 1,
        forall|j: int|
            0 <= j < before.issues@.len() ==> #[trigger] after.issues@[j] == before.issues@[j],
        after.issues@.last().issue_id@ == r.issue_id@,
        after.issues@.last().organization_id@ == r.organization_id@,
        after.issues@.last().project_id@ == r.project_id@,
        after.issues@.last().team_id@ == r.team_id@,
        after.issues@.last().identifier@
            == before.teams@[t].key@ + "-"@ + text::integer_text(before.teams@[t].next_issue_number as int),
        after.issues@.last().title@ == text::trimmed(r.title@),
        text::text_of(after.issues@.last().description)
            == text::trimmed_option(text::text_of(r.description)),
        after.issues@.last().priority == r.priority,
        after.issues@.last().workflow_state_id@ == match r.workflow_state_id {
            Some(requested) => requested@,
            None => before.teams@[t].default_workflow_state_id@,
        },
        text::text_of(after.issues@.last().cycle_id) == text::text_of(r.cycle_id),
        text::text_of(after.issues@.last().milestone_id) == text::text_of(r.milestone_id),
        text::text_of(after.issues@.last().parent_issue_id) == text::text_of(r.parent_issue_id),
        traces::lists_same(after.issues@.last().label_ids@, r.label_ids@),
        traces::ascending_texts(after.issues@.last().label_ids@),
        after.issues@.last().archived == false,
        after.issues@.last().created_at == call.now,
        after.issues@.last().updated_at == call.now,
        after.issues@.last().assignee_subject is None,
        after.issues@.last().revision == 1,
        after.issues@.last().row_seq == before.next_row,
        value.issue_id@ == r.issue_id@,
        value.organization_id@ == r.organization_id@,
        value.project_id@ == r.project_id@,
        value.team_id@ == r.team_id@,
        value.identifier@
            == before.teams@[t].key@ + "-"@ + text::integer_text(before.teams@[t].next_issue_number as int),
        value.title@ == text::trimmed(r.title@),
        text::text_of(value.description) == text::trimmed_option(text::text_of(r.description)),
        value.priority == r.priority,
        value.workflow_state_id@ == match r.workflow_state_id {
            Some(requested) => requested@,
            None => before.teams@[t].default_workflow_state_id@,
        },
        text::text_of(value.cycle_id) == text::text_of(r.cycle_id),
        text::text_of(value.milestone_id) == text::text_of(r.milestone_id),
        text::text_of(value.parent_issue_id) == text::text_of(r.parent_issue_id),
        traces::lists_same(value.label_ids@, r.label_ids@),
        traces::ascending_texts(value.label_ids@),
        value.archived == false,
        value.created_at@ == call.now.text@,
        value.updated_at@ == call.now.text@,
        value.revision@ == text::integer_text(1),
        after.next_row == before.next_row + 1,
        forall|j: int|
            0 <= j < before.issues@.len() ==> (#[trigger] before.issues@[j]).issue_id@ != r.issue_id@,
        after.teams@ == before.teams@.update(
            t,
            Team {
                next_issue_number: (before.teams@[t].next_issue_number + 1) as i64,
                ..before.teams@[t]
            },
        ),
        after.aliases@.len() == before.aliases@.len() + 1,
        forall|j: int|
            0 <= j < before.aliases@.len() ==> #[trigger] after.aliases@[j] == before.aliases@[j],
        after.aliases@.last().organization_id@ == r.organization_id@,
        after.aliases@.last().issue_id@ == r.issue_id@,
        after.aliases@.last().identifier@ == value.identifier@,
        after.aliases@.last().created_at == call.now,
        after.team_members == before.team_members,
        after.workflow_states == before.workflow_states,
        after.workspaces == before.workspaces,
        after.project_statuses == before.project_statuses,
        after.projects == before.projects,
        after.links == before.links,
        after.cycles == before.cycles,
        after.milestones == before.milestones,
        after.labels == before.labels,
        after.comments == before.comments,
        after.project_updates == before.project_updates,
        after.relations == before.relations,
        after.receipts == before.receipts,
        traces::logged(
            before,
            after,
            call,
            r.idempotency_key@,
            (traces::Trace {
                organization: r.organization_id@,
                project: Some(r.project_id@),
                issue: Some(r.issue_id@),
                operation: "create_issue"@,
                kind: "issue"@,
                entity: r.issue_id@,
                revision: Some(1),
            }),
        ),
{
    table::lemma_appended(before.activity@, after.activity@);
    table::lemma_appended(before.commands@, after.commands@);
    let t = before.team_at(r.organization_id@, r.team_id@)->0;
    table::lemma_first_where(before.teams@, store::is_team(r.organization_id@, r.team_id@));
    table::lemma_appended(before.issues@, after.issues@);
    table::lemma_appended(before.aliases@, after.aliases@);
    traces::law_sorted_lists(after.issues@.last().label_ids@, r.label_ids@);
    let state = match r.workflow_state_id {
        Some(requested) => requested@,
        None => before.teams@[t].default_workflow_state_id@,
    };
    table::lemma_first_where(
        before.workflow_states@,
        store::is_team_state(r.organization_id@, r.team_id@, state),
    );
    assert forall|j: int| 0 <= j < before.issues@.len() implies (
    #[trigger] before.issues@[j]).issue_id@ != r.issue_id@ by {
        assert(!store::has_issue_id(r.issue_id@)(before.issues@[j]));
    }
    t
}

/// Archiving or restoring an issue changes whether it is archived to what is asked for, and nothing
/// else of it but its revision and the time of its change; the answer shows the same.
pub proof fn law_archival_only_archives(
    before: Store,
    after: Store,
    call: Invocation,
    r: ArchiveIssueRequest,
    value: IssueValue,
) -> (i: int)
    requires
        issues::archive_issue_outcome(
            before,
            after,
            call,
            r,
            Ok::<Completion<IssueValue>, StorageError>(Completion::Fresh(value)),
        ),
    ensures
        0 <= i < before.issues@.len(),
        before.issues@[i].organization_id@ == r.organization_id@,
        before.issues@[i].issue_id@ == r.issue_id@,
        forall|j: int|
            0 <= j < i ==> !((#[trigger] before.issues@[j]).organization_id@ == r.organization_id@
                && before.issues@[j].issue_id@ == r.issue_id@),
        validate::revision_value(r.expected_revision@) == Some(before.issues@[i].revision as int),
        after.issues@.len() == before.issues@.len(),
        forall|j: int|
            0 <= j < before.issues@.len() && j != i ==> #[trigger] after.issues@[j] == before.issues@[j],
        after.issues@[i].archived == r.archived,
        after.issues@[i].revision == before.issues@[i].revision + 1,
        after.issues@[i].updated_at == call.now,
        after.issues@[i].issue_id == before.issues@[i].issue_id,
        after.issues@[i].organization_id == before.issues@[i].organization_id,
        after.issues@[i].project_id == before.issues@[i].project_id,
        after.issues@[i].team_id == before.issues@[i].team_id,
        after.issues@[i].identifier == before.issues@[i].identifier,
        after.issues@[i].title == before.issues@[i].title,
        after.issues@[i].description == before.issues@[i].description,
        after.issues@[i].priority == before.issues@[i].priority,
        after.issues@[i].workflow_state_id == before.issues@[i].workflow_state_id,
        after.issues@[i].cycle_id == before.issues@[i].cycle_id,
        after.issues@[i].milestone_id == before.issues@[i].milestone_id,
        after.issues@[i].parent_issue_id == before.issues@[i].parent_issue_id,
        after.issues@[i].label_ids == before.issues@[i].label_ids,
        after.issues@[i].assignee_subject == before.issues@[i].assignee_subject,
        after.issues@[i].created_at == before.issues@[i].created_at,
        after.issues@[i].row_seq == before.issues@[i].row_seq,
        value.archived == r.archived,
        value.revision@ == text::integer_text(before.issues@[i].revision + 1),
        value.updated_at@ == call.now.text@,
        value.issue_id@ == before.issues@[i].issue_id@,
        value.organization_id@ == before.issues@[i].organization_id@,
        value.project_id@ == before.issues@[i].project_id@,
        value.team_id@ == before.issues@[i].team_id@,
        value.identifier@ == before.issues@[i].identifier@,
        value.title@ == before.issues@[i].title@,
        text::text_of(value.description) == text::text_of(before.issues@[i].description),
        value.priority == before.issues@[i].priority,
        value.workflow_state_id@ == before.issues@[i].workflow_state_id@,
        text::text_of(value.cycle_id) == text::text_of(before.issues@[i].cycle_id),
        text::text_of(value.milestone_id) == text::text_of(before.issues@[i].milestone_id),
        text::text_of(value.parent_issue_id) == text::text_of(before.issues@[i].parent_issue_id),
        value.label_ids@ == before.issues@[i].label_ids@,
        value.created_at@ == before.issues@[i].created_at.text@,
        after.teams == before.teams,
        after.team_members == before.team_members,
        after.workflow_states == before.workflow_states,
        after.workspaces == before.workspaces,
        after.project_statuses == before.project_statuses,
        after.projects == before.projects,
        after.aliases == before.aliases,
        after.links == before.links,
        after.cycles == before.cycles,
        after.milestones == before.milestones,
        after.labels == before.labels,
        after.comments == before.comments,
        after.project_updates == before.project_updates,
        after.relations == before.relations,
        after.receipts == before.receipts,
        after.next_row == before.next_row,
        traces::logged(
            before,
            after,
            call,
            r.idempotency_key@,
            (traces::Trace {
                organization: r.organization_id@,
                project: Some(before.issues@[i].project_id@),
                issue: Some(r.issue_id@),
                operation: "archive_issue"@,
                kind: "issue"@,
                entity: r.issue_id@,
                revision: Some(before.issues@[i].revision + 1),
            }),
        ),
{
    let i = before.issue_at(r.organization_id@, r.issue_id@)->0;
    table::lemma_first_where(before.issues@, store::is_issue(r.organization_id@, r.issue_id@));
    table::lemma_appended(before.activity@, after.activity@);
    table::lemma_appended(before.commands@, after.commands@);
    i
}

/// Assigning an issue gives it the assignee of the request, or none, and nothing else of another
/// value but its revision and the time of its change; the answer names the issue and its assignee.
pub proof fn law_assignment_only_assigns(
    before: Store,
    after: Store,
    call: Invocation,
    r: SetIssueAssigneeRequest,
    value: AssigneeValue,
) -> (i: int)
    requires
        issues::set_issue_assignee_outcome(
            before,
            after,
            call,
            r,
            Ok::<Completion<AssigneeValue>, StorageError>(Completion::Fresh(value)),
        ),
    ensures
        0 <= i < before.issues@.len(),
        before.issues@[i].organization_id@ == r.organization_id@,
        before.issues@[i].issue_id@ == r.issue_id@,
        forall|j: int|
            0 <= j < i ==> !((#[trigger] before.issues@[j]).organization_id@ == r.organization_id@
                && before.issues@[j].issue_id@ == r.issue_id@),
        validate::revision_value(r.expected_revision@) == Some(before.issues@[i].revision as int),
        after.issues@.len() == before.issues@.len(),
        forall|j: int|
            0 <= j < before.issues@.len() && j != i ==> #[trigger] after.issues@[j] == before.issues@[j],
        text::text_of(after.issues@[i].assignee_subject) == text::text_of(r.assignee_subject),
        after.issues@[i].revision == before.issues@[i].revision + 1,
        after.issues@[i].updated_at == call.now,
        after.issues@[i].issue_id == before.issues@[i].issue_id,
        after.issues@[i].organization_id == before.issues@[i].organization_id,
        after.issues@[i].project_id == before.issues@[i].project_id,
        after.issues@[i].team_id == before.issues@[i].team_id,
        after.issues@[i].identifier == before.issues@[i].identifier,
        after.issues@[i].title == before.issues@[i].title,
        after.issues@[i].description == before.issues@[i].description,
        after.issues@[i].priority == before.issues@[i].priority,
        after.issues@[i].workflow_state_id == before.issues@[i].workflow_state_id,
        after.issues@[i].cycle_id == before.issues@[i].cycle_id,
        after.issues@[i].milestone_id == before.issues@[i].milestone_id,
        after.issues@[i].parent_issue_id == before.issues@[i].parent_issue_id,
        after.issues@[i].label_ids == before.issues@[i].label_ids,
        after.issues@[i].archived == before.issues@[i].archived,
        after.issues@[i].created_at == before.issues@[i].created_at,
        after.issues@[i].row_seq == before.issues@[i].row_seq,
        value.issue_id@ == r.issue_id@,
        value.organization_id@ == r.organization_id@,
        text::text_of(value.assignee_subject) == text::text_of(r.assignee_subject),
        value.revision@ == text::integer_text(before.issues@[i].revision + 1),
        after.teams == before.teams,
        after.team_members == before.team_members,
        after.workflow_states == before.workflow_states,
        after.workspaces == before.workspaces,
        after.project_statuses == before.project_statuses,
        after.projects == before.projects,
        after.aliases == before.aliases,
        after.links == before.links,
        after.cycles == before.cycles,
        after.milestones == before.milestones,
        after.labels == before.labels,
        after.comments == before.comments,
        after.project_updates == before.project_updates,
        after.relations == before.relations,
        after.receipts == before.receipts,
        after.next_row == before.next_row,
        traces::logged(
            before,
            after,
            call,
            r.idempotency_key@,
            (traces::Trace {
                organization: r.organization_id@,
                project: Some(before.issues@[i].project_id@),
                issue: Some(r.issue_id@),
                operation: "set_issue_assignee"@,
                kind: "issue"@,
                entity: r.issue_id@,
                revision: Some(before.issues@[i].revision + 1),
            }),
        ),
{
    let i = before.issue_at(r.organization_id@, r.issue_id@)->0;
    table::lemma_first_where(before.issues@, store::is_issue(r.organization_id@, r.issue_id@));
    table::lemma_appended(before.activity@, after.activity@);
    table::lemma_appended(before.commands@, after.commands@);
    i
}

/// An external association is recorded once for its provider and key, with the issue, the address and
/// the title of the request; the answer shows them, and says whether the association is new. Those of
/// other keys stay as they were.
pub proof fn law_link_is_what_was_put(
    before: Store,
    after: Store,
    call: Invocation,
    r: PutExternalLinkRequest,
    value: ExternalLinkValue,
) -> (l: int)
    requires
        issues::put_external_link_outcome(
            before,
            after,
            call,
            r,
            Ok::<Completion<ExternalLinkValue>, StorageError>(Completion::Fresh(value)),
        ),
    ensures
        0 <= l < after.links@.len(),
        after.links@[l].organization_id@ == r.organization_id@,
        after.links@[l].issue_id@ == r.issue_id@,
        after.links@[l].provider@ == r.provider@,
        after.links@[l].external_key@ == r.external_key@,
        after.links@[l].url@ == r.url@,
        text::text_of(after.links@[l].title) == text::text_of(r.title),
        forall|j: int|
            0 <= j < before.links@.len() && j != l ==> #[trigger] after.links@[j] == before.links@[j],
        value.created ==> l == before.links@.len() && after.links@.len() == before.links@.len() + 1,
        !value.created ==> l < before.links@.len() && after.links@.len() == before.links@.len()
            && before.links@[l].issue_id@ == r.issue_id@ && before.links@[l].provider@ == r.provider@
            && before.links@[l].external_key@ == r.external_key@,
        value.created <==> (forall|j: int|
            0 <= j < before.links@.len() ==> !((#[trigger] before.links@[j]).organization_id@
                == r.organization_id@ && before.links@[j].provider@ == r.provider@
                && before.links@[j].external_key@ == r.external_key@)),
        value.issue_id@ == r.issue_id@,
        value.provider@ == r.provider@,
        value.external_key@ == r.external_key@,
        value.url@ == r.url@,
        text::text_of(value.title) == text::text_of(r.title),
        after.teams == before.teams,
        after.team_members == before.team_members,
        after.workflow_states == before.workflow_states,
        after.workspaces == before.workspaces,
        after.project_statuses == before.project_statuses,
        after.projects == before.projects,
        after.issues == before.issues,
        after.aliases == before.aliases,
        after.cycles == before.cycles,
        after.milestones == before.milestones,
        after.labels == before.labels,
        after.comments == before.comments,
        after.project_updates == before.project_updates,
        after.relations == before.relations,
        after.receipts == before.receipts,
        after.next_row == before.next_row,
        exists|i: int|
            0 <= i < before.issues@.len() && (#[trigger] before.issues@[i]).organization_id@ == r.organization_id@
                && before.issues@[i].issue_id@ == r.issue_id@ && traces::logged(
                before,
                after,
                call,
                r.idempotency_key@,
                (traces::Trace {
                    organization: r.organization_id@,
                    project: Some(before.issues@[i].project_id@),
                    issue: Some(r.issue_id@),
                    operation: "put_external_link"@,
                    kind: "external_link"@,
                    entity: r.external_key@,
                    revision: None,
                }),
            ),
{
    let i = before.issue_at(r.organization_id@, r.issue_id@)->0;
    table::lemma_first_where(before.issues@, store::is_issue(r.organization_id@, r.issue_id@));
    table::lemma_appended(before.activity@, after.activity@);
    table::lemma_appended(before.commands@, after.commands@);
    let keep = store::is_link(r.organization_id@, r.provider@, r.external_key@);
    table::lemma_first_where(before.links@, keep);
    match before.link_at(r.organization_id@, r.provider@, r.external_key@) {
        Some(l) => {
            assert(keep(before.links@[l]));
            l
        },
        None => {
            table::lemma_appended(before.links@, after.links@);
            assert forall|j: int| 0 <= j < before.links@.len() implies !((
            #[trigger] before.links@[j]).organization_id@ == r.organization_id@
                && before.links@[j].provider@ == r.provider@ && before.links@[j].external_key@
                == r.external_key@) by {
                assert(!keep(before.links@[j]));
            }
            before.links@.len() as int
        },
    }
}

proof fn lemma_same_visibility(
    before: Store,
    after: Store,
    organization: Seq<char>,
    issue: Seq<char>,
    i: int,
    subject: Seq<char>,
)
    requires
        before.issue_at(organization, issue) == Some(i),
        before.issue_refusal(organization, issue, subject) is None,
        after.issues@ == before.issues@.update(i, after.issues@[i]),
        after.issues@[i].organization_id == before.issues@[i].organization_id,
        after.issues@[i].issue_id == before.issues@[i].issue_id,
        after.issues@[i].project_id == before.issues@[i].project_id,
        after.issues@[i].team_id == before.issues@[i].team_id,
        after.teams == before.teams,
        after.team_members == before.team_members,
        after.projects == before.projects,
    ensures
        after.issue_at(organization, issue) == Some(i),
        after.issue_refusal(organization, issue, subject) is None,
{
    let keep = store::is_issue(organization, issue);
    table::lemma_first_where(before.issues@, keep);
    table::lemma_first_update(before.issues@, keep, i, after.issues@[i]);
    let (old_row, new_row) = (before.issues@[i], after.issues@[i]);
    assert(after.team_at(organization, new_row.team_id@) == before.team_at(
        organization,
        old_row.team_id@,
    ));
    assert(after.hidden_team(organization, new_row.team_id@, subject) == before.hidden_team(
        organization,
        old_row.team_id@,
        subject,
    ));
    let teams = before.projects@[before.project_at(organization, old_row.project_id@)->0].team_ids@;
    assert forall|k: int| 0 <= k < teams.len() implies after.hidden_team(
        organization,
        (#[trigger] teams[k])@,
        subject,
    ) == before.hidden_team(organization, teams[k]@, subject) by {}
    assert(after.hidden_among(organization, teams, subject) == before.hidden_among(
        organization,
        teams,
        subject,
    ));
    assert(after.hidden_project(organization, new_row.project_id@, subject)
        == before.hidden_project(organization, old_row.project_id@, subject));
}

/// Whoever updated an issue reads it afterwards as the answer showed it.
pub proof fn law_updated_issue_reads_back(
    before: Store,
    after: Store,
    call: Invocation,
    r: UpdateIssueRequest,
    value: IssueValue,
    q: GetIssueRequest,
    read: Result<IssueValue, StorageError>,
)
    requires
        issues::update_issue_outcome(
            before,
            after,
            call,
            r,
            Ok::<Completion<IssueValue>, StorageError>(Completion::Fresh(value)),
        ),
        q.organization_id@ == r.organization_id@,
        q.issue_ref@ == r.issue_id@,
        issues::get_issue_outcome(after, call.actor@, q, read),
    ensures
        read is Ok,
        (read->Ok_0).issue_id@ == value.issue_id@,
        (read->Ok_0).organization_id@ == value.organization_id@,
        (read->Ok_0).identifier@ == value.identifier@,
        (read->Ok_0).project_id@ == value.project_id@,
        (read->Ok_0).team_id@ == value.team_id@,
        (read->Ok_0).title@ == value.title@,
        (read->Ok_0).workflow_state_id@ == value.workflow_state_id@,
        (read->Ok_0).revision@ == value.revision@,
        (read->Ok_0).created_at@ == value.created_at@,
        (read->Ok_0).updated_at@ == value.updated_at@,
        text::text_of((read->Ok_0).description) == text::text_of(value.description),
        text::text_of((read->Ok_0).cycle_id) == text::text_of(value.cycle_id),
        text::text_of((read->Ok_0).milestone_id) == text::text_of(value.milestone_id),
        text::text_of((read->Ok_0).parent_issue_id) == text::text_of(value.parent_issue_id),
        (read->Ok_0).priority == value.priority,
        (read->Ok_0).label_ids@ == value.label_ids@,
        (read->Ok_0).archived == value.archived,
        (read->Ok_0).title@ == text::trimmed(r.title@),
        (read->Ok_0).priority == r.priority,
        (read->Ok_0).workflow_state_id@ == r.workflow_state_id@,
        text::text_of((read->Ok_0).milestone_id) == text::text_of(r.milestone_id),
{
    let i = before.issue_at(r.organization_id@, r.issue_id@)->0;
    table::lemma_first_where(before.issues@, store::is_issue(r.organization_id@, r.issue_id@));
    lemma_same_visibility(before, after, r.organization_id@, r.issue_id@, i, call.actor@);
}

/// Whoever archived or restored an issue reads it afterwards as the answer showed it.
pub proof fn law_archived_issue_reads_back(
    before: Store,
    after: Store,
    call: Invocation,
    r: ArchiveIssueRequest,
    value: IssueValue,
    q: GetIssueRequest,
    read: Result<IssueValue, StorageError>,
)
    requires
        issues::archive_issue_outcome(
            before,
            after,
            call,
            r,
            Ok::<Completion<IssueValue>, StorageError>(Completion::Fresh(value)),
        ),
        q.organization_id@ == r.organization_id@,
        q.issue_ref@ == r.issue_id@,
        issues::get_issue_outcome(after, call.actor@, q, read),
    ensures
        read is Ok,
        (read->Ok_0).issue_id@ == value.issue_id@,
        (read->Ok_0).organization_id@ == value.organization_id@,
        (read->Ok_0).identifier@ == value.identifier@,
        (read->Ok_0).project_id@ == value.project_id@,
        (read->Ok_0).team_id@ == value.team_id@,
        (read->Ok_0).title@ == value.title@,
        (read->Ok_0).workflow_state_id@ == value.workflow_state_id@,
        (read->Ok_0).revision@ == value.revision@,
        (read->Ok_0).created_at@ == value.created_at@,
        (read->Ok_0).updated_at@ == value.updated_at@,
        text::text_of((read->Ok_0).description) == text::text_of(value.description),
        text::text_of((read->Ok_0).cycle_id) == text::text_of(value.cycle_id),
        text::text_of((read->Ok_0).milestone_id) == text::text_of(value.milestone_id),
        text::text_of((read->Ok_0).parent_issue_id) == text::text_of(value.parent_issue_id),
        (read->Ok_0).priority == value.priority,
        (read->Ok_0).label_ids@ == value.label_ids@,
        (read->Ok_0).archived == value.archived,
        (read->Ok_0).archived == r.archived,
{
    let i = before.issue_at(r.organization_id@, r.issue_id@)->0;
    table::lemma_first_where(before.issues@, store::is_issue(r.organization_id@, r.issue_id@));
    lemma_same_visibility(before, after, r.organization_id@, r.issue_id@, i, call.actor@);
}

proof fn lemma_moved_visibility(
    before: Store,
    after: Store,
    call: Invocation,
    r: MoveIssueRequest,
    value: IssueValue,
)
    requires
        issues::move_issue_outcome(
            before,
            after,
            call,
            r,
            Ok::<Completion<IssueValue>, StorageError>(Completion::Fresh(value)),
        ),
    ensures
        after.issue_at(r.organization_id@, r.issue_id@) == before.issue_at(
            r.organization_id@,
            r.issue_id@,
        ),
        after.issue_at(r.organization_id@, r.issue_id@) is Some,
        after.issue_refusal(r.organization_id@, r.issue_id@, call.actor@) is None,
{
    let i = before.issue_at(r.organization_id@, r.issue_id@)->0;
    let keep = store::is_issue(r.organization_id@, r.issue_id@);
    table::lemma_first_where(before.issues@, keep);
    table::lemma_first_update(before.issues@, keep, i, after.issues@[i]);
    let t = before.team_at(r.organization_id@, r.team_id@)->0;
    table::lemma_first_where(before.teams@, store::is_team(r.organization_id@, r.team_id@));
    let organization = r.organization_id@;
    assert forall|team: Seq<char>| #[trigger] after.team_at(organization, team) == before.team_at(
        organization,
        team,
    ) by {
        table::lemma_first_where(before.teams@, store::is_team(organization, team));
        table::lemma_first_update(
            before.teams@,
            store::is_team(organization, team),
            t,
            after.teams@[t],
        );
    }
    assert forall|team: Seq<char>| #[trigger] after.hidden_team(organization, team, call.actor@)
        == before.hidden_team(organization, team, call.actor@) by {
        table::lemma_first_where(before.teams@, store::is_team(organization, team));
        assert(after.team_at(organization, team) == before.team_at(organization, team));
        assert(after.member(organization, team, call.actor@) == before.member(
            organization,
            team,
            call.actor@,
        ));
    }
    let row = before.issues@[i];
    let teams = before.projects@[before.project_at(organization, row.project_id@)->0].team_ids@;
    assert(after.hidden_among(organization, teams, call.actor@) == before.hidden_among(
        organization,
        teams,
        call.actor@,
    ));
    assert(after.hidden_project(organization, row.project_id@, call.actor@)
        == before.hidden_project(organization, row.project_id@, call.actor@));
    assert(after.team_at(organization, after.issues@[i].team_id@) is Some);
    assert(!after.hidden_team(organization, after.issues@[i].team_id@, call.actor@));
}

/// Whoever moved an issue reads it afterwards as the answer showed it: with the milestone, the
/// parent, the title and the project that it had.
pub proof fn law_moved_issue_reads_back(
    before: Store,
    after: Store,
    call: Invocation,
    r: MoveIssueRequest,
    value: IssueValue,
    q: GetIssueRequest,
    read: Result<IssueValue, StorageError>,
)
    requires
        issues::move_issue_outcome(
            before,
            after,
            call,
            r,
            Ok::<Completion<IssueValue>, StorageError>(Completion::Fresh(value)),
        ),
        q.organization_id@ == r.organization_id@,
        q.issue_ref@ == r.issue_id@,
        issues::get_issue_outcome(after, call.actor@, q, read),
    ensures
        read is Ok,
        (read->Ok_0).issue_id@ == value.issue_id@,
        (read->Ok_0).organization_id@ == value.organization_id@,
        (read->Ok_0).identifier@ == value.identifier@,
        (read->Ok_0).project_id@ == value.project_id@,
        (read->Ok_0).team_id@ == value.team_id@,
        (read->Ok_0).title@ == value.title@,
        (read->Ok_0).workflow_state_id@ == value.workflow_state_id@,
        (read->Ok_0).revision@ == value.revision@,
        (read->Ok_0).created_at@ == value.created_at@,
        (read->Ok_0).updated_at@ == value.updated_at@,
        text::text_of((read->Ok_0).description) == text::text_of(value.description),
        text::text_of((read->Ok_0).cycle_id) == text::text_of(value.cycle_id),
        text::text_of((read->Ok_0).milestone_id) == text::text_of(value.milestone_id),
        text::text_of((read->Ok_0).parent_issue_id) == text::text_of(value.parent_issue_id),
        (read->Ok_0).priority == value.priority,
        (read->Ok_0).label_ids@ == value.label_ids@,
        (read->Ok_0).archived == value.archived,
        exists|i: int|
            0 <= i < before.issues@.len() && (#[trigger] before.issues@[i]).organization_id@ == r.organization_id@
                && before.issues@[i].issue_id@ == r.issue_id@ && text::text_of((read->Ok_0).milestone_id)
                == text::text_of(before.issues@[i].milestone_id) && (read->Ok_0).project_id@
                == before.issues@[i].project_id@ && (read->Ok_0).title@ == before.issues@[i].title@,
{
    let i = before.issue_at(r.organization_id@, r.issue_id@)->0;
    table::lemma_first_where(before.issues@, store::is_issue(r.organization_id@, r.issue_id@));
    lemma_moved_visibility(before, after, call, r, value);
    assert(after.issues@[i].milestone_id == before.issues@[i].milestone_id);
}

/// Whoever assigned an issue reads the assignment afterwards as it was asked for.
pub proof fn law_assignment_reads_back(
    before: Store,
    after: Store,
    call: Invocation,
    r: SetIssueAssigneeRequest,
    value: AssigneeValue,
    q: GetIssueAssigneeRequest,
    read: Result<AssigneeValue, StorageError>,
)
    requires
        issues::set_issue_assignee_outcome(
            before,
            after,
            call,
            r,
            Ok::<Completion<AssigneeValue>, StorageError>(Completion::Fresh(value)),
        ),
        q.organization_id@ == r.organization_id@,
        q.issue_id@ == r.issue_id@,
        issues::get_issue_assignee_outcome(after, call.actor@, q, read),
    ensures
        read is Ok,
        (read->Ok_0).issue_id@ == r.issue_id@,
        (read->Ok_0).organization_id@ == r.organization_id@,
        text::text_of((read->Ok_0).assignee_subject) == text::text_of(r.assignee_subject),
        (read->Ok_0).revision@ == value.revision@,
{
    let i = before.issue_at(r.organization_id@, r.issue_id@)->0;
    table::lemma_first_where(before.issues@, store::is_issue(r.organization_id@, r.issue_id@));
    lemma_same_visibility(before, after, r.organization_id@, r.issue_id@, i, call.actor@);
}

} // verus!
