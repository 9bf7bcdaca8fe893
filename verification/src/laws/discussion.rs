//! What is said about issues and projects, and how issues are related.
use crate::collaboration;
use crate::failure::StorageError;
use crate::laws::traces;
use crate::model::{
    AddCommentRequest, AddIssueRelationRequest, CommentValue, Completion,
    CreateProjectUpdateRequest, DeleteCommentRequest, ProjectUpdateValue, RelationValue,
    RemoveIssueRelationRequest, UpdateCommentRequest,
};
use crate::store::{Invocation, Store};
use crate::store;
use crate::table;
use crate::text;
use crate::validate;
use vstd::prelude::*;

verus! {

/// A comment that is added stands on the issue of the request under the id of the request, by whoever
/// added it, with the body of the request without the white space around it, not deleted and at its
/// first revision; the answer shows the same. It follows the comments that were there, which stay as
/// they were.
pub proof fn law_comment_is_what_was_said(
    before: Store,
    after: Store,
    call: Invocation,
    r: AddCommentRequest,
    value: CommentValue,
) -> (i: int)
    requires
        collaboration::add_comment_outcome(
            before,
            after,
            call,
            r,
            Ok::<Completion<CommentValue>, StorageError>(Completion::Fresh(value)),
        ),
    ensures
        after.comments@.len() == before.comments@.len() + 1,
        forall|j: int|
            0 <= j < before.comments@.len() ==> #[trigger] after.comments@[j] == before.comments@[j],
        after.comments@.last().comment_id@ == r.comment_id@,
        after.comments@.last().organization_id@ == r.organization_id@,
        after.comments@.last().issue_id@ == r.issue_id@,
        after.comments@.last().author_subject@ == call.actor@,
        after.comments@.last().body@ == text::trimmed(r.body@),
        !after.comments@.last().deleted,
        after.comments@.last().revision == 1,
        after.comments@.last().created_at == call.now,
        after.comments@.last().updated_at == call.now,
        after.comments@.last().row_seq == before.next_row,
        after.next_row == before.next_row + 1,
        forall|j: int|
            0 <= j < before.comments@.len() ==> (#[trigger] before.comments@[j]).comment_id@ != r.comment_id@,
        value.comment_id@ == r.comment_id@,
        value.organization_id@ == r.organization_id@,
        value.issue_id@ == r.issue_id@,
        value.author_subject@ == call.actor@,
        value.body@ == text::trimmed(r.body@),
        !value.deleted,
        value.revision@ == text::integer_text(1),
        value.created_at@ == call.now.text@,
        value.updated_at@ == call.now.text@,
        after.teams == before.teams,
        after.team_members == before.team_members,
        after.workflow_states == before.workflow_states,
        after.workspaces == before.workspaces,
        after.project_statuses == before.project_statuses,
        after.projects == before.projects,
        after.issues == before.issues,
        after.aliases == before.aliases,
        after.links == before.links,
        after.cycles == before.cycles,
        after.milestones == before.milestones,
        after.labels == before.labels,
        after.project_updates == before.project_updates,
        after.relations == before.relations,
        after.receipts == before.receipts,
        0 <= i < before.issues@.len(),
        before.issues@[i].organization_id@ == r.organization_id@,
        before.issues@[i].issue_id@ == r.issue_id@,
        traces::logged(
            before,
            after,
            call,
            r.idempotency_key@,
            (traces::Trace {
                organization: r.organization_id@,
                project: Some(before.issues@[i].project_id@),
                issue: Some(r.issue_id@),
                operation: "add_comment"@,
                kind: "comment"@,
                entity: r.comment_id@,
                revision: Some(1),
            }),
        ),
{
    table::lemma_appended(before.activity@, after.activity@);
    table::lemma_appended(before.commands@, after.commands@);
    table::lemma_appended(before.comments@, after.comments@);
    table::lemma_first_where(before.issues@, store::is_issue(r.organization_id@, r.issue_id@));
    assert forall|j: int| 0 <= j < before.comments@.len() implies (
    #[trigger] before.comments@[j]).comment_id@ != r.comment_id@ by {
        assert(!store::has_comment_id(r.comment_id@)(before.comments@[j]));
    }
    before.issue_at(r.organization_id@, r.issue_id@)->0
}

/// An update of a comment that takes effect is by its author, on the revision that it expects of a
/// comment that is not deleted; it gives the comment the body of the request without the white space
/// around it, and nothing else of another value but its revision and the time of its change. The
/// answer shows the same.
pub proof fn law_updated_comment_says_the_new_body(
    before: Store,
    after: Store,
    call: Invocation,
    r: UpdateCommentRequest,
    value: CommentValue,
) -> (at: (int, int))
    requires
        collaboration::update_comment_outcome(
            before,
            after,
            call,
            r,
            Ok::<Completion<CommentValue>, StorageError>(Completion::Fresh(value)),
        ),
    ensures
        ({
            let (c, i) = at;
            &&& 0 <= c < before.comments@.len()
            &&& before.comments@[c].organization_id@ == r.organization_id@
            &&& before.comments@[c].comment_id@ == r.comment_id@
            &&& before.comments@[c].author_subject@ == call.actor@
            &&& validate::revision_value(r.expected_revision@) == Some(before.comments@[c].revision as int)
            &&& !before.comments@[c].deleted
            &&& after.comments@.len() == before.comments@.len()
            &&& forall|j: int|
                0 <= j < before.comments@.len() && j != c ==> #[trigger] after.comments@[j] == before.comments@[j]
            &&& after.comments@[c].body@ == text::trimmed(r.body@)
            &&& after.comments@[c].deleted == false
            &&& after.comments@[c].revision == before.comments@[c].revision + 1
            &&& after.comments@[c].updated_at == call.now
            &&& after.comments@[c].comment_id == before.comments@[c].comment_id
            &&& after.comments@[c].organization_id == before.comments@[c].organization_id
            &&& after.comments@[c].issue_id == before.comments@[c].issue_id
            &&& after.comments@[c].author_subject == before.comments@[c].author_subject
            &&& after.comments@[c].created_at == before.comments@[c].created_at
            &&& after.comments@[c].row_seq == before.comments@[c].row_seq
            &&& value.comment_id@ == r.comment_id@
            &&& value.organization_id@ == r.organization_id@
            &&& value.issue_id@ == before.comments@[c].issue_id@
            &&& value.author_subject@ == call.actor@
            &&& value.body@ == text::trimmed(r.body@)
            &&& value.deleted == false
            &&& value.revision@ == text::integer_text(before.comments@[c].revision + 1)
            &&& value.created_at@ == before.comments@[c].created_at.text@
            &&& value.updated_at@ == call.now.text@
            &&& after.teams == before.teams
            &&& after.team_members == before.team_members
            &&& after.workflow_states == before.workflow_states
            &&& after.workspaces == before.workspaces
            &&& after.project_statuses == before.project_statuses
            &&& after.projects == before.projects
            &&& after.issues == before.issues
            &&& after.aliases == before.aliases
            &&& after.links == before.links
            &&& after.cycles == before.cycles
            &&& after.milestones == before.milestones
            &&& after.labels == before.labels
            &&& after.project_updates == before.project_updates
            &&& after.relations == before.relations
            &&& after.receipts == before.receipts
            &&& after.next_row == before.next_row
            &&& 0 <= i < before.issues@.len()
            &&& before.issues@[i].organization_id@ == r.organization_id@
            &&& before.issues@[i].issue_id@ == before.comments@[c].issue_id@
            &&& traces::logged(
                before,
                after,
                call,
                r.idempotency_key@,
                (traces::Trace {
                    organization: r.organization_id@,
                    project: Some(before.issues@[i].project_id@),
                    issue: Some(before.comments@[c].issue_id@),
                    operation: "update_comment"@,
                    kind: "comment"@,
                    entity: r.comment_id@,
                    revision: Some(before.comments@[c].revision + 1),
                }),
            )
        }),
{
    table::lemma_appended(before.activity@, after.activity@);
    table::lemma_appended(before.commands@, after.commands@);
    let (c, i) = collaboration::placed_comment(before, r.organization_id@, r.comment_id@)->0;
    table::lemma_first_where(before.comments@, store::is_comment(r.organization_id@, r.comment_id@));
    table::lemma_first_where(
        before.issues@,
        store::is_issue(r.organization_id@, before.comments@[c].issue_id@),
    );
    (c, i)
}

/// A deletion of a comment that takes effect is by its author, on the revision that it expects; the
/// comment stays where it is, marked as deleted and with an empty body, and nothing else of it gets
/// another value but its revision and the time of its change. The answer shows the same.
pub proof fn law_deleted_comment_is_emptied(
    before: Store,
    after: Store,
    call: Invocation,
    r: DeleteCommentRequest,
    value: CommentValue,
) -> (at: (int, int))
    requires
        collaboration::delete_comment_outcome(
            before,
            after,
            call,
            r,
            Ok::<Completion<CommentValue>, StorageError>(Completion::Fresh(value)),
        ),
    ensures
        ({
            let (c, i) = at;
            &&& 0 <= c < before.comments@.len()
            &&& before.comments@[c].organization_id@ == r.organization_id@
            &&& before.comments@[c].comment_id@ == r.comment_id@
            &&& before.comments@[c].author_subject@ == call.actor@
            &&& validate::revision_value(r.expected_revision@) == Some(before.comments@[c].revision as int)
            &&& after.comments@.len() == before.comments@.len()
            &&& forall|j: int|
                0 <= j < before.comments@.len() && j != c ==> #[trigger] after.comments@[j] == before.comments@[j]
            &&& after.comments@[c].body@ == Seq::<char>::empty()
            &&& after.comments@[c].deleted == true
            &&& after.comments@[c].revision == before.comments@[c].revision + 1
            &&& after.comments@[c].updated_at == call.now
            &&& after.comments@[c].comment_id == before.comments@[c].comment_id
            &&& after.comments@[c].organization_id == before.comments@[c].organization_id
            &&& after.comments@[c].issue_id == before.comments@[c].issue_id
            &&& after.comments@[c].author_subject == before.comments@[c].author_subject
            &&& after.comments@[c].created_at == before.comments@[c].created_at
            &&& after.comments@[c].row_seq == before.comments@[c].row_seq
            &&& value.comment_id@ == r.comment_id@
            &&& value.organization_id@ == r.organization_id@
            &&& value.issue_id@ == before.comments@[c].issue_id@
            &&& value.author_subject@ == call.actor@
            &&& value.body@ == Seq::<char>::empty()
            &&& value.deleted == true
            &&& value.revision@ == text::integer_text(before.comments@[c].revision + 1)
            &&& value.created_at@ == before.comments@[c].created_at.text@
            &&& value.updated_at@ == call.now.text@
            &&& after.teams == before.teams
            &&& after.team_members == before.team_members
            &&& after.workflow_states == before.workflow_states
            &&& after.workspaces == before.workspaces
            &&& after.project_statuses == before.project_statuses
            &&& after.projects == before.projects
            &&& after.issues == before.issues
            &&& after.aliases == before.aliases
            &&& after.links == before.links
            &&& after.cycles == before.cycles
            &&& after.milestones == before.milestones
            &&& after.labels == before.labels
            &&& after.project_updates == before.project_updates
            &&& after.relations == before.relations
            &&& after.receipts == before.receipts
            &&& after.next_row == before.next_row
            &&& 0 <= i < before.issues@.len()
            &&& before.issues@[i].organization_id@ == r.organization_id@
            &&& before.issues@[i].issue_id@ == before.comments@[c].issue_id@
            &&& traces::logged(
                before,
                after,
                call,
                r.idempotency_key@,
                (traces::Trace {
                    organization: r.organization_id@,
                    project: Some(before.issues@[i].project_id@),
                    issue: Some(before.comments@[c].issue_id@),
                    operation: "delete_comment"@,
                    kind: "comment"@,
                    entity: r.comment_id@,
                    revision: Some(before.comments@[c].revision + 1),
                }),
            )
        }),
{
    table::lemma_appended(before.activity@, after.activity@);
    table::lemma_appended(before.commands@, after.commands@);
    let (c, i) = collaboration::placed_comment(before, r.organization_id@, r.comment_id@)->0;
    table::lemma_first_where(before.comments@, store::is_comment(r.organization_id@, r.comment_id@));
    table::lemma_first_where(
        before.issues@,
        store::is_issue(r.organization_id@, before.comments@[c].issue_id@),
    );
    (c, i)
}

/// A project update that is posted stands on the project of the request under the id of the request,
/// by whoever posted it, with the health of the request and its body without the white space around
/// it; the answer shows the same. It follows the updates that were there, which stay as they were.
pub proof fn law_project_update_is_what_was_posted(
    before: Store,
    after: Store,
    call: Invocation,
    r: CreateProjectUpdateRequest,
    value: ProjectUpdateValue,
)
    requires
        collaboration::create_project_update_outcome(
            before,
            after,
            call,
            r,
            Ok::<Completion<ProjectUpdateValue>, StorageError>(Completion::Fresh(value)),
        ),
    ensures
        after.project_updates@.len() == before.project_updates@.len() + 1,
        forall|j: int|
            0 <= j < before.project_updates@.len() ==> #[trigger] after.project_updates@[j] == before.project_updates@[j],
        after.project_updates@.last().update_id@ == r.update_id@,
        after.project_updates@.last().organization_id@ == r.organization_id@,
        after.project_updates@.last().project_id@ == r.project_id@,
        after.project_updates@.last().author_subject@ == call.actor@,
        after.project_updates@.last().body@ == text::trimmed(r.body@),
        after.project_updates@.last().health == r.health,
        after.project_updates@.last().created_at == call.now,
        after.project_updates@.last().row_seq == before.next_row,
        after.next_row == before.next_row + 1,
        forall|j: int|
            0 <= j < before.project_updates@.len() ==> (#[trigger] before.project_updates@[j]).update_id@
                != r.update_id@,
        value.update_id@ == r.update_id@,
        value.organization_id@ == r.organization_id@,
        value.project_id@ == r.project_id@,
        value.author_subject@ == call.actor@,
        value.body@ == text::trimmed(r.body@),
        value.health == r.health,
        value.created_at@ == call.now.text@,
        after.teams == before.teams,
        after.team_members == before.team_members,
        after.workflow_states == before.workflow_states,
        after.workspaces == before.workspaces,
        after.project_statuses == before.project_statuses,
        after.projects == before.projects,
        after.issues == before.issues,
        after.aliases == before.aliases,
        after.links == before.links,
        after.cycles == before.cycles,
        after.milestones == before.milestones,
        after.labels == before.labels,
        after.comments == before.comments,
        after.relations == before.relations,
        after.receipts == before.receipts,
        traces::logged(
            before,
            after,
            call,
            r.idempotency_key@,
            (traces::Trace {
                organization: r.organization_id@,
                project: Some(r.project_id@),
                issue: None,
                operation: "create_project_update"@,
                kind: "project_update"@,
                entity: r.update_id@,
                revision: None,
            }),
        ),
{
    table::lemma_appended(before.activity@, after.activity@);
    table::lemma_appended(before.commands@, after.commands@);
    table::lemma_appended(before.project_updates@, after.project_updates@);
    assert forall|j: int| 0 <= j < before.project_updates@.len() implies (
    #[trigger] before.project_updates@[j]).update_id@ != r.update_id@ by {
        assert(!store::has_update_id(r.update_id@)(before.project_updates@[j]));
    }
}

/// Relating two different issues records, under the id of the request, a relation from its issue to
/// its related issue of its kind, which holds; the answer shows the same. It follows the relations
/// that were there, which stay as they were.
pub proof fn law_relation_goes_the_way_that_was_asked(
    before: Store,
    after: Store,
    call: Invocation,
    r: AddIssueRelationRequest,
    value: RelationValue,
) -> (i: int)
    requires
        collaboration::add_issue_relation_outcome(
            before,
            after,
            call,
            r,
            Ok::<Completion<RelationValue>, StorageError>(Completion::Fresh(value)),
        ),
    ensures
        r.issue_id@ != r.related_issue_id@,
        after.relations@.len() == before.relations@.len() + 1,
        forall|j: int|
            0 <= j < before.relations@.len() ==> #[trigger] after.relations@[j] == before.relations@[j],
        after.relations@.last().relation_id@ == r.relation_id@,
        after.relations@.last().organization_id@ == r.organization_id@,
        after.relations@.last().issue_id@ == r.issue_id@,
        after.relations@.last().related_issue_id@ == r.related_issue_id@,
        after.relations@.last().kind == r.kind,
        after.relations@.last().active,
        forall|j: int|
            0 <= j < before.relations@.len() ==> (#[trigger] before.relations@[j]).relation_id@ != r.relation_id@,
        value.relation_id@ == r.relation_id@,
        value.organization_id@ == r.organization_id@,
        value.issue_id@ == r.issue_id@,
        value.related_issue_id@ == r.related_issue_id@,
        value.kind == r.kind,
        value.active,
        after.teams == before.teams,
        after.team_members == before.team_members,
        after.workflow_states == before.workflow_states,
        after.workspaces == before.workspaces,
        after.project_statuses == before.project_statuses,
        after.projects == before.projects,
        after.issues == before.issues,
        after.aliases == before.aliases,
        after.links == before.links,
        after.cycles == before.cycles,
        after.milestones == before.milestones,
        after.labels == before.labels,
        after.comments == before.comments,
        after.project_updates == before.project_updates,
        after.receipts == before.receipts,
        after.next_row == before.next_row,
        0 <= i < before.issues@.len(),
        before.issues@[i].organization_id@ == r.organization_id@,
        before.issues@[i].issue_id@ == r.issue_id@,
        traces::logged(
            before,
            after,
            call,
            r.idempotency_key@,
            (traces::Trace {
                organization: r.organization_id@,
                project: Some(before.issues@[i].project_id@),
                issue: Some(r.issue_id@),
                operation: "add_issue_relation"@,
                kind: "issue_relation"@,
                entity: r.relation_id@,
                revision: None,
            }),
        ),
        exists|k: int|
            0 <= k < before.issues@.len() && (#[trigger] before.issues@[k]).organization_id@ == r.organization_id@
                && before.issues@[k].issue_id@ == r.related_issue_id@,
{
    table::lemma_appended(before.activity@, after.activity@);
    table::lemma_appended(before.commands@, after.commands@);
    table::lemma_appended(before.relations@, after.relations@);
    table::lemma_first_where(before.issues@, store::is_issue(r.organization_id@, r.issue_id@));
    table::lemma_first_where(before.issues@, store::is_issue(r.organization_id@, r.related_issue_id@));
    let k = before.issue_at(r.organization_id@, r.related_issue_id@)->0;
    assert(store::is_issue(r.organization_id@, r.related_issue_id@)(before.issues@[k]));
    assert(before.issues@[k].issue_id@ == r.related_issue_id@);
    assert forall|j: int| 0 <= j < before.relations@.len() implies (
    #[trigger] before.relations@[j]).relation_id@ != r.relation_id@ by {
        assert(!store::has_relation_id(r.relation_id@)(before.relations@[j]));
    }
    before.issue_at(r.organization_id@, r.issue_id@)->0
}

/// Ending a relation leaves it where it is, no longer holding, with the two ends and the kind that it
/// had; the answer shows the same. Every other relation stays as it was.
pub proof fn law_ended_relation_keeps_its_ends(
    before: Store,
    after: Store,
    call: Invocation,
    r: RemoveIssueRelationRequest,
    value: RelationValue,
) -> (at: (int, int))
    requires
        collaboration::remove_issue_relation_outcome(
            before,
            after,
            call,
            r,
            Ok::<Completion<RelationValue>, StorageError>(Completion::Fresh(value)),
        ),
    ensures
        ({
            let (k, i) = at;
            &&& 0 <= k < before.relations@.len()
            &&& before.relations@[k].organization_id@ == r.organization_id@
            &&& before.relations@[k].relation_id@ == r.relation_id@
            &&& after.relations@.len() == before.relations@.len()
            &&& forall|j: int|
                0 <= j < before.relations@.len() && j != k ==> #[trigger] after.relations@[j] == before.relations@[j]
            &&& !after.relations@[k].active
            &&& after.relations@[k].relation_id == before.relations@[k].relation_id
            &&& after.relations@[k].organization_id == before.relations@[k].organization_id
            &&& after.relations@[k].issue_id == before.relations@[k].issue_id
            &&& after.relations@[k].related_issue_id == before.relations@[k].related_issue_id
            &&& after.relations@[k].kind == before.relations@[k].kind
            &&& value.relation_id@ == r.relation_id@
            &&& value.organization_id@ == r.organization_id@
            &&& value.issue_id@ == before.relations@[k].issue_id@
            &&& value.related_issue_id@ == before.relations@[k].related_issue_id@
            &&& value.kind == before.relations@[k].kind
            &&& !value.active
            &&& after.teams == before.teams
            &&& after.team_members == before.team_members
            &&& after.workflow_states == before.workflow_states
            &&& after.workspaces == before.workspaces
            &&& after.project_statuses == before.project_statuses
            &&& after.projects == before.projects
            &&& after.issues == before.issues
            &&& after.aliases == before.aliases
            &&& after.links == before.links
            &&& after.cycles == before.cycles
            &&& after.milestones == before.milestones
            &&& after.labels == before.labels
            &&& after.comments == before.comments
            &&& after.project_updates == before.project_updates
            &&& after.receipts == before.receipts
            &&& after.next_row == before.next_row
            &&& 0 <= i < before.issues@.len()
            &&& before.issues@[i].organization_id@ == r.organization_id@
            &&& before.issues@[i].issue_id@ == before.relations@[k].issue_id@
            &&& traces::logged(
                before,
                after,
                call,
                r.idempotency_key@,
                (traces::Trace {
                    organization: r.organization_id@,
                    project: Some(before.issues@[i].project_id@),
                    issue: Some(before.relations@[k].issue_id@),
                    operation: "remove_issue_relation"@,
                    kind: "issue_relation"@,
                    entity: r.relation_id@,
                    revision: None,
                }),
            )
        }),
{
    table::lemma_appended(before.activity@, after.activity@);
    table::lemma_appended(before.commands@, after.commands@);
    let (k, i) = collaboration::placed_relation(before, r.organization_id@, r.relation_id@)->0;
    table::lemma_first_where(before.relations@, store::is_relation(r.organization_id@, r.relation_id@));
    table::lemma_first_where(
        before.issues@,
        store::is_issue(r.organization_id@, before.relations@[k].issue_id@),
    );
    (k, i)
}

/// A relation that was added and is ended later, as long as nothing else changed the relations in
/// between, ends between the same two issues, from the one to the other, with the same kind.
pub proof fn law_relation_ends_as_it_began(
    before: Store,
    after: Store,
    call: Invocation,
    r: AddIssueRelationRequest,
    value: RelationValue,
    later: Store,
    ended: Store,
    end_call: Invocation,
    end: RemoveIssueRelationRequest,
    answer: RelationValue,
)
    requires
        collaboration::add_issue_relation_outcome(
            before,
            after,
            call,
            r,
            Ok::<Completion<RelationValue>, StorageError>(Completion::Fresh(value)),
        ),
        later.relations == after.relations,
        end.organization_id@ == r.organization_id@,
        end.relation_id@ == r.relation_id@,
        collaboration::remove_issue_relation_outcome(
            later,
            ended,
            end_call,
            end,
            Ok::<Completion<RelationValue>, StorageError>(Completion::Fresh(answer)),
        ),
    ensures
        answer.relation_id@ == value.relation_id@,
        answer.organization_id@ == value.organization_id@,
        answer.issue_id@ == r.issue_id@,
        answer.related_issue_id@ == r.related_issue_id@,
        answer.kind == r.kind,
        value.active,
        !answer.active,
        ended.relations@.len() == before.relations@.len() + 1,
        ended.relations@.last().issue_id@ == r.issue_id@,
        ended.relations@.last().related_issue_id@ == r.related_issue_id@,
        ended.relations@.last().kind == r.kind,
        !ended.relations@.last().active,
{
    law_relation_goes_the_way_that_was_asked(before, after, call, r, value);
    let (k, _) = law_ended_relation_keeps_its_ends(later, ended, end_call, end, answer);
    let n = before.relations@.len() as int;
    if k < n {
        assert(after.relations@[k] == before.relations@[k]);
    }
    assert(k == n);
}

} // verus!
