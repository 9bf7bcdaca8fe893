//! Revisions guard against lost updates: of two writers that expect the same revision one loses.
use crate::collaboration;
use crate::failure::StorageError;
use crate::issues;
use crate::model::{
    ArchiveIssueRequest, ArchiveProjectRequest, AssigneeValue, CommentValue, Completion,
    DeleteCommentRequest, IssueValue, MoveIssueRequest, ProjectValue, SetIssueAssigneeRequest,
    UpdateCommentRequest, UpdateIssueRequest, UpdateProjectRequest,
};
use crate::project_status::StatusIds;
use crate::projects;
use crate::store;
use crate::store::{Invocation, Store};
use crate::table;
use crate::validate;
use vstd::prelude::*;

verus! {

/// Whether the issue stands where it stood, under the revision that follows its earlier one.
pub open spec fn issue_advanced(before: Store, after: Store, organization: Seq<char>, issue: Seq<char>) -> bool {
    match before.issue_at(organization, issue) {
        Some(i) => {
            &&& after.issue_at(organization, issue) == Some(i)
            &&& after.issues@[i].revision == before.issues@[i].revision + 1
        },
        None => false,
    }
}

/// Whether a text is the revision that the issue had.
pub open spec fn expects_issue(s: Store, organization: Seq<char>, issue: Seq<char>, expected: Seq<char>) -> bool {
    match s.issue_at(organization, issue) {
        Some(i) => validate::revision_value(expected) == Some(s.issues@[i].revision as int),
        None => false,
    }
}

proof fn lemma_issue_advances(before: Store, after: Store, organization: Seq<char>, issue: Seq<char>, i: int)
    requires
        before.issue_at(organization, issue) == Some(i),
        after.issues@ == before.issues@.update(i, after.issues@[i]),
        after.issues@[i].organization_id == before.issues@[i].organization_id,
        after.issues@[i].issue_id == before.issues@[i].issue_id,
        after.issues@[i].revision == before.issues@[i].revision + 1,
    ensures
        issue_advanced(before, after, organization, issue),
{
    let keep = store::is_issue(organization, issue);
    table::lemma_first_where(before.issues@, keep);
    table::lemma_first_update(before.issues@, keep, i, after.issues@[i]);
}

/// An update takes effect only on the revision it expects, and advances it by one.
pub proof fn law_update_issue_advances(
    before: Store,
    after: Store,
    call: Invocation,
    r: UpdateIssueRequest,
    value: IssueValue,
)
    requires
        issues::update_issue_outcome(
            before,
            after,
            call,
            r,
            Ok::<Completion<IssueValue>, StorageError>(Completion::Fresh(value)),
        ),
    ensures
        expects_issue(before, r.organization_id@, r.issue_id@, r.expected_revision@),
        issue_advanced(before, after, r.organization_id@, r.issue_id@),
{
    let i = before.issue_at(r.organization_id@, r.issue_id@)->0;
    table::lemma_first_where(before.issues@, store::is_issue(r.organization_id@, r.issue_id@));
    assert(before.issues@[i].revision < i64::MAX);
    lemma_issue_advances(before, after, r.organization_id@, r.issue_id@, i);
}

/// A move takes effect only on the revision it expects, and advances it by one.
pub proof fn law_move_issue_advances(
    before: Store,
    after: Store,
    call: Invocation,
    r: MoveIssueRequest,
    value: IssueValue,
)
    requires
        issues::move_issue_outcome(
            before,
            after,
            call,
            r,
            Ok::<Completion<IssueValue>, StorageError>(Completion::Fresh(value)),
        ),
    ensures
        expects_issue(before, r.organization_id@, r.issue_id@, r.expected_revision@),
        issue_advanced(before, after, r.organization_id@, r.issue_id@),
{
    let i = before.issue_at(r.organization_id@, r.issue_id@)->0;
    table::lemma_first_where(before.issues@, store::is_issue(r.organization_id@, r.issue_id@));
    assert(before.issues@[i].revision < i64::MAX);
    lemma_issue_advances(before, after, r.organization_id@, r.issue_id@, i);
}

/// An archival takes effect only on the revision it expects, and advances it by one.
pub proof fn law_archive_issue_advances(
    before: Store,
    after: Store,
    call: Invocation,
    r: ArchiveIssueRequest,
    value: IssueValue,
)
    requires
        issues::archive_issue_outcome(
            before,
            after,
            call,
            r,
            Ok::<Completion<IssueValue>, StorageError>(Completion::Fresh(value)),
        ),
    ensures
        expects_issue(before, r.organization_id@, r.issue_id@, r.expected_revision@),
        issue_advanced(before, after, r.organization_id@, r.issue_id@),
{
    let i = before.issue_at(r.organization_id@, r.issue_id@)->0;
    table::lemma_first_where(before.issues@, store::is_issue(r.organization_id@, r.issue_id@));
    assert(before.issues@[i].revision < i64::MAX);
    lemma_issue_advances(before, after, r.organization_id@, r.issue_id@, i);
}

/// An assignment takes effect only on the issue revision it expects, and advances it by one.
pub proof fn law_assignment_advances(
    before: Store,
    after: Store,
    call: Invocation,
    r: SetIssueAssigneeRequest,
    value: AssigneeValue,
)
    requires
        issues::set_issue_assignee_outcome(
            before,
            after,
            call,
            r,
            Ok::<Completion<AssigneeValue>, StorageError>(Completion::Fresh(value)),
        ),
    ensures
        expects_issue(before, r.organization_id@, r.issue_id@, r.expected_revision@),
        issue_advanced(before, after, r.organization_id@, r.issue_id@),
{
    let i = before.issue_at(r.organization_id@, r.issue_id@)->0;
    table::lemma_first_where(before.issues@, store::is_issue(r.organization_id@, r.issue_id@));
    assert(before.issues@[i].revision < i64::MAX);
    lemma_issue_advances(before, after, r.organization_id@, r.issue_id@, i);
}

/// Once an issue has advanced, no change that still expects its earlier revision takes effect:
/// fields, team, archival and assignment share the one revision.
pub proof fn law_stale_issue_changes_fail(
    before: Store,
    after: Store,
    call: Invocation,
    update: UpdateIssueRequest,
    moving: MoveIssueRequest,
    archival: ArchiveIssueRequest,
    assignment: SetIssueAssigneeRequest,
)
    ensures
        issue_advanced(before, after, update.organization_id@, update.issue_id@) && expects_issue(
            before,
            update.organization_id@,
            update.issue_id@,
            update.expected_revision@,
        ) ==> issues::update_issue_verdict(after, call, update) !is Proceed,
        issue_advanced(before, after, moving.organization_id@, moving.issue_id@) && expects_issue(
            before,
            moving.organization_id@,
            moving.issue_id@,
            moving.expected_revision@,
        ) ==> issues::move_issue_verdict(after, call, moving) !is Proceed,
        issue_advanced(before, after, archival.organization_id@, archival.issue_id@)
            && expects_issue(
            before,
            archival.organization_id@,
            archival.issue_id@,
            archival.expected_revision@,
        ) ==> issues::archive_issue_verdict(after, call, archival) !is Proceed,
        issue_advanced(before, after, assignment.organization_id@, assignment.issue_id@)
            && expects_issue(
            before,
            assignment.organization_id@,
            assignment.issue_id@,
            assignment.expected_revision@,
        ) ==> issues::set_issue_assignee_verdict(after, call, assignment) !is Proceed,
{
}

/// Whether the project stands where it stood, under the revision that follows its earlier one.
pub open spec fn project_advanced(before: Store, after: Store, organization: Seq<char>, project: Seq<char>) -> bool {
    match before.project_at(organization, project) {
        Some(i) => {
            &&& after.project_at(organization, project) == Some(i)
            &&& after.projects@[i].revision == before.projects@[i].revision + 1
        },
        None => false,
    }
}

/// An update of a project takes effect only on the revision it expects, and advances it by one.
pub proof fn law_update_project_advances(
    before: Store,
    after: Store,
    call: Invocation,
    r: UpdateProjectRequest,
    ids: StatusIds,
    value: ProjectValue,
)
    requires
        projects::update_project_outcome(
            before,
            after,
            call,
            r,
            ids,
            Ok::<Completion<ProjectValue>, StorageError>(Completion::Fresh(value)),
        ),
    ensures
        ({
            let i = before.project_at(r.organization_id@, r.project_id@)->0;
            validate::revision_value(r.expected_revision@) == Some(
                before.projects@[i].revision as int,
            )
        }),
        project_advanced(before, after, r.organization_id@, r.project_id@),
{
    let i = before.project_at(r.organization_id@, r.project_id@)->0;
    let keep = store::is_project(r.organization_id@, r.project_id@);
    table::lemma_first_where(before.projects@, keep);
    assert(before.projects@[i].revision < i64::MAX);
    table::lemma_first_update(before.projects@, keep, i, after.projects@[i]);
}

/// An archival of a project takes effect only on the revision it expects, and advances it by one.
pub proof fn law_archive_project_advances(
    before: Store,
    after: Store,
    call: Invocation,
    r: ArchiveProjectRequest,
    value: ProjectValue,
)
    requires
        projects::archive_project_outcome(
            before,
            after,
            call,
            r,
            Ok::<Completion<ProjectValue>, StorageError>(Completion::Fresh(value)),
        ),
    ensures
        ({
            let i = before.project_at(r.organization_id@, r.project_id@)->0;
            validate::revision_value(r.expected_revision@) == Some(
                before.projects@[i].revision as int,
            )
        }),
        project_advanced(before, after, r.organization_id@, r.project_id@),
{
    let i = before.project_at(r.organization_id@, r.project_id@)->0;
    let keep = store::is_project(r.organization_id@, r.project_id@);
    table::lemma_first_where(before.projects@, keep);
    assert(before.projects@[i].revision < i64::MAX);
    table::lemma_first_update(before.projects@, keep, i, after.projects@[i]);
}

/// A comment is changed only by its author, only on the revision expected, and advances by one.
pub proof fn law_update_comment_is_its_authors(
    before: Store,
    after: Store,
    call: Invocation,
    r: UpdateCommentRequest,
    value: CommentValue,
)
    requires
        collaboration::update_comment_outcome(
            before,
            after,
            call,
            r,
            Ok::<Completion<CommentValue>, StorageError>(Completion::Fresh(value)),
        ),
    ensures
        ({
            let c = before.comment_at(r.organization_id@, r.comment_id@)->0;
            &&& before.comments@[c].author_subject@ == call.actor@
            &&& !before.comments@[c].deleted
            &&& validate::revision_value(r.expected_revision@) == Some(
                before.comments@[c].revision as int,
            )
            &&& after.comments@[c].revision == before.comments@[c].revision + 1
        }),
{
    let c = before.comment_at(r.organization_id@, r.comment_id@)->0;
    table::lemma_first_where(before.comments@, store::is_comment(r.organization_id@, r.comment_id@));
    assert(before.comments@[c].revision < i64::MAX);
}

/// A deleted comment keeps its place with an empty body, and is never changed again.
pub proof fn law_deleted_comment_stays_deleted(
    before: Store,
    after: Store,
    call: Invocation,
    r: DeleteCommentRequest,
    value: CommentValue,
    later: Invocation,
    change: UpdateCommentRequest,
)
    requires
        collaboration::delete_comment_outcome(
            before,
            after,
            call,
            r,
            Ok::<Completion<CommentValue>, StorageError>(Completion::Fresh(value)),
        ),
        change.organization_id@ == r.organization_id@,
        change.comment_id@ == r.comment_id@,
    ensures
        value.deleted,
        value.body@.len() == 0,
        collaboration::update_comment_verdict(after, later, change) !is Proceed,
{
    let c = before.comment_at(r.organization_id@, r.comment_id@)->0;
    let keep = store::is_comment(r.organization_id@, r.comment_id@);
    table::lemma_first_where(before.comments@, keep);
    table::lemma_first_update(before.comments@, keep, c, after.comments@[c]);
}

} // verus!
