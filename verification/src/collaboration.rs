//! Comments, project updates and relations between issues.
use crate::contract::{
    ADD_COMMENT_OPERATION, ADD_ISSUE_RELATION_OPERATION, CREATE_PROJECT_UPDATE_OPERATION,
    DELETE_COMMENT_OPERATION, REMOVE_ISSUE_RELATION_OPERATION, UPDATE_COMMENT_OPERATION,
};
use crate::failure::{DomainFailure, StorageError};
use crate::model::{
    AddCommentRequest, AddIssueRelationRequest, Comment, CommentValue, Completion,
    CreateProjectUpdateRequest, DeleteCommentRequest, IssueRelation, ListCommentsRequest,
    ListProjectUpdatesRequest, ProjectUpdate, ProjectUpdateValue, RelationKind, RelationValue,
    RemoveIssueRelationRequest, UpdateCommentRequest,
};
use crate::store;
use crate::store::{check_growth, start_listing, ActivityEntry, Invocation, Store, Verdict};
use crate::table;
use crate::table::{page_of, Page};
use crate::text;
use crate::validate;
use crate::validate::parse_revision;
use vstd::prelude::*;

verus! {

/// Whether `value` shows the comment in `row`.
pub open spec fn is_comment_value(row: Comment, value: CommentValue) -> bool {
    &&& value.comment_id@ == row.comment_id@
    &&& value.organization_id@ == row.organization_id@
    &&& value.issue_id@ == row.issue_id@
    &&& value.author_subject@ == row.author_subject@
    &&& value.body@ == row.body@
    &&& value.deleted == row.deleted
    &&& value.revision@ == text::integer_text(row.revision as int)
    &&& value.created_at@ == row.created_at.text@
    &&& value.updated_at@ == row.updated_at.text@
}

/// Shows the comment in `row`.
pub fn load_comment_value(row: &Comment) -> (value: CommentValue)
    ensures
        is_comment_value(*row, value),
{
    CommentValue {
        comment_id: row.comment_id.clone(),
        organization_id: row.organization_id.clone(),
        issue_id: row.issue_id.clone(),
        author_subject: row.author_subject.clone(),
        body: row.body.clone(),
        deleted: row.deleted,
        revision: text::integer_string(row.revision),
        created_at: row.created_at.text.clone(),
        updated_at: row.updated_at.text.clone(),
    }
}

/// The store after comments and the records of a mutation changed.
pub open spec fn only_comments(before: Store, after: Store) -> bool {
    after == (Store {
        comments: after.comments,
        next_row: after.next_row,
        activity: after.activity,
        commands: after.commands,
        next_activity: after.next_activity,
        ..before
    })
}

/// What a mutation of a comment on the issue at `i` records.
pub open spec fn comment_recorded(
    before: Store,
    after: Store,
    call: Invocation,
    key: Seq<char>,
    i: int,
    operation: Seq<char>,
    comment: Seq<char>,
    revision: int,
) -> bool {
    let issue = before.issues@[i];
    store::recorded(
        before,
        after,
        call,
        key,
        (ActivityEntry {
            organization: issue.organization_id@,
            project: Some(issue.project_id@),
            issue: Some(issue.issue_id@),
            operation,
            kind: "comment"@,
            entity: comment,
            revision: Some(revision),
        }),
    )
}

/// How adding a comment ends.
pub open spec fn add_comment_verdict(s: Store, call: Invocation, r: AddCommentRequest) -> Verdict {
    store::unless(s.issue_refusal(r.organization_id@, r.issue_id@, call.actor@)).and(
        s.command_verdict(call, ADD_COMMENT_OPERATION@, r.idempotency_key@),
    ).and(store::grows(s.next_row, 1, "insert comment"@)).and(
        store::demand(
            !table::some_row(s.comments@, store::has_comment_id(r.comment_id@)),
            DomainFailure::IdentifierConflict,
        ),
    ).and(store::appends(s))
}

/// Whether `row` is the comment that the request asks for.
pub open spec fn is_new_comment(row: Comment, r: AddCommentRequest, call: Invocation, row_seq: int) -> bool {
    &&& row.comment_id@ == r.comment_id@
    &&& row.organization_id@ == r.organization_id@
    &&& row.issue_id@ == r.issue_id@
    &&& row.author_subject@ == call.actor@
    &&& row.body@ == text::trimmed(r.body@)
    &&& !row.deleted
    &&& row.revision == 1
    &&& row.created_at == call.now
    &&& row.updated_at == call.now
    &&& row.row_seq == row_seq
}

/// What adding a comment does and answers.
pub open spec fn add_comment_outcome(
    before: Store,
    after: Store,
    call: Invocation,
    r: AddCommentRequest,
    result: Result<Completion<CommentValue>, StorageError>,
) -> bool {
    let verdict = add_comment_verdict(before, call, r);
    &&& store::settles(verdict, result)
    &&& if verdict is Proceed {
        &&& after.comments@.len() == before.comments@.len() + 1
        &&& after.comments@.drop_last() == before.comments@
        &&& is_new_comment(after.comments@.last(), r, call, before.next_row as int)
        &&& after.next_row == before.next_row + 1
        &&& only_comments(before, after)
        &&& comment_recorded(
            before,
            after,
            call,
            r.idempotency_key@,
            before.issue_at(r.organization_id@, r.issue_id@)->0,
            ADD_COMMENT_OPERATION@,
            r.comment_id@,
            1,
        )
        &&& is_comment_value(after.comments@.last(), store::fresh(result))
    } else {
        after == before
    }
}

/// Where the comment and the issue it is on stand, if both exist.
pub open spec fn placed_comment(s: Store, organization: Seq<char>, comment: Seq<char>) -> Option<(int, int)> {
    match s.comment_at(organization, comment) {
        Some(c) => match s.issue_at(organization, s.comments@[c].issue_id@) {
            Some(i) => Some((c, i)),
            None => None,
        },
        None => None,
    }
}

/// What must hold before an author's comment is changed.
pub open spec fn author_verdict(
    s: Store,
    call: Invocation,
    organization: Seq<char>,
    comment: Seq<char>,
    expected: Seq<char>,
    operation: Seq<char>,
    key: Seq<char>,
) -> Verdict {
    let placed = placed_comment(s, organization, comment);
    let row = s.comments@[(placed->0).0];
    store::demand(placed is Some, DomainFailure::NotFound).and(
        store::demand(row.author_subject@ == call.actor@, DomainFailure::AuthorRequired),
    ).and(store::unless(s.issue_refusal(organization, row.issue_id@, call.actor@))).and(
        store::demand(
            validate::revision_value(expected) is Some,
            DomainFailure::InvalidRequest,
        ),
    ).and(s.command_verdict(call, operation, key)).and(
        store::demand(
            validate::revision_value(expected) == Some(row.revision as int),
            DomainFailure::RevisionConflict,
        ),
    )
}

/// How the replacement of a comment's body ends. A deleted comment cannot be changed.
pub open spec fn update_comment_verdict(s: Store, call: Invocation, r: UpdateCommentRequest) -> Verdict {
    let row = s.comments@[(placed_comment(s, r.organization_id@, r.comment_id@)->0).0];
    author_verdict(
        s,
        call,
        r.organization_id@,
        r.comment_id@,
        r.expected_revision@,
        UPDATE_COMMENT_OPERATION@,
        r.idempotency_key@,
    ).and(store::demand(!row.deleted, DomainFailure::RevisionConflict)).and(
        store::revises(s, row.revision, "update comment"@),
    )
}

/// What the replacement of a comment's body does and answers.
pub open spec fn update_comment_outcome(
    before: Store,
    after: Store,
    call: Invocation,
    r: UpdateCommentRequest,
    result: Result<Completion<CommentValue>, StorageError>,
) -> bool {
    let verdict = update_comment_verdict(before, call, r);
    let (c, i) = placed_comment(before, r.organization_id@, r.comment_id@)->0;
    let row = before.comments@[c];
    &&& store::settles(verdict, result)
    &&& if verdict is Proceed {
        &&& after.comments@ == before.comments@.update(c, after.comments@[c])
        &&& after.comments@[c].body@ == text::trimmed(r.body@)
        &&& after.comments@[c] == (Comment {
            body: after.comments@[c].body,
            revision: (row.revision + 1) as i64,
            updated_at: call.now,
            ..row
        })
        &&& only_comments(before, after)
        &&& after.next_row == before.next_row
        &&& comment_recorded(
            before,
            after,
            call,
            r.idempotency_key@,
            i,
            UPDATE_COMMENT_OPERATION@,
            r.comment_id@,
            row.revision + 1,
        )
        &&& is_comment_value(after.comments@[c], store::fresh(result))
    } else {
        after == before
    }
}

/// How the deletion of a comment ends.
pub open spec fn delete_comment_verdict(s: Store, call: Invocation, r: DeleteCommentRequest) -> Verdict {
    let row = s.comments@[(placed_comment(s, r.organization_id@, r.comment_id@)->0).0];
    author_verdict(
        s,
        call,
        r.organization_id@,
        r.comment_id@,
        r.expected_revision@,
        DELETE_COMMENT_OPERATION@,
        r.idempotency_key@,
    ).and(store::revises(s, row.revision, "delete comment"@))
}

/// What the deletion of a comment does and answers: the body is emptied, the comment stays.
pub open spec fn delete_comment_outcome(
    before: Store,
    after: Store,
    call: Invocation,
    r: DeleteCommentRequest,
    result: Result<Completion<CommentValue>, StorageError>,
) -> bool {
    let verdict = delete_comment_verdict(before, call, r);
    let (c, i) = placed_comment(before, r.organization_id@, r.comment_id@)->0;
    let row = before.comments@[c];
    &&& store::settles(verdict, result)
    &&& if verdict is Proceed {
        &&& after.comments@ == before.comments@.update(c, after.comments@[c])
        &&& after.comments@[c].body@ == Seq::<char>::empty()
        &&& after.comments@[c] == (Comment {
            body: after.comments@[c].body,
            deleted: true,
            revision: (row.revision + 1) as i64,
            updated_at: call.now,
            ..row
        })
        &&& only_comments(before, after)
        &&& after.next_row == before.next_row
        &&& comment_recorded(
            before,
            after,
            call,
            r.idempotency_key@,
            i,
            DELETE_COMMENT_OPERATION@,
            r.comment_id@,
            row.revision + 1,
        )
        &&& is_comment_value(after.comments@[c], store::fresh(result))
    } else {
        after == before
    }
}

/// Picks the comments on the issue after a position.
pub open spec fn is_listed_comment(organization: Seq<char>, issue: Seq<char>, after: int) -> spec_fn(
    Comment,
) -> bool {
    |row: Comment|
        row.organization_id@ == organization && row.issue_id@ == issue && row.row_seq > after
}

/// Says which value shows a comment.
pub open spec fn shows_comment() -> spec_fn(Comment, CommentValue) -> bool {
    |row: Comment, value: CommentValue| is_comment_value(row, value)
}

/// The sequence number of a comment.
pub open spec fn comment_seq() -> spec_fn(Comment) -> int {
    |row: Comment| row.row_seq as int
}

/// What listing comments answers.
pub open spec fn list_comments_outcome(
    s: Store,
    actor: Seq<char>,
    r: ListCommentsRequest,
    result: Result<Page<CommentValue>, StorageError>,
) -> bool {
    match s.issue_refusal(r.organization_id@, r.issue_id@, actor) {
        Some(failure) => result == Err::<Page<CommentValue>, StorageError>(
            StorageError::Domain(failure),
        ),
        None => match store::listing(r.limit, r.after, "list comments"@) {
            Verdict::Proceed => result matches Ok(page) && table::is_page(
                    s.comments@,
                    is_listed_comment(
                        r.organization_id@,
                        r.issue_id@,
                        validate::cursor_value(text::text_of(r.after))->0,
                    ),
                    r.limit as int,
                    page,
                    shows_comment(),
                    comment_seq(),
                ),
            verdict => result matches Err(error) && store::fails(verdict, error),
        },
    }
}

/// Whether `value` shows the project update in `row`.
pub open spec fn is_update_value(row: ProjectUpdate, value: ProjectUpdateValue) -> bool {
    &&& value.update_id@ == row.update_id@
    &&& value.organization_id@ == row.organization_id@
    &&& value.project_id@ == row.project_id@
    &&& value.author_subject@ == row.author_subject@
    &&& value.body@ == row.body@
    &&& value.health == row.health
    &&& value.created_at@ == row.created_at.text@
}

/// Shows the project update in `row`.
pub fn load_project_update_value(row: &ProjectUpdate) -> (value: ProjectUpdateValue)
    ensures
        is_update_value(*row, value),
{
    ProjectUpdateValue {
        update_id: row.update_id.clone(),
        organization_id: row.organization_id.clone(),
        project_id: row.project_id.clone(),
        author_subject: row.author_subject.clone(),
        body: row.body.clone(),
        health: row.health,
        created_at: row.created_at.text.clone(),
    }
}

/// How posting a project update ends.
pub open spec fn create_project_update_verdict(
    s: Store,
    call: Invocation,
    r: CreateProjectUpdateRequest,
) -> Verdict {
    store::unless(s.project_refusal(r.organization_id@, r.project_id@, call.actor@)).and(
        s.command_verdict(call, CREATE_PROJECT_UPDATE_OPERATION@, r.idempotency_key@),
    ).and(store::grows(s.next_row, 1, "insert project update"@)).and(
        store::demand(
            !table::some_row(s.project_updates@, store::has_update_id(r.update_id@)),
            DomainFailure::IdentifierConflict,
        ),
    ).and(store::appends(s))
}

/// Whether `row` is the project update that the request asks for.
pub open spec fn is_new_update(
    row: ProjectUpdate,
    r: CreateProjectUpdateRequest,
    call: Invocation,
    row_seq: int,
) -> bool {
    &&& row.update_id@ == r.update_id@
    &&& row.organization_id@ == r.organization_id@
    &&& row.project_id@ == r.project_id@
    &&& row.author_subject@ == call.actor@
    &&& row.body@ == text::trimmed(r.body@)
    &&& row.health == r.health
    &&& row.created_at == call.now
    &&& row.row_seq == row_seq
}

/// What posting a project update does and answers.
pub open spec fn create_project_update_outcome(
    before: Store,
    after: Store,
    call: Invocation,
    r: CreateProjectUpdateRequest,
    result: Result<Completion<ProjectUpdateValue>, StorageError>,
) -> bool {
    let verdict = create_project_update_verdict(before, call, r);
    &&& store::settles(verdict, result)
    &&& if verdict is Proceed {
        &&& after.project_updates@.len() == before.project_updates@.len() + 1
        &&& after.project_updates@.drop_last() == before.project_updates@
        &&& is_new_update(after.project_updates@.last(), r, call, before.next_row as int)
        &&& after == (Store {
            project_updates: after.project_updates,
            next_row: (before.next_row + 1) as i64,
            activity: after.activity,
            commands: after.commands,
            next_activity: after.next_activity,
            ..before
        })
        &&& store::recorded(
            before,
            after,
            call,
            r.idempotency_key@,
            (ActivityEntry {
                organization: r.organization_id@,
                project: Some(r.project_id@),
                issue: None,
                operation: CREATE_PROJECT_UPDATE_OPERATION@,
                kind: "project_update"@,
                entity: r.update_id@,
                revision: None,
            }),
        )
        &&& is_update_value(after.project_updates@.last(), store::fresh(result))
    } else {
        after == before
    }
}

/// Picks the updates of the project after a position.
pub open spec fn is_listed_update(organization: Seq<char>, project: Seq<char>, after: int) -> spec_fn(
    ProjectUpdate,
) -> bool {
    |row: ProjectUpdate|
        row.organization_id@ == organization && row.project_id@ == project && row.row_seq > after
}

/// Says which value shows a project update.
pub open spec fn shows_update() -> spec_fn(ProjectUpdate, ProjectUpdateValue) -> bool {
    |row: ProjectUpdate, value: ProjectUpdateValue| is_update_value(row, value)
}

/// The sequence number of a project update.
pub open spec fn update_seq() -> spec_fn(ProjectUpdate) -> int {
    |row: ProjectUpdate| row.row_seq as int
}

/// What listing project updates answers.
pub open spec fn list_project_updates_outcome(
    s: Store,
    actor: Seq<char>,
    r: ListProjectUpdatesRequest,
    result: Result<Page<ProjectUpdateValue>, StorageError>,
) -> bool {
    match s.project_refusal(r.organization_id@, r.project_id@, actor) {
        Some(failure) => result == Err::<Page<ProjectUpdateValue>, StorageError>(
            StorageError::Domain(failure),
        ),
        None => match store::listing(r.limit, r.after, "list project updates"@) {
            Verdict::Proceed => result matches Ok(page) && table::is_page(
                    s.project_updates@,
                    is_listed_update(
                        r.organization_id@,
                        r.project_id@,
                        validate::cursor_value(text::text_of(r.after))->0,
                    ),
                    r.limit as int,
                    page,
                    shows_update(),
                    update_seq(),
                ),
            verdict => result matches Err(error) && store::fails(verdict, error),
        },
    }
}

/// Whether `value` shows a relation with these fields.
pub open spec fn is_relation_value(
    value: RelationValue,
    relation: Seq<char>,
    organization: Seq<char>,
    issue: Seq<char>,
    related: Seq<char>,
    kind: RelationKind,
    active: bool,
) -> bool {
    &&& value.relation_id@ == relation
    &&& value.organization_id@ == organization
    &&& value.issue_id@ == issue
    &&& value.related_issue_id@ == related
    &&& value.kind == kind
    &&& value.active == active
}

/// What a mutation of a relation records.
pub open spec fn relation_recorded(
    before: Store,
    after: Store,
    call: Invocation,
    key: Seq<char>,
    i: int,
    operation: Seq<char>,
    relation: Seq<char>,
) -> bool {
    let issue = before.issues@[i];
    store::recorded(
        before,
        after,
        call,
        key,
        (ActivityEntry {
            organization: issue.organization_id@,
            project: Some(issue.project_id@),
            issue: Some(issue.issue_id@),
            operation,
            kind: "issue_relation"@,
            entity: relation,
            revision: None,
        }),
    )
}

/// The store after relations and the records of a mutation changed.
pub open spec fn only_relations(before: Store, after: Store) -> bool {
    after == (Store {
        relations: after.relations,
        activity: after.activity,
        commands: after.commands,
        next_activity: after.next_activity,
        ..before
    })
}

/// How relating two issues ends.
pub open spec fn add_issue_relation_verdict(
    s: Store,
    call: Invocation,
    r: AddIssueRelationRequest,
) -> Verdict {
    store::demand(
        r.issue_id@ != r.related_issue_id@,
        DomainFailure::CannotRelateSelf,
    ).and(store::unless(s.issue_refusal(r.organization_id@, r.issue_id@, call.actor@))).and(
        store::unless(s.issue_refusal(r.organization_id@, r.related_issue_id@, call.actor@)),
    ).and(s.command_verdict(call, ADD_ISSUE_RELATION_OPERATION@, r.idempotency_key@)).and(
        store::demand(
            !table::some_row(s.relations@, store::has_relation_id(r.relation_id@)),
            DomainFailure::RelationConflict,
        ),
    ).and(store::appends(s))
}

/// What relating two issues does and answers.
pub open spec fn add_issue_relation_outcome(
    before: Store,
    after: Store,
    call: Invocation,
    r: AddIssueRelationRequest,
    result: Result<Completion<RelationValue>, StorageError>,
) -> bool {
    let verdict = add_issue_relation_verdict(before, call, r);
    let row = after.relations@.last();
    &&& store::settles(verdict, result)
    &&& if verdict is Proceed {
        &&& after.relations@.len() == before.relations@.len() + 1
        &&& after.relations@.drop_last() == before.relations@
        &&& row.relation_id@ == r.relation_id@
        &&& row.organization_id@ == r.organization_id@
        &&& row.issue_id@ == r.issue_id@
        &&& row.related_issue_id@ == r.related_issue_id@
        &&& row.kind == r.kind
        &&& row.active
        &&& only_relations(before, after)
        &&& relation_recorded(
            before,
            after,
            call,
            r.idempotency_key@,
            before.issue_at(r.organization_id@, r.issue_id@)->0,
            ADD_ISSUE_RELATION_OPERATION@,
            r.relation_id@,
        )
        &&& is_relation_value(
            store::fresh(result),
            r.relation_id@,
            r.organization_id@,
            r.issue_id@,
            r.related_issue_id@,
            r.kind,
            true,
        )
    } else {
        after == before
    }
}

/// Where the relation and its issue stand, if both exist.
pub open spec fn placed_relation(s: Store, organization: Seq<char>, relation: Seq<char>) -> Option<(int, int)> {
    match s.relation_at(organization, relation) {
        Some(k) => match s.issue_at(organization, s.relations@[k].issue_id@) {
            Some(i) => Some((k, i)),
            None => None,
        },
        None => None,
    }
}

/// How ending a relation ends.
pub open spec fn remove_issue_relation_verdict(
    s: Store,
    call: Invocation,
    r: RemoveIssueRelationRequest,
) -> Verdict {
    let placed = placed_relation(s, r.organization_id@, r.relation_id@);
    let row = s.relations@[(placed->0).0];
    store::demand(placed is Some, DomainFailure::NotFound).and(
        store::unless(s.issue_refusal(r.organization_id@, row.issue_id@, call.actor@)),
    ).and(s.command_verdict(call, REMOVE_ISSUE_RELATION_OPERATION@, r.idempotency_key@)).and(
        store::appends(s),
    )
}

/// What ending a relation does and answers: the relation stays, inactive.
pub open spec fn remove_issue_relation_outcome(
    before: Store,
    after: Store,
    call: Invocation,
    r: RemoveIssueRelationRequest,
    result: Result<Completion<RelationValue>, StorageError>,
) -> bool {
    let verdict = remove_issue_relation_verdict(before, call, r);
    let (k, i) = placed_relation(before, r.organization_id@, r.relation_id@)->0;
    let row = before.relations@[k];
    &&& store::settles(verdict, result)
    &&& if verdict is Proceed {
        &&& after.relations@ == before.relations@.update(
            k,
            IssueRelation { active: false, ..row },
        )
        &&& only_relations(before, after)
        &&& relation_recorded(
            before,
            after,
            call,
            r.idempotency_key@,
            i,
            REMOVE_ISSUE_RELATION_OPERATION@,
            r.relation_id@,
        )
        &&& is_relation_value(
            store::fresh(result),
            r.relation_id@,
            r.organization_id@,
            row.issue_id@,
            row.related_issue_id@,
            row.kind,
            false,
        )
    } else {
        after == before
    }
}

impl Store {
    /// Adds a comment to an issue.
    pub fn add_comment(&mut self, call: &Invocation, request: &AddCommentRequest) -> (result: Result<
        Completion<CommentValue>,
        StorageError,
    >)
        ensures
            add_comment_outcome(*old(self), *final(self), *call, *request, result),
    {
        let organization = request.organization_id.as_str();
        if let Some(failure) = self.check_issue(
            organization,
            request.issue_id.as_str(),
            call.actor.as_str(),
        ) {
            return Err(StorageError::Domain(failure));
        }
        if let Some(answer) = self.command_answer(
            call,
            ADD_COMMENT_OPERATION,
            request.idempotency_key.as_str(),
        ) {
            return answer;
        }
        if let Err(error) = check_growth(self.next_row, 1, "insert comment") {
            return Err(error);
        }
        if self.taken_comment_id(request.comment_id.as_str()) {
            return Err(StorageError::Domain(DomainFailure::IdentifierConflict));
        }
        let project_id = match self.find_issue(organization, request.issue_id.as_str()) {
            Some(i) => self.issues[i].project_id.clone(),
            None => {
                return Err(StorageError::Domain(DomainFailure::NotFound));
            },
        };
        if let Err(error) = self.check_append() {
            return Err(error);
        }
        self.comments.push(
            Comment {
                comment_id: request.comment_id.clone(),
                organization_id: request.organization_id.clone(),
                issue_id: request.issue_id.clone(),
                author_subject: call.actor.clone(),
                body: text::trim(request.body.as_str()),
                deleted: false,
                revision: 1,
                created_at: call.now.clone(),
                updated_at: call.now.clone(),
                row_seq: self.next_row,
            },
        );
        self.next_row = self.next_row + 1;
        self.record(
            call,
            request.idempotency_key.as_str(),
            organization,
            Some(project_id),
            Some(request.issue_id.clone()),
            ADD_COMMENT_OPERATION,
            "comment",
            request.comment_id.as_str(),
            Some(1),
        );
        assert(self.comments@.drop_last() =~= old(self).comments@);
        let value = load_comment_value(&self.comments[self.comments.len() - 1]);
        Ok(Completion::Fresh(value))
    }

    /// Where the comment and its issue stand, if both exist.
    fn find_placed_comment(&self, organization: &str, comment: &str) -> (found: Option<(usize, usize)>)
        ensures
            match found {
                Some((c, i)) => {
                    &&& placed_comment(*self, organization@, comment@) == Some((c as int, i as int))
                    &&& c < self.comments.len()
                    &&& i < self.issues.len()
                    &&& self.comments@[c as int].comment_id@ == comment@
                    &&& self.issues@[i as int].organization_id@ == organization@
                    &&& self.issues@[i as int].issue_id@ == self.comments@[c as int].issue_id@
                },
                None => placed_comment(*self, organization@, comment@) is None,
            },
    {
        match self.find_comment(organization, comment) {
            Some(c) => match self.find_issue(organization, self.comments[c].issue_id.as_str()) {
                Some(i) => Some((c, i)),
                None => None,
            },
            None => None,
        }
    }

    /// Why the author's comment cannot be changed, or where it and its issue stand.
    fn check_author(
        &self,
        call: &Invocation,
        organization: &str,
        comment: &str,
        expected: &str,
        operation: &str,
        key: &str,
    ) -> (checked: Result<(usize, usize), Result<Completion<CommentValue>, StorageError>>)
        ensures
            match checked {
                Ok((c, i)) => {
                    &&& author_verdict(
                        *self,
                        *call,
                        organization@,
                        comment@,
                        expected@,
                        operation@,
                        key@,
                    ) is Proceed
                    &&& placed_comment(*self, organization@, comment@) == Some((c as int, i as int))
                    &&& c < self.comments.len()
                    &&& i < self.issues.len()
                    &&& self.issues@[i as int].organization_id@ == organization@
                    &&& self.issues@[i as int].issue_id@ == self.comments@[c as int].issue_id@
                },
                Err(result) => {
                    let verdict = author_verdict(
                        *self,
                        *call,
                        organization@,
                        comment@,
                        expected@,
                        operation@,
                        key@,
                    );
                    verdict !is Proceed && store::settles(verdict, result)
                },
            },
    {
        let (c, i) = match self.find_placed_comment(organization, comment) {
            Some(found) => found,
            None => {
                return Err(Err(StorageError::Domain(DomainFailure::NotFound)));
            },
        };
        if !text::same(self.comments[c].author_subject.as_str(), call.actor.as_str()) {
            return Err(Err(StorageError::Domain(DomainFailure::AuthorRequired)));
        }
        if let Some(failure) = self.check_issue(
            organization,
            self.comments[c].issue_id.as_str(),
            call.actor.as_str(),
        ) {
            return Err(Err(StorageError::Domain(failure)));
        }
        let expected = match parse_revision(expected) {
            Ok(expected) => expected,
            Err(failure) => {
                return Err(Err(StorageError::Domain(failure)));
            },
        };
        if let Some(answer) = self.command_answer(call, operation, key) {
            return Err(answer);
        }
        if self.comments[c].revision != expected {
            return Err(Err(StorageError::Domain(DomainFailure::RevisionConflict)));
        }
        Ok((c, i))
    }

    /// Replaces the body of a comment, for its author.
    pub fn update_comment(&mut self, call: &Invocation, request: &UpdateCommentRequest) -> (result:
        Result<Completion<CommentValue>, StorageError>)
        ensures
            update_comment_outcome(*old(self), *final(self), *call, *request, result),
    {
        let organization = request.organization_id.as_str();
        let comment = request.comment_id.as_str();
        let (c, i) = match self.check_author(
            call,
            organization,
            comment,
            request.expected_revision.as_str(),
            UPDATE_COMMENT_OPERATION,
            request.idempotency_key.as_str(),
        ) {
            Ok(found) => found,
            Err(answer) => {
                return answer;
            },
        };
        if self.comments[c].deleted {
            return Err(StorageError::Domain(DomainFailure::RevisionConflict));
        }
        if let Err(error) = self.check_revise(self.comments[c].revision, "update comment") {
            return Err(error);
        }
        let revision = self.comments[c].revision + 1;
        let project_id = self.issues[i].project_id.clone();
        let issue_id = self.issues[i].issue_id.clone();
        let row = &mut self.comments[c];
        row.body = text::trim(request.body.as_str());
        row.revision = revision;
        row.updated_at = call.now.clone();
        self.record(
            call,
            request.idempotency_key.as_str(),
            organization,
            Some(project_id),
            Some(issue_id),
            UPDATE_COMMENT_OPERATION,
            "comment",
            comment,
            Some(revision),
        );
        let value = load_comment_value(&self.comments[c]);
        Ok(Completion::Fresh(value))
    }

    /// Deletes a comment, for its author.
    pub fn delete_comment(&mut self, call: &Invocation, request: &DeleteCommentRequest) -> (result:
        Result<Completion<CommentValue>, StorageError>)
        ensures
            delete_comment_outcome(*old(self), *final(self), *call, *request, result),
    {
        let organization = request.organization_id.as_str();
        let comment = request.comment_id.as_str();
        let (c, i) = match self.check_author(
            call,
            organization,
            comment,
            request.expected_revision.as_str(),
            DELETE_COMMENT_OPERATION,
            request.idempotency_key.as_str(),
        ) {
            Ok(found) => found,
            Err(answer) => {
                return answer;
            },
        };
        if let Err(error) = self.check_revise(self.comments[c].revision, "delete comment") {
            return Err(error);
        }
        let revision = self.comments[c].revision + 1;
        let project_id = self.issues[i].project_id.clone();
        let issue_id = self.issues[i].issue_id.clone();
        let row = &mut self.comments[c];
        row.body = String::new();
        row.deleted = true;
        row.revision = revision;
        row.updated_at = call.now.clone();
        self.record(
            call,
            request.idempotency_key.as_str(),
            organization,
            Some(project_id),
            Some(issue_id),
            DELETE_COMMENT_OPERATION,
            "comment",
            comment,
            Some(revision),
        );
        let value = load_comment_value(&self.comments[c]);
        Ok(Completion::Fresh(value))
    }

    /// Lists the comments on an issue, a page at a time.
    pub fn list_comments(&self, actor: &str, request: &ListCommentsRequest) -> (result: Result<
        Page<CommentValue>,
        StorageError,
    >)
        requires
            request.limit < i64::MAX,
        ensures
            list_comments_outcome(*self, actor@, *request, result),
    {
        let organization = request.organization_id.as_str();
        let issue = request.issue_id.as_str();
        if let Some(failure) = self.check_issue(organization, issue, actor) {
            return Err(StorageError::Domain(failure));
        }
        let after = match start_listing(request.limit, &request.after, "list comments") {
            Ok(after) => after,
            Err(error) => {
                return Err(error);
            },
        };
        Ok(
            page_of(
                &self.comments,
                |row: &Comment| -> (hit: bool)
                    ensures
                        hit == is_listed_comment(organization@, issue@, after as int)(*row)
                {
                    text::same(row.organization_id.as_str(), organization) && text::same(
                        row.issue_id.as_str(),
                        issue,
                    ) && row.row_seq > after
                },
                Ghost(is_listed_comment(organization@, issue@, after as int)),
                request.limit,
                |row: &Comment| -> (value: CommentValue)
                    ensures
                        shows_comment()(*row, value)
                { load_comment_value(row) },
                Ghost(shows_comment()),
                |row: &Comment| -> (n: i64)
                    ensures
                        n == comment_seq()(*row)
                { row.row_seq },
                Ghost(comment_seq()),
            ),
        )
    }

    /// Posts an update on a project.
    pub fn create_project_update(
        &mut self,
        call: &Invocation,
        request: &CreateProjectUpdateRequest,
    ) -> (result: Result<Completion<ProjectUpdateValue>, StorageError>)
        ensures
            create_project_update_outcome(*old(self), *final(self), *call, *request, result),
    {
        let organization = request.organization_id.as_str();
        if let Some(failure) = self.check_project(
            organization,
            request.project_id.as_str(),
            call.actor.as_str(),
        ) {
            return Err(StorageError::Domain(failure));
        }
        if let Some(answer) = self.command_answer(
            call,
            CREATE_PROJECT_UPDATE_OPERATION,
            request.idempotency_key.as_str(),
        ) {
            return answer;
        }
        if let Err(error) = check_growth(self.next_row, 1, "insert project update") {
            return Err(error);
        }
        if self.taken_update_id(request.update_id.as_str()) {
            return Err(StorageError::Domain(DomainFailure::IdentifierConflict));
        }
        if let Err(error) = self.check_append() {
            return Err(error);
        }
        self.project_updates.push(
            ProjectUpdate {
                update_id: request.update_id.clone(),
                organization_id: request.organization_id.clone(),
                project_id: request.project_id.clone(),
                author_subject: call.actor.clone(),
                body: text::trim(request.body.as_str()),
                health: request.health,
                created_at: call.now.clone(),
                row_seq: self.next_row,
            },
        );
        self.next_row = self.next_row + 1;
        self.record(
            call,
            request.idempotency_key.as_str(),
            organization,
            Some(request.project_id.clone()),
            None,
            CREATE_PROJECT_UPDATE_OPERATION,
            "project_update",
            request.update_id.as_str(),
            None,
        );
        assert(self.project_updates@.drop_last() =~= old(self).project_updates@);
        let value = load_project_update_value(&self.project_updates[self.project_updates.len() - 1]);
        Ok(Completion::Fresh(value))
    }

    /// Lists the updates on a project, a page at a time.
    pub fn list_project_updates(&self, actor: &str, request: &ListProjectUpdatesRequest) -> (result:
        Result<Page<ProjectUpdateValue>, StorageError>)
        requires
            request.limit < i64::MAX,
        ensures
            list_project_updates_outcome(*self, actor@, *request, result),
    {
        let organization = request.organization_id.as_str();
        let project = request.project_id.as_str();
        if let Some(failure) = self.check_project(organization, project, actor) {
            return Err(StorageError::Domain(failure));
        }
        let after = match start_listing(request.limit, &request.after, "list project updates") {
            Ok(after) => after,
            Err(error) => {
                return Err(error);
            },
        };
        Ok(
            page_of(
                &self.project_updates,
                |row: &ProjectUpdate| -> (hit: bool)
                    ensures
                        hit == is_listed_update(organization@, project@, after as int)(*row)
                {
                    text::same(row.organization_id.as_str(), organization) && text::same(
                        row.project_id.as_str(),
                        project,
                    ) && row.row_seq > after
                },
                Ghost(is_listed_update(organization@, project@, after as int)),
                request.limit,
                |row: &ProjectUpdate| -> (value: ProjectUpdateValue)
                    ensures
                        shows_update()(*row, value)
                { load_project_update_value(row) },
                Ghost(shows_update()),
                |row: &ProjectUpdate| -> (n: i64)
                    ensures
                        n == update_seq()(*row)
                { row.row_seq },
                Ghost(update_seq()),
            ),
        )
    }

    /// Relates two issues.
    pub fn add_issue_relation(&mut self, call: &Invocation, request: &AddIssueRelationRequest) -> (result:
        Result<Completion<RelationValue>, StorageError>)
        ensures
            add_issue_relation_outcome(*old(self), *final(self), *call, *request, result),
    {
        let organization = request.organization_id.as_str();
        let issue = request.issue_id.as_str();
        if text::same(issue, request.related_issue_id.as_str()) {
            return Err(StorageError::Domain(DomainFailure::CannotRelateSelf));
        }
        if let Some(failure) = self.check_issue(organization, issue, call.actor.as_str()) {
            return Err(StorageError::Domain(failure));
        }
        if let Some(failure) = self.check_issue(
            organization,
            request.related_issue_id.as_str(),
            call.actor.as_str(),
        ) {
            return Err(StorageError::Domain(failure));
        }
        if let Some(answer) = self.command_answer(
            call,
            ADD_ISSUE_RELATION_OPERATION,
            request.idempotency_key.as_str(),
        ) {
            return answer;
        }
        if self.taken_relation_id(request.relation_id.as_str()) {
            return Err(StorageError::Domain(DomainFailure::RelationConflict));
        }
        let project_id = match self.find_issue(organization, issue) {
            Some(i) => self.issues[i].project_id.clone(),
            None => {
                return Err(StorageError::Domain(DomainFailure::NotFound));
            },
        };
        if let Err(error) = self.check_append() {
            return Err(error);
        }
        self.relations.push(
            IssueRelation {
                relation_id: request.relation_id.clone(),
                organization_id: request.organization_id.clone(),
                issue_id: request.issue_id.clone(),
                related_issue_id: request.related_issue_id.clone(),
                kind: request.kind,
                active: true,
            },
        );
        self.record(
            call,
            request.idempotency_key.as_str(),
            organization,
            Some(project_id),
            Some(request.issue_id.clone()),
            ADD_ISSUE_RELATION_OPERATION,
            "issue_relation",
            request.relation_id.as_str(),
            None,
        );
        assert(self.relations@.drop_last() =~= old(self).relations@);
        Ok(
            Completion::Fresh(
                RelationValue {
                    relation_id: request.relation_id.clone(),
                    organization_id: request.organization_id.clone(),
                    issue_id: request.issue_id.clone(),
                    related_issue_id: request.related_issue_id.clone(),
                    kind: request.kind,
                    active: true,
                },
            ),
        )
    }

    /// Ends a relation between issues.
    pub fn remove_issue_relation(
        &mut self,
        call: &Invocation,
        request: &RemoveIssueRelationRequest,
    ) -> (result: Result<Completion<RelationValue>, StorageError>)
        ensures
            remove_issue_relation_outcome(*old(self), *final(self), *call, *request, result),
    {
        let organization = request.organization_id.as_str();
        let k = match self.find_relation(organization, request.relation_id.as_str()) {
            Some(k) => k,
            None => {
                return Err(StorageError::Domain(DomainFailure::NotFound));
            },
        };
        let i = match self.find_issue(organization, self.relations[k].issue_id.as_str()) {
            Some(i) => i,
            None => {
                return Err(StorageError::Domain(DomainFailure::NotFound));
            },
        };
        if let Some(failure) = self.check_issue(
            organization,
            self.relations[k].issue_id.as_str(),
            call.actor.as_str(),
        ) {
            return Err(StorageError::Domain(failure));
        }
        if let Some(answer) = self.command_answer(
            call,
            REMOVE_ISSUE_RELATION_OPERATION,
            request.idempotency_key.as_str(),
        ) {
            return answer;
        }
        if let Err(error) = self.check_append() {
            return Err(error);
        }
        let project_id = self.issues[i].project_id.clone();
        let issue_id = self.issues[i].issue_id.clone();
        self.relations[k].active = false;
        let value = RelationValue {
            relation_id: request.relation_id.clone(),
            organization_id: request.organization_id.clone(),
            issue_id: self.relations[k].issue_id.clone(),
            related_issue_id: self.relations[k].related_issue_id.clone(),
            kind: self.relations[k].kind,
            active: false,
        };
        self.record(
            call,
            request.idempotency_key.as_str(),
            organization,
            Some(project_id),
            Some(issue_id),
            REMOVE_ISSUE_RELATION_OPERATION,
            "issue_relation",
            request.relation_id.as_str(),
            None,
        );
        Ok(Completion::Fresh(value))
    }
}

} // verus!
