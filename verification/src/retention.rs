//! Subject retention: what a subject wrote is deleted or loses its author.
use crate::clock::Timestamp;
use crate::failure::{runtime, DomainFailure, StorageError};
use crate::model::{
    Activity, ApplyRetentionRequest, Comment, Issue, ProjectUpdate, RetentionMode, RetentionReceipt,
};
use crate::store;
use crate::store::{Store, Verdict};
use crate::table;
use crate::table::all_rows;
use crate::text;
use vstd::prelude::*;

verus! {

/// The subject that takes the place of the retained one.
pub open spec fn tombstone(r: ApplyRetentionRequest) -> Seq<char> {
    "privacy:"@ + r.action_id@
}

/// The receipt of a retention action.
pub open spec fn receipt_text(r: ApplyRetentionRequest) -> Seq<char> {
    "projects-retention:"@ + r.action_id@
}

/// The body that stays after the action.
pub open spec fn kept_body(body: Seq<char>, r: ApplyRetentionRequest) -> Seq<char> {
    match r.mode {
        RetentionMode::Delete => ""@,
        RetentionMode::Anonymize => body,
    }
}

/// Whether `after` is what the action makes of a comment.
pub open spec fn is_kept_comment(
    before: Comment,
    after: Comment,
    r: ApplyRetentionRequest,
    now: Timestamp,
) -> bool {
    if before.organization_id@ == r.scope_id@ && before.author_subject@ == r.subject@ {
        &&& after.author_subject@ == tombstone(r)
        &&& after.body@ == kept_body(before.body@, r)
        &&& after.revision == before.revision + 1
        &&& after.updated_at == now
        &&& after == (Comment {
            author_subject: after.author_subject,
            body: after.body,
            revision: after.revision,
            updated_at: after.updated_at,
            ..before
        })
    } else {
        after == before
    }
}

/// Whether `after` is what the action makes of a project update.
pub open spec fn is_kept_update(
    before: ProjectUpdate,
    after: ProjectUpdate,
    r: ApplyRetentionRequest,
) -> bool {
    if before.organization_id@ == r.scope_id@ && before.author_subject@ == r.subject@ {
        &&& after.author_subject@ == tombstone(r)
        &&& after.body@ == kept_body(before.body@, r)
        &&& after == (ProjectUpdate {
            author_subject: after.author_subject,
            body: after.body,
            ..before
        })
    } else {
        after == before
    }
}

/// Whether `after` is what the action makes of an activity record.
pub open spec fn is_kept_activity(before: Activity, after: Activity, r: ApplyRetentionRequest) -> bool {
    if before.organization_id@ == r.scope_id@ && before.actor_subject@ == r.subject@ {
        &&& after.actor_subject@ == tombstone(r)
        &&& after == (Activity { actor_subject: after.actor_subject, ..before })
    } else {
        after == before
    }
}

/// Whether `after` is what the action makes of an issue: the subject is no longer its assignee.
pub open spec fn is_kept_issue(
    before: Issue,
    after: Issue,
    r: ApplyRetentionRequest,
    now: Timestamp,
) -> bool {
    if before.organization_id@ == r.scope_id@ && text::text_of(before.assignee_subject) == Some(
        r.subject@,
    ) {
        after == (Issue {
            assignee_subject: None,
            revision: after.revision,
            updated_at: now,
            ..before
        }) && after.revision == before.revision + 1
    } else {
        after == before
    }
}

/// Whether `after` is what the action makes of the comments.
pub open spec fn comments_kept(before: Store, after: Store, r: ApplyRetentionRequest, now: Timestamp) -> bool {
    &&& after.comments@.len() == before.comments@.len()
    &&& forall|i: int|
        0 <= i < before.comments@.len() ==> is_kept_comment(
            before.comments@[i],
            #[trigger] after.comments@[i],
            r,
            now,
        )
}

/// Whether `after` is what the action makes of the project updates.
pub open spec fn updates_kept(before: Store, after: Store, r: ApplyRetentionRequest) -> bool {
    &&& after.project_updates@.len() == before.project_updates@.len()
    &&& forall|i: int|
        0 <= i < before.project_updates@.len() ==> is_kept_update(
            before.project_updates@[i],
            #[trigger] after.project_updates@[i],
            r,
        )
}

/// Whether `after` is what the action makes of the activity.
pub open spec fn activity_kept(before: Store, after: Store, r: ApplyRetentionRequest) -> bool {
    &&& after.activity@.len() == before.activity@.len()
    &&& forall|i: int|
        0 <= i < before.activity@.len() ==> is_kept_activity(
            before.activity@[i],
            #[trigger] after.activity@[i],
            r,
        )
}

/// Whether `after` is what the action makes of the issues.
pub open spec fn issues_kept(before: Store, after: Store, r: ApplyRetentionRequest, now: Timestamp) -> bool {
    &&& after.issues@.len() == before.issues@.len()
    &&& forall|i: int|
        0 <= i < before.issues@.len() ==> is_kept_issue(
            before.issues@[i],
            #[trigger] after.issues@[i],
            r,
            now,
        )
}

/// Whether `row` is the receipt of the action.
pub open spec fn is_receipt_row(row: RetentionReceipt, r: ApplyRetentionRequest) -> bool {
    &&& row.action_id@ == r.action_id@
    &&& row.organization_id@ == r.scope_id@
    &&& row.subject@ == r.subject@
    &&& row.mode == r.mode
    &&& row.receipt@ == receipt_text(r)
}

/// Whether a stored receipt belongs to the same request.
pub open spec fn matches_receipt(row: RetentionReceipt, r: ApplyRetentionRequest) -> bool {
    &&& row.organization_id@ == r.scope_id@
    &&& row.subject@ == r.subject@
    &&& row.mode == r.mode
}

/// Says which comments the action can revise: it leaves those of others alone.
pub open spec fn is_revisable_comment(r: ApplyRetentionRequest) -> spec_fn(Comment) -> bool {
    |row: Comment|
        row.organization_id@ == r.scope_id@ && row.author_subject@ == r.subject@ ==> row.revision
            < i64::MAX
}

/// Says which issues the action can revise: it leaves those assigned to others alone.
pub open spec fn is_revisable_issue(r: ApplyRetentionRequest) -> spec_fn(Issue) -> bool {
    |row: Issue|
        row.organization_id@ == r.scope_id@ && text::text_of(row.assignee_subject) == Some(
            r.subject@,
        ) ==> row.revision < i64::MAX
}

/// The statement that rewrites the comments of the subject.
pub open spec fn comments_statement(mode: RetentionMode) -> Seq<char> {
    match mode {
        RetentionMode::Delete => "delete retained comments"@,
        RetentionMode::Anonymize => "anonymize comments"@,
    }
}

/// How an action that has no receipt yet ends.
pub open spec fn retention_verdict(s: Store, r: ApplyRetentionRequest) -> Verdict {
    if !table::every_row(s.comments@, is_revisable_comment(r)) {
        Verdict::Fault(comments_statement(r.mode), "bigint out of range"@)
    } else if !table::every_row(s.issues@, is_revisable_issue(r)) {
        Verdict::Fault("clear retained assignments"@, "bigint out of range"@)
    } else {
        Verdict::Proceed
    }
}

/// What a retention action does.
pub open spec fn retention_effect(
    before: Store,
    after: Store,
    r: ApplyRetentionRequest,
    now: Timestamp,
) -> bool {
    &&& comments_kept(before, after, r, now)
    &&& updates_kept(before, after, r)
    &&& activity_kept(before, after, r)
    &&& issues_kept(before, after, r, now)
    &&& after.receipts@.len() == before.receipts@.len() + 1
    &&& after.receipts@.drop_last() == before.receipts@
    &&& is_receipt_row(after.receipts@.last(), r)
    &&& after == (Store {
        comments: after.comments,
        project_updates: after.project_updates,
        activity: after.activity,
        issues: after.issues,
        receipts: after.receipts,
        ..before
    })
}

/// What a retention action does and answers: a new action rewrites what the subject wrote and keeps
/// a receipt, a repeated one answers with its receipt, and one that differs is refused.
pub open spec fn retention_outcome(
    before: Store,
    after: Store,
    r: ApplyRetentionRequest,
    now: Timestamp,
    result: Result<String, StorageError>,
) -> bool {
    match before.receipt_at(r.action_id@) {
        Some(i) => {
            &&& after == before
            &&& if matches_receipt(before.receipts@[i], r) {
                result matches Ok(receipt) && receipt@ == before.receipts@[i].receipt@
            } else {
                result == Err::<String, StorageError>(
                    StorageError::Domain(DomainFailure::IdempotencyConflict),
                )
            }
        },
        None => match retention_verdict(before, r) {
            Verdict::Proceed => {
                &&& result matches Ok(receipt)
                &&& receipt@ == receipt_text(r)
                &&& retention_effect(before, after, r, now)
            },
            verdict => {
                &&& result matches Err(error) && store::fails(verdict, error)
                &&& after == before
            },
        },
    }
}

impl Store {
    /// Rewrites the comments of the subject.
    fn retain_comments(&mut self, r: &ApplyRetentionRequest, now: &Timestamp)
        requires
            table::every_row(old(self).comments@, is_revisable_comment(*r)),
        ensures
            comments_kept(*old(self), *final(self), *r, *now),
            *final(self) == (Store { comments: final(self).comments, ..*old(self) }),
    {
        let mut i: usize = 0;
        let ghost before = *self;
        while i < self.comments.len()
            invariant
                before == *old(self),
                table::every_row(before.comments@, is_revisable_comment(*r)),
                *self == (Store { comments: self.comments, ..before }),
                i <= self.comments@.len(),
                self.comments@.len() == before.comments@.len(),
                forall|k: int|
                    0 <= k < i ==> is_kept_comment(
                        before.comments@[k],
                        #[trigger] self.comments@[k],
                        *r,
                        *now,
                    ),
                forall|k: int| i <= k < before.comments@.len() ==> #[trigger] self.comments@[k]
                    == before.comments@[k],
            decreases self.comments.len() - i,
        {
            assert(self.comments@[i as int] == before.comments@[i as int]);
            assert(is_revisable_comment(*r)(before.comments@[i as int]));
            let row = &self.comments[i];
            if text::same(row.organization_id.as_str(), r.scope_id.as_str()) && text::same(
                row.author_subject.as_str(),
                r.subject.as_str(),
            ) {
                let row = &mut self.comments[i];
                row.author_subject = text::join("privacy:", r.action_id.as_str());
                if r.mode == RetentionMode::Delete {
                    row.body = "".to_owned();
                }
                row.revision = row.revision + 1;
                row.updated_at = now.clone();
            }
            i = i + 1;
        }
    }

    /// Rewrites the project updates of the subject.
    fn retain_updates(&mut self, r: &ApplyRetentionRequest)
        ensures
            updates_kept(*old(self), *final(self), *r),
            *final(self) == (Store { project_updates: final(self).project_updates, ..*old(self) }),
    {
        let mut i: usize = 0;
        let ghost before = *self;
        while i < self.project_updates.len()
            invariant
                before == *old(self),
                *self == (Store { project_updates: self.project_updates, ..before }),
                i <= self.project_updates@.len(),
                self.project_updates@.len() == before.project_updates@.len(),
                forall|k: int|
                    0 <= k < i ==> is_kept_update(
                        before.project_updates@[k],
                        #[trigger] self.project_updates@[k],
                        *r,
                    ),
                forall|k: int|
                    i <= k < before.project_updates@.len() ==> #[trigger] self.project_updates@[k]
                        == before.project_updates@[k],
            decreases self.project_updates.len() - i,
        {
            assert(self.project_updates@[i as int] == before.project_updates@[i as int]);
            let row = &self.project_updates[i];
            if text::same(row.organization_id.as_str(), r.scope_id.as_str()) && text::same(
                row.author_subject.as_str(),
                r.subject.as_str(),
            ) {
                let row = &mut self.project_updates[i];
                row.author_subject = text::join("privacy:", r.action_id.as_str());
                if r.mode == RetentionMode::Delete {
                    row.body = "".to_owned();
                }
            }
            i = i + 1;
        }
    }

    /// Rewrites the activity of the subject.
    fn retain_activity(&mut self, r: &ApplyRetentionRequest)
        ensures
            activity_kept(*old(self), *final(self), *r),
            *final(self) == (Store { activity: final(self).activity, ..*old(self) }),
    {
        let mut i: usize = 0;
        let ghost before = *self;
        while i < self.activity.len()
            invariant
                before == *old(self),
                *self == (Store { activity: self.activity, ..before }),
                i <= self.activity@.len(),
                self.activity@.len() == before.activity@.len(),
                forall|k: int|
                    0 <= k < i ==> is_kept_activity(
                        before.activity@[k],
                        #[trigger] self.activity@[k],
                        *r,
                    ),
                forall|k: int| i <= k < before.activity@.len() ==> #[trigger] self.activity@[k]
                    == before.activity@[k],
            decreases self.activity.len() - i,
        {
            assert(self.activity@[i as int] == before.activity@[i as int]);
            let row = &self.activity[i];
            if text::same(row.organization_id.as_str(), r.scope_id.as_str()) && text::same(
                row.actor_subject.as_str(),
                r.subject.as_str(),
            ) {
                let row = &mut self.activity[i];
                row.actor_subject = text::join("privacy:", r.action_id.as_str());
            }
            i = i + 1;
        }
    }

    /// Takes the subject off the issues assigned to it.
    fn retain_issues(&mut self, r: &ApplyRetentionRequest, now: &Timestamp)
        requires
            table::every_row(old(self).issues@, is_revisable_issue(*r)),
        ensures
            issues_kept(*old(self), *final(self), *r, *now),
            *final(self) == (Store { issues: final(self).issues, ..*old(self) }),
    {
        let mut i: usize = 0;
        let ghost before = *self;
        while i < self.issues.len()
            invariant
                before == *old(self),
                table::every_row(before.issues@, is_revisable_issue(*r)),
                *self == (Store { issues: self.issues, ..before }),
                i <= self.issues@.len(),
                self.issues@.len() == before.issues@.len(),
                forall|k: int|
                    0 <= k < i ==> is_kept_issue(
                        before.issues@[k],
                        #[trigger] self.issues@[k],
                        *r,
                        *now,
                    ),
                forall|k: int| i <= k < before.issues@.len() ==> #[trigger] self.issues@[k]
                    == before.issues@[k],
            decreases self.issues.len() - i,
        {
            assert(self.issues@[i as int] == before.issues@[i as int]);
            assert(is_revisable_issue(*r)(before.issues@[i as int]));
            let row = &self.issues[i];
            if text::same(row.organization_id.as_str(), r.scope_id.as_str()) && text::is_text(
                &row.assignee_subject,
                r.subject.as_str(),
            ) {
                let row = &mut self.issues[i];
                row.assignee_subject = None;
                row.revision = row.revision + 1;
                row.updated_at = now.clone();
            }
            i = i + 1;
        }
    }

    /// Fails where the action cannot revise what the subject wrote or was assigned.
    fn check_retention(&self, r: &ApplyRetentionRequest) -> (result: Result<(), StorageError>)
        ensures
            match result {
                Ok(_) => retention_verdict(*self, *r) is Proceed,
                Err(error) => store::fails(retention_verdict(*self, *r), error),
            },
    {
        let scope = r.scope_id.as_str();
        let subject = r.subject.as_str();
        if !all_rows(
            &self.comments,
            |row: &Comment| -> (fits: bool)
                ensures
                    fits == is_revisable_comment(*r)(*row)
            {
                !text::same(row.organization_id.as_str(), scope) || !text::same(
                    row.author_subject.as_str(),
                    subject,
                ) || row.revision < i64::MAX
            },
            Ghost(is_revisable_comment(*r)),
        ) {
            return match r.mode {
                RetentionMode::Delete => Err(
                    runtime("delete retained comments", "bigint out of range"),
                ),
                RetentionMode::Anonymize => Err(
                    runtime("anonymize comments", "bigint out of range"),
                ),
            };
        }
        if !all_rows(
            &self.issues,
            |row: &Issue| -> (fits: bool)
                ensures
                    fits == is_revisable_issue(*r)(*row)
            {
                !text::same(row.organization_id.as_str(), scope) || !text::is_text(
                    &row.assignee_subject,
                    subject,
                ) || row.revision < i64::MAX
            },
            Ghost(is_revisable_issue(*r)),
        ) {
            return Err(runtime("clear retained assignments", "bigint out of range"));
        }
        Ok(())
    }

    /// Deletes or anonymizes what the subject wrote, and answers with the receipt.
    pub fn apply_retention(&mut self, r: &ApplyRetentionRequest, now: &Timestamp) -> (result: Result<
        String,
        StorageError,
    >)
        ensures
            retention_outcome(*old(self), *final(self), *r, *now, result),
    {
        if let Some(i) = self.find_receipt(r.action_id.as_str()) {
            let row = &self.receipts[i];
            if !text::same(row.organization_id.as_str(), r.scope_id.as_str()) || !text::same(
                row.subject.as_str(),
                r.subject.as_str(),
            ) || row.mode != r.mode {
                return Err(StorageError::Domain(DomainFailure::IdempotencyConflict));
            }
            return Ok(row.receipt.clone());
        }
        if let Err(error) = self.check_retention(r) {
            return Err(error);
        }
        self.retain_issues(r, now);
        self.retain_comments(r, now);
        self.retain_updates(r);
        self.retain_activity(r);
        let receipt = text::join("projects-retention:", r.action_id.as_str());
        self.receipts.push(
            RetentionReceipt {
                action_id: r.action_id.clone(),
                organization_id: r.scope_id.clone(),
                subject: r.subject.clone(),
                mode: r.mode,
                receipt: receipt.clone(),
            },
        );
        assert(self.receipts@.drop_last() =~= old(self).receipts@);
        Ok(receipt)
    }
}

} // verus!
