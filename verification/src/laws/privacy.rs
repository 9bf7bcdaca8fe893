//! Retention forgets a subject, and an export tells all and only what is kept of one.
use crate::clock::Timestamp;
use crate::export;
use crate::export::{CollectExportResponse, ExportSection};
use crate::failure::StorageError;
use crate::laws::feed;
use crate::laws::pages;
use crate::model::{ApplyRetentionRequest, CollectExportRequest, RetentionMode};
use crate::retention;
use crate::store;
use crate::store::Store;
use crate::text;
use vstd::prelude::*;

verus! {

/// Whether an action that was not run before took effect.
pub open spec fn retained(
    before: Store,
    after: Store,
    r: ApplyRetentionRequest,
    now: Timestamp,
    receipt: String,
) -> bool {
    &&& before.receipt_at(r.action_id@) is None
    &&& retention::retention_outcome(before, after, r, now, Ok::<String, StorageError>(receipt))
}

/// Whether nothing in the organization is by the subject or assigned to it.
pub open spec fn forgotten(s: Store, organization: Seq<char>, subject: Seq<char>) -> bool {
    &&& forall|i: int|
        0 <= i < s.comments@.len() ==> !((#[trigger] s.comments@[i]).organization_id@ == organization
            && s.comments@[i].author_subject@ == subject)
    &&& forall|i: int|
        0 <= i < s.project_updates@.len() ==> !((
        #[trigger] s.project_updates@[i]).organization_id@ == organization
            && s.project_updates@[i].author_subject@ == subject)
    &&& forall|i: int|
        0 <= i < s.activity@.len() ==> !((#[trigger] s.activity@[i]).organization_id@ == organization
            && s.activity@[i].actor_subject@ == subject)
    &&& forall|i: int|
        0 <= i < s.issues@.len() ==> !((#[trigger] s.issues@[i]).organization_id@ == organization
            && text::text_of(s.issues@[i].assignee_subject) == Some(subject))
}

/// After a retention action nothing in the organization is by the subject any more, unless the
/// subject has the very name that takes its place.
pub proof fn law_retention_forgets_the_subject(
    before: Store,
    after: Store,
    r: ApplyRetentionRequest,
    now: Timestamp,
    receipt: String,
)
    requires
        retained(before, after, r, now, receipt),
        r.subject@ != retention::tombstone(r),
    ensures
        forgotten(after, r.scope_id@, r.subject@),
{
    assert forall|i: int| 0 <= i < after.comments@.len() implies !((
    #[trigger] after.comments@[i]).organization_id@ == r.scope_id@
        && after.comments@[i].author_subject@ == r.subject@) by {
        assert(retention::is_kept_comment(before.comments@[i], after.comments@[i], r, now));
    }
    assert forall|i: int| 0 <= i < after.project_updates@.len() implies !((
    #[trigger] after.project_updates@[i]).organization_id@ == r.scope_id@
        && after.project_updates@[i].author_subject@ == r.subject@) by {
        assert(retention::is_kept_update(
            before.project_updates@[i],
            after.project_updates@[i],
            r,
        ));
    }
    assert forall|i: int| 0 <= i < after.activity@.len() implies !((
    #[trigger] after.activity@[i]).organization_id@ == r.scope_id@
        && after.activity@[i].actor_subject@ == r.subject@) by {
        assert(retention::is_kept_activity(before.activity@[i], after.activity@[i], r));
    }
    assert forall|i: int| 0 <= i < after.issues@.len() implies !((
    #[trigger] after.issues@[i]).organization_id@ == r.scope_id@ && text::text_of(
        after.issues@[i].assignee_subject,
    ) == Some(r.subject@)) by {
        assert(retention::is_kept_issue(before.issues@[i], after.issues@[i], r, now));
    }
}

/// A deleting retention action empties every comment and every project update that the subject wrote;
/// the rows stay.
pub proof fn law_deletion_empties_bodies(
    before: Store,
    after: Store,
    r: ApplyRetentionRequest,
    now: Timestamp,
    receipt: String,
)
    requires
        retained(before, after, r, now, receipt),
        r.mode == RetentionMode::Delete,
    ensures
        after.comments@.len() == before.comments@.len(),
        after.project_updates@.len() == before.project_updates@.len(),
        forall|i: int|
            0 <= i < before.comments@.len() && before.comments@[i].organization_id@ == r.scope_id@
                && before.comments@[i].author_subject@ == r.subject@ ==> (
            #[trigger] after.comments@[i]).body@.len() == 0 && after.comments@[i].comment_id
                == before.comments@[i].comment_id,
        forall|i: int|
            0 <= i < before.project_updates@.len() && before.project_updates@[i].organization_id@
                == r.scope_id@ && before.project_updates@[i].author_subject@ == r.subject@ ==> (
            #[trigger] after.project_updates@[i]).body@.len() == 0
                && after.project_updates@[i].update_id == before.project_updates@[i].update_id,
{
    reveal_strlit("");
    assert forall|i: int|
        0 <= i < before.comments@.len() && before.comments@[i].organization_id@ == r.scope_id@
            && before.comments@[i].author_subject@ == r.subject@ implies (
    #[trigger] after.comments@[i]).body@.len() == 0 && after.comments@[i].comment_id
        == before.comments@[i].comment_id by {
        assert(retention::is_kept_comment(before.comments@[i], after.comments@[i], r, now));
    }
    assert forall|i: int|
        0 <= i < before.project_updates@.len() && before.project_updates@[i].organization_id@
            == r.scope_id@ && before.project_updates@[i].author_subject@ == r.subject@ implies (
    #[trigger] after.project_updates@[i]).body@.len() == 0 && after.project_updates@[i].update_id
        == before.project_updates@[i].update_id by {
        assert(retention::is_kept_update(
            before.project_updates@[i],
            after.project_updates@[i],
            r,
        ));
    }
}

/// A repeated retention action answers with its receipt and changes nothing.
pub proof fn law_retention_is_idempotent(
    before: Store,
    after: Store,
    r: ApplyRetentionRequest,
    now: Timestamp,
    receipt: String,
    again: Store,
    later: Timestamp,
    result: Result<String, StorageError>,
)
    requires
        retained(before, after, r, now, receipt),
        retention::retention_outcome(after, again, r, later, result),
    ensures
        again == after,
        result matches Ok(text) && text@ == receipt@,
{
    let keep = store::is_receipt(r.action_id@);
    assert(keep(after.receipts@.last()));
    assert(after.receipt_at(r.action_id@) == Some(after.receipts@.len() - 1));
}

/// A retention action keeps the activity stream: as many records, under the same numbers.
pub proof fn law_retention_keeps_the_feed(
    before: Store,
    after: Store,
    r: ApplyRetentionRequest,
    now: Timestamp,
    receipt: String,
)
    requires
        feed::feed_ordered(before),
        retained(before, after, r, now, receipt),
    ensures
        feed::feed_ordered(after),
        after.activity@.len() == before.activity@.len(),
        forall|i: int|
            0 <= i < before.activity@.len() ==> (#[trigger] after.activity@[i]).activity_id
                == before.activity@[i].activity_id,
{
    assert forall|i: int| 0 <= i < before.activity@.len() implies (
    #[trigger] after.activity@[i]).activity_id == before.activity@[i].activity_id by {
        assert(retention::is_kept_activity(before.activity@[i], after.activity@[i], r));
    }
}

/// An export never takes more bytes than its budget.
pub proof fn law_export_fits_its_budget(
    s: Store,
    r: CollectExportRequest,
    max_bytes: int,
    assigned: Seq<String>,
    response: CollectExportResponse,
)
    requires
        export::export_outcome(
            s,
            r,
            max_bytes,
            assigned,
            Ok::<CollectExportResponse, StorageError>(response),
        ),
    ensures
        response.items@.len() == 1,
        text::byte_len(response.items@[0].payload@) <= max_bytes,
{
}

/// A search that no row satisfies finds nothing.
proof fn lemma_nothing_found<T>(rows: Seq<T>, keep: spec_fn(T) -> bool)
    requires
        forall|i: int| 0 <= i < rows.len() ==> !keep(#[trigger] rows[i]),
    ensures
        rows.filter(keep).len() == 0,
{
    if rows.filter(keep).len() > 0 {
        let k = pages::lemma_found(rows, keep, 0);
    }
}

/// Once a subject is forgotten its export lists nothing.
pub proof fn law_forgotten_subject_exports_nothing(
    s: Store,
    r: CollectExportRequest,
    max_bytes: int,
    assigned: Seq<String>,
    result: Result<CollectExportResponse, StorageError>,
    section: ExportSection,
)
    requires
        forgotten(s, r.scope_id@, r.subject@),
        export::export_outcome(s, r, max_bytes, assigned, result),
    ensures
        export::section_rows(s, r, assigned, section).len() == 0,
{
    lemma_nothing_found(s.comments@, export::wrote_comment(r));
    lemma_nothing_found(s.project_updates@, export::wrote_update(r));
    lemma_nothing_found(s.activity@, export::acted(r));
    lemma_nothing_found(s.issues@, export::is_assigned(r));
    assert(export::assigned_ids(s, r).len() == 0);
    assert(text::texts(export::assigned_ids(s, r)).len() == 0);
    broadcast use vstd::seq_lib::group_to_multiset_ensures;
    assert(text::texts(assigned).to_multiset().len() == 0);
    assert(text::texts(assigned).len() == 0);
}

} // verus!
