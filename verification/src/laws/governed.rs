//! What governance may ask for, what a retention action changes, and what an export says.
use crate::clock::Timestamp;
use crate::config::ProjectsConfig;
use crate::export;
use crate::export::{CollectExportResponse, ExportSection};
use crate::failure::{
    DomainFailure, GovernanceError, PluginError, RuntimeFailure, StorageError,
};
use crate::governance;
use crate::json;
use crate::laws::listings;
use crate::laws::traces;
use crate::model;
use crate::model::{
    Activity, ApplyRetentionRequest, CollectExportRequest, Comment, Issue, ProjectUpdate, RetentionMode,
};
use crate::retention;
use crate::service::ProjectsService;
use crate::store;
use crate::store::Store;
use crate::table;
use crate::text;
use crate::validate;
use vstd::prelude::*;

verus! {

/// Whether a caller is known and stands among the governance callers.
pub open spec fn governs(caller: Option<String>, config: ProjectsConfig) -> bool {
    caller is Some && exists|k: int|
        0 <= k < config.governance_callers@.len() && (#[trigger] config.governance_callers@[k])@
            == caller->0@
}

/// An export is refused to whom is no governance caller, then to a request that is not valid, then
/// where there is no store. Else it is what the store makes of it within a mebibyte.
pub proof fn law_export_is_guarded(
    service: &ProjectsService,
    config: &ProjectsConfig,
    caller: &Option<String>,
    request: &CollectExportRequest,
    answer: Result<CollectExportResponse, PluginError<GovernanceError>>,
)
    requires
        call_ensures(ProjectsService::collect_export, (service, config, caller, request), answer),
    ensures
        if !governs(*caller, *config) {
            answer matches Err(PluginError::Domain(GovernanceError::Forbidden))
        } else if !validate::is_export(*request) {
            answer matches Err(PluginError::Domain(GovernanceError::InvalidRequest))
        } else if service.store is None {
            answer matches Err(PluginError::Runtime(_))
        } else {
            exists|assigned: Seq<String>, stored: Result<CollectExportResponse, StorageError>|
                {
                    &&& #[trigger] export::export_outcome(
                        service.store->0,
                        *request,
                        1_048_576,
                        assigned,
                        stored,
                    )
                    &&& match stored {
                        Ok(response) => answer matches Ok(said) && said == response,
                        Err(StorageError::Runtime(fault)) => answer matches Err(
                            PluginError::Runtime(said),
                        ) && said == fault,
                        Err(StorageError::Domain(_)) => answer matches Err(
                            PluginError::Domain(GovernanceError::InvalidRequest),
                        ),
                    }
                }
        },
{
    assert(governs(*caller, *config) == governance::is_governance_caller(*caller, *config));
}

/// A retention action is refused to whom is no governance caller, then to a request that is not valid,
/// then where there is no store; nothing changes then. Else it is what the store makes of it, and an
/// action that differs from the recorded one of its name is no valid request.
pub proof fn law_retention_is_guarded(
    service: &mut ProjectsService,
    config: &ProjectsConfig,
    caller: &Option<String>,
    request: &ApplyRetentionRequest,
    now: &Timestamp,
    answer: Result<String, PluginError<GovernanceError>>,
)
    requires
        call_ensures(
            ProjectsService::apply_retention,
            (service, config, caller, request, now),
            answer,
        ),
    ensures
        if !governs(*caller, *config) {
            answer matches Err(PluginError::Domain(GovernanceError::Forbidden)) && *final(service)
                == *old(service)
        } else if !validate::is_retention(*request) {
            answer matches Err(PluginError::Domain(GovernanceError::InvalidRequest))
                && *final(service) == *old(service)
        } else if old(service).store is None {
            answer matches Err(PluginError::Runtime(_)) && *final(service) == *old(service)
        } else {
            &&& final(service).store is Some
            &&& exists|stored: Result<String, StorageError>|
                {
                    &&& #[trigger] retention::retention_outcome(
                        old(service).store->0,
                        final(service).store->0,
                        *request,
                        *now,
                        stored,
                    )
                    &&& match stored {
                        Ok(receipt) => answer matches Ok(said) && said == receipt,
                        Err(StorageError::Runtime(fault)) => answer matches Err(
                            PluginError::Runtime(said),
                        ) && said == fault,
                        Err(StorageError::Domain(_)) => answer matches Err(
                            PluginError::Domain(GovernanceError::InvalidRequest),
                        ),
                    }
                }
        },
{
    assert(governs(*caller, *config) == governance::is_governance_caller(*caller, *config));
}

/// Whether no receipt carries the name of the action.
pub open spec fn unheard(s: Store, action: Seq<char>) -> bool {
    forall|k: int| 0 <= k < s.receipts@.len() ==> (#[trigger] s.receipts@[k]).action_id@ != action
}

/// Whether every revision that the action would raise can be raised.
pub open spec fn raisable(s: Store, r: ApplyRetentionRequest) -> bool {
    &&& forall|k: int|
        0 <= k < s.comments@.len() && (#[trigger] s.comments@[k]).organization_id@ == r.scope_id@
            && s.comments@[k].author_subject@ == r.subject@ ==> s.comments@[k].revision < i64::MAX
    &&& forall|k: int|
        0 <= k < s.issues@.len() && (#[trigger] s.issues@[k]).organization_id@ == r.scope_id@
            && traces::same_optional(s.issues@[k].assignee_subject, Some(r.subject@))
            ==> s.issues@[k].revision < i64::MAX
}

/// Whether a comment of the subject lost its author, and its body where the action deletes, and keeps
/// all else.
pub open spec fn comment_forgotten(before: Comment, after: Comment, r: ApplyRetentionRequest, now: Timestamp) -> bool {
    &&& after.author_subject@ == "privacy:"@ + r.action_id@
    &&& r.mode == RetentionMode::Delete ==> after.body@.len() == 0
    &&& r.mode == RetentionMode::Anonymize ==> after.body@ == before.body@
    &&& after.revision == before.revision + 1
    &&& after.updated_at == now
    &&& after.organization_id@ == before.organization_id@
    &&& after.comment_id@ == before.comment_id@
    &&& after.issue_id@ == before.issue_id@
    &&& after.deleted == before.deleted
    &&& after.row_seq == before.row_seq
    &&& after.created_at == before.created_at
}

/// Whether a project update of the subject lost its author, and its body where the action deletes, and
/// keeps all else.
pub open spec fn update_forgotten(before: ProjectUpdate, after: ProjectUpdate, r: ApplyRetentionRequest) -> bool {
    &&& after.author_subject@ == "privacy:"@ + r.action_id@
    &&& r.mode == RetentionMode::Delete ==> after.body@.len() == 0
    &&& r.mode == RetentionMode::Anonymize ==> after.body@ == before.body@
    &&& after.organization_id@ == before.organization_id@
    &&& after.update_id@ == before.update_id@
    &&& after.project_id@ == before.project_id@
    &&& after.health == before.health
    &&& after.row_seq == before.row_seq
    &&& after.created_at == before.created_at
}

/// Whether a record of the subject lost its actor and keeps all else.
pub open spec fn record_forgotten(before: Activity, after: Activity, r: ApplyRetentionRequest) -> bool {
    &&& after.actor_subject@ == "privacy:"@ + r.action_id@
    &&& after.activity_id == before.activity_id
    &&& after.organization_id@ == before.organization_id@
    &&& after.project_id == before.project_id
    &&& after.issue_id == before.issue_id
    &&& after.operation@ == before.operation@
    &&& after.entity_kind@ == before.entity_kind@
    &&& after.entity_id@ == before.entity_id@
    &&& after.revision == before.revision
    &&& after.occurred_at == before.occurred_at
}

/// A retention action that was not run before and that can raise every revision it must succeeds. It
/// takes the subject's name from each comment, project update and record of the organization, empties
/// the bodies only where it deletes, unassigns the subject's issues, touches no other row and no other
/// table, and leaves a receipt.
pub proof fn law_retention_does_just_this(
    before: Store,
    after: Store,
    r: ApplyRetentionRequest,
    now: Timestamp,
    result: Result<String, StorageError>,
)
    requires
        retention::retention_outcome(before, after, r, now, result),
        unheard(before, r.action_id@),
        raisable(before, r),
    ensures
        result matches Ok(receipt) && receipt@ == "projects-retention:"@ + r.action_id@,
        after.comments@.len() == before.comments@.len(),
        forall|k: int|
            0 <= k < before.comments@.len() ==> if before.comments@[k].organization_id@ == r.scope_id@
                && before.comments@[k].author_subject@ == r.subject@ {
                comment_forgotten(before.comments@[k], #[trigger] after.comments@[k], r, now)
            } else {
                after.comments@[k] == before.comments@[k]
            },
        after.project_updates@.len() == before.project_updates@.len(),
        forall|k: int|
            0 <= k < before.project_updates@.len() ==> if before.project_updates@[k].organization_id@
                == r.scope_id@ && before.project_updates@[k].author_subject@ == r.subject@ {
                update_forgotten(
                    before.project_updates@[k],
                    #[trigger] after.project_updates@[k],
                    r,
                )
            } else {
                after.project_updates@[k] == before.project_updates@[k]
            },
        after.activity@.len() == before.activity@.len(),
        forall|k: int|
            0 <= k < before.activity@.len() ==> if before.activity@[k].organization_id@ == r.scope_id@
                && before.activity@[k].actor_subject@ == r.subject@ {
                record_forgotten(before.activity@[k], #[trigger] after.activity@[k], r)
            } else {
                after.activity@[k] == before.activity@[k]
            },
        after.issues@.len() == before.issues@.len(),
        forall|k: int|
            0 <= k < before.issues@.len() ==> if before.issues@[k].organization_id@ == r.scope_id@
                && traces::same_optional(before.issues@[k].assignee_subject, Some(r.subject@)) {
                &&& (#[trigger] after.issues@[k]).assignee_subject is None
                &&& after.issues@[k].revision == before.issues@[k].revision + 1
                &&& after.issues@[k].updated_at == now
                &&& after.issues@[k] == (Issue {
                    assignee_subject: after.issues@[k].assignee_subject,
                    revision: after.issues@[k].revision,
                    updated_at: after.issues@[k].updated_at,
                    ..before.issues@[k]
                })
            } else {
                after.issues@[k] == before.issues@[k]
            },
        after.receipts@.len() == before.receipts@.len() + 1,
        forall|k: int|
            0 <= k < before.receipts@.len() ==> #[trigger] after.receipts@[k]
                == before.receipts@[k],
        after.receipts@.last().action_id@ == r.action_id@,
        after.receipts@.last().organization_id@ == r.scope_id@,
        after.receipts@.last().subject@ == r.subject@,
        after.receipts@.last().mode == r.mode,
        after.receipts@.last().receipt@ == "projects-retention:"@ + r.action_id@,
        after == (Store {
            comments: after.comments,
            project_updates: after.project_updates,
            activity: after.activity,
            issues: after.issues,
            receipts: after.receipts,
            ..before
        }),
{
    reveal_strlit("");
    table::lemma_first_where(before.receipts@, store::is_receipt(r.action_id@));
    assert(before.receipt_at(r.action_id@) is None);
    assert(table::every_row(before.comments@, retention::is_revisable_comment(r)));
    assert(table::every_row(before.issues@, retention::is_revisable_issue(r)));
    assert forall|k: int| 0 <= k < before.receipts@.len() implies #[trigger] after.receipts@[k]
        == before.receipts@[k] by {
        assert(after.receipts@.drop_last()[k] == before.receipts@[k]);
    }
}

/// An action whose name is on the first receipt that carries it answers with that receipt where it
/// asks for the same, and is refused where the organization, the subject or the mode differs; nothing
/// changes either way.
pub proof fn law_known_action_changes_nothing(
    before: Store,
    after: Store,
    r: ApplyRetentionRequest,
    now: Timestamp,
    result: Result<String, StorageError>,
    at: int,
)
    requires
        retention::retention_outcome(before, after, r, now, result),
        0 <= at < before.receipts@.len(),
        before.receipts@[at].action_id@ == r.action_id@,
        forall|k: int|
            0 <= k < before.receipts@.len() && k != at ==> (
            #[trigger] before.receipts@[k]).action_id@ != r.action_id@,
    ensures
        after == before,
        before.receipts@[at].organization_id@ == r.scope_id@ && before.receipts@[at].subject@
            == r.subject@ && before.receipts@[at].mode == r.mode ==> (result matches Ok(receipt)
            && receipt@ == before.receipts@[at].receipt@),
        !(before.receipts@[at].organization_id@ == r.scope_id@ && before.receipts@[at].subject@
            == r.subject@ && before.receipts@[at].mode == r.mode) ==> (result matches Err(
            StorageError::Domain(DomainFailure::IdempotencyConflict),
        )),
{
    let keep = store::is_receipt(r.action_id@);
    table::lemma_first_where(before.receipts@, keep);
    assert(keep(before.receipts@[at]));
    let found = before.receipt_at(r.action_id@);
    assert(found is Some);
    assert(keep(before.receipts@[found->0]));
}

/// An action that was not run before and that meets a revision it cannot raise faults and changes
/// nothing.
pub proof fn law_retention_stops_at_the_last_revision(
    before: Store,
    after: Store,
    r: ApplyRetentionRequest,
    now: Timestamp,
    result: Result<String, StorageError>,
)
    requires
        retention::retention_outcome(before, after, r, now, result),
        unheard(before, r.action_id@),
        !raisable(before, r),
    ensures
        result matches Err(StorageError::Runtime(_)),
        after == before,
{
    table::lemma_first_where(before.receipts@, store::is_receipt(r.action_id@));
    assert(before.receipt_at(r.action_id@) is None);
    if table::every_row(before.comments@, retention::is_revisable_comment(r)) && table::every_row(
        before.issues@,
        retention::is_revisable_issue(r),
    ) {
        let own = retention::is_revisable_comment(r);
        let held = retention::is_revisable_issue(r);
        assert forall|k: int|
            0 <= k < before.comments@.len() && (#[trigger] before.comments@[k]).organization_id@
                == r.scope_id@ && before.comments@[k].author_subject@ == r.subject@ implies
            before.comments@[k].revision < i64::MAX by {
            assert(own(before.comments@[k]));
        }
        assert forall|k: int|
            0 <= k < before.issues@.len() && (#[trigger] before.issues@[k]).organization_id@
                == r.scope_id@ && traces::same_optional(
                before.issues@[k].assignee_subject,
                Some(r.subject@),
            ) implies before.issues@[k].revision < i64::MAX by {
            assert(held(before.issues@[k]));
        }
        assert(false);
    }
}

/// How a character is written between the marks of a JSON string, by its code point.
pub open spec fn spelled(c: char, written: Seq<char>) -> bool {
    let code = c as int;
    if code == 0x22 || code == 0x5c {
        written == seq!['\\', c]
    } else if code >= 0x20 {
        written == seq![c]
    } else if code == 0x8 {
        written == seq!['\\', 'b']
    } else if code == 0x9 {
        written == seq!['\\', 't']
    } else if code == 0xa {
        written == seq!['\\', 'n']
    } else if code == 0xc {
        written == seq!['\\', 'f']
    } else if code == 0xd {
        written == seq!['\\', 'r']
    } else {
        &&& written.len() == 6
        &&& written.take(4) == seq!['\\', 'u', '0', '0']
        &&& written[4] == if code < 0x10 { '0' } else { '1' }
        &&& written[5] as int == if code % 16 < 10 { 0x30 + code % 16 } else { 0x61 + code % 16 - 10 }
    }
}

/// A JSON string stands between two quotation marks, and spells its text character by character.
pub proof fn law_json_strings(text: Seq<char>, c: char) -> (written: Seq<char>)
    ensures
        json::json_string(Seq::<char>::empty()) == seq!['"', '"'],
        json::json_string(text.push(c)) == json::json_string(text).drop_last() + written + seq!['"'],
        spelled(c, written),
{
    assert(json::json_string(Seq::<char>::empty()) =~= seq!['"', '"']);
    let written = json::escaped_char(c);
    assert(text.push(c).drop_last() =~= text);
    assert(json::json_string(text).drop_last() =~= seq!['"'] + json::escaped(text));
    assert(json::json_string(text.push(c)) =~= json::json_string(text).drop_last() + written
        + seq!['"']);
    let code = c as int;
    if code < 0x20 && code != 0x8 && code != 0x9 && code != 0xa && code != 0xc && code != 0xd {
        assert(code / 16 == 0 || code / 16 == 1);
        assert(written.take(4) =~= seq!['\\', 'u', '0', '0']);
    } else if code == 0x22 || code == 0x5c {
        assert(written =~= seq!['\\', c]);
    }
    written
}

/// The rows that follow the first one, each behind a comma.
pub open spec fn further(rows: Seq<Seq<char>>, i: int) -> Seq<char>
    decreases rows.len() - i,
{
    if i < rows.len() {
        ","@ + rows[i] + further(rows, i + 1)
    } else {
        Seq::empty()
    }
}

/// The rows with a comma between each two.
pub open spec fn listed(rows: Seq<Seq<char>>) -> Seq<char> {
    if rows.len() == 0 {
        Seq::empty()
    } else {
        rows[0] + further(rows, 1)
    }
}

/// The document in which these rows are told of a subject of an organization.
pub open spec fn document(
    organization: Seq<char>,
    subject: Seq<char>,
    comments: Seq<Seq<char>>,
    updates: Seq<Seq<char>>,
    records: Seq<Seq<char>>,
    assigned: Seq<Seq<char>>,
) -> Seq<char> {
    let opening = "{\"organization_id\":"@ + json::json_string(organization) + ",\"subject\":"@
        + json::json_string(subject) + ",\""@ + "comments"@ + "\":["@;
    opening + (listed(comments) + (("],\""@ + "project_updates"@ + "\":["@) + (listed(updates) + ((
    "],\""@ + "activity"@ + "\":["@) + (listed(records) + (("],\""@ + "assigned_issue_ids"@ + "\":["@)
        + (listed(assigned) + "]}"@)))))))
}

/// What is told of a comment.
pub open spec fn comment_told(row: Comment) -> Seq<char> {
    "{\"comment_id\":"@ + json::json_string(row.comment_id@) + ",\"issue_id\":"@
        + json::json_string(row.issue_id@) + ",\"body\":"@ + json::json_string(row.body@)
        + ",\"deleted\":"@ + (if row.deleted {
        "true"@
    } else {
        "false"@
    }) + ",\"created_at\":"@ + json::json_string(row.created_at.text@) + ",\"updated_at\":"@
        + json::json_string(row.updated_at.text@) + "}"@
}

/// What is told of a project update.
pub open spec fn update_told(row: ProjectUpdate) -> Seq<char> {
    "{\"update_id\":"@ + json::json_string(row.update_id@) + ",\"project_id\":"@
        + json::json_string(row.project_id@) + ",\"body\":"@ + json::json_string(row.body@)
        + ",\"health\":"@ + json::json_string(model::health_text(row.health)) + ",\"created_at\":"@
        + json::json_string(row.created_at.text@) + "}"@
}

/// An optional text as a document holds it.
pub open spec fn optional_told(text: Option<String>) -> Seq<char> {
    if text is Some {
        json::json_string(text->0@)
    } else {
        "null"@
    }
}

/// What is told of a record of the activity stream.
pub open spec fn record_told(row: Activity) -> Seq<char> {
    "{\"activity_id\":"@ + json::json_string(text::integer_text(row.activity_id as int))
        + ",\"project_id\":"@ + optional_told(row.project_id) + ",\"issue_id\":"@ + optional_told(
        row.issue_id,
    ) + ",\"operation\":"@ + json::json_string(row.operation@) + ",\"entity_kind\":"@
        + json::json_string(row.entity_kind@) + ",\"entity_id\":"@ + json::json_string(row.entity_id@)
        + ",\"revision\":"@ + (if row.revision is Some {
        json::json_string(text::integer_text(row.revision->0 as int))
    } else {
        "null"@
    }) + ",\"occurred_at\":"@ + json::json_string(row.occurred_at.text@) + "}"@
}

/// Whether places are told in their order.
pub open spec fn in_their_order(at: Seq<int>, n: int) -> bool {
    &&& forall|k: int| 0 <= k < at.len() ==> 0 <= #[trigger] at[k] < n
    &&& forall|k: int, l: int| 0 <= k < l < at.len() ==> #[trigger] at[k] < #[trigger] at[l]
}

/// Whether these are the places of the subject's comments.
pub open spec fn comment_places(s: Store, r: CollectExportRequest, at: Seq<int>) -> bool {
    &&& in_their_order(at, s.comments@.len() as int)
    &&& forall|i: int|
        0 <= i < s.comments@.len() ==> (at.contains(i) <==> (
        #[trigger] s.comments@[i]).organization_id@ == r.scope_id@
            && s.comments@[i].author_subject@ == r.subject@)
}

/// Whether these are the places of the subject's project updates.
pub open spec fn update_places(s: Store, r: CollectExportRequest, at: Seq<int>) -> bool {
    &&& in_their_order(at, s.project_updates@.len() as int)
    &&& forall|i: int|
        0 <= i < s.project_updates@.len() ==> (at.contains(i) <==> (
        #[trigger] s.project_updates@[i]).organization_id@ == r.scope_id@
            && s.project_updates@[i].author_subject@ == r.subject@)
}

/// Whether these are the places of the subject's records.
pub open spec fn record_places(s: Store, r: CollectExportRequest, at: Seq<int>) -> bool {
    &&& in_their_order(at, s.activity@.len() as int)
    &&& forall|i: int|
        0 <= i < s.activity@.len() ==> (at.contains(i) <==> (
        #[trigger] s.activity@[i]).organization_id@ == r.scope_id@
            && s.activity@[i].actor_subject@ == r.subject@)
}

/// Whether these are the places of the issues assigned to the subject.
pub open spec fn assigned_places(s: Store, r: CollectExportRequest, at: Seq<int>) -> bool {
    &&& in_their_order(at, s.issues@.len() as int)
    &&& forall|i: int|
        0 <= i < s.issues@.len() ==> (at.contains(i) <==> (
        #[trigger] s.issues@[i]).organization_id@ == r.scope_id@ && traces::same_optional(
            s.issues@[i].assignee_subject,
            Some(r.subject@),
        ))
}

/// The places of the rows that an export tells of.
pub struct Told {
    pub comments: Seq<int>,
    pub updates: Seq<int>,
    pub records: Seq<int>,
    pub issues: Seq<int>,
}

/// The rows that follow are written one by one.
proof fn lemma_further(rows: Seq<Seq<char>>, i: int)
    requires
        1 <= i <= rows.len(),
    ensures
        export::rows_text(rows, i) == further(rows, i),
    decreases rows.len() - i,
{
    if i < rows.len() {
        lemma_further(rows, i + 1);
    }
}

/// The rows are written one by one.
proof fn lemma_listed(rows: Seq<Seq<char>>)
    ensures
        export::rows_text(rows, 0) == listed(rows),
{
    reveal_strlit("");
    if rows.len() > 0 {
        lemma_further(rows, 1);
        assert(export::separator(true) + rows[0] =~= rows[0]);
    }
}

/// An export tells every comment, project update and record of the subject in the organization, in
/// their order and no other, and in ascending order the issues assigned to it; it succeeds exactly
/// where that document takes no more bytes than it may.
pub proof fn law_export_tells_what_is_kept(
    s: Store,
    r: CollectExportRequest,
    max_bytes: int,
    assigned: Seq<String>,
    result: Result<CollectExportResponse, StorageError>,
) -> (told: Told)
    requires
        export::export_outcome(s, r, max_bytes, assigned, result),
    ensures
        comment_places(s, r, told.comments),
        update_places(s, r, told.updates),
        record_places(s, r, told.records),
        assigned_places(s, r, told.issues),
        traces::ascending_texts(assigned),
        traces::lists_same(assigned, told.issues.map_values(|i: int| s.issues@[i].issue_id)),
        ({
            let whole = document(
                r.scope_id@,
                r.subject@,
                told.comments.map_values(|i: int| comment_told(s.comments@[i])),
                told.updates.map_values(|i: int| update_told(s.project_updates@[i])),
                told.records.map_values(|i: int| record_told(s.activity@[i])),
                assigned.map_values(|id: String| json::json_string(id@)),
            );
            if text::byte_len(whole) <= max_bytes {
                &&& result matches Ok(response)
                &&& response.items@.len() == 1
                &&& response.items@[0].item_name@ == "projects.json"@
                &&& response.items@[0].media_type@ == "application/json"@
                &&& response.items@[0].payload@ == whole
            } else {
                result matches Err(StorageError::Runtime(RuntimeFailure::ResourceExhausted { .. }))
            }
        }),
{
    let comments = listings::lemma_filter_places(s.comments@, export::wrote_comment(r));
    let updates = listings::lemma_filter_places(s.project_updates@, export::wrote_update(r));
    let records = listings::lemma_filter_places(s.activity@, export::acted(r));
    let issues = listings::lemma_filter_places(s.issues@, export::is_assigned(r));
    let a = comments.map_values(|i: int| comment_told(s.comments@[i]));
    let b = updates.map_values(|i: int| update_told(s.project_updates@[i]));
    let c = records.map_values(|i: int| record_told(s.activity@[i]));
    let d = assigned.map_values(|id: String| json::json_string(id@));
    assert(a =~= export::section_rows(s, r, assigned, ExportSection::Comments));
    assert(b =~= export::section_rows(s, r, assigned, ExportSection::ProjectUpdates));
    assert(c =~= export::section_rows(s, r, assigned, ExportSection::Activity));
    assert(d =~= export::section_rows(s, r, assigned, ExportSection::AssignedIssueIds));
    lemma_listed(a);
    lemma_listed(b);
    lemma_listed(c);
    lemma_listed(d);
    traces::law_sorted_lists(assigned, export::assigned_ids(s, r));
    assert(issues.map_values(|i: int| s.issues@[i].issue_id) =~= export::assigned_ids(s, r));
    let last = export::remaining_text(s, r, assigned, ExportSection::AssignedIssueIds, 0);
    assert("]}"@ + Seq::<char>::empty() =~= "]}"@);
    assert(last == listed(d) + "]}"@);
    let third = export::remaining_text(s, r, assigned, ExportSection::Activity, 0);
    assert(third == listed(c) + (("],\""@ + "assigned_issue_ids"@ + "\":["@) + last));
    let second = export::remaining_text(s, r, assigned, ExportSection::ProjectUpdates, 0);
    assert(second == listed(b) + (("],\""@ + "activity"@ + "\":["@) + third));
    let first = export::remaining_text(s, r, assigned, ExportSection::Comments, 0);
    assert(first == listed(a) + (("],\""@ + "project_updates"@ + "\":["@) + second));
    assert(export::export_text(s, r, assigned) == document(r.scope_id@, r.subject@, a, b, c, d));
    Told { comments, updates, records, issues }
}

} // verus!
