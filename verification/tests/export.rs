use lenso_projects::clock::Timestamp;
use lenso_projects::contract::{COLLECT_EXPORT_OPERATION, EXPORT_CAPABILITY};
use lenso_projects::export::{
    CollectExportResponse, ExportCursor, ExportJob, ExportSection, ExportWriter, EXPORT_PAGE_SIZE,
    MAX_EXPORT_BYTES,
};
use lenso_projects::failure::{RuntimeFailure, StorageError};
use lenso_projects::model::{
    Activity, CollectExportRequest, Comment, Health, Issue, Priority, ProjectUpdate,
};
use lenso_projects::store::Store;
use serde_json::Value;
use std::cell::Cell;
use std::fmt::Debug;

const ALL: [ExportSection; 4] = [
    ExportSection::Comments,
    ExportSection::ProjectUpdates,
    ExportSection::Activity,
    ExportSection::AssignedIssueIds,
];

fn request() -> CollectExportRequest {
    CollectExportRequest {
        export_id: "export_1".to_owned(),
        scope_kind: "organization".to_owned(),
        scope_id: "org_acme".to_owned(),
        subject: "usr_alice".to_owned(),
    }
}

fn assert_exhausted<T: Debug>(result: Result<T, StorageError>) {
    match result.unwrap_err() {
        StorageError::Runtime(RuntimeFailure::ResourceExhausted { capability, operation }) => {
            assert_eq!(capability, EXPORT_CAPABILITY);
            assert_eq!(operation, COLLECT_EXPORT_OPERATION);
        }
        error => panic!("expected ResourceExhausted, got {error:?}"),
    }
}

/// Runs a job on pages that `fetch` gives, each row decoded by `decode`.
fn collect_export_pages<R>(
    request: &CollectExportRequest,
    max_bytes: usize,
    fetch: impl Fn(ExportSection, &ExportCursor) -> Vec<R>,
    decode: impl Fn(ExportSection, R) -> (ExportCursor, Value),
) -> Result<CollectExportResponse, StorageError> {
    let mut job = ExportJob::start(request, max_bytes)?;
    while let Some(section) = job.section {
        let rows = fetch(section, &job.after);
        let count = rows.len();
        for row in rows {
            let (cursor, value) = decode(section, row);
            job.row(cursor, &serde_json::to_string(&value).unwrap())?;
        }
        job.page_read(count)?;
    }
    Ok(job.finish())
}

fn text(value: &str) -> Value {
    Value::String(value.to_owned())
}

fn object(fields: Vec<(&str, Value)>) -> Value {
    let mut map = serde_json::Map::new();
    for (name, value) in fields {
        map.insert(name.to_owned(), value);
    }
    Value::Object(map)
}

fn fixture(section: ExportSection, index: i64) -> Value {
    // IDs deliberately run opposite to insertion order for sequence-keyed arrays.
    let id = format!("id_{:04}", 1000 - index);
    let timestamp = "2026-09-15T00:00:00Z";
    match section {
        ExportSection::Comments => object(vec![
            ("comment_id", text(&id)),
            ("issue_id", text("issue_1")),
            ("body", text("雪\n\"\\\u{0001}")),
            ("deleted", Value::Bool(index % 2 == 0)),
            ("created_at", text(timestamp)),
            ("updated_at", text(timestamp)),
        ]),
        ExportSection::ProjectUpdates => object(vec![
            ("update_id", text(&id)),
            ("project_id", text("project_1")),
            ("body", text("hello")),
            ("health", text("on_track")),
            ("created_at", text(timestamp)),
        ]),
        ExportSection::Activity => object(vec![
            ("activity_id", text(&(index * 3).to_string())),
            ("project_id", Value::Null),
            ("issue_id", Value::Null),
            ("operation", text("projects.write")),
            ("entity_kind", text("issue")),
            ("entity_id", text(&id)),
            ("revision", if index % 2 == 0 { text("2") } else { Value::Null }),
            ("occurred_at", text(timestamp)),
        ]),
        ExportSection::AssignedIssueIds => text(&format!("issue_{index:04}")),
    }
}

fn synthetic_export(count: i64, max_bytes: usize) -> CollectExportResponse {
    collect_export_pages(
        &request(),
        max_bytes,
        |section, after| {
            let start = if section == ExportSection::AssignedIssueIds {
                after.issue_id.as_ref().map_or(0, |id| {
                    id.strip_prefix("issue_").unwrap().parse::<i64>().unwrap()
                })
            } else {
                after.sequence.unwrap_or(0) / 3
            };
            ((start + 1)..=count)
                .take(usize::try_from(EXPORT_PAGE_SIZE).unwrap())
                .map(|index| {
                    let cursor = if section == ExportSection::AssignedIssueIds {
                        ExportCursor {
                            issue_id: Some(format!("issue_{index:04}")),
                            ..ExportCursor::default()
                        }
                    } else {
                        ExportCursor { sequence: Some(index * 3), ..ExportCursor::default() }
                    };
                    (cursor, fixture(section, index))
                })
                .collect()
        },
        |_, row| row,
    )
    .unwrap()
}

#[test]
fn multiple_pages_preserve_exact_schema_and_array_order() {
    // Exercise short final pages and an exact multiple requiring an empty final fetch.
    for count in [EXPORT_PAGE_SIZE * 2, EXPORT_PAGE_SIZE * 2 + 3] {
        let result = synthetic_export(count, MAX_EXPORT_BYTES);
        assert_eq!(result.items.len(), 1);
        assert_eq!(result.items[0].item_name, "projects.json");
        assert_eq!(result.items[0].media_type, "application/json");
        let mut expected = object(vec![
            ("organization_id", text(&request().scope_id)),
            ("subject", text(&request().subject)),
        ]);
        for section in ALL {
            expected[section.name()] =
                Value::Array((1..=count).map(|index| fixture(section, index)).collect());
        }
        assert_eq!(result.items[0].payload, serde_json::to_string(&expected).unwrap());
        assert_eq!(result, synthetic_export(count, MAX_EXPORT_BYTES));
    }
}

#[test]
fn empty_sections_and_exact_payload_boundary() {
    let result = synthetic_export(0, MAX_EXPORT_BYTES);
    let payload = &result.items[0].payload;
    assert_eq!(
        payload,
        r#"{"organization_id":"org_acme","subject":"usr_alice","comments":[],"project_updates":[],"activity":[],"assigned_issue_ids":[]}"#
    );
    assert_eq!(result, synthetic_export(0, payload.len()));
    assert_exhausted(collect_export_pages(
        &request(),
        payload.len() - 1,
        |_, _| Vec::<(ExportCursor, Value)>::new(),
        |_, row| row,
    ));
}

#[test]
fn protocol_maximum_boundary_counts_utf8_and_json_escaping() {
    let empty_len = synthetic_export(0, MAX_EXPORT_BYTES).items[0].payload.len();
    let escaped = "雪\n\"\\\u{0001}";
    let escaped_len = serde_json::to_string(escaped).unwrap().len();
    let value = format!(
        "{escaped}{}",
        "x".repeat(MAX_EXPORT_BYTES - empty_len - escaped_len)
    );
    for extra in ["", "x"] {
        let result = collect_export_pages(
            &request(),
            MAX_EXPORT_BYTES,
            |section, _| {
                if section == ExportSection::AssignedIssueIds {
                    vec![(ExportCursor::default(), text(&format!("{value}{extra}")))]
                } else {
                    vec![]
                }
            },
            |_, row| row,
        );
        if extra.is_empty() {
            let result = result.unwrap();
            assert_eq!(result.items[0].payload.len(), MAX_EXPORT_BYTES);
            let parsed: Value = serde_json::from_str(&result.items[0].payload).unwrap();
            assert_eq!(parsed["assigned_issue_ids"], Value::Array(vec![text(&value)]));
        } else {
            assert_exhausted(result);
        }
    }
}

#[test]
fn exhaustion_stops_decoding_and_loading_later_pages_and_sections() {
    let fetched = Cell::new(0);
    let decoded = Cell::new(0);
    // Exactly one full page fits; the first row on the second page exceeds the budget.
    let max_bytes = b"{\"organization_id\":\"org_acme\",\"subject\":\"usr_alice\",\"comments\":["
        .len()
        + usize::try_from(EXPORT_PAGE_SIZE).unwrap() * 3;
    let result = collect_export_pages(
        &request(),
        max_bytes,
        |section, after| {
            assert_eq!(section, ExportSection::Comments);
            fetched.set(fetched.get() + 1);
            let start = after.sequence.unwrap_or(0);
            (start + 1..=start + EXPORT_PAGE_SIZE).collect::<Vec<_>>()
        },
        |_, index| {
            decoded.set(decoded.get() + 1);
            (
                ExportCursor { sequence: Some(index), ..ExportCursor::default() },
                Value::from(10),
            )
        },
    );
    assert_exhausted(result);
    assert_eq!(fetched.get(), 2);
    assert_eq!(decoded.get(), EXPORT_PAGE_SIZE + 1);
}

#[test]
fn very_small_budget_stops_before_database_fetch() {
    assert_exhausted(collect_export_pages(
        &request(),
        1,
        |_, _| -> Vec<(ExportCursor, Value)> { panic!("no page should be fetched") },
        |_, row| row,
    ));
}

#[test]
fn writer_never_grows_past_budget_even_with_large_escaped_value() {
    for limit in [1, 9, 64, 127] {
        let mut writer = ExportWriter::new(limit);
        assert_exhausted(writer.json(&"雪\n\"\\".repeat(1000)));
        assert!(writer.bytes.len() <= limit);
        assert!(writer.bytes.capacity() <= limit);
        let len = writer.bytes.len();
        assert_exhausted(writer.raw("x"));
        assert_eq!(writer.bytes.len(), len);
    }
}

#[test]
fn writer_quotes_and_counts_bytes() {
    let mut writer = ExportWriter::new(9);
    writer.json("雪\n").unwrap();
    assert_eq!(writer.bytes, "\"雪\\n\"");
    writer.raw("xy").unwrap();
    assert_eq!(writer.bytes.len(), 9);
    assert_exhausted(writer.raw("z"));
}

#[test]
fn sections_follow_each_other() {
    assert_eq!(ExportSection::Comments.next(), Some(ExportSection::ProjectUpdates));
    assert_eq!(ExportSection::ProjectUpdates.next(), Some(ExportSection::Activity));
    assert_eq!(ExportSection::Activity.next(), Some(ExportSection::AssignedIssueIds));
    assert_eq!(ExportSection::AssignedIssueIds.next(), None);
}

/// 2026-09-15T00:00:00Z.
const EPOCH: i128 = 1_789_430_400_000_000_000;

const COMMENT_BODY: &str = "雪\n\"\\\u{0001}";

fn at() -> Timestamp {
    Timestamp::new(EPOCH).unwrap()
}

/// Rows of the subject between rows of another subject and of another organization.
fn fixture_store() -> Store {
    let mut store = Store::empty();
    for i in 1..=131_i64 {
        for variant in 0..3_i64 {
            let seq = i * 3 + variant;
            let org = if variant == 2 { "org_other" } else { "org_acme" };
            let subject = if variant == 1 { "usr_other" } else { "usr_alice" };
            let id = format!("id_{:04}", 1000 - i);
            store.comments.push(Comment {
                comment_id: id.clone(),
                organization_id: org.to_owned(),
                issue_id: "issue_1".to_owned(),
                author_subject: subject.to_owned(),
                body: COMMENT_BODY.to_owned(),
                deleted: i % 2 == 0,
                revision: 1,
                created_at: at(),
                updated_at: at(),
                row_seq: seq,
            });
            store.project_updates.push(ProjectUpdate {
                update_id: id.clone(),
                organization_id: org.to_owned(),
                project_id: "project_1".to_owned(),
                author_subject: subject.to_owned(),
                body: "hello".to_owned(),
                health: Health::OnTrack,
                created_at: at(),
                row_seq: seq,
            });
            store.activity.push(Activity {
                activity_id: seq,
                organization_id: org.to_owned(),
                project_id: None,
                issue_id: None,
                actor_subject: subject.to_owned(),
                operation: "projects.write".to_owned(),
                entity_kind: "issue".to_owned(),
                entity_id: id,
                revision: (i % 2 == 0).then_some(2),
                occurred_at: at(),
            });
            // Issues come in the opposite of the order in which they are exported.
            let back = 132 - i;
            store.issues.push(Issue {
                issue_id: format!("issue_{back:04}"),
                organization_id: org.to_owned(),
                project_id: "project_1".to_owned(),
                team_id: "team_1".to_owned(),
                identifier: format!("ENG-{seq}"),
                title: "Title".to_owned(),
                description: None,
                priority: Priority::NoPriority,
                workflow_state_id: "state_1".to_owned(),
                cycle_id: None,
                milestone_id: None,
                parent_issue_id: None,
                label_ids: vec![],
                assignee_subject: Some(subject.to_owned()),
                archived: false,
                revision: 1,
                created_at: at(),
                updated_at: at(),
                row_seq: seq,
            });
        }
    }
    store.next_row = 1000;
    store.next_activity = 1000;
    store
}

#[test]
fn postgres_keyset_pages_preserve_filtering_fields_and_order() {
    let store = fixture_store();
    let request = request();
    let fetched = Cell::new(0);
    let paged = collect_export_pages(
        &request,
        MAX_EXPORT_BYTES,
        |section, after| {
            fetched.set(fetched.get() + 1);
            let start = match &after.issue_id {
                Some(id) => id.strip_prefix("issue_").unwrap().parse::<i64>().unwrap(),
                None => after.sequence.unwrap_or(0),
            };
            (start + 1..=131)
                .take(usize::try_from(EXPORT_PAGE_SIZE).unwrap())
                .map(|index| {
                    let cursor = if section == ExportSection::AssignedIssueIds {
                        ExportCursor {
                            issue_id: Some(format!("issue_{index:04}")),
                            ..ExportCursor::default()
                        }
                    } else {
                        ExportCursor { sequence: Some(index), ..ExportCursor::default() }
                    };
                    (cursor, fixture(section, index))
                })
                .collect()
        },
        |_, row| row,
    )
    .unwrap();
    assert_eq!(fetched.get(), 12, "three bounded pages per section");
    let result = store.collect_export(&request, MAX_EXPORT_BYTES).unwrap();
    assert_eq!(result, paged);
    assert_eq!(result, synthetic_export(131, MAX_EXPORT_BYTES));
    let payload_len = result.items[0].payload.len();
    let exact = store.collect_export(&request, payload_len).unwrap();
    assert_eq!(exact, result);
    assert_exhausted(store.collect_export(&request, payload_len - 1));
    let missing =
        CollectExportRequest { subject: "usr_missing".to_owned(), ..request.clone() };
    let empty = store.collect_export(&missing, MAX_EXPORT_BYTES).unwrap();
    let parsed: Value = serde_json::from_str(&empty.items[0].payload).unwrap();
    for section in ALL {
        assert_eq!(parsed[section.name()], Value::Array(vec![]));
    }
}

#[test]
fn oversized_bodies_exhaust_the_export() {
    let mut store = fixture_store();
    let request = request();
    let page = usize::try_from(EXPORT_PAGE_SIZE).unwrap();
    for max_bytes in [262_144, MAX_EXPORT_BYTES] {
        let body = "雪".repeat(max_bytes / 3 + 1);
        assert!(body.len() > max_bytes);
        assert!(body.chars().count() < max_bytes, "the guard must count UTF-8 bytes");
        for index in [1, page + 1] {
            let row = (index - 1) * 3;
            store.comments[row].body = body.clone();
            assert_exhausted(store.collect_export(&request, max_bytes));
            store.comments[row].body = COMMENT_BODY.to_owned();
            store.project_updates[row].body = body.clone();
            assert_exhausted(store.collect_export(&request, max_bytes));
            store.project_updates[row].body = "hello".to_owned();
        }
    }
    // Bodies outside the requested organization or subject must not exhaust this export.
    for row in [1, 2] {
        store.comments[row].body = "x".repeat(2_097_152);
        store.project_updates[row].body = "x".repeat(2_097_152);
    }
    let result = store.collect_export(&request, MAX_EXPORT_BYTES).unwrap();
    assert_eq!(result, synthetic_export(131, MAX_EXPORT_BYTES));
}
