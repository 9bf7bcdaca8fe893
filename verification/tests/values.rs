use lenso_projects::clock::{
    format_date, format_time, fresh_catalog_id, parse_date, settle_date, settle_time, Timestamp,
};
use lenso_projects::failure::{runtime, DomainFailure, RuntimeFailure, StorageError};
use lenso_projects::model::{
    health_name, priority_name, project_status_category, relation_kind_name, retention_mode_name,
    workflow_category, CreateProjectRequest, Health, Priority, ProjectStatusCategory,
    PutCycleRequest, RelationKind, ReorderItem, RetentionMode, WorkflowCategory,
};
use lenso_projects::text::{comes_before, integer_string, sort_texts, trim};
use lenso_projects::validate::{
    parse_cursor, parse_revision, valid_callers, valid_color, valid_cycle_put, valid_id,
    valid_page, valid_project_create, valid_reorder, valid_secret_reference, valid_team_key,
    valid_text, valid_url,
};

fn words(list: &[&str]) -> Vec<String> {
    list.iter().map(|word| (*word).to_owned()).collect()
}

#[test]
fn times_read_as_rfc_3339() {
    assert_eq!(format_time(0).unwrap(), "1970-01-01T00:00:00Z");
    assert_eq!(format_time(1_789_430_400_000_000_000).unwrap(), "2026-09-15T00:00:00Z");
    assert_eq!(format_time(1_500_000_000).unwrap(), "1970-01-01T00:00:01.5Z");
    let time = Timestamp::new(1_577_836_800_000_000_001).unwrap();
    assert_eq!(time.text, "2020-01-01T00:00:00.000000001Z");
    assert_eq!(time.unix_nanos, 1_577_836_800_000_000_001);
}

#[test]
fn times_out_of_range_fail() {
    let Err(StorageError::Runtime(RuntimeFailure::PluginFailure { detail })) =
        format_time(i128::MAX)
    else {
        panic!("no date is that late");
    };
    assert!(detail.starts_with("Projects PostgreSQL operation `format timestamp` failed: "));
}

#[test]
fn dates_are_iso_8601() {
    let date = parse_date(&Some("2020-01-01".to_owned())).unwrap();
    assert_eq!(date.as_ref().unwrap().julian_day, 2_458_850);
    assert_eq!(format_date(&date), Some("2020-01-01".to_owned()));
    assert_eq!(parse_date(&None), Ok(None));
    assert_eq!(format_date(&None), None);
    for text in ["2020-02-30", "01/02/2020", "", "today"] {
        assert_eq!(parse_date(&Some(text.to_owned())), Err(DomainFailure::InvalidRequest));
    }
}

#[test]
fn unreadable_times_and_dates_are_told_apart() {
    assert_eq!(settle_time(Ok("now".to_owned())), Ok("now".to_owned()));
    assert_eq!(
        settle_time(Err("too late".to_owned())),
        Err(runtime("format timestamp", "too late"))
    );
    assert_eq!(settle_date(None), Err(DomainFailure::InvalidRequest));
}

#[test]
fn catalog_ids_are_fresh_and_hexadecimal() {
    let first = fresh_catalog_id("project_status");
    let second = fresh_catalog_id("project_status");
    assert_ne!(first, second);
    let hex = first.strip_prefix("project_status_").unwrap();
    assert_eq!(hex.len(), 32);
    assert!(hex.chars().all(|c| c.is_ascii_hexdigit() && !c.is_ascii_uppercase()));
}

#[test]
fn revisions_are_positive_decimals() {
    assert_eq!(parse_revision("1"), Ok(1));
    assert_eq!(parse_revision("9223372036854775807"), Ok(i64::MAX));
    for text in ["0", "-1", "", "one", "9223372036854775808", "1.0", " 1"] {
        assert_eq!(parse_revision(text), Err(DomainFailure::InvalidRequest), "{text}");
    }
    for text in ["+7", "007"] {
        assert_eq!(parse_revision(text), Ok(7), "{text}");
    }
    assert_eq!(parse_cursor(&None), Ok(0));
    assert_eq!(parse_cursor(&Some("12".to_owned())), Ok(12));
    assert_eq!(parse_cursor(&Some("0".to_owned())), Err(DomainFailure::InvalidRequest));
    for revision in [1, 10, i64::MAX] {
        assert_eq!(parse_revision(&integer_string(revision)), Ok(revision));
    }
    assert_eq!(integer_string(i64::MIN), i64::MIN.to_string());
}

#[test]
fn identifiers_and_texts_are_checked() {
    assert!(valid_id("team_eng"));
    assert!(valid_id(&"a".repeat(256)));
    assert!(!valid_id(&"a".repeat(257)));
    assert!(!valid_id(""));
    assert!(!valid_id("two words"));
    assert!(!valid_id("line\n"));
    assert!(valid_text("Roadmap", 200));
    assert!(!valid_text("   ", 200));
    assert!(!valid_text(&"雪".repeat(67), 200));
    assert!(valid_text(&"雪".repeat(66), 200));
    assert!(valid_url("https://example.com/a"));
    assert!(!valid_url("ftp://example.com/a"));
    assert!(valid_color("#00AAff"));
    assert!(!valid_color("#00AAfg"));
    assert!(!valid_color("00AAff"));
    assert!(valid_team_key("ENG"));
    assert!(!valid_team_key("eng"));
    assert!(!valid_team_key(""));
    assert!(valid_secret_reference("projects/database-url"));
    assert!(!valid_secret_reference("../database-url"));
    assert!(valid_page(1, &None));
    assert!(valid_page(100, &Some("1".to_owned())));
    assert!(!valid_page(101, &None));
    assert!(!valid_page(0, &None));
    assert!(!valid_page(10, &Some("zero".to_owned())));
    assert!(valid_callers(&words(&["a", "b"])));
    assert!(!valid_callers(&words(&["a", "a"])));
    assert!(!valid_callers(&words(&[])));
}

#[test]
fn a_project_lists_each_team_once_and_its_lead_among_them() {
    let mut request = CreateProjectRequest {
        idempotency_key: "create".to_owned(),
        organization_id: "org_acme".to_owned(),
        project_id: "project_roadmap".to_owned(),
        name: "Roadmap".to_owned(),
        summary: None,
        lead_team_id: "team_eng".to_owned(),
        team_ids: words(&["team_eng", "team_ops"]),
        status_id: None,
        milestone_id: None,
        start_date: None,
        target_date: None,
    };
    assert!(valid_project_create(&request));
    request.team_ids = words(&["team_eng", "team_eng"]);
    assert!(!valid_project_create(&request));
    request.team_ids = words(&[]);
    assert!(!valid_project_create(&request));
}

#[test]
fn a_cycle_has_a_positive_number() {
    let mut request = PutCycleRequest {
        idempotency_key: "cycle".to_owned(),
        organization_id: "org_acme".to_owned(),
        cycle_id: "cycle_1".to_owned(),
        team_id: "team_eng".to_owned(),
        number: 1,
        name: None,
        starts_on: "2020-01-01".to_owned(),
        ends_on: "2020-01-14".to_owned(),
        expected_revision: None,
    };
    assert!(valid_cycle_put(&request));
    request.number = 0;
    assert!(!valid_cycle_put(&request));
}

#[test]
fn a_reorder_names_each_entry_and_position_once() {
    let item = |id: &str, position: i64| ReorderItem {
        id: id.to_owned(),
        expected_revision: "1".to_owned(),
        position,
    };
    assert!(valid_reorder(&vec![item("a", 0), item("b", 1)]));
    assert!(!valid_reorder(&vec![]));
    assert!(!valid_reorder(&vec![item("a", 0), item("a", 1)]));
    assert!(!valid_reorder(&vec![item("a", 1), item("b", 1)]));
    assert!(!valid_reorder(&vec![item("a", -1)]));
}

#[test]
fn texts_are_trimmed_and_ordered() {
    assert_eq!(trim(" \t Roadmap \n"), "Roadmap");
    assert_eq!(trim("   "), "");
    assert!(comes_before("ENG-1", "ENG-10"));
    assert!(!comes_before("b", "a"));
    assert!(!comes_before("a", "a"));
    assert_eq!(sort_texts(&words(&["b", "c", "a"])), words(&["a", "b", "c"]));
}

#[test]
fn storage_faults_name_their_operation() {
    assert_eq!(
        runtime("list issues", "connection lost"),
        StorageError::Runtime(RuntimeFailure::PluginFailure {
            detail: "Projects PostgreSQL operation `list issues` failed: connection lost"
                .to_owned()
        })
    );
}

#[test]
fn stored_names_are_snake_case() {
    assert_eq!(priority_name(&Priority::NoPriority), "none");
    assert_eq!(priority_name(&Priority::Urgent), "urgent");
    assert_eq!(health_name(&Health::OffTrack), "off_track");
    assert_eq!(relation_kind_name(&RelationKind::BlockedBy), "blocked_by");
    assert_eq!(workflow_category(&WorkflowCategory::Unstarted), "unstarted");
    assert_eq!(project_status_category(&ProjectStatusCategory::Paused), "paused");
    assert_eq!(retention_mode_name(&RetentionMode::Anonymize), "anonymize");
}
