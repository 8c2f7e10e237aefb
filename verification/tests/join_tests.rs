//! Join specs, flattening, and the single-record read paths.

use timetrack::error::{EntityKind, Error};
use timetrack::join::{
    flatten_joined_task, projects_join_spec, tasks_join_spec,
};
use timetrack::raw::{RawDocument, RawField, RawValue};
use timetrack::views::{all_tasks_from_docs, client_from_lookup, task_from_lookup};

fn jt_field(name: &str, value: RawValue) -> RawField {
    RawField { name: name.to_string(), value }
}

fn jt_id(seed: u8) -> Vec<u8> {
    vec![seed; 12]
}

#[test]
fn tasks_join_spec_names_its_stages() {
    let s = tasks_join_spec();
    assert_eq!(s.source, "tasks");
    assert_eq!(s.steps.len(), 2);
    assert_eq!(s.steps[0].local_field, "project");
    assert_eq!(s.steps[0].foreign_collection, "projects");
    assert_eq!(s.steps[0].foreign_field, "_id");
    assert_eq!(s.steps[0].output_field, "project");
    assert_eq!(s.steps[1].local_field, "project.client");
    assert_eq!(s.steps[1].foreign_collection, "clients");
    assert_eq!(s.steps[1].foreign_field, "_id");
    assert_eq!(s.steps[1].output_field, "client");
}

#[test]
fn projects_join_spec_names_its_stage() {
    let s = projects_join_spec();
    assert_eq!(s.source, "projects");
    assert_eq!(s.steps.len(), 1);
    assert_eq!(s.steps[0].local_field, "client");
    assert_eq!(s.steps[0].foreign_collection, "clients");
    assert_eq!(s.steps[0].foreign_field, "_id");
    assert_eq!(s.steps[0].output_field, "clientName");
}

#[test]
fn flattening_takes_the_first_of_multiple_matches() {
    let doc = RawDocument {
        fields: vec![
            jt_field("_id", RawValue::Id(jt_id(1))),
            jt_field("name", RawValue::Text("t".to_string())),
            jt_field("initial_time", RawValue::Timestamp(0)),
            jt_field("end_time", RawValue::Timestamp(0)),
            jt_field(
                "project",
                RawValue::Array(vec![
                    RawDocument {
                        fields: vec![jt_field("name", RawValue::Text("first".to_string()))],
                    },
                    RawDocument {
                        fields: vec![jt_field("name", RawValue::Text("second".to_string()))],
                    },
                ]),
            ),
        ],
    };
    let ft = flatten_joined_task(&doc).unwrap();
    assert_eq!(ft.task.project.as_deref(), Some("first"));
    assert_eq!(ft.task.project_color, None);
    assert_eq!(ft.task.client, None);
}

#[test]
fn flattening_requires_the_interval() {
    let doc = RawDocument {
        fields: vec![
            jt_field("_id", RawValue::Id(jt_id(1))),
            jt_field("name", RawValue::Text("t".to_string())),
            jt_field("initial_time", RawValue::Timestamp(0)),
        ],
    };
    match flatten_joined_task(&doc) {
        Err(Error::DecodeFailed(field, EntityKind::Task)) => assert_eq!(field, "end_time"),
        other => panic!("expected DecodeFailed, got {:?}", other),
    }
}

fn jt_task_doc(seed: u8, name: &str) -> RawDocument {
    RawDocument {
        fields: vec![
            jt_field("_id", RawValue::Id(jt_id(seed))),
            jt_field("name", RawValue::Text(name.to_string())),
            jt_field("initial_time", RawValue::Timestamp(1_704_186_000_000)),
            jt_field("end_time", RawValue::Timestamp(1_704_189_600_000)),
            jt_field("created_at", RawValue::Timestamp(0)),
            jt_field("updated_at", RawValue::Timestamp(0)),
        ],
    }
}

#[test]
fn all_tasks_echo_in_order() {
    let docs = vec![jt_task_doc(1, "one"), jt_task_doc(2, "two")];
    let all = all_tasks_from_docs(&docs).unwrap();
    assert_eq!(all.len(), 2);
    assert_eq!(all[0].name, "one");
    assert_eq!(all[1].name, "two");
    assert_eq!(all[0].id, "010101010101010101010101");
    assert_eq!(all[0].initial_time, "2024-01-02T09:00:00Z");
    assert_eq!(all[0].project, None);
}

#[test]
fn all_tasks_fails_on_the_first_malformed_record() {
    let bad = RawDocument { fields: vec![jt_field("_id", RawValue::Id(jt_id(9)))] };
    let docs = vec![jt_task_doc(1, "one"), bad, jt_task_doc(2, "two")];
    match all_tasks_from_docs(&docs) {
        Err(Error::DecodeFailed(field, EntityKind::Task)) => assert_eq!(field, "name"),
        other => panic!("expected DecodeFailed, got {:?}", other),
    }
}

#[test]
fn lookup_of_missing_record_is_not_found() {
    assert!(matches!(client_from_lookup(None), Err(Error::RecordNotFound)));
    assert!(matches!(task_from_lookup(None), Err(Error::RecordNotFound)));
}

#[test]
fn lookup_decodes_and_renders() {
    let doc = RawDocument {
        fields: vec![
            jt_field("_id", RawValue::Id(jt_id(0xab))),
            jt_field("name", RawValue::Text("Acme".to_string())),
            jt_field("created_at", RawValue::Timestamp(1_704_186_000_000)),
            jt_field("updated_at", RawValue::Timestamp(1_704_189_600_000)),
        ],
    };
    let resp = client_from_lookup(Some(doc)).unwrap();
    assert_eq!(resp.id, "abababababababababababab");
    assert_eq!(resp.name, "Acme");
    assert_eq!(resp.created_at, "2024-01-02T09:00:00Z");
    assert_eq!(resp.updated_at, "2024-01-02T10:00:00Z");
}

#[test]
fn lookup_of_malformed_record_fails_with_the_field() {
    let doc = RawDocument { fields: vec![jt_field("name", RawValue::Text("x".to_string()))] };
    match client_from_lookup(Some(doc)) {
        Err(Error::DecodeFailed(field, EntityKind::Client)) => assert_eq!(field, "_id"),
        other => panic!("expected DecodeFailed, got {:?}", other),
    }
}

#[test]
fn task_lookup_keeps_the_project_reference() {
    let doc = RawDocument {
        fields: vec![
            jt_field("_id", RawValue::Id(jt_id(1))),
            jt_field("name", RawValue::Text("t".to_string())),
            jt_field("initial_time", RawValue::Timestamp(0)),
            jt_field("end_time", RawValue::Timestamp(0)),
            jt_field("project", RawValue::Id(jt_id(0xcd))),
            jt_field("created_at", RawValue::Timestamp(0)),
            jt_field("updated_at", RawValue::Timestamp(0)),
        ],
    };
    let resp = task_from_lookup(Some(doc)).unwrap();
    assert_eq!(resp.project.as_deref(), Some("cdcdcdcdcdcdcdcdcdcdcdcd"));
}

#[test]
fn string_equality_helper_compares_contents() {
    assert!(timetrack::strutil::str_eq("abc", "abc"));
    assert!(!timetrack::strutil::str_eq("abc", "abd"));
    assert!(!timetrack::strutil::str_eq("abc", "abcd"));
    assert!(timetrack::strutil::str_eq("", ""));
}

#[test]
fn chrono_agrees_with_the_rendered_date_key() {
    let ms: i64 = 1_704_186_000_000;
    let dt = chrono::DateTime::<chrono::Utc>::from_timestamp_millis(ms).unwrap();
    assert_eq!(dt.format("%Y-%m-%d").to_string(), "2024-01-02");
    assert_eq!(
        dt.to_rfc3339_opts(chrono::SecondsFormat::Secs, true),
        "2024-01-02T09:00:00Z"
    );
}
