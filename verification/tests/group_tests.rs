//! Grouping behaviour: the tasks-by-date and projects-by-client views.

use timetrack::error::{EntityKind, Error};
use timetrack::raw::{RawDocument, RawField, RawValue};
use timetrack::views::{grouped_projects_by_client, grouped_tasks_by_date};

fn gt_field(name: &str, value: RawValue) -> RawField {
    RawField { name: name.to_string(), value }
}

fn gt_id(seed: u8) -> Vec<u8> {
    vec![seed; 12]
}

fn gt_project_match(name: &str, color: &str) -> RawValue {
    RawValue::Array(vec![RawDocument {
        fields: vec![
            gt_field("name", RawValue::Text(name.to_string())),
            gt_field("color", RawValue::Text(color.to_string())),
        ],
    }])
}

fn gt_client_match(name: &str) -> RawValue {
    RawValue::Array(vec![RawDocument {
        fields: vec![gt_field("name", RawValue::Text(name.to_string()))],
    }])
}

fn gt_task_doc(seed: u8, name: &str, start: i64, end: i64, joined: bool) -> RawDocument {
    let mut fields = vec![
        gt_field("_id", RawValue::Id(gt_id(seed))),
        gt_field("name", RawValue::Text(name.to_string())),
        gt_field("initial_time", RawValue::Timestamp(start)),
        gt_field("end_time", RawValue::Timestamp(end)),
    ];
    if joined {
        fields.push(gt_field("project", gt_project_match("Website", "#61e294ff")));
        fields.push(gt_field("client", gt_client_match("Acme")));
    } else {
        fields.push(gt_field("project", RawValue::Array(vec![])));
        fields.push(gt_field("client", RawValue::Array(vec![])));
    }
    RawDocument { fields }
}

const T_0102_0900: i64 = 1_704_186_000_000;
const T_0102_1000: i64 = 1_704_189_600_000;
const T_0102_1100: i64 = 1_704_193_200_000;
const T_0102_1130: i64 = 1_704_195_000_000;
const T_0101_0800: i64 = 1_704_096_000_000;
const T_0101_0900: i64 = 1_704_099_600_000;

#[test]
fn three_tasks_two_days() {
    let docs = vec![
        gt_task_doc(1, "Task A", T_0102_0900, T_0102_1000, true),
        gt_task_doc(2, "Task B", T_0102_1100, T_0102_1130, true),
        gt_task_doc(3, "Task C", T_0101_0800, T_0101_0900, false),
    ];
    let (groups, warns) = grouped_tasks_by_date(&docs);
    assert!(warns.is_empty());
    assert_eq!(groups.len(), 2);
    assert_eq!(groups[0].date, "2024-01-02");
    assert_eq!(groups[0].tasks.len(), 2);
    assert_eq!(groups[0].total_time, 5400);
    assert_eq!(groups[1].date, "2024-01-01");
    assert_eq!(groups[1].tasks.len(), 1);
    assert_eq!(groups[1].total_time, 3600);
    assert_eq!(groups[0].tasks[0].name, "Task A");
    assert_eq!(groups[0].tasks[1].name, "Task B");
    assert_eq!(groups[1].tasks[0].name, "Task C");
}

#[test]
fn unresolved_project_degrades_to_absent_fields() {
    let docs = vec![gt_task_doc(1, "orphan", T_0102_0900, T_0102_1000, false)];
    let (groups, warns) = grouped_tasks_by_date(&docs);
    assert!(warns.is_empty());
    assert_eq!(groups.len(), 1);
    let t = &groups[0].tasks[0];
    assert_eq!(t.project, None);
    assert_eq!(t.project_color, None);
    assert_eq!(t.client, None);
}

#[test]
fn resolved_chain_carries_names_through() {
    let docs = vec![gt_task_doc(1, "t", T_0102_0900, T_0102_1000, true)];
    let (groups, _) = grouped_tasks_by_date(&docs);
    let t = &groups[0].tasks[0];
    assert_eq!(t.project.as_deref(), Some("Website"));
    assert_eq!(t.project_color.as_deref(), Some("#61e294ff"));
    assert_eq!(t.client.as_deref(), Some("Acme"));
    assert_eq!(t.initial_time, "2024-01-02T09:00:00Z");
    assert_eq!(t.end_time, "2024-01-02T10:00:00Z");
    assert_eq!(t.id, "010101010101010101010101");
}

#[test]
fn groups_come_most_recent_day_first() {
    let docs = vec![
        gt_task_doc(1, "a", T_0101_0800, T_0101_0900, false),
        gt_task_doc(2, "b", T_0102_0900, T_0102_1000, false),
        gt_task_doc(3, "c", 1_704_000_000_000, 1_704_000_000_000, false),
    ];
    let (groups, _) = grouped_tasks_by_date(&docs);
    assert_eq!(groups.len(), 3);
    assert_eq!(groups[0].date, "2024-01-02");
    assert_eq!(groups[1].date, "2024-01-01");
    assert_eq!(groups[2].date, "2023-12-31");
    assert!(groups[0].day > groups[1].day && groups[1].day > groups[2].day);
}

#[test]
fn reversed_interval_contributes_negative_duration() {
    let docs = vec![gt_task_doc(1, "rev", T_0102_1000, T_0102_0900, false)];
    let (groups, _) = grouped_tasks_by_date(&docs);
    assert_eq!(groups[0].total_time, -3600);
}

#[test]
fn totals_sum_over_groups_matches_task_sum() {
    let docs = vec![
        gt_task_doc(1, "a", T_0102_0900, T_0102_1000, false),
        gt_task_doc(2, "b", T_0102_1100, T_0102_1130, false),
        gt_task_doc(3, "c", T_0101_0800, T_0101_0900, false),
        gt_task_doc(4, "d", T_0101_0900, T_0101_0800, false),
    ];
    let (groups, _) = grouped_tasks_by_date(&docs);
    let group_sum: i128 = groups.iter().map(|g| g.total_time).sum();
    assert_eq!(group_sum, 3600 + 1800 + 3600 - 3600);
}

#[test]
fn malformed_record_is_isolated_as_warning() {
    let bad = RawDocument {
        fields: vec![
            gt_field("_id", RawValue::Id(gt_id(9))),
            gt_field("name", RawValue::Text("broken".to_string())),
        ],
    };
    let docs = vec![
        gt_task_doc(1, "good", T_0102_0900, T_0102_1000, false),
        bad,
    ];
    let (groups, warns) = grouped_tasks_by_date(&docs);
    assert_eq!(groups.len(), 1);
    assert_eq!(groups[0].tasks.len(), 1);
    assert_eq!(warns.len(), 1);
    match &warns[0] {
        Error::DecodeFailed(field, EntityKind::Task) => assert_eq!(field, "initial_time"),
        other => panic!("expected DecodeFailed, got {:?}", other),
    }
}

#[test]
fn empty_batch_yields_no_groups() {
    let docs: Vec<RawDocument> = vec![];
    let (groups, warns) = grouped_tasks_by_date(&docs);
    assert!(groups.is_empty());
    assert!(warns.is_empty());
}

fn gt_project_doc(seed: u8, name: &str, updated: i64, client: Option<&str>) -> RawDocument {
    let joined = match client {
        Some(c) => gt_client_match(c),
        None => RawValue::Array(vec![]),
    };
    RawDocument {
        fields: vec![
            gt_field("_id", RawValue::Id(gt_id(seed))),
            gt_field("name", RawValue::Text(name.to_string())),
            gt_field("color", RawValue::Text("#9799caff".to_string())),
            gt_field("estimate", RawValue::Text("".to_string())),
            gt_field("status", RawValue::Text("open".to_string())),
            gt_field("updated_at", RawValue::Timestamp(updated)),
            gt_field("clientName", joined),
        ],
    }
}

#[test]
fn deleted_client_groups_under_sentinel() {
    let docs = vec![
        gt_project_doc(1, "kept", 2_000, Some("Acme")),
        gt_project_doc(2, "orphan", 1_000, None),
    ];
    let (groups, warns) = grouped_projects_by_client(&docs);
    assert!(warns.is_empty());
    assert_eq!(groups.len(), 2);
    assert_eq!(groups[0].client.as_deref(), Some("Acme"));
    assert_eq!(groups[0].projects.len(), 1);
    assert_eq!(groups[1].client, None);
    assert_eq!(groups[1].projects.len(), 1);
    assert_eq!(groups[1].projects[0].name, "orphan");
    assert!(groups[0].projects.iter().all(|p| p.name != "orphan"));
}

#[test]
fn projects_within_group_come_most_recently_updated_first() {
    let docs = vec![
        gt_project_doc(1, "older", 1_000, Some("Acme")),
        gt_project_doc(2, "newest", 9_000, Some("Acme")),
        gt_project_doc(3, "middle", 5_000, Some("Acme")),
    ];
    let (groups, _) = grouped_projects_by_client(&docs);
    assert_eq!(groups.len(), 1);
    let names: Vec<&str> = groups[0].projects.iter().map(|p| p.name.as_str()).collect();
    assert_eq!(names, vec!["newest", "middle", "older"]);
}

#[test]
fn clients_sharing_a_name_merge_into_one_group() {
    let docs = vec![
        gt_project_doc(1, "p1", 2_000, Some("Same Name")),
        gt_project_doc(2, "p2", 1_000, Some("Same Name")),
    ];
    let (groups, _) = grouped_projects_by_client(&docs);
    assert_eq!(groups.len(), 1);
    assert_eq!(groups[0].projects.len(), 2);
}

#[test]
fn project_groups_follow_first_occurrence_order() {
    let docs = vec![
        gt_project_doc(1, "a", 1_000, Some("Beta")),
        gt_project_doc(2, "b", 2_000, Some("Alpha")),
        gt_project_doc(3, "c", 3_000, Some("Beta")),
    ];
    let (groups, _) = grouped_projects_by_client(&docs);
    assert_eq!(groups.len(), 2);
    assert_eq!(groups[0].client.as_deref(), Some("Beta"));
    assert_eq!(groups[1].client.as_deref(), Some("Alpha"));
    assert_eq!(groups[0].projects.len(), 2);
}

#[test]
fn malformed_project_is_isolated_as_warning() {
    let bad = RawDocument {
        fields: vec![gt_field("_id", RawValue::Id(gt_id(7)))],
    };
    let docs = vec![gt_project_doc(1, "good", 1_000, Some("Acme")), bad];
    let (groups, warns) = grouped_projects_by_client(&docs);
    assert_eq!(groups.len(), 1);
    assert_eq!(warns.len(), 1);
    match &warns[0] {
        Error::DecodeFailed(field, EntityKind::Project) => assert_eq!(field, "name"),
        other => panic!("expected DecodeFailed, got {:?}", other),
    }
}

#[test]
fn project_summary_carries_rendered_update_stamp() {
    let docs = vec![gt_project_doc(1, "p", 1_704_186_000_000, Some("Acme"))];
    let (groups, _) = grouped_projects_by_client(&docs);
    let p = &groups[0].projects[0];
    assert_eq!(p.updated_ms, 1_704_186_000_000);
    assert_eq!(p.updated_at, "2024-01-02T09:00:00Z");
    assert_eq!(p.color, "#9799caff");
    assert_eq!(p.status, "open");
}
