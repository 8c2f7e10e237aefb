//! Decoder and encoder behaviour: round trips, field-by-field rejection,
//! identifier normalization, timestamp rendering.

use timetrack::decode::{decode, decode_client, decode_project, decode_task};
use timetrack::encode::{encode, encode_client, encode_project, encode_task};
use timetrack::entity::{Client, Entity, Project, Task};
use timetrack::error::{EntityKind, Error};
use timetrack::oid::{object_id_hex, parse_object_id, validate_object_id};
use timetrack::raw::{RawDocument, RawField, RawValue};

fn dc_field(name: &str, value: RawValue) -> RawField {
    RawField { name: name.to_string(), value }
}

fn dc_id_bytes() -> Vec<u8> {
    vec![0x01, 0x23, 0x45, 0x67, 0x89, 0xab, 0xcd, 0xef, 0x01, 0x23, 0x45, 0x67]
}

fn dc_id_hex() -> String {
    "0123456789abcdef01234567".to_string()
}

fn dc_client_doc() -> RawDocument {
    RawDocument {
        fields: vec![
            dc_field("_id", RawValue::Id(dc_id_bytes())),
            dc_field("name", RawValue::Text("Acme".to_string())),
            dc_field("created_at", RawValue::Timestamp(1_704_067_200_000)),
            dc_field("updated_at", RawValue::Timestamp(1_704_153_600_000)),
        ],
    }
}

#[test]
fn decode_client_echoes_fields() {
    let c = decode_client(&dc_client_doc()).unwrap();
    assert_eq!(c.id, dc_id_hex());
    assert_eq!(c.name, "Acme");
    assert_eq!(c.created_ms, 1_704_067_200_000);
    assert_eq!(c.updated_ms, 1_704_153_600_000);
}

#[test]
fn round_trip_client() {
    let c = Client {
        id: dc_id_hex(),
        name: "Acme".to_string(),
        created_ms: 1_704_067_200_000,
        updated_ms: 1_704_153_600_000,
    };
    let doc = encode_client(&c);
    let back = decode_client(&doc).unwrap();
    assert_eq!(back.id, c.id);
    assert_eq!(back.name, c.name);
    assert_eq!(back.created_ms, c.created_ms);
    assert_eq!(back.updated_ms, c.updated_ms);
}

#[test]
fn round_trip_project() {
    let p = Project {
        id: dc_id_hex(),
        name: "Website".to_string(),
        color: "#61e294ff".to_string(),
        estimate: "3w".to_string(),
        status: "active".to_string(),
        client_id: "aaaaaaaaaaaaaaaaaaaaaaaa".to_string(),
        created_ms: 0,
        updated_ms: 1_000,
    };
    let doc = encode_project(&p);
    let back = decode_project(&doc).unwrap();
    assert_eq!(back.id, p.id);
    assert_eq!(back.name, p.name);
    assert_eq!(back.color, p.color);
    assert_eq!(back.estimate, p.estimate);
    assert_eq!(back.status, p.status);
    assert_eq!(back.client_id, p.client_id);
    assert_eq!(back.created_ms, p.created_ms);
    assert_eq!(back.updated_ms, p.updated_ms);
}

#[test]
fn round_trip_task_with_project() {
    let t = Task {
        id: dc_id_hex(),
        name: "wire the header".to_string(),
        initial_ms: 1_704_186_000_000,
        end_ms: 1_704_189_600_000,
        project_id: Some("aaaaaaaaaaaaaaaaaaaaaaaa".to_string()),
        created_ms: 1_704_067_200_000,
        updated_ms: 1_704_067_200_000,
    };
    let doc = encode_task(&t);
    let back = decode_task(&doc).unwrap();
    assert_eq!(back.id, t.id);
    assert_eq!(back.name, t.name);
    assert_eq!(back.initial_ms, t.initial_ms);
    assert_eq!(back.end_ms, t.end_ms);
    assert_eq!(back.project_id, t.project_id);
    assert_eq!(back.created_ms, t.created_ms);
    assert_eq!(back.updated_ms, t.updated_ms);
}

#[test]
fn round_trip_task_without_project() {
    let t = Task {
        id: dc_id_hex(),
        name: "standalone".to_string(),
        initial_ms: 0,
        end_ms: 0,
        project_id: None,
        created_ms: 0,
        updated_ms: 0,
    };
    let doc = encode_task(&t);
    assert_eq!(doc.fields.len(), 6);
    let back = decode_task(&doc).unwrap();
    assert_eq!(back.project_id, None);
}

#[test]
fn round_trip_entity_dispatch() {
    let c = Client {
        id: dc_id_hex(),
        name: "Acme".to_string(),
        created_ms: 5_000,
        updated_ms: 6_000,
    };
    let doc = encode(&Entity::Client(c));
    match decode(&doc, EntityKind::Client).unwrap() {
        Entity::Client(back) => assert_eq!(back.name, "Acme"),
        _ => panic!("wrong entity kind"),
    }
}

#[test]
fn decode_missing_field_names_it() {
    let mut doc = dc_client_doc();
    doc.fields.remove(1);
    match decode_client(&doc) {
        Err(Error::DecodeFailed(field, kind)) => {
            assert_eq!(field, "name");
            assert_eq!(kind, EntityKind::Client);
        },
        other => panic!("expected DecodeFailed, got {:?}", other),
    }
}

#[test]
fn decode_wrong_type_names_the_field() {
    let mut doc = dc_client_doc();
    doc.fields[2] = dc_field("created_at", RawValue::Text("yesterday".to_string()));
    match decode_client(&doc) {
        Err(Error::DecodeFailed(field, kind)) => {
            assert_eq!(field, "created_at");
            assert_eq!(kind, EntityKind::Client);
        },
        other => panic!("expected DecodeFailed, got {:?}", other),
    }
}

#[test]
fn decode_reports_first_bad_field() {
    let doc = RawDocument { fields: vec![] };
    match decode_client(&doc) {
        Err(Error::DecodeFailed(field, _)) => assert_eq!(field, "_id"),
        other => panic!("expected DecodeFailed, got {:?}", other),
    }
}

#[test]
fn decode_task_project_is_optional() {
    let doc = RawDocument {
        fields: vec![
            dc_field("_id", RawValue::Id(dc_id_bytes())),
            dc_field("name", RawValue::Text("t".to_string())),
            dc_field("initial_time", RawValue::Timestamp(0)),
            dc_field("end_time", RawValue::Timestamp(1_000)),
            dc_field("created_at", RawValue::Timestamp(0)),
            dc_field("updated_at", RawValue::Timestamp(0)),
        ],
    };
    let t = decode_task(&doc).unwrap();
    assert_eq!(t.project_id, None);
}

#[test]
fn decode_task_bad_project_field_fails() {
    let doc = RawDocument {
        fields: vec![
            dc_field("_id", RawValue::Id(dc_id_bytes())),
            dc_field("name", RawValue::Text("t".to_string())),
            dc_field("initial_time", RawValue::Timestamp(0)),
            dc_field("end_time", RawValue::Timestamp(1_000)),
            dc_field("project", RawValue::Text("not an id".to_string())),
            dc_field("created_at", RawValue::Timestamp(0)),
            dc_field("updated_at", RawValue::Timestamp(0)),
        ],
    };
    match decode_task(&doc) {
        Err(Error::DecodeFailed(field, EntityKind::Task)) => assert_eq!(field, "project"),
        other => panic!("expected DecodeFailed, got {:?}", other),
    }
}

#[test]
fn decode_uses_first_field_of_a_name() {
    let mut doc = dc_client_doc();
    doc.fields.push(dc_field("name", RawValue::Text("Shadow".to_string())));
    let c = decode_client(&doc).unwrap();
    assert_eq!(c.name, "Acme");
}

#[test]
fn identifier_rendering_is_lower_case_hex() {
    let hex = object_id_hex(&dc_id_bytes());
    assert_eq!(hex, dc_id_hex());
}

#[test]
fn identifier_rendering_matches_bson() {
    let oid = bson::oid::ObjectId::parse_str("FFEEDDCCBBAA998877665544").unwrap();
    let ours = object_id_hex(&oid.bytes().to_vec());
    assert_eq!(ours, oid.to_hex());
}

#[test]
fn parse_object_id_accepts_both_cases() {
    let b1 = parse_object_id("ffeeddccbbaa998877665544").unwrap();
    let b2 = parse_object_id("FFEEDDCCBBAA998877665544").unwrap();
    assert_eq!(b1, b2);
    assert_eq!(b1[0], 0xff);
    assert_eq!(b1[11], 0x44);
}

#[test]
fn validate_object_id_normalizes_to_lower_case() {
    let c = validate_object_id("FFEEDDCCBBAA998877665544").unwrap();
    assert_eq!(c, "ffeeddccbbaa998877665544");
}

#[test]
fn invalid_identifier_is_rejected() {
    match validate_object_id("not-a-hex-id") {
        Err(Error::InvalidIdentifier(s)) => assert_eq!(s, "not-a-hex-id"),
        other => panic!("expected InvalidIdentifier, got {:?}", other),
    }
}

#[test]
fn short_and_long_identifiers_are_rejected() {
    assert!(matches!(
        parse_object_id("0123456789abcdef0123456"),
        Err(Error::InvalidIdentifier(_))
    ));
    assert!(matches!(
        parse_object_id("0123456789abcdef012345678"),
        Err(Error::InvalidIdentifier(_))
    ));
    assert!(matches!(
        parse_object_id("0123456789abcdef0123456g"),
        Err(Error::InvalidIdentifier(_))
    ));
}

#[test]
fn timestamps_render_seconds_precision_utc() {
    let doc = RawDocument {
        fields: vec![
            dc_field("_id", RawValue::Id(dc_id_bytes())),
            dc_field("name", RawValue::Text("t".to_string())),
            dc_field("initial_time", RawValue::Timestamp(1_704_186_000_000)),
            dc_field("end_time", RawValue::Timestamp(1_704_189_600_123)),
            dc_field("created_at", RawValue::Timestamp(0)),
            dc_field("updated_at", RawValue::Timestamp(0)),
        ],
    };
    let t = decode_task(&doc).unwrap();
    let resp = timetrack::entity::task_response(&t);
    assert_eq!(resp.initial_time, "2024-01-02T09:00:00Z");
    assert_eq!(resp.end_time, "2024-01-02T10:00:00Z");
    assert_eq!(resp.created_at, "1970-01-01T00:00:00Z");
}

#[test]
fn out_of_era_timestamps_saturate() {
    let doc = RawDocument {
        fields: vec![
            dc_field("_id", RawValue::Id(dc_id_bytes())),
            dc_field("name", RawValue::Text("t".to_string())),
            dc_field("initial_time", RawValue::Timestamp(i64::MIN)),
            dc_field("end_time", RawValue::Timestamp(i64::MAX)),
            dc_field("created_at", RawValue::Timestamp(0)),
            dc_field("updated_at", RawValue::Timestamp(0)),
        ],
    };
    let t = decode_task(&doc).unwrap();
    assert_eq!(t.initial_ms, timetrack::timefmt::TS_MIN);
    assert_eq!(t.end_ms, timetrack::timefmt::TS_MAX);
    let resp = timetrack::entity::task_response(&t);
    assert_eq!(resp.initial_time, "0000-01-01T00:00:00Z");
    assert_eq!(resp.end_time, "9999-12-31T23:59:59Z");
}

#[test]
fn error_descriptions() {
    assert_eq!(Error::RecordNotFound.describe(), "record not found");
    assert_eq!(Error::InvalidIdentifier("x".to_string()).describe(), "invalid identifier");
    assert_eq!(Error::StoreQueryFailed("down".to_string()).describe(), "store query failed");
    assert_eq!(
        Error::DecodeFailed("name".to_string(), EntityKind::Task).describe(),
        "decode failed"
    );
}
