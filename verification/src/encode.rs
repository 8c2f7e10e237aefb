//! The encoder: typed entities back to raw records.
//!
//! On a well-formed entity, encoding is the decoder's inverse: the record
//! built here decodes to the entity it was built from, field for field.

use vstd::prelude::*;

use crate::decode::{
    client_bad_field, client_of, entity_bad_field, entity_of, project_bad_field, project_of,
    task_bad_field, task_of,
};
use crate::entity::{Client, Entity, Project, Task};
use crate::error::EntityKind;
use crate::oid::{is_object_id_str, lemma_hex_roundtrip, parse_object_id};
use crate::raw::{lemma_get_field_at, lemma_get_field_none, RawDocument, RawField, RawValue};

verus! {

/// The kind an entity belongs to.
pub open spec fn kind_of(e: Entity) -> EntityKind {
    match e {
        Entity::Client(_) => EntityKind::Client,
        Entity::Project(_) => EntityKind::Project,
        Entity::Task(_) => EntityKind::Task,
    }
}

/// The bytes of a canonical identifier string.
fn id_bytes(id: &String) -> (r: Vec<u8>)
    requires
        is_object_id_str(id@),
    ensures
        r@ == crate::oid::bytes_of_hex(id@),
        r@.len() == crate::oid::OBJECT_ID_BYTES,
{
    match parse_object_id(id.as_str()) {
        Ok(b) => b,
        Err(_) => unreached(),
    }
}

/// A canonical identifier is in particular a well-formed one.
proof fn lemma_canonical_is_id_str(s: Seq<char>)
    requires
        crate::oid::is_canonical_id(s),
    ensures
        is_object_id_str(s),
{
    assert forall|i: int| 0 <= i < s.len() implies crate::oid::is_hex_digit(#[trigger] s[i]) by {
        assert(crate::oid::is_lower_hex_digit(s[i]));
    }
}

/// Encode a well-formed client as a raw record; the record decodes back
/// to the same client.
pub fn encode_client(c: &Client) -> (doc: RawDocument)
    requires
        c.well_formed(),
    ensures
        doc.fields@.len() == 4,
        client_bad_field(doc) is None,
        client_of(doc, *c),
{
    proof {
        lemma_canonical_is_id_str(c.id@);
    }
    let mut fields: Vec<RawField> = Vec::new();
    fields.push(RawField { name: String::from_str("_id"), value: RawValue::Id(id_bytes(&c.id)) });
    fields.push(RawField { name: String::from_str("name"), value: RawValue::Text(c.name.clone()) });
    fields.push(
        RawField {
            name: String::from_str("created_at"),
            value: RawValue::Timestamp(c.created_ms),
        },
    );
    fields.push(
        RawField {
            name: String::from_str("updated_at"),
            value: RawValue::Timestamp(c.updated_ms),
        },
    );
    let doc = RawDocument { fields };
    proof {
        reveal_strlit("_id");
        reveal_strlit("name");
        reveal_strlit("created_at");
        reveal_strlit("updated_at");
        assert("_id"@ != "name"@) by {
            assert("_id"@.len() == 3);
            assert("name"@.len() == 4);
        }
        assert("_id"@ != "created_at"@) by {
            assert("_id"@.len() == 3);
            assert("created_at"@.len() == 10);
        }
        assert("_id"@ != "updated_at"@) by {
            assert("_id"@.len() == 3);
            assert("updated_at"@.len() == 10);
        }
        assert("name"@ != "created_at"@) by {
            assert("name"@.len() == 4);
            assert("created_at"@.len() == 10);
        }
        assert("name"@ != "updated_at"@) by {
            assert("name"@.len() == 4);
            assert("updated_at"@.len() == 10);
        }
        assert("created_at"@ != "updated_at"@) by {
            assert("created_at"@[0] == 'c');
            assert("updated_at"@[0] == 'u');
        }
        let fs = doc.fields@;
        lemma_get_field_at(fs, "_id"@, 0);
        lemma_get_field_at(fs, "name"@, 1);
        lemma_get_field_at(fs, "created_at"@, 2);
        lemma_get_field_at(fs, "updated_at"@, 3);
        lemma_hex_roundtrip(c.id@);
    }
    doc
}

/// Encode a well-formed project as a raw record; the record decodes back
/// to the same project.
pub fn encode_project(p: &Project) -> (doc: RawDocument)
    requires
        p.well_formed(),
    ensures
        doc.fields@.len() == 8,
        project_bad_field(doc) is None,
        project_of(doc, *p),
{
    proof {
        lemma_canonical_is_id_str(p.id@);
        lemma_canonical_is_id_str(p.client_id@);
    }
    let mut fields: Vec<RawField> = Vec::new();
    fields.push(RawField { name: String::from_str("_id"), value: RawValue::Id(id_bytes(&p.id)) });
    fields.push(RawField { name: String::from_str("name"), value: RawValue::Text(p.name.clone()) });
    fields.push(
        RawField { name: String::from_str("color"), value: RawValue::Text(p.color.clone()) },
    );
    fields.push(
        RawField { name: String::from_str("estimate"), value: RawValue::Text(p.estimate.clone()) },
    );
    fields.push(
        RawField { name: String::from_str("status"), value: RawValue::Text(p.status.clone()) },
    );
    fields.push(
        RawField { name: String::from_str("client"), value: RawValue::Id(id_bytes(&p.client_id)) },
    );
    fields.push(
        RawField {
            name: String::from_str("created_at"),
            value: RawValue::Timestamp(p.created_ms),
        },
    );
    fields.push(
        RawField {
            name: String::from_str("updated_at"),
            value: RawValue::Timestamp(p.updated_ms),
        },
    );
    let doc = RawDocument { fields };
    proof {
        reveal_strlit("_id");
        reveal_strlit("name");
        reveal_strlit("color");
        reveal_strlit("estimate");
        reveal_strlit("status");
        reveal_strlit("client");
        reveal_strlit("created_at");
        reveal_strlit("updated_at");
        assert("_id"@ != "name"@) by {
            assert("_id"@.len() == 3);
            assert("name"@.len() == 4);
        }
        assert("_id"@ != "color"@) by {
            assert("_id"@.len() == 3);
            assert("color"@.len() == 5);
        }
        assert("_id"@ != "estimate"@) by {
            assert("_id"@.len() == 3);
            assert("estimate"@.len() == 8);
        }
        assert("_id"@ != "status"@) by {
            assert("_id"@.len() == 3);
            assert("status"@.len() == 6);
        }
        assert("_id"@ != "client"@) by {
            assert("_id"@.len() == 3);
            assert("client"@.len() == 6);
        }
        assert("_id"@ != "created_at"@) by {
            assert("_id"@.len() == 3);
            assert("created_at"@.len() == 10);
        }
        assert("_id"@ != "updated_at"@) by {
            assert("_id"@.len() == 3);
            assert("updated_at"@.len() == 10);
        }
        assert("name"@ != "color"@) by {
            assert("name"@.len() == 4);
            assert("color"@.len() == 5);
        }
        assert("name"@ != "estimate"@) by {
            assert("name"@.len() == 4);
            assert("estimate"@.len() == 8);
        }
        assert("name"@ != "status"@) by {
            assert("name"@.len() == 4);
            assert("status"@.len() == 6);
        }
        assert("name"@ != "client"@) by {
            assert("name"@.len() == 4);
            assert("client"@.len() == 6);
        }
        assert("name"@ != "created_at"@) by {
            assert("name"@.len() == 4);
            assert("created_at"@.len() == 10);
        }
        assert("name"@ != "updated_at"@) by {
            assert("name"@.len() == 4);
            assert("updated_at"@.len() == 10);
        }
        assert("color"@ != "estimate"@) by {
            assert("color"@.len() == 5);
            assert("estimate"@.len() == 8);
        }
        assert("color"@ != "status"@) by {
            assert("color"@.len() == 5);
            assert("status"@.len() == 6);
        }
        assert("color"@ != "client"@) by {
            assert("color"@.len() == 5);
            assert("client"@.len() == 6);
        }
        assert("color"@ != "created_at"@) by {
            assert("color"@.len() == 5);
            assert("created_at"@.len() == 10);
        }
        assert("color"@ != "updated_at"@) by {
            assert("color"@.len() == 5);
            assert("updated_at"@.len() == 10);
        }
        assert("estimate"@ != "status"@) by {
            assert("estimate"@.len() == 8);
            assert("status"@.len() == 6);
        }
        assert("estimate"@ != "client"@) by {
            assert("estimate"@.len() == 8);
            assert("client"@.len() == 6);
        }
        assert("estimate"@ != "created_at"@) by {
            assert("estimate"@.len() == 8);
            assert("created_at"@.len() == 10);
        }
        assert("estimate"@ != "updated_at"@) by {
            assert("estimate"@.len() == 8);
            assert("updated_at"@.len() == 10);
        }
        assert("status"@ != "client"@) by {
            assert("status"@[0] == 's');
            assert("client"@[0] == 'c');
        }
        assert("status"@ != "created_at"@) by {
            assert("status"@.len() == 6);
            assert("created_at"@.len() == 10);
        }
        assert("status"@ != "updated_at"@) by {
            assert("status"@.len() == 6);
            assert("updated_at"@.len() == 10);
        }
        assert("client"@ != "created_at"@) by {
            assert("client"@.len() == 6);
            assert("created_at"@.len() == 10);
        }
        assert("client"@ != "updated_at"@) by {
            assert("client"@.len() == 6);
            assert("updated_at"@.len() == 10);
        }
        assert("created_at"@ != "updated_at"@) by {
            assert("created_at"@[0] == 'c');
            assert("updated_at"@[0] == 'u');
        }
        let fs = doc.fields@;
        lemma_get_field_at(fs, "_id"@, 0);
        lemma_get_field_at(fs, "name"@, 1);
        lemma_get_field_at(fs, "color"@, 2);
        lemma_get_field_at(fs, "estimate"@, 3);
        lemma_get_field_at(fs, "status"@, 4);
        lemma_get_field_at(fs, "client"@, 5);
        lemma_get_field_at(fs, "created_at"@, 6);
        lemma_get_field_at(fs, "updated_at"@, 7);
        lemma_hex_roundtrip(p.id@);
        lemma_hex_roundtrip(p.client_id@);
    }
    doc
}

/// Encode a well-formed task as a raw record; the record decodes back to
/// the same task.  A task without a project reference gets no `project`
/// field at all, mirroring how such tasks are stored.
pub fn encode_task(t: &Task) -> (doc: RawDocument)
    requires
        t.well_formed(),
    ensures
        t.project_id is Some ==> doc.fields@.len() == 7,
        t.project_id is None ==> doc.fields@.len() == 6,
        task_bad_field(doc) is None,
        task_of(doc, *t),
{
    proof {
        lemma_canonical_is_id_str(t.id@);
    }
    let mut fields: Vec<RawField> = Vec::new();
    fields.push(RawField { name: String::from_str("_id"), value: RawValue::Id(id_bytes(&t.id)) });
    fields.push(RawField { name: String::from_str("name"), value: RawValue::Text(t.name.clone()) });
    fields.push(
        RawField {
            name: String::from_str("initial_time"),
            value: RawValue::Timestamp(t.initial_ms),
        },
    );
    fields.push(
        RawField { name: String::from_str("end_time"), value: RawValue::Timestamp(t.end_ms) },
    );
    match &t.project_id {
        Some(p) => {
            proof {
                lemma_canonical_is_id_str(t.project_id.unwrap()@);
            }
            fields.push(
                RawField { name: String::from_str("project"), value: RawValue::Id(id_bytes(p)) },
            );
        },
        None => {},
    }
    fields.push(
        RawField {
            name: String::from_str("created_at"),
            value: RawValue::Timestamp(t.created_ms),
        },
    );
    fields.push(
        RawField {
            name: String::from_str("updated_at"),
            value: RawValue::Timestamp(t.updated_ms),
        },
    );
    let doc = RawDocument { fields };
    proof {
        reveal_strlit("_id");
        reveal_strlit("name");
        reveal_strlit("initial_time");
        reveal_strlit("end_time");
        reveal_strlit("project");
        reveal_strlit("created_at");
        reveal_strlit("updated_at");
        assert("_id"@ != "name"@) by {
            assert("_id"@.len() == 3);
            assert("name"@.len() == 4);
        }
        assert("_id"@ != "initial_time"@) by {
            assert("_id"@.len() == 3);
            assert("initial_time"@.len() == 12);
        }
        assert("_id"@ != "end_time"@) by {
            assert("_id"@.len() == 3);
            assert("end_time"@.len() == 8);
        }
        assert("_id"@ != "project"@) by {
            assert("_id"@.len() == 3);
            assert("project"@.len() == 7);
        }
        assert("_id"@ != "created_at"@) by {
            assert("_id"@.len() == 3);
            assert("created_at"@.len() == 10);
        }
        assert("_id"@ != "updated_at"@) by {
            assert("_id"@.len() == 3);
            assert("updated_at"@.len() == 10);
        }
        assert("name"@ != "initial_time"@) by {
            assert("name"@.len() == 4);
            assert("initial_time"@.len() == 12);
        }
        assert("name"@ != "end_time"@) by {
            assert("name"@.len() == 4);
            assert("end_time"@.len() == 8);
        }
        assert("name"@ != "project"@) by {
            assert("name"@.len() == 4);
            assert("project"@.len() == 7);
        }
        assert("name"@ != "created_at"@) by {
            assert("name"@.len() == 4);
            assert("created_at"@.len() == 10);
        }
        assert("name"@ != "updated_at"@) by {
            assert("name"@.len() == 4);
            assert("updated_at"@.len() == 10);
        }
        assert("initial_time"@ != "end_time"@) by {
            assert("initial_time"@.len() == 12);
            assert("end_time"@.len() == 8);
        }
        assert("initial_time"@ != "project"@) by {
            assert("initial_time"@.len() == 12);
            assert("project"@.len() == 7);
        }
        assert("initial_time"@ != "created_at"@) by {
            assert("initial_time"@.len() == 12);
            assert("created_at"@.len() == 10);
        }
        assert("initial_time"@ != "updated_at"@) by {
            assert("initial_time"@.len() == 12);
            assert("updated_at"@.len() == 10);
        }
        assert("end_time"@ != "project"@) by {
            assert("end_time"@.len() == 8);
            assert("project"@.len() == 7);
        }
        assert("end_time"@ != "created_at"@) by {
            assert("end_time"@.len() == 8);
            assert("created_at"@.len() == 10);
        }
        assert("end_time"@ != "updated_at"@) by {
            assert("end_time"@.len() == 8);
            assert("updated_at"@.len() == 10);
        }
        assert("project"@ != "created_at"@) by {
            assert("project"@.len() == 7);
            assert("created_at"@.len() == 10);
        }
        assert("project"@ != "updated_at"@) by {
            assert("project"@.len() == 7);
            assert("updated_at"@.len() == 10);
        }
        assert("created_at"@ != "updated_at"@) by {
            assert("created_at"@[0] == 'c');
            assert("updated_at"@[0] == 'u');
        }
        let fs = doc.fields@;
        lemma_get_field_at(fs, "_id"@, 0);
        lemma_get_field_at(fs, "name"@, 1);
        lemma_get_field_at(fs, "initial_time"@, 2);
        lemma_get_field_at(fs, "end_time"@, 3);
        if t.project_id is Some {
            lemma_get_field_at(fs, "project"@, 4);
            lemma_get_field_at(fs, "created_at"@, 5);
            lemma_get_field_at(fs, "updated_at"@, 6);
            lemma_hex_roundtrip(t.project_id.unwrap()@);
        } else {
            lemma_get_field_none(fs, "project"@);
            lemma_get_field_at(fs, "created_at"@, 4);
            lemma_get_field_at(fs, "updated_at"@, 5);
        }
        lemma_hex_roundtrip(t.id@);
    }
    doc
}

/// Encode a well-formed entity as a raw record; the record decodes back,
/// as its own kind, to the same entity.
pub fn encode(e: &Entity) -> (doc: RawDocument)
    requires
        e.well_formed(),
    ensures
        entity_bad_field(doc, kind_of(*e)) is None,
        entity_of(doc, kind_of(*e), *e),
{
    match e {
        Entity::Client(c) => encode_client(c),
        Entity::Project(p) => encode_project(p),
        Entity::Task(t) => encode_task(t),
    }
}

} // verus!
