//! The decoder: raw records to typed entities, and back.
//!
//! Decoding extracts each required field by name with its expected
//! semantic type.  The first field that is absent or wrongly typed aborts
//! the whole decode with an error naming that field and the entity kind:
//! an entity is never partially populated.  Identifier fields are
//! normalized to their canonical hexadecimal form and timestamps into the
//! four-digit-year era; nothing else is altered.
//!
//! Encoding is the decoder's inverse on well-formed entities: the record
//! it builds decodes back to the entity it was built from.

use vstd::prelude::*;

use crate::entity::{Client, Entity, Project, Task};
use crate::error::{EntityKind, Error};
use crate::oid::{
    bytes_of_hex, hex_of_bytes, is_canonical_id, is_object_id_str, lemma_hex_roundtrip,
    object_id_hex, parse_object_id, OBJECT_ID_BYTES,
};
use crate::raw::{lemma_get_field_at, lemma_get_field_none, RawDocument, RawField, RawValue};
use crate::timefmt::{clamp_ms, clamp_timestamp, ts_in_range};

verus! {

/// The bytes of an identifier field, when the field holds one.
pub open spec fn field_id(doc: RawDocument, key: Seq<char>) -> Option<Seq<u8>> {
    match doc.spec_get(key) {
        Some(RawValue::Id(b)) => if b@.len() == OBJECT_ID_BYTES {
            Some(b@)
        } else {
            None
        },
        _ => None,
    }
}

/// The characters of a string field, when the field holds one.
pub open spec fn field_text(doc: RawDocument, key: Seq<char>) -> Option<Seq<char>> {
    match doc.spec_get(key) {
        Some(RawValue::Text(s)) => Some(s@),
        _ => None,
    }
}

/// The milliseconds of a timestamp field, when the field holds one.
pub open spec fn field_ts(doc: RawDocument, key: Seq<char>) -> Option<int> {
    match doc.spec_get(key) {
        Some(RawValue::Timestamp(t)) => Some(t as int),
        _ => None,
    }
}

/// An optional identifier field: absent, or holding an identifier.
pub open spec fn opt_id_field_ok(doc: RawDocument, key: Seq<char>) -> bool {
    doc.spec_get(key) is None || field_id(doc, key) is Some
}

/// What a decode error for `field` of a `kind` record looks like.
pub open spec fn decode_err_for(e: Error, field: Seq<char>, kind: EntityKind) -> bool {
    e matches Error::DecodeFailed(n, k) && n@ == field && k == kind
}

/// Extract an identifier field in canonical hexadecimal form.
pub(crate) fn get_id_hex(doc: &RawDocument, key: &str, kind: EntityKind) -> (r: Result<String, Error>)
    ensures
        r is Ok <==> field_id(*doc, key@) is Some,
        r matches Ok(s) ==> field_id(*doc, key@) matches Some(b) && s@ == hex_of_bytes(b)
            && is_canonical_id(s@),
        r matches Err(e) ==> decode_err_for(e, key@, kind),
{
    match doc.get(key) {
        Some(v) => match v {
            RawValue::Id(b) => {
                if b.len() == OBJECT_ID_BYTES {
                    Ok(object_id_hex(b))
                } else {
                    Err(Error::DecodeFailed(key.to_owned(), kind))
                }
            },
            _ => Err(Error::DecodeFailed(key.to_owned(), kind)),
        },
        None => Err(Error::DecodeFailed(key.to_owned(), kind)),
    }
}

/// Extract a string field.
pub(crate) fn get_text(doc: &RawDocument, key: &str, kind: EntityKind) -> (r: Result<String, Error>)
    ensures
        r is Ok <==> field_text(*doc, key@) is Some,
        r matches Ok(s) ==> field_text(*doc, key@) matches Some(t) && s@ == t,
        r matches Err(e) ==> decode_err_for(e, key@, kind),
{
    match doc.get(key) {
        Some(v) => match v {
            RawValue::Text(s) => Ok(s.clone()),
            _ => Err(Error::DecodeFailed(key.to_owned(), kind)),
        },
        None => Err(Error::DecodeFailed(key.to_owned(), kind)),
    }
}

/// Extract a timestamp field, normalized.
pub(crate) fn get_ts(doc: &RawDocument, key: &str, kind: EntityKind) -> (r: Result<i64, Error>)
    ensures
        r is Ok <==> field_ts(*doc, key@) is Some,
        r matches Ok(v) ==> field_ts(*doc, key@) matches Some(t) && v as int == clamp_ms(t)
            && ts_in_range(v as int),
        r matches Err(e) ==> decode_err_for(e, key@, kind),
{
    match doc.get(key) {
        Some(v) => match v {
            RawValue::Timestamp(t) => Ok(clamp_timestamp(*t)),
            _ => Err(Error::DecodeFailed(key.to_owned(), kind)),
        },
        None => Err(Error::DecodeFailed(key.to_owned(), kind)),
    }
}

/// Extract an optional identifier field in canonical hexadecimal form.
///
/// An absent field is a legitimate `None`; a present field that is not an
/// identifier is an error.
fn get_opt_id_hex(doc: &RawDocument, key: &str, kind: EntityKind) -> (r: Result<
    Option<String>,
    Error,
>)
    ensures
        r is Ok <==> opt_id_field_ok(*doc, key@),
        r matches Ok(p) ==> match p {
            Some(s) => field_id(*doc, key@) matches Some(b) && s@ == hex_of_bytes(b)
                && is_canonical_id(s@),
            None => doc.spec_get(key@) is None,
        },
        r matches Err(e) ==> decode_err_for(e, key@, kind),
{
    match doc.get(key) {
        Some(v) => match v {
            RawValue::Id(b) => {
                if b.len() == OBJECT_ID_BYTES {
                    Ok(Some(object_id_hex(b)))
                } else {
                    Err(Error::DecodeFailed(key.to_owned(), kind))
                }
            },
            _ => Err(Error::DecodeFailed(key.to_owned(), kind)),
        },
        None => Ok(None),
    }
}

/// The first absent or wrongly-typed required field of a client record.
pub open spec fn client_bad_field(doc: RawDocument) -> Option<Seq<char>> {
    if field_id(doc, "_id"@) is None {
        Some("_id"@)
    } else if field_text(doc, "name"@) is None {
        Some("name"@)
    } else if field_ts(doc, "created_at"@) is None {
        Some("created_at"@)
    } else if field_ts(doc, "updated_at"@) is None {
        Some("updated_at"@)
    } else {
        None
    }
}

/// The client a record decodes to: every field echoed after normalization.
pub open spec fn client_of(doc: RawDocument, c: Client) -> bool {
    &&& client_bad_field(doc) is None
    &&& c.id@ == hex_of_bytes(field_id(doc, "_id"@).unwrap())
    &&& c.name@ == field_text(doc, "name"@).unwrap()
    &&& c.created_ms as int == clamp_ms(field_ts(doc, "created_at"@).unwrap())
    &&& c.updated_ms as int == clamp_ms(field_ts(doc, "updated_at"@).unwrap())
}

/// Decode a raw record into a client.
pub fn decode_client(doc: &RawDocument) -> (r: Result<Client, Error>)
    ensures
        r matches Ok(c) ==> client_bad_field(*doc) is None && client_of(*doc, c)
            && c.well_formed(),
        r matches Err(e) ==> client_bad_field(*doc) matches Some(f) && decode_err_for(
            e,
            f,
            EntityKind::Client,
        ),
{
    let id = match get_id_hex(doc, "_id", EntityKind::Client) {
        Ok(v) => v,
        Err(e) => {
            return Err(e);
        },
    };
    let name = match get_text(doc, "name", EntityKind::Client) {
        Ok(v) => v,
        Err(e) => {
            return Err(e);
        },
    };
    let created_ms = match get_ts(doc, "created_at", EntityKind::Client) {
        Ok(v) => v,
        Err(e) => {
            return Err(e);
        },
    };
    let updated_ms = match get_ts(doc, "updated_at", EntityKind::Client) {
        Ok(v) => v,
        Err(e) => {
            return Err(e);
        },
    };
    Ok(Client { id, name, created_ms, updated_ms })
}

/// The first absent or wrongly-typed required field of a project record.
pub open spec fn project_bad_field(doc: RawDocument) -> Option<Seq<char>> {
    if field_id(doc, "_id"@) is None {
        Some("_id"@)
    } else if field_text(doc, "name"@) is None {
        Some("name"@)
    } else if field_text(doc, "color"@) is None {
        Some("color"@)
    } else if field_text(doc, "estimate"@) is None {
        Some("estimate"@)
    } else if field_text(doc, "status"@) is None {
        Some("status"@)
    } else if field_id(doc, "client"@) is None {
        Some("client"@)
    } else if field_ts(doc, "created_at"@) is None {
        Some("created_at"@)
    } else if field_ts(doc, "updated_at"@) is None {
        Some("updated_at"@)
    } else {
        None
    }
}

/// The project a record decodes to: every field echoed after normalization.
pub open spec fn project_of(doc: RawDocument, p: Project) -> bool {
    &&& project_bad_field(doc) is None
    &&& p.id@ == hex_of_bytes(field_id(doc, "_id"@).unwrap())
    &&& p.name@ == field_text(doc, "name"@).unwrap()
    &&& p.color@ == field_text(doc, "color"@).unwrap()
    &&& p.estimate@ == field_text(doc, "estimate"@).unwrap()
    &&& p.status@ == field_text(doc, "status"@).unwrap()
    &&& p.client_id@ == hex_of_bytes(field_id(doc, "client"@).unwrap())
    &&& p.created_ms as int == clamp_ms(field_ts(doc, "created_at"@).unwrap())
    &&& p.updated_ms as int == clamp_ms(field_ts(doc, "updated_at"@).unwrap())
}

/// Decode a raw record into a project.
pub fn decode_project(doc: &RawDocument) -> (r: Result<Project, Error>)
    ensures
        r matches Ok(p) ==> project_bad_field(*doc) is None && project_of(*doc, p)
            && p.well_formed(),
        r matches Err(e) ==> project_bad_field(*doc) matches Some(f) && decode_err_for(
            e,
            f,
            EntityKind::Project,
        ),
{
    let id = match get_id_hex(doc, "_id", EntityKind::Project) {
        Ok(v) => v,
        Err(e) => {
            return Err(e);
        },
    };
    let name = match get_text(doc, "name", EntityKind::Project) {
        Ok(v) => v,
        Err(e) => {
            return Err(e);
        },
    };
    let color = match get_text(doc, "color", EntityKind::Project) {
        Ok(v) => v,
        Err(e) => {
            return Err(e);
        },
    };
    let estimate = match get_text(doc, "estimate", EntityKind::Project) {
        Ok(v) => v,
        Err(e) => {
            return Err(e);
        },
    };
    let status = match get_text(doc, "status", EntityKind::Project) {
        Ok(v) => v,
        Err(e) => {
            return Err(e);
        },
    };
    let client_id = match get_id_hex(doc, "client", EntityKind::Project) {
        Ok(v) => v,
        Err(e) => {
            return Err(e);
        },
    };
    let created_ms = match get_ts(doc, "created_at", EntityKind::Project) {
        Ok(v) => v,
        Err(e) => {
            return Err(e);
        },
    };
    let updated_ms = match get_ts(doc, "updated_at", EntityKind::Project) {
        Ok(v) => v,
        Err(e) => {
            return Err(e);
        },
    };
    Ok(Project { id, name, color, estimate, status, client_id, created_ms, updated_ms })
}

/// The first absent or wrongly-typed field of a task record.
///
/// The project reference is optional: absence is legitimate, but a present
/// field must hold an identifier.
pub open spec fn task_bad_field(doc: RawDocument) -> Option<Seq<char>> {
    if field_id(doc, "_id"@) is None {
        Some("_id"@)
    } else if field_text(doc, "name"@) is None {
        Some("name"@)
    } else if field_ts(doc, "initial_time"@) is None {
        Some("initial_time"@)
    } else if field_ts(doc, "end_time"@) is None {
        Some("end_time"@)
    } else if !opt_id_field_ok(doc, "project"@) {
        Some("project"@)
    } else if field_ts(doc, "created_at"@) is None {
        Some("created_at"@)
    } else if field_ts(doc, "updated_at"@) is None {
        Some("updated_at"@)
    } else {
        None
    }
}

/// The task a record decodes to: every field echoed after normalization.
pub open spec fn task_of(doc: RawDocument, t: Task) -> bool {
    &&& task_bad_field(doc) is None
    &&& t.id@ == hex_of_bytes(field_id(doc, "_id"@).unwrap())
    &&& t.name@ == field_text(doc, "name"@).unwrap()
    &&& t.initial_ms as int == clamp_ms(field_ts(doc, "initial_time"@).unwrap())
    &&& t.end_ms as int == clamp_ms(field_ts(doc, "end_time"@).unwrap())
    &&& match t.project_id {
        Some(p) => field_id(doc, "project"@) matches Some(b) && p@ == hex_of_bytes(b),
        None => doc.spec_get("project"@) is None,
    }
    &&& t.created_ms as int == clamp_ms(field_ts(doc, "created_at"@).unwrap())
    &&& t.updated_ms as int == clamp_ms(field_ts(doc, "updated_at"@).unwrap())
}

/// Decode a raw record into a task.
pub fn decode_task(doc: &RawDocument) -> (r: Result<Task, Error>)
    ensures
        r matches Ok(t) ==> task_bad_field(*doc) is None && task_of(*doc, t) && t.well_formed(),
        r matches Err(e) ==> task_bad_field(*doc) matches Some(f) && decode_err_for(
            e,
            f,
            EntityKind::Task,
        ),
{
    let id = match get_id_hex(doc, "_id", EntityKind::Task) {
        Ok(v) => v,
        Err(e) => {
            return Err(e);
        },
    };
    let name = match get_text(doc, "name", EntityKind::Task) {
        Ok(v) => v,
        Err(e) => {
            return Err(e);
        },
    };
    let initial_ms = match get_ts(doc, "initial_time", EntityKind::Task) {
        Ok(v) => v,
        Err(e) => {
            return Err(e);
        },
    };
    let end_ms = match get_ts(doc, "end_time", EntityKind::Task) {
        Ok(v) => v,
        Err(e) => {
            return Err(e);
        },
    };
    let project_id = match get_opt_id_hex(doc, "project", EntityKind::Task) {
        Ok(v) => v,
        Err(e) => {
            return Err(e);
        },
    };
    let created_ms = match get_ts(doc, "created_at", EntityKind::Task) {
        Ok(v) => v,
        Err(e) => {
            return Err(e);
        },
    };
    let updated_ms = match get_ts(doc, "updated_at", EntityKind::Task) {
        Ok(v) => v,
        Err(e) => {
            return Err(e);
        },
    };
    Ok(Task { id, name, initial_ms, end_ms, project_id, created_ms, updated_ms })
}

/// The first bad field of a record, read as the given kind.
pub open spec fn entity_bad_field(doc: RawDocument, kind: EntityKind) -> Option<Seq<char>> {
    match kind {
        EntityKind::Client => client_bad_field(doc),
        EntityKind::Project => project_bad_field(doc),
        EntityKind::Task => task_bad_field(doc),
    }
}

/// The entity of the given kind a record decodes to.
pub open spec fn entity_of(doc: RawDocument, kind: EntityKind, e: Entity) -> bool {
    match kind {
        EntityKind::Client => e matches Entity::Client(c) && client_of(doc, c),
        EntityKind::Project => e matches Entity::Project(p) && project_of(doc, p),
        EntityKind::Task => e matches Entity::Task(t) && task_of(doc, t),
    }
}

/// Decode a raw record into an entity of the given kind.
///
/// Succeeds exactly when every required field is present with its expected
/// type; otherwise fails naming the first bad field and the kind, with no
/// partial entity returned.
pub fn decode(doc: &RawDocument, kind: EntityKind) -> (r: Result<Entity, Error>)
    ensures
        r matches Ok(e) ==> entity_bad_field(*doc, kind) is None && entity_of(*doc, kind, e)
            && e.well_formed(),
        r matches Err(e) ==> entity_bad_field(*doc, kind) matches Some(f) && decode_err_for(
            e,
            f,
            kind,
        ),
{
    match kind {
        EntityKind::Client => match decode_client(doc) {
            Ok(c) => Ok(Entity::Client(c)),
            Err(e) => Err(e),
        },
        EntityKind::Project => match decode_project(doc) {
            Ok(p) => Ok(Entity::Project(p)),
            Err(e) => Err(e),
        },
        EntityKind::Task => match decode_task(doc) {
            Ok(t) => Ok(Entity::Task(t)),
            Err(e) => Err(e),
        },
    }
}

/// A record decodes to one client only, up to the contents of its strings.
pub proof fn lemma_client_decode_deterministic(doc: RawDocument, a: Client, b: Client)
    requires
        client_of(doc, a),
        client_of(doc, b),
    ensures
        a.id@ == b.id@,
        a.name@ == b.name@,
        a.created_ms == b.created_ms,
        a.updated_ms == b.updated_ms,
{
}

/// A record decodes to one project only, up to the contents of its strings.
pub proof fn lemma_project_decode_deterministic(doc: RawDocument, a: Project, b: Project)
    requires
        project_of(doc, a),
        project_of(doc, b),
    ensures
        a.id@ == b.id@,
        a.name@ == b.name@,
        a.color@ == b.color@,
        a.estimate@ == b.estimate@,
        a.status@ == b.status@,
        a.client_id@ == b.client_id@,
        a.created_ms == b.created_ms,
        a.updated_ms == b.updated_ms,
{
}

/// A record decodes to one task only, up to the contents of its strings.
pub proof fn lemma_task_decode_deterministic(doc: RawDocument, a: Task, b: Task)
    requires
        task_of(doc, a),
        task_of(doc, b),
    ensures
        a.id@ == b.id@,
        a.name@ == b.name@,
        a.initial_ms == b.initial_ms,
        a.end_ms == b.end_ms,
        a.project_id is Some <==> b.project_id is Some,
        a.project_id matches Some(p) ==> b.project_id matches Some(q) && p@ == q@,
        a.created_ms == b.created_ms,
        a.updated_ms == b.updated_ms,
{
}


/// A record decodes, as a given kind, to one entity only, up to the
/// contents of its strings.  Together with the encoder's contract — the
/// record built from a well-formed entity decodes back to it — this is
/// the decode-encode round trip: whatever `decode` returns for that
/// record is that entity, field for field.
pub proof fn lemma_entity_decode_deterministic(
    doc: RawDocument,
    kind: EntityKind,
    a: Entity,
    b: Entity,
)
    requires
        entity_of(doc, kind, a),
        entity_of(doc, kind, b),
    ensures
        match (a, b) {
            (Entity::Client(x), Entity::Client(y)) => x.id@ == y.id@ && x.name@ == y.name@
                && x.created_ms == y.created_ms && x.updated_ms == y.updated_ms,
            (Entity::Project(x), Entity::Project(y)) => x.id@ == y.id@ && x.name@ == y.name@
                && x.color@ == y.color@ && x.estimate@ == y.estimate@ && x.status@ == y.status@
                && x.client_id@ == y.client_id@ && x.created_ms == y.created_ms && x.updated_ms
                == y.updated_ms,
            (Entity::Task(x), Entity::Task(y)) => x.id@ == y.id@ && x.name@ == y.name@
                && x.initial_ms == y.initial_ms && x.end_ms == y.end_ms && (x.project_id is Some
                <==> y.project_id is Some) && x.created_ms == y.created_ms && x.updated_ms
                == y.updated_ms,
            _ => false,
        },
{
}

} // verus!
