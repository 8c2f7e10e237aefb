//! The relational joiner.
//!
//! A join is described by a spec — a source collection and a sequence of
//! foreign-key steps — that the store executes server-side as a single
//! pipeline; join cost must not scale with round-trips.  Each step has
//! left-outer semantics: an unmatched foreign row yields an empty list in
//! the output field, never an error.
//!
//! The records streaming back are flattened here: each join step's first
//! (and only expected) match supplies the resolved names, and a missing
//! match degrades those fields to absent.  Should a step ever match more
//! than once — a data-integrity anomaly — the first match is taken
//! deterministically rather than raising an error.

use vstd::prelude::*;

use crate::decode::{
    decode_err_for, field_id, field_text, field_ts, get_id_hex, get_text, get_ts,
};
use crate::error::{EntityKind, Error};
use crate::oid::hex_of_bytes;
use crate::raw::{RawDocument, RawValue};
use crate::timefmt::{clamp_ms, rfc3339_of, ts_in_range};

verus! {

/// One foreign-key lookup stage of a server-side join.
#[derive(Debug)]
pub struct JoinStep {
    /// The field of the source record holding the foreign key.
    pub local_field: String,
    /// The collection the key points into.
    pub foreign_collection: String,
    /// The field of the foreign record the key must equal.
    pub foreign_field: String,
    /// The field of the output record receiving the list of matches.
    pub output_field: String,
}

/// A server-side join: a source collection and its lookup stages.
#[derive(Debug)]
pub struct JoinSpec {
    pub source: String,
    pub steps: Vec<JoinStep>,
}

impl JoinStep {
    /// Validity at construction: no stage name is empty.
    pub open spec fn wf(self) -> bool {
        &&& self.local_field@.len() > 0
        &&& self.foreign_collection@.len() > 0
        &&& self.foreign_field@.len() > 0
        &&& self.output_field@.len() > 0
    }
}

impl JoinSpec {
    /// Validity at construction: a named source and valid stages.
    pub open spec fn wf(self) -> bool {
        &&& self.source@.len() > 0
        &&& forall|i: int| 0 <= i < self.steps@.len() ==> (#[trigger] self.steps@[i]).wf()
    }
}

/// The two-hop join feeding the tasks-by-date view: each task picks up
/// its project's matches, then the project's client's matches.
pub fn tasks_join_spec() -> (s: JoinSpec)
    ensures
        s.wf(),
        s.source@ == "tasks"@,
        s.steps@.len() == 2,
        s.steps@[0].local_field@ == "project"@,
        s.steps@[0].foreign_collection@ == "projects"@,
        s.steps@[0].foreign_field@ == "_id"@,
        s.steps@[0].output_field@ == "project"@,
        s.steps@[1].local_field@ == "project.client"@,
        s.steps@[1].foreign_collection@ == "clients"@,
        s.steps@[1].foreign_field@ == "_id"@,
        s.steps@[1].output_field@ == "client"@,
{
    let mut steps: Vec<JoinStep> = Vec::new();
    steps.push(
        JoinStep {
            local_field: String::from_str("project"),
            foreign_collection: String::from_str("projects"),
            foreign_field: String::from_str("_id"),
            output_field: String::from_str("project"),
        },
    );
    steps.push(
        JoinStep {
            local_field: String::from_str("project.client"),
            foreign_collection: String::from_str("clients"),
            foreign_field: String::from_str("_id"),
            output_field: String::from_str("client"),
        },
    );
    proof {
        reveal_strlit("tasks");
        reveal_strlit("project");
        reveal_strlit("projects");
        reveal_strlit("_id");
        reveal_strlit("project.client");
        reveal_strlit("clients");
        reveal_strlit("client");
    }
    JoinSpec { source: String::from_str("tasks"), steps }
}

/// The one-hop join feeding the projects-by-client view: each project
/// picks up its client's matches.
pub fn projects_join_spec() -> (s: JoinSpec)
    ensures
        s.wf(),
        s.source@ == "projects"@,
        s.steps@.len() == 1,
        s.steps@[0].local_field@ == "client"@,
        s.steps@[0].foreign_collection@ == "clients"@,
        s.steps@[0].foreign_field@ == "_id"@,
        s.steps@[0].output_field@ == "clientName"@,
{
    let mut steps: Vec<JoinStep> = Vec::new();
    steps.push(
        JoinStep {
            local_field: String::from_str("client"),
            foreign_collection: String::from_str("clients"),
            foreign_field: String::from_str("_id"),
            output_field: String::from_str("clientName"),
        },
    );
    proof {
        reveal_strlit("projects");
        reveal_strlit("client");
        reveal_strlit("clients");
        reveal_strlit("_id");
        reveal_strlit("clientName");
    }
    JoinSpec { source: String::from_str("projects"), steps }
}

/// A flattened task as it appears inside a date group.
#[derive(Debug)]
pub struct TaskAfterGrouped {
    pub id: String,
    pub name: String,
    pub initial_time: String,
    pub end_time: String,
    /// Resolved project name; absent when the reference chain is broken.
    pub project: Option<String>,
    /// Resolved project color; absent when the reference chain is broken.
    pub project_color: Option<String>,
    /// Resolved client name; absent when the reference chain is broken.
    pub client: Option<String>,
}

impl Clone for TaskAfterGrouped {
    fn clone(&self) -> (r: Self)
        ensures
            r == *self,
    {
        TaskAfterGrouped {
            id: self.id.clone(),
            name: self.name.clone(),
            initial_time: self.initial_time.clone(),
            end_time: self.end_time.clone(),
            project: self.project.clone(),
            project_color: self.project_color.clone(),
            client: self.client.clone(),
        }
    }
}

/// A flattened task together with its normalized interval, which the
/// grouping engine derives the group key and the duration from.
#[derive(Debug)]
pub struct FlatTask {
    pub task: TaskAfterGrouped,
    pub start_ms: i64,
    pub end_ms: i64,
}

/// A flattened project as it appears inside a client group.
#[derive(Debug)]
pub struct ProjectSummary {
    pub id: String,
    pub name: String,
    pub color: String,
    pub estimate: String,
    pub status: String,
    pub updated_ms: i64,
    pub updated_at: String,
}

impl Clone for ProjectSummary {
    fn clone(&self) -> (r: Self)
        ensures
            r == *self,
    {
        ProjectSummary {
            id: self.id.clone(),
            name: self.name.clone(),
            color: self.color.clone(),
            estimate: self.estimate.clone(),
            status: self.status.clone(),
            updated_ms: self.updated_ms,
            updated_at: self.updated_at.clone(),
        }
    }
}

/// A flattened project together with its resolved client name, which the
/// grouping engine uses as the group key; absent when the reference does
/// not resolve.
#[derive(Debug)]
pub struct FlatProject {
    pub summary: ProjectSummary,
    pub client: Option<String>,
}

/// The contents of an optional string.
pub open spec fn opt_view(o: Option<String>) -> Option<Seq<char>> {
    match o {
        Some(s) => Some(s@),
        None => None,
    }
}

/// The name resolved by a join step: the `name_key` string of the first
/// match in the `arr_key` list, when there is one.
pub open spec fn joined_opt_name(
    doc: RawDocument,
    arr_key: Seq<char>,
    name_key: Seq<char>,
) -> Option<Seq<char>> {
    match doc.spec_get(arr_key) {
        Some(RawValue::Array(ds)) => if ds@.len() > 0 {
            field_text(ds@[0], name_key)
        } else {
            None
        },
        _ => None,
    }
}

/// The first absent or wrongly-typed required field of a joined task
/// record.  The joined `project` and `client` lists are not required:
/// their absence only degrades the resolved names.
pub open spec fn joined_task_bad_field(doc: RawDocument) -> Option<Seq<char>> {
    if field_id(doc, "_id"@) is None {
        Some("_id"@)
    } else if field_text(doc, "name"@) is None {
        Some("name"@)
    } else if field_ts(doc, "initial_time"@) is None {
        Some("initial_time"@)
    } else if field_ts(doc, "end_time"@) is None {
        Some("end_time"@)
    } else {
        None
    }
}

/// The flattened task a joined record yields: identifier and name echoed,
/// interval normalized and rendered, resolved names carried through.
pub open spec fn flat_task_of(doc: RawDocument, ft: FlatTask) -> bool {
    &&& joined_task_bad_field(doc) is None
    &&& ft.task.id@ == hex_of_bytes(field_id(doc, "_id"@).unwrap())
    &&& ft.task.name@ == field_text(doc, "name"@).unwrap()
    &&& ft.start_ms as int == clamp_ms(field_ts(doc, "initial_time"@).unwrap())
    &&& ft.end_ms as int == clamp_ms(field_ts(doc, "end_time"@).unwrap())
    &&& ft.task.initial_time@ == rfc3339_of(ft.start_ms as int)
    &&& ft.task.end_time@ == rfc3339_of(ft.end_ms as int)
    &&& opt_view(ft.task.project) == joined_opt_name(doc, "project"@, "name"@)
    &&& opt_view(ft.task.project_color) == joined_opt_name(doc, "project"@, "color"@)
    &&& opt_view(ft.task.client) == joined_opt_name(doc, "client"@, "name"@)
}

/// The interval of a flattened task is normalized.
pub open spec fn flat_task_wf(ft: FlatTask) -> bool {
    &&& ts_in_range(ft.start_ms as int)
    &&& ts_in_range(ft.end_ms as int)
}

/// The first absent or wrongly-typed required field of a joined project
/// record.  The joined `clientName` list is not required.
pub open spec fn joined_project_bad_field(doc: RawDocument) -> Option<Seq<char>> {
    if field_id(doc, "_id"@) is None {
        Some("_id"@)
    } else if field_text(doc, "name"@) is None {
        Some("name"@)
    } else if field_text(doc, "color"@) is None {
        Some("color"@)
    } else if field_text(doc, "estimate"@) is None {
        Some("estimate"@)
    } else if field_text(doc, "status"@) is None {
        Some("status"@)
    } else if field_ts(doc, "updated_at"@) is None {
        Some("updated_at"@)
    } else {
        None
    }
}

/// The flattened project a joined record yields.
pub open spec fn flat_project_of(doc: RawDocument, fp: FlatProject) -> bool {
    &&& joined_project_bad_field(doc) is None
    &&& fp.summary.id@ == hex_of_bytes(field_id(doc, "_id"@).unwrap())
    &&& fp.summary.name@ == field_text(doc, "name"@).unwrap()
    &&& fp.summary.color@ == field_text(doc, "color"@).unwrap()
    &&& fp.summary.estimate@ == field_text(doc, "estimate"@).unwrap()
    &&& fp.summary.status@ == field_text(doc, "status"@).unwrap()
    &&& fp.summary.updated_ms as int == clamp_ms(field_ts(doc, "updated_at"@).unwrap())
    &&& fp.summary.updated_at@ == rfc3339_of(fp.summary.updated_ms as int)
    &&& opt_view(fp.client) == joined_opt_name(doc, "clientName"@, "name"@)
}

/// The update stamp of a flattened project is normalized.
pub open spec fn flat_project_wf(fp: FlatProject) -> bool {
    ts_in_range(fp.summary.updated_ms as int)
}

/// The name resolved by a join step, extracted from a joined record.
fn get_join_name(doc: &RawDocument, arr_key: &str, name_key: &str) -> (r: Option<String>)
    ensures
        opt_view(r) == joined_opt_name(*doc, arr_key@, name_key@),
{
    match doc.get(arr_key) {
        Some(v) => match v {
            RawValue::Array(ds) => {
                if ds.len() > 0 {
                    let first = &ds[0];
                    match first.get(name_key) {
                        Some(w) => match w {
                            RawValue::Text(s) => Some(s.clone()),
                            _ => None,
                        },
                        None => None,
                    }
                } else {
                    None
                }
            },
            _ => None,
        },
        None => None,
    }
}

/// Flatten one joined task record.
///
/// A broken reference chain — no matching project or client — yields a
/// task whose resolved fields are absent, not a failure.  Only a missing
/// or wrongly-typed required field of the task itself fails, naming that
/// field; the caller isolates such a failure to this one record.
pub fn flatten_joined_task(doc: &RawDocument) -> (r: Result<FlatTask, Error>)
    ensures
        r is Ok <==> joined_task_bad_field(*doc) is None,
        r matches Ok(ft) ==> flat_task_of(*doc, ft) && flat_task_wf(ft),
        r matches Err(e) ==> joined_task_bad_field(*doc) matches Some(f) && decode_err_for(
            e,
            f,
            EntityKind::Task,
        ),
{
    let id = match get_id_hex(doc, "_id", EntityKind::Task) {
        Ok(v) => v,
        Err(e) => {
            return Err(e);
        },
    };
    let name = match get_text(doc, "name", EntityKind::Task) {
        Ok(v) => v,
        Err(e) => {
            return Err(e);
        },
    };
    let start_ms = match get_ts(doc, "initial_time", EntityKind::Task) {
        Ok(v) => v,
        Err(e) => {
            return Err(e);
        },
    };
    let end_ms = match get_ts(doc, "end_time", EntityKind::Task) {
        Ok(v) => v,
        Err(e) => {
            return Err(e);
        },
    };
    let task = TaskAfterGrouped {
        id,
        name,
        initial_time: crate::timefmt::format_rfc3339(start_ms),
        end_time: crate::timefmt::format_rfc3339(end_ms),
        project: get_join_name(doc, "project", "name"),
        project_color: get_join_name(doc, "project", "color"),
        client: get_join_name(doc, "client", "name"),
    };
    Ok(FlatTask { task, start_ms, end_ms })
}

/// Flatten one joined project record.
///
/// A client reference that does not resolve yields an absent client name,
/// not a failure; the grouping engine then files the project under the
/// sentinel group.
pub fn flatten_joined_project(doc: &RawDocument) -> (r: Result<FlatProject, Error>)
    ensures
        r is Ok <==> joined_project_bad_field(*doc) is None,
        r matches Ok(fp) ==> flat_project_of(*doc, fp) && flat_project_wf(fp),
        r matches Err(e) ==> joined_project_bad_field(*doc) matches Some(f) && decode_err_for(
            e,
            f,
            EntityKind::Project,
        ),
{
    let id = match get_id_hex(doc, "_id", EntityKind::Project) {
        Ok(v) => v,
        Err(e) => {
            return Err(e);
        },
    };
    let name = match get_text(doc, "name", EntityKind::Project) {
        Ok(v) => v,
        Err(e) => {
            return Err(e);
        },
    };
    let color = match get_text(doc, "color", EntityKind::Project) {
        Ok(v) => v,
        Err(e) => {
            return Err(e);
        },
    };
    let estimate = match get_text(doc, "estimate", EntityKind::Project) {
        Ok(v) => v,
        Err(e) => {
            return Err(e);
        },
    };
    let status = match get_text(doc, "status", EntityKind::Project) {
        Ok(v) => v,
        Err(e) => {
            return Err(e);
        },
    };
    let updated_ms = match get_ts(doc, "updated_at", EntityKind::Project) {
        Ok(v) => v,
        Err(e) => {
            return Err(e);
        },
    };
    let summary = ProjectSummary {
        id,
        name,
        color,
        estimate,
        status,
        updated_ms,
        updated_at: crate::timefmt::format_rfc3339(updated_ms),
    };
    Ok(FlatProject { summary, client: get_join_name(doc, "clientName", "name") })
}

} // verus!
