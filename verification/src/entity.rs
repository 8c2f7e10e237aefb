//! Typed domain entities, and their string-rendered response forms.
//!
//! An entity holds identifiers in canonical hexadecimal form and
//! timestamps as normalized millisecond counts; a response renders every
//! timestamp as an ISO-8601 UTC string with second precision, which is how
//! timestamps cross the boundary to callers.

use vstd::prelude::*;

use crate::oid::is_canonical_id;
use crate::timefmt::{format_rfc3339, rfc3339_of, ts_in_range};

verus! {

/// A client: owns projects, referenced by them.
#[derive(Debug)]
pub struct Client {
    pub id: String,
    pub name: String,
    pub created_ms: i64,
    pub updated_ms: i64,
}

/// A project: owned by a client, referenced by tasks.
#[derive(Debug)]
pub struct Project {
    pub id: String,
    pub name: String,
    pub color: String,
    pub estimate: String,
    pub status: String,
    pub client_id: String,
    pub created_ms: i64,
    pub updated_ms: i64,
}

/// A task: records a time interval, optionally under a project.
///
/// `end_ms` before `initial_ms` is a valid edge case and yields a negative
/// duration downstream; the core never rejects or clamps it.
#[derive(Debug)]
pub struct Task {
    pub id: String,
    pub name: String,
    pub initial_ms: i64,
    pub end_ms: i64,
    pub project_id: Option<String>,
    pub created_ms: i64,
    pub updated_ms: i64,
}

/// Any decoded entity.
#[derive(Debug)]
pub enum Entity {
    Client(Client),
    Project(Project),
    Task(Task),
}

impl Client {
    /// Identifiers canonical, timestamps normalized.
    pub open spec fn well_formed(self) -> bool {
        &&& is_canonical_id(self.id@)
        &&& ts_in_range(self.created_ms as int)
        &&& ts_in_range(self.updated_ms as int)
    }
}

impl Project {
    /// Identifiers canonical, timestamps normalized.
    pub open spec fn well_formed(self) -> bool {
        &&& is_canonical_id(self.id@)
        &&& is_canonical_id(self.client_id@)
        &&& ts_in_range(self.created_ms as int)
        &&& ts_in_range(self.updated_ms as int)
    }
}

impl Task {
    /// Identifiers canonical, timestamps normalized.
    pub open spec fn well_formed(self) -> bool {
        &&& is_canonical_id(self.id@)
        &&& match self.project_id {
            Some(p) => is_canonical_id(p@),
            None => true,
        }
        &&& ts_in_range(self.initial_ms as int)
        &&& ts_in_range(self.end_ms as int)
        &&& ts_in_range(self.created_ms as int)
        &&& ts_in_range(self.updated_ms as int)
    }
}

impl Entity {
    /// Identifiers canonical, timestamps normalized.
    pub open spec fn well_formed(self) -> bool {
        match self {
            Entity::Client(c) => c.well_formed(),
            Entity::Project(p) => p.well_formed(),
            Entity::Task(t) => t.well_formed(),
        }
    }
}

/// A client as handed to callers: timestamps rendered.
#[derive(Debug)]
pub struct ClientResponse {
    pub id: String,
    pub name: String,
    pub created_at: String,
    pub updated_at: String,
}

/// A project as handed to callers: timestamps rendered.
#[derive(Debug)]
pub struct ProjectResponse {
    pub id: String,
    pub name: String,
    pub color: String,
    pub estimate: String,
    pub status: String,
    pub client_id: String,
    pub created_at: String,
    pub updated_at: String,
}

/// A task as handed to callers: timestamps rendered.
#[derive(Debug)]
pub struct TaskResponse {
    pub id: String,
    pub name: String,
    pub initial_time: String,
    pub end_time: String,
    pub project: Option<String>,
    pub created_at: String,
    pub updated_at: String,
}

/// Render a client for a caller.
pub fn client_response(c: &Client) -> (r: ClientResponse)
    requires
        c.well_formed(),
    ensures
        r.id == c.id,
        r.name == c.name,
        r.created_at@ == rfc3339_of(c.created_ms as int),
        r.updated_at@ == rfc3339_of(c.updated_ms as int),
{
    ClientResponse {
        id: c.id.clone(),
        name: c.name.clone(),
        created_at: format_rfc3339(c.created_ms),
        updated_at: format_rfc3339(c.updated_ms),
    }
}

/// Render a project for a caller.
pub fn project_response(p: &Project) -> (r: ProjectResponse)
    requires
        p.well_formed(),
    ensures
        r.id == p.id,
        r.name == p.name,
        r.color == p.color,
        r.estimate == p.estimate,
        r.status == p.status,
        r.client_id == p.client_id,
        r.created_at@ == rfc3339_of(p.created_ms as int),
        r.updated_at@ == rfc3339_of(p.updated_ms as int),
{
    ProjectResponse {
        id: p.id.clone(),
        name: p.name.clone(),
        color: p.color.clone(),
        estimate: p.estimate.clone(),
        status: p.status.clone(),
        client_id: p.client_id.clone(),
        created_at: format_rfc3339(p.created_ms),
        updated_at: format_rfc3339(p.updated_ms),
    }
}

/// Render a task for a caller.
pub fn task_response(t: &Task) -> (r: TaskResponse)
    requires
        t.well_formed(),
    ensures
        r.id == t.id,
        r.name == t.name,
        r.initial_time@ == rfc3339_of(t.initial_ms as int),
        r.end_time@ == rfc3339_of(t.end_ms as int),
        r.project == t.project_id,
        r.created_at@ == rfc3339_of(t.created_ms as int),
        r.updated_at@ == rfc3339_of(t.updated_ms as int),
{
    TaskResponse {
        id: t.id.clone(),
        name: t.name.clone(),
        initial_time: format_rfc3339(t.initial_ms),
        end_time: format_rfc3339(t.end_ms),
        project: t.project_id.clone(),
        created_at: format_rfc3339(t.created_ms),
        updated_at: format_rfc3339(t.updated_ms),
    }
}

} // verus!
