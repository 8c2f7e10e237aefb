//! Core of a time-tracking backend: clients own projects, projects own
//! tasks, and a task records a time interval.
//!
//! The library converts loosely-typed stored records into typed domain
//! entities (rejecting malformed data field by field) and turns joined
//! record sequences into grouped views: tasks grouped by UTC calendar day
//! with a per-day total duration, and projects grouped by client name.
//! Store access itself is left to the caller; the logic here is pure.

pub mod decode;
pub mod encode;
pub mod entity;
pub mod error;
pub mod group;
pub mod join;
pub mod oid;
pub mod raw;
pub mod strutil;
pub mod timefmt;
pub mod views;
