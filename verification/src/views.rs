//! The grouped views and the single-record read path, end to end.
//!
//! A whole joined batch is flattened record by record: a record whose
//! required fields decode becomes a flattened entry, and one that does
//! not contributes a decode warning instead — the warning is isolated to
//! that record and the view still forms from the rest.  A store failure,
//! by contrast, is fatal to the whole operation and never reaches this
//! module: the caller maps it to `StoreQueryFailed` and returns no
//! partial view.

use vstd::prelude::*;

use crate::decode::{
    client_bad_field, decode_client, decode_err_for, decode_project, decode_task, field_id,
    field_text, field_ts, project_bad_field, task_bad_field,
};
use crate::entity::{client_response, project_response, task_response, ClientResponse,
    ProjectResponse, TaskResponse};
use crate::error::{EntityKind, Error};
use crate::group::{
    group_projects_by_client, group_tasks_by_date, project_groups_ok, task_groups_ok,
    ClientProjectGroup, TasksGroupedByDate,
};
use crate::join::{
    flat_project_of, flat_project_wf, flat_task_of, flat_task_wf, flatten_joined_project,
    flatten_joined_task, joined_project_bad_field, joined_task_bad_field, FlatProject, FlatTask,
};
use crate::oid::hex_of_bytes;
use crate::raw::RawDocument;
use crate::timefmt::{clamp_ms, rfc3339_of};

verus! {

/// How a joined task batch relates to its flattened form and warnings:
/// record by record, a decodable record contributes its flattened entry
/// and a malformed one contributes its warning.
pub open spec fn task_flattening(
    docs: Seq<RawDocument>,
    flat: Seq<FlatTask>,
    warns: Seq<Error>,
) -> bool
    decreases docs.len(),
{
    if docs.len() == 0 {
        flat.len() == 0 && warns.len() == 0
    } else {
        let d = docs.last();
        if joined_task_bad_field(d) is None {
            &&& flat.len() > 0
            &&& flat_task_of(d, flat.last())
            &&& task_flattening(docs.drop_last(), flat.drop_last(), warns)
        } else {
            &&& warns.len() > 0
            &&& decode_err_for(warns.last(), joined_task_bad_field(d).unwrap(), EntityKind::Task)
            &&& task_flattening(docs.drop_last(), flat, warns.drop_last())
        }
    }
}

/// How a joined project batch relates to its flattened form and warnings.
pub open spec fn project_flattening(
    docs: Seq<RawDocument>,
    flat: Seq<FlatProject>,
    warns: Seq<Error>,
) -> bool
    decreases docs.len(),
{
    if docs.len() == 0 {
        flat.len() == 0 && warns.len() == 0
    } else {
        let d = docs.last();
        if joined_project_bad_field(d) is None {
            &&& flat.len() > 0
            &&& flat_project_of(d, flat.last())
            &&& project_flattening(docs.drop_last(), flat.drop_last(), warns)
        } else {
            &&& warns.len() > 0
            &&& decode_err_for(
                warns.last(),
                joined_project_bad_field(d).unwrap(),
                EntityKind::Project,
            )
            &&& project_flattening(docs.drop_last(), flat, warns.drop_last())
        }
    }
}

/// Flatten a whole joined task batch, isolating malformed records as
/// warnings.
pub fn flatten_joined_tasks(docs: &Vec<RawDocument>) -> (r: (Vec<FlatTask>, Vec<Error>))
    ensures
        task_flattening(docs@, r.0@, r.1@),
        forall|i: int| 0 <= i < r.0@.len() ==> flat_task_wf(#[trigger] r.0@[i]),
{
    let mut flat: Vec<FlatTask> = Vec::new();
    let mut warns: Vec<Error> = Vec::new();
    let mut i: usize = 0;
    proof {
        assert(docs@.take(0) =~= Seq::<RawDocument>::empty());
    }
    while i < docs.len()
        invariant
            i <= docs@.len(),
            task_flattening(docs@.take(i as int), flat@, warns@),
            forall|x: int| 0 <= x < flat@.len() ==> flat_task_wf(#[trigger] flat@[x]),
        decreases docs@.len() - i,
    {
        let ghost oldflat = flat@;
        let ghost oldwarns = warns@;
        match flatten_joined_task(&docs[i]) {
            Ok(ft) => {
                flat.push(ft);
                proof {
                    assert(flat@.drop_last() =~= oldflat);
                }
            },
            Err(e) => {
                warns.push(e);
                proof {
                    assert(warns@.drop_last() =~= oldwarns);
                }
            },
        }
        proof {
            assert(docs@.take(i + 1).drop_last() =~= docs@.take(i as int));
            assert(docs@.take(i + 1).last() == docs@[i as int]);
        }
        i = i + 1;
    }
    proof {
        assert(docs@.take(docs@.len() as int) =~= docs@);
    }
    (flat, warns)
}

/// Flatten a whole joined project batch, isolating malformed records as
/// warnings.
pub fn flatten_joined_projects(docs: &Vec<RawDocument>) -> (r: (Vec<FlatProject>, Vec<Error>))
    ensures
        project_flattening(docs@, r.0@, r.1@),
        forall|i: int| 0 <= i < r.0@.len() ==> flat_project_wf(#[trigger] r.0@[i]),
{
    let mut flat: Vec<FlatProject> = Vec::new();
    let mut warns: Vec<Error> = Vec::new();
    let mut i: usize = 0;
    proof {
        assert(docs@.take(0) =~= Seq::<RawDocument>::empty());
    }
    while i < docs.len()
        invariant
            i <= docs@.len(),
            project_flattening(docs@.take(i as int), flat@, warns@),
            forall|x: int| 0 <= x < flat@.len() ==> flat_project_wf(#[trigger] flat@[x]),
        decreases docs@.len() - i,
    {
        let ghost oldflat = flat@;
        let ghost oldwarns = warns@;
        match flatten_joined_project(&docs[i]) {
            Ok(fp) => {
                flat.push(fp);
                proof {
                    assert(flat@.drop_last() =~= oldflat);
                }
            },
            Err(e) => {
                warns.push(e);
                proof {
                    assert(warns@.drop_last() =~= oldwarns);
                }
            },
        }
        proof {
            assert(docs@.take(i + 1).drop_last() =~= docs@.take(i as int));
            assert(docs@.take(i + 1).last() == docs@[i as int]);
        }
        i = i + 1;
    }
    proof {
        assert(docs@.take(docs@.len() as int) =~= docs@);
    }
    (flat, warns)
}

/// The tasks-by-date view holds of a batch: some flattened form of the
/// batch produced the warnings, and the groups satisfy the grouping
/// contract for exactly that flattened form.
pub open spec fn tasks_view_ok(
    docs: Seq<RawDocument>,
    groups: Seq<TasksGroupedByDate>,
    warns: Seq<Error>,
) -> bool {
    exists|flat: Seq<FlatTask>|
        #[trigger] task_flattening(docs, flat, warns) && task_groups_ok(flat, groups)
}

/// The projects-by-client view holds of a batch.
pub open spec fn projects_view_ok(
    docs: Seq<RawDocument>,
    groups: Seq<ClientProjectGroup>,
    warns: Seq<Error>,
) -> bool {
    exists|flat: Seq<FlatProject>|
        #[trigger] project_flattening(docs, flat, warns) && project_groups_ok(flat, groups)
}

/// The tasks-by-date view of a joined batch: flatten, then group.
///
/// The groups satisfy the grouping contract for exactly the flattened
/// form of the batch, and the warnings are the malformed records'
/// decode errors, in batch order.
pub fn grouped_tasks_by_date(docs: &Vec<RawDocument>) -> (r: (
    Vec<TasksGroupedByDate>,
    Vec<Error>,
))
    ensures
        tasks_view_ok(docs@, r.0@, r.1@),
{
    let (flat, warns) = flatten_joined_tasks(docs);
    let groups = group_tasks_by_date(&flat);
    proof {
        assert(tasks_view_ok(docs@, groups@, warns@)) by {
            assert(task_flattening(docs@, flat@, warns@) && task_groups_ok(flat@, groups@));
        }
    }
    (groups, warns)
}

/// The projects-by-client view of a joined batch: flatten, then group.
pub fn grouped_projects_by_client(docs: &Vec<RawDocument>) -> (r: (
    Vec<ClientProjectGroup>,
    Vec<Error>,
))
    ensures
        projects_view_ok(docs@, r.0@, r.1@),
{
    let (flat, warns) = flatten_joined_projects(docs);
    let groups = group_projects_by_client(&flat);
    proof {
        assert(projects_view_ok(docs@, groups@, warns@)) by {
            assert(project_flattening(docs@, flat@, warns@) && project_groups_ok(flat@, groups@));
        }
    }
    (groups, warns)
}

/// Finish a single-client lookup: no record is "not found", a record is
/// decoded and rendered, and a malformed record is that record's decode
/// error — fatal to a single-record read.
pub fn client_from_lookup(found: Option<RawDocument>) -> (r: Result<ClientResponse, Error>)
    ensures
        found is None ==> (r matches Err(e) && e matches Error::RecordNotFound),
        found is Some && client_bad_field(found.unwrap()) is None ==> (r matches Ok(resp)
            && resp.id@ == hex_of_bytes(field_id(found.unwrap(), "_id"@).unwrap())
            && resp.name@ == field_text(found.unwrap(), "name"@).unwrap()
            && resp.created_at@ == rfc3339_of(clamp_ms(field_ts(found.unwrap(), "created_at"@).unwrap()))
            && resp.updated_at@ == rfc3339_of(clamp_ms(field_ts(found.unwrap(), "updated_at"@).unwrap()))),
        found is Some && client_bad_field(found.unwrap()) is Some ==> (r matches Err(e)
            && decode_err_for(e, client_bad_field(found.unwrap()).unwrap(), EntityKind::Client)),
{
    match found {
        None => Err(Error::RecordNotFound),
        Some(doc) => match decode_client(&doc) {
            Ok(c) => Ok(client_response(&c)),
            Err(e) => Err(e),
        },
    }
}

/// Finish a single-project lookup.
pub fn project_from_lookup(found: Option<RawDocument>) -> (r: Result<ProjectResponse, Error>)
    ensures
        found is None ==> (r matches Err(e) && e matches Error::RecordNotFound),
        found is Some && project_bad_field(found.unwrap()) is None ==> (r matches Ok(resp)
            && resp.id@ == hex_of_bytes(field_id(found.unwrap(), "_id"@).unwrap())
            && resp.name@ == field_text(found.unwrap(), "name"@).unwrap()
            && resp.color@ == field_text(found.unwrap(), "color"@).unwrap()
            && resp.estimate@ == field_text(found.unwrap(), "estimate"@).unwrap()
            && resp.status@ == field_text(found.unwrap(), "status"@).unwrap()
            && resp.client_id@ == hex_of_bytes(field_id(found.unwrap(), "client"@).unwrap())
            && resp.created_at@ == rfc3339_of(clamp_ms(field_ts(found.unwrap(), "created_at"@).unwrap()))
            && resp.updated_at@ == rfc3339_of(clamp_ms(field_ts(found.unwrap(), "updated_at"@).unwrap()))),
        found is Some && project_bad_field(found.unwrap()) is Some ==> (r matches Err(e)
            && decode_err_for(e, project_bad_field(found.unwrap()).unwrap(), EntityKind::Project)),
{
    match found {
        None => Err(Error::RecordNotFound),
        Some(doc) => match decode_project(&doc) {
            Ok(p) => Ok(project_response(&p)),
            Err(e) => Err(e),
        },
    }
}

/// Finish a single-task lookup.
pub fn task_from_lookup(found: Option<RawDocument>) -> (r: Result<TaskResponse, Error>)
    ensures
        found is None ==> (r matches Err(e) && e matches Error::RecordNotFound),
        found is Some && task_bad_field(found.unwrap()) is None ==> (r matches Ok(resp)
            && resp.id@ == hex_of_bytes(field_id(found.unwrap(), "_id"@).unwrap())
            && resp.name@ == field_text(found.unwrap(), "name"@).unwrap()
            && resp.initial_time@ == rfc3339_of(clamp_ms(field_ts(found.unwrap(), "initial_time"@).unwrap()))
            && resp.end_time@ == rfc3339_of(clamp_ms(field_ts(found.unwrap(), "end_time"@).unwrap()))
            && (resp.project is Some <==> field_id(found.unwrap(), "project"@) is Some)
            && (resp.project matches Some(p) ==> p@ == hex_of_bytes(
                field_id(found.unwrap(), "project"@).unwrap(),
            ))
            && resp.created_at@ == rfc3339_of(clamp_ms(field_ts(found.unwrap(), "created_at"@).unwrap()))
            && resp.updated_at@ == rfc3339_of(clamp_ms(field_ts(found.unwrap(), "updated_at"@).unwrap()))),
        found is Some && task_bad_field(found.unwrap()) is Some ==> (r matches Err(e)
            && decode_err_for(e, task_bad_field(found.unwrap()).unwrap(), EntityKind::Task)),
{
    match found {
        None => Err(Error::RecordNotFound),
        Some(doc) => match decode_task(&doc) {
            Ok(t) => Ok(task_response(&t)),
            Err(e) => Err(e),
        },
    }
}


/// The rendered response a task record decodes to.
pub open spec fn task_response_of(doc: RawDocument, resp: TaskResponse) -> bool {
    &&& task_bad_field(doc) is None
    &&& resp.id@ == hex_of_bytes(field_id(doc, "_id"@).unwrap())
    &&& resp.name@ == field_text(doc, "name"@).unwrap()
    &&& resp.initial_time@ == rfc3339_of(clamp_ms(field_ts(doc, "initial_time"@).unwrap()))
    &&& resp.end_time@ == rfc3339_of(clamp_ms(field_ts(doc, "end_time"@).unwrap()))
    &&& (resp.project is Some <==> field_id(doc, "project"@) is Some)
    &&& (resp.project matches Some(p) ==> p@ == hex_of_bytes(field_id(doc, "project"@).unwrap()))
    &&& resp.created_at@ == rfc3339_of(clamp_ms(field_ts(doc, "created_at"@).unwrap()))
    &&& resp.updated_at@ == rfc3339_of(clamp_ms(field_ts(doc, "updated_at"@).unwrap()))
}

/// Decode and render a whole batch of task records.
///
/// A single-record read path in bulk: succeeds only when every record
/// decodes, echoing each in order; the first malformed record fails the
/// whole read with its decode error, as nothing partial may be returned.
pub fn all_tasks_from_docs(docs: &Vec<RawDocument>) -> (r: Result<Vec<TaskResponse>, Error>)
    ensures
        r is Ok <==> (forall|i: int|
            0 <= i < docs@.len() ==> task_bad_field(#[trigger] docs@[i]) is None),
        r matches Ok(v) ==> v@.len() == docs@.len() && (forall|i: int|
            0 <= i < docs@.len() ==> task_response_of(docs@[i], #[trigger] v@[i])),
        r matches Err(e) ==> exists|i: int|
            0 <= i < docs@.len() && task_bad_field(#[trigger] docs@[i]) is Some && (forall|j: int|
                0 <= j < i ==> task_bad_field(#[trigger] docs@[j]) is None) && decode_err_for(
                e,
                task_bad_field(docs@[i]).unwrap(),
                EntityKind::Task,
            ),
{
    let mut out: Vec<TaskResponse> = Vec::new();
    let mut i: usize = 0;
    while i < docs.len()
        invariant
            i <= docs@.len(),
            out@.len() == i,
            forall|j: int| 0 <= j < i ==> task_bad_field(#[trigger] docs@[j]) is None,
            forall|j: int| 0 <= j < i ==> task_response_of(docs@[j], #[trigger] out@[j]),
        decreases docs@.len() - i,
    {
        match decode_task(&docs[i]) {
            Ok(t) => {
                out.push(task_response(&t));
            },
            Err(e) => {
                return Err(e);
            },
        }
        i = i + 1;
    }
    Ok(out)
}

} // verus!
