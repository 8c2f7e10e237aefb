//! Raw records.
//!
//! The store is schemaless: a record is an ordered list of named,
//! dynamically-typed values.  This module is the single seam between that
//! dynamic shape and the typed entities of the core; the decoder reads
//! records field by field through `get`, which finds the first field of a
//! given name, as the store itself would.

use vstd::prelude::*;

use crate::strutil::str_eq;

verus! {

/// One named value of a raw record.
#[derive(Debug)]
pub struct RawField {
    pub name: String,
    pub value: RawValue,
}

/// A dynamically-typed stored value.
#[derive(Debug)]
pub enum RawValue {
    /// A string.
    Text(String),
    /// A native timestamp: milliseconds since the Unix epoch, UTC.
    Timestamp(i64),
    /// A binary object identifier.
    Id(Vec<u8>),
    /// A list of sub-records, as produced by a join step.
    Array(Vec<RawDocument>),
}

/// An untyped record as returned by the store.
#[derive(Debug)]
pub struct RawDocument {
    pub fields: Vec<RawField>,
}

/// The value of the first field named `key`, if any.
pub open spec fn get_field(fields: Seq<RawField>, key: Seq<char>) -> Option<RawValue>
    decreases fields.len(),
{
    if fields.len() == 0 {
        None
    } else if fields[0].name@ == key {
        Some(fields[0].value)
    } else {
        get_field(fields.drop_first(), key)
    }
}

/// The first field whose name matches decides the lookup.
pub proof fn lemma_get_field_at(fields: Seq<RawField>, key: Seq<char>, i: int)
    requires
        0 <= i < fields.len(),
        forall|j: int| 0 <= j < i ==> #[trigger] fields[j].name@ != key,
        fields[i].name@ == key,
    ensures
        get_field(fields, key) == Some(fields[i].value),
    decreases i,
{
    if i > 0 {
        lemma_get_field_at(fields.drop_first(), key, i - 1);
    }
}

/// A name that no field carries finds nothing.
pub proof fn lemma_get_field_none(fields: Seq<RawField>, key: Seq<char>)
    requires
        forall|j: int| 0 <= j < fields.len() ==> #[trigger] fields[j].name@ != key,
    ensures
        get_field(fields, key) is None,
    decreases fields.len(),
{
    if fields.len() > 0 {
        lemma_get_field_none(fields.drop_first(), key);
    }
}

impl RawDocument {
    /// The value of the first field named `key`, if any.
    pub open spec fn spec_get(self, key: Seq<char>) -> Option<RawValue> {
        get_field(self.fields@, key)
    }

    /// Extract by name: the first field called `key`, or `None`.
    pub fn get<'a>(&'a self, key: &str) -> (r: Option<&'a RawValue>)
        ensures
            match r {
                Some(v) => self.spec_get(key@) == Some(*v),
                None => self.spec_get(key@) is None,
            },
    {
        let mut i: usize = 0;
        while i < self.fields.len()
            invariant
                i <= self.fields@.len(),
                forall|j: int| 0 <= j < i ==> #[trigger] self.fields@[j].name@ != key@,
            decreases self.fields@.len() - i,
        {
            let f = &self.fields[i];
            if str_eq(f.name.as_str(), key) {
                proof {
                    lemma_get_field_at(self.fields@, key@, i as int);
                }
                return Some(&f.value);
            }
            i = i + 1;
        }
        proof {
            lemma_get_field_none(self.fields@, key@);
        }
        None
    }
}

} // verus!
