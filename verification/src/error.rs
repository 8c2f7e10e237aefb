//! The error taxonomy of the core, and the entity kinds it decodes.

use vstd::prelude::*;

verus! {

/// The three kinds of persisted entity a raw record can decode into.
#[derive(Clone, Copy, Debug, PartialEq, Eq, Structural)]
pub enum EntityKind {
    Client,
    Project,
    Task,
}

/// Every failure the core can surface to its caller.
#[derive(Debug, PartialEq, Eq)]
pub enum Error {
    /// A malformed identifier string supplied by the caller; rejected
    /// before any store access.
    InvalidIdentifier(String),
    /// A lookup succeeded but no matching record exists.
    RecordNotFound,
    /// The underlying store failed; the payload carries the cause as text.
    StoreQueryFailed(String),
    /// A specific field of a raw record could not be extracted with the
    /// expected type; names the field and the entity kind.
    DecodeFailed(String, EntityKind),
}

impl Error {
    /// A short text form of the error, for callers that log or display it.
    pub fn describe(&self) -> (r: String)
        ensures
            match self {
                Error::InvalidIdentifier(_) => r@ == "invalid identifier"@,
                Error::RecordNotFound => r@ == "record not found"@,
                Error::StoreQueryFailed(_) => r@ == "store query failed"@,
                Error::DecodeFailed(_, _) => r@ == "decode failed"@,
            },
    {
        match self {
            Error::InvalidIdentifier(_) => String::from_str("invalid identifier"),
            Error::RecordNotFound => String::from_str("record not found"),
            Error::StoreQueryFailed(_) => String::from_str("store query failed"),
            Error::DecodeFailed(_, _) => String::from_str("decode failed"),
        }
    }
}

} // verus!
