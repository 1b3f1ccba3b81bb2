//! The ways an import or a search can fail.

use vstd::prelude::*;

verus! {

/// What went wrong, as far as a caller can act on it.
#[derive(Clone, Copy, Debug, PartialEq, Eq, Structural)]
pub enum ErrorKind {
    /// The query text is not a well-formed query.
    QueryParse,
    /// The index engine failed.
    IndexIo,
    /// The document store failed.
    StoreIo,
    /// The bulk source could not be read or decoded.
    ImportSource,
    /// The index or the store is missing or does not fit the schema.
    Startup,
}

impl ErrorKind {
    /// Whether the process may go on serving after this failure. Failures of
    /// a single request leave it up; failures of import and of startup do not.
    pub open spec fn is_request_scoped(self) -> bool {
        self is QueryParse || self is IndexIo || self is StoreIo
    }

    /// Whether the failure ends one request only.
    pub fn request_scoped(&self) -> (yes: bool)
        ensures
            yes == self.is_request_scoped(),
    {
        match self {
            ErrorKind::QueryParse => true,
            ErrorKind::IndexIo => true,
            ErrorKind::StoreIo => true,
            ErrorKind::ImportSource => false,
            ErrorKind::Startup => false,
        }
    }
}

} // verus!
