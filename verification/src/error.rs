//! What can go wrong in a repository operation.

use vstd::prelude::*;

verus! {

/// The operations of a repository.
#[derive(Clone, Copy, Debug, PartialEq, Eq, Structural)]
pub enum Operation {
    Create,
    ReadAll,
    ReadOne,
    Update,
    Delete,
}

/// Why a repository operation came to nothing.
#[derive(Debug, PartialEq, Eq)]
pub enum Error {
    /// A required field is absent; nothing was written. Holds what is missing.
    Validation(&'static str),
    /// A field is present but malformed; nothing was written. Holds what is wrong.
    Sanitization(&'static str),
    /// The operation names an identifier that no row has.
    NotFound,
    /// The store failed. Holds the operation that was under way, the kind of
    /// entity it was about, and the cause in the store's own words.
    Storage { operation: Operation, entity: &'static str, cause: String },
}

impl Error {
    /// The error as text: what is missing or wrong, or the store's cause.
    pub open spec fn text(self) -> Seq<char> {
        match self {
            Error::Validation(what) => what@,
            Error::Sanitization(what) => what@,
            Error::NotFound => "not found"@,
            Error::Storage { cause, .. } => cause@,
        }
    }

    /// Whether this is the store's failure during `operation` on `entity`,
    /// with `cause` as the store's words.
    pub open spec fn is_storage(self, operation: Operation, entity: &'static str, cause: Seq<char>) -> bool {
        &&& self matches Error::Storage { operation: o, entity: e, cause: c }
        &&& o == operation
        &&& e == entity
        &&& c@ == cause
    }

    /// The error as text, for a log or a page.
    pub fn message(&self) -> (message: String)
        ensures
            message@ == self.text(),
    {
        match self {
            Error::Validation(what) => (*what).to_owned(),
            Error::Sanitization(what) => (*what).to_owned(),
            Error::NotFound => "not found".to_owned(),
            Error::Storage { cause, .. } => cause.clone(),
        }
    }
}

} // verus!
