//! Error kinds surfaced to callers of the library.

use vstd::prelude::*;

verus! {

/// Every failure the library reports falls in one of these kinds.
///
/// - `ValueParse`: a column value did not decode into the requested type.
/// - `RowIndex`: an unknown column name or an out-of-range position.
/// - `Conflict`: an optimistic update guard matched zero rows.
/// - `NotFound`: an empty queue, a missing object, or an unknown task kind.
/// - `Storage`: the backing object store failed.
/// - `Sandbox`: process start, wait, cgroup or overlay setup failed.
/// - `Transient`: connection or I/O failure that is safe to retry.
#[derive(Clone, Debug)]
pub enum Error {
    ValueParse(String),
    RowIndex(String),
    Conflict(String),
    NotFound(String),
    Storage(String),
    Sandbox(String),
    Transient(String),
}

#[derive(Clone, Copy, Debug, PartialEq, Eq, Structural)]
pub enum ErrorKind {
    ValueParse,
    RowIndex,
    Conflict,
    NotFound,
    Storage,
    Sandbox,
    Transient,
}

impl Error {
    /// The kind of an error, used by callers that retry on `Transient`
    /// and abandon work on `Conflict`.
    pub open spec fn spec_kind(&self) -> ErrorKind {
        match self {
            Error::ValueParse(_) => ErrorKind::ValueParse,
            Error::RowIndex(_) => ErrorKind::RowIndex,
            Error::Conflict(_) => ErrorKind::Conflict,
            Error::NotFound(_) => ErrorKind::NotFound,
            Error::Storage(_) => ErrorKind::Storage,
            Error::Sandbox(_) => ErrorKind::Sandbox,
            Error::Transient(_) => ErrorKind::Transient,
        }
    }

    pub fn kind(&self) -> (r: ErrorKind)
        ensures
            r == self.spec_kind(),
    {
        match self {
            Error::ValueParse(_) => ErrorKind::ValueParse,
            Error::RowIndex(_) => ErrorKind::RowIndex,
            Error::Conflict(_) => ErrorKind::Conflict,
            Error::NotFound(_) => ErrorKind::NotFound,
            Error::Storage(_) => ErrorKind::Storage,
            Error::Sandbox(_) => ErrorKind::Sandbox,
            Error::Transient(_) => ErrorKind::Transient,
        }
    }

    /// The human-readable message carried by the error.
    pub fn message(&self) -> (r: &String)
        ensures
            r@ == self.spec_message(),
    {
        match self {
            Error::ValueParse(m) => m,
            Error::RowIndex(m) => m,
            Error::Conflict(m) => m,
            Error::NotFound(m) => m,
            Error::Storage(m) => m,
            Error::Sandbox(m) => m,
            Error::Transient(m) => m,
        }
    }

    pub open spec fn spec_message(&self) -> Seq<char> {
        match self {
            Error::ValueParse(m) => m@,
            Error::RowIndex(m) => m@,
            Error::Conflict(m) => m@,
            Error::NotFound(m) => m@,
            Error::Storage(m) => m@,
            Error::Sandbox(m) => m@,
            Error::Transient(m) => m@,
        }
    }
}

} // verus!
