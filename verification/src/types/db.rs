//! What the storage layer reports back: the failures of a statement, and the
//! absent row as a result of its own.

use vstd::prelude::*;

verus! {

/// Where a storage failure arose.
#[derive(Clone, Copy, Debug, PartialEq, Eq, Structural)]
pub enum StorageErrorKind {
    /// No connection to the store could be had.
    Connection,
    /// The store refused or failed the statement.
    Query,
    /// The statement broke a constraint of the table.
    Constraint,
}

/// A failure of the store. It is never retried: whoever receives it passes it
/// on, and the HTTP surface answers it as an internal error.
#[derive(Debug, PartialEq, Eq)]
pub struct StorageError {
    pub kind: StorageErrorKind,
    pub message: String,
}

/// A storage failure, as the contracts see it.
pub struct StorageErrorView {
    pub kind: StorageErrorKind,
    pub message: Seq<char>,
}

impl View for StorageError {
    type V = StorageErrorView;

    open spec fn view(&self) -> StorageErrorView {
        StorageErrorView { kind: self.kind, message: self.message@ }
    }
}

impl Clone for StorageError {
    fn clone(&self) -> (copy: StorageError)
        ensures
            copy@ == self@,
    {
        StorageError { kind: self.kind, message: self.message.clone() }
    }
}

/// How a single statement ends when it does not yield its row: either no row
/// matched, or the store failed.
#[derive(Debug, PartialEq, Eq)]
pub enum QueryError {
    /// The statement ran, and no row matched.
    NotFound,
    /// The statement did not run to its end.
    Failed(StorageError),
}

/// The message under which "no row matched" is passed on where it counts as
/// a failure.
pub open spec fn not_found_message() -> Seq<char> {
    "Record not found"@
}

impl QueryError {
    /// This outcome as the failure that is passed on.
    pub open spec fn as_storage_error(self) -> StorageErrorView {
        match self {
            QueryError::NotFound => StorageErrorView {
                kind: StorageErrorKind::Query,
                message: not_found_message(),
            },
            QueryError::Failed(error) => error@,
        }
    }

    /// Passes the outcome on as a failure: the store's own where it failed,
    /// and a failure of the statement where no row matched.
    pub fn into_storage_error(self) -> (error: StorageError)
        ensures
            error@ == self.as_storage_error(),
    {
        match self {
            QueryError::NotFound => StorageError {
                kind: StorageErrorKind::Query,
                message: "Record not found".to_string(),
            },
            QueryError::Failed(error) => error,
        }
    }
}

/// What `optional` makes of a statement's result.
pub open spec fn optional_spec<T>(result: Result<T, QueryError>) -> Result<
    Option<T>,
    StorageError,
> {
    match result {
        Ok(value) => Ok(Some(value)),
        Err(QueryError::NotFound) => Ok(None),
        Err(QueryError::Failed(error)) => Err(error),
    }
}

/// Turns "no row matched" from a failure into an absent value, and leaves
/// every other result as it is.
pub fn optional<T>(result: Result<T, QueryError>) -> (out: Result<Option<T>, StorageError>)
    ensures
        out == optional_spec(result),
{
    match result {
        Ok(value) => Ok(Some(value)),
        Err(QueryError::NotFound) => Ok(None),
        Err(QueryError::Failed(error)) => Err(error),
    }
}

/// What `required` makes of a statement's result.
pub open spec fn required_spec<T>(
    result: Result<T, QueryError>,
    out: Result<T, StorageError>,
) -> bool {
    match result {
        Ok(value) => out == Ok::<T, StorageError>(value),
        Err(error) => out matches Err(failure) && failure@ == error.as_storage_error(),
    }
}

/// Passes on the result of a statement whose row is owed: every outcome but
/// the row counts as a failure, "no row matched" too.
pub fn required<T>(result: Result<T, QueryError>) -> (out: Result<T, StorageError>)
    ensures
        required_spec(result, out),
{
    match result {
        Ok(value) => Ok(value),
        Err(error) => Err(error.into_storage_error()),
    }
}

} // verus!
