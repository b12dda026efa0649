//! How a failed storage operation is classified.
use vstd::prelude::*;

verus! {

/// An error of the storage layer, carried through unread.
#[verifier::external_type_specification]
#[verifier::external_body]
pub struct ExSqlxError(sqlx::Error);

/// What went wrong in storage, as far as the services care.
#[derive(Clone, Copy, Debug, PartialEq, Eq, Structural)]
pub enum StoreError {
    /// A query that expects a row found none: a normal branch on first sight.
    NotFound,
    /// An insert hit a uniqueness constraint: benign when two observers race.
    UniqueViolation,
    /// Any other failure; it is surfaced to the caller.
    Failure,
}

/// Tells the variants of `sqlx::Error` apart: `RowNotFound`, a `Database`
/// error for which `DatabaseError::is_unique_violation` holds, and the
/// rest. Nothing is claimed of which class a given error falls in.
#[verifier::external_body]
fn classify_sqlx(error: &sqlx::Error) -> (class: StoreError) {
    match error {
        sqlx::Error::RowNotFound => StoreError::NotFound,
        sqlx::Error::Database(db) if db.is_unique_violation() => StoreError::UniqueViolation,
        _ => StoreError::Failure,
    }
}

impl StoreError {
    /// Whether the error is an expected branch rather than a failure of
    /// the storage layer.
    pub fn is_expected(&self) -> (expected: bool)
        ensures
            expected == (*self != StoreError::Failure),
    {
        match self {
            StoreError::Failure => false,
            _ => true,
        }
    }
}

/// Reads the reply of the storage layer: a value is passed through, an
/// error is replaced by its class.
pub fn store_reply<T>(reply: Result<T, sqlx::Error>) -> (read: Result<T, StoreError>)
    ensures
        reply is Ok ==> read == Ok::<T, StoreError>(reply->Ok_0),
        reply is Err ==> read is Err,
{
    match reply {
        Ok(value) => Ok(value),
        Err(error) => Err(classify_sqlx(&error)),
    }
}

/// Reads a lookup result as an optional row: a missing row is `None`, any
/// other error is passed on.
pub fn found_or_none<T>(result: Result<T, StoreError>) -> (row: Result<Option<T>, StoreError>)
    ensures
        row == match result {
            Ok(value) => Ok::<Option<T>, StoreError>(Some(value)),
            Err(StoreError::NotFound) => Ok(None),
            Err(e) => Err(e),
        },
{
    match result {
        Ok(value) => Ok(Some(value)),
        Err(StoreError::NotFound) => Ok(None),
        Err(e) => Err(e),
    }
}

} // verus!
