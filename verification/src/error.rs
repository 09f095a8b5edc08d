//! The closed set of error kinds and the total mapping from each kind to an
//! HTTP status and an error message.

use vstd::prelude::*;

verus! {

/// Every way an operation of the service can fail.
#[derive(Debug)]
pub enum AppError {
    /// Storage was unreachable at startup; fatal, the process does not start.
    Connection,
    /// Schema setup failed at startup; fatal, the process does not start.
    Migration,
    /// Any other storage execution fault: constraint violation, I/O error,
    /// pool exhaustion.
    Storage,
    /// The requested item identifier does not exist.
    NotFound,
    /// The request could not be decoded; the message says what was missing
    /// or malformed.
    Validation(String),
    /// Any other internal fault, with its message.
    Internal(String),
}

/// The HTTP status for each error kind: 404 for a missing item, 422 for a
/// request that could not be decoded, 500 for everything else.
pub open spec fn status_of(e: AppError) -> int {
    match e {
        AppError::NotFound => 404,
        AppError::Validation(_) => 422,
        AppError::Connection => 500,
        AppError::Migration => 500,
        AppError::Storage => 500,
        AppError::Internal(_) => 500,
    }
}

/// The message carried in the error envelope for each error kind: every
/// underlying storage fault reads "Database error"; a missing item reads
/// "Item not found"; a validation or internal fault carries its own message.
pub open spec fn message_of(e: AppError) -> Seq<char> {
    match e {
        AppError::NotFound => "Item not found"@,
        AppError::Validation(m) => m@,
        AppError::Connection => "Database error"@,
        AppError::Migration => "Database error"@,
        AppError::Storage => "Database error"@,
        AppError::Internal(m) => m@,
    }
}

/// Whether the error is fatal at startup: the process must not begin to
/// serve requests after it.
pub open spec fn spec_is_fatal(e: AppError) -> bool {
    e is Connection || e is Migration
}

impl AppError {
    /// The HTTP status this error maps to.
    pub fn status(&self) -> (r: u16)
        ensures
            r == status_of(*self),
    {
        match self {
            AppError::NotFound => 404,
            AppError::Validation(_) => 422,
            _ => 500,
        }
    }

    /// The message carried in this error's envelope.
    pub fn message(&self) -> (r: String)
        ensures
            r@ == message_of(*self),
    {
        match self {
            AppError::NotFound => String::from_str("Item not found"),
            AppError::Validation(m) => m.clone(),
            AppError::Connection => String::from_str("Database error"),
            AppError::Migration => String::from_str("Database error"),
            AppError::Storage => String::from_str("Database error"),
            AppError::Internal(m) => m.clone(),
        }
    }

    /// Whether the error aborts startup.
    pub fn is_fatal(&self) -> (r: bool)
        ensures
            r == spec_is_fatal(*self),
    {
        match self {
            AppError::Connection => true,
            AppError::Migration => true,
            _ => false,
        }
    }
}

} // verus!
