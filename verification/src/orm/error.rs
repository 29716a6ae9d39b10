//! Errors of the store layer and how database failures map onto them.

use vstd::prelude::*;
use vstd::string::*;

verus! {

/// An error of a store operation.
#[derive(Debug)]
pub enum OrmError {
    NotFound,
    Conflict(String),
    Forbidden(String),
    Validation(String),
    UniqueViolation(String),
    ForeignKeyViolation(String),
    Database(String),
    HookCancelled(String),
}

impl OrmError {
    pub fn conflict(msg: &str) -> (e: OrmError)
        ensures
            e matches OrmError::Conflict(m) && m@ == msg@,
    {
        OrmError::Conflict(msg.to_owned())
    }

    pub fn forbidden(msg: &str) -> (e: OrmError)
        ensures
            e matches OrmError::Forbidden(m) && m@ == msg@,
    {
        OrmError::Forbidden(msg.to_owned())
    }

    pub fn validation(msg: &str) -> (e: OrmError)
        ensures
            e matches OrmError::Validation(m) && m@ == msg@,
    {
        OrmError::Validation(msg.to_owned())
    }

    /// The human-readable message of this error.
    pub fn message(&self) -> (m: String)
        ensures
            m@ == orm_error_message(*self),
    {
        match self {
            OrmError::NotFound => "record not found".to_owned(),
            OrmError::Conflict(s) => prefixed("conflict: ", s),
            OrmError::Forbidden(s) => prefixed("forbidden: ", s),
            OrmError::Validation(s) => prefixed("validation: ", s),
            OrmError::UniqueViolation(s) => prefixed("unique constraint violation: ", s),
            OrmError::ForeignKeyViolation(s) => prefixed("foreign key violation: ", s),
            OrmError::Database(s) => prefixed("database error: ", s),
            OrmError::HookCancelled(s) => prefixed("hook cancelled operation: ", s),
        }
    }
}

pub open spec fn orm_error_message(e: OrmError) -> Seq<char> {
    match e {
        OrmError::NotFound => "record not found"@,
        OrmError::Conflict(s) => "conflict: "@ + s@,
        OrmError::Forbidden(s) => "forbidden: "@ + s@,
        OrmError::Validation(s) => "validation: "@ + s@,
        OrmError::UniqueViolation(s) => "unique constraint violation: "@ + s@,
        OrmError::ForeignKeyViolation(s) => "foreign key violation: "@ + s@,
        OrmError::Database(s) => "database error: "@ + s@,
        OrmError::HookCancelled(s) => "hook cancelled operation: "@ + s@,
    }
}

fn prefixed(head: &str, tail: &String) -> (m: String)
    ensures
        m@ == head@ + tail@,
{
    let mut m = head.to_owned();
    m.append(tail.as_str());
    m
}

/// The error returned when a hook cancels the operation `op`.
pub fn cancelled_by_hook(op: &str) -> (e: OrmError)
    ensures
        e matches OrmError::HookCancelled(m) && m@ == op@ + " cancelled by hook"@,
{
    let mut m = op.to_owned();
    m.append(" cancelled by hook");
    OrmError::HookCancelled(m)
}

/// The SQL-level classification a database driver gives a failure.
#[derive(Debug)]
pub enum SqlErrorKind {
    UniqueConstraintViolation(String),
    ForeignKeyConstraintViolation(String),
    Other,
}

/// A database failure as the store sees it: its SQL classification, if the
/// driver gave one, and its rendered text.
#[derive(Debug)]
pub struct DbFailure {
    pub sql: Option<SqlErrorKind>,
    pub rendered: String,
}

/// Constraint violations keep their own variants; every other failure
/// becomes a generic database error carrying the rendered text.
pub open spec fn db_error_of(err: DbFailure) -> OrmError {
    match err.sql {
        Some(SqlErrorKind::UniqueConstraintViolation(m)) => OrmError::UniqueViolation(m),
        Some(SqlErrorKind::ForeignKeyConstraintViolation(m)) => OrmError::ForeignKeyViolation(m),
        _ => OrmError::Database(err.rendered),
    }
}

pub fn map_db_err(err: DbFailure) -> (e: OrmError)
    ensures
        e == db_error_of(err),
{
    match err.sql {
        Some(SqlErrorKind::UniqueConstraintViolation(m)) => OrmError::UniqueViolation(m),
        Some(SqlErrorKind::ForeignKeyConstraintViolation(m)) => OrmError::ForeignKeyViolation(m),
        _ => OrmError::Database(err.rendered),
    }
}

/// A lookup that found nothing becomes `NotFound`.
pub fn require_found<T>(found: Option<T>) -> (r: Result<T, OrmError>)
    ensures
        match found {
            Some(v) => r == Ok::<T, OrmError>(v),
            None => r matches Err(OrmError::NotFound),
        },
{
    match found {
        Some(v) => Ok(v),
        None => Err(OrmError::NotFound),
    }
}


/// How a transaction ends once its work has run.
#[derive(Debug, Clone, Copy, PartialEq, Eq)]
pub enum TxEnd {
    Commit,
    Rollback,
}

/// Work that succeeded is committed; work that failed is rolled back.
pub fn transaction_end<R>(work: &Result<R, OrmError>) -> (end: TxEnd)
    ensures
        end == (if work is Ok { TxEnd::Commit } else { TxEnd::Rollback }),
{
    match work {
        Ok(_) => TxEnd::Commit,
        Err(_) => TxEnd::Rollback,
    }
}

/// The result of a transaction: the work's result when the commit or
/// rollback went through, else the failure of the commit or rollback, which
/// then replaces even the work's own error.
pub fn transaction_result<R>(work: Result<R, OrmError>, ended: Result<(), DbFailure>) -> (r: Result<
    R,
    OrmError,
>)
    ensures
        match ended {
            Ok(()) => r == work,
            Err(f) => r == Err::<R, OrmError>(db_error_of(f)),
        },
{
    match ended {
        Ok(()) => work,
        Err(f) => Err(map_db_err(f)),
    }
}

} // verus!
