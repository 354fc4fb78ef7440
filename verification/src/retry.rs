//! When a failed query is worth another attempt.

use vstd::prelude::*;

verus! {

/// Number of attempts that a query is given.
pub const RETRY_ATTEMPTS: usize = 2;

/// What the database client reports of a failed query, as far as retrying
/// depends on it.
#[derive(Clone, Copy, Debug, PartialEq, Eq, Structural)]
pub enum MysqlError {
    /// The connection failed, with this error number of the server.
    ConnectionOperationError { mysql_errno: u32 },
    /// The query ran and its result is an error, with this error number of
    /// the server.
    QueryResultError { mysql_errno: u32 },
    /// Any other failure of the client.
    Other,
}

/// Whether `errno` is one of the server's admission control errors, 1914 to
/// 1916.
pub open spec fn is_admission_control_errno(errno: u32) -> bool {
    1914 <= errno <= 1916
}

/// Whether a query that failed with `errno` may be sent again. That is so
/// for the admission control errors: the query did not even start, so this
/// is safe for writes too.
pub fn retryable_mysql_errno(errno: u32) -> (retry: bool)
    ensures
        retry == is_admission_control_errno(errno),
{
    match errno {
        1914..=1916 => true,
        _ => false,
    }
}

/// Whether a failure is one after which the query may be sent again.
pub open spec fn is_retryable(err: Option<MysqlError>) -> bool {
    match err {
        Some(MysqlError::ConnectionOperationError { mysql_errno }) => is_admission_control_errno(
            mysql_errno,
        ),
        Some(MysqlError::QueryResultError { mysql_errno }) => is_admission_control_errno(
            mysql_errno,
        ),
        _ => false,
    }
}

/// Whether a query that failed may be sent again. `err` is the failure as
/// the database client reported it, or `None` where the failure did not come
/// from the database client.
pub fn should_retry_mysql_query(err: Option<&MysqlError>) -> (retry: bool)
    ensures
        retry == is_retryable(
            match err {
                Some(e) => Some(*e),
                None => None,
            },
        ),
{
    match err {
        Some(MysqlError::ConnectionOperationError { mysql_errno }) => retryable_mysql_errno(
            *mysql_errno,
        ),
        Some(MysqlError::QueryResultError { mysql_errno }) => retryable_mysql_errno(*mysql_errno),
        _ => false,
    }
}

/// Whether a query is sent again after its attempt number `attempt`, counted
/// from 1, failed with `err`: retries are not switched off, the attempts are
/// not used up, and the failure is one that may be retried.
pub open spec fn retries_after(disabled: bool, attempt: usize, err: Option<MysqlError>) -> bool {
    !disabled && 1 <= attempt < RETRY_ATTEMPTS && is_retryable(err)
}

/// Decides whether a query is sent again after an attempt failed.
pub fn should_attempt_again(disabled: bool, attempt: usize, err: Option<&MysqlError>) -> (again:
    bool)
    ensures
        again == retries_after(
            disabled,
            attempt,
            match err {
                Some(e) => Some(*e),
                None => None,
            },
        ),
{
    !disabled && 1 <= attempt && attempt < RETRY_ATTEMPTS && should_retry_mysql_query(err)
}

} // verus!
