use checkout::retry::{
    retryable_mysql_errno, should_attempt_again, should_retry_mysql_query, MysqlError,
    RETRY_ATTEMPTS,
};

#[test]
fn admission_control_errors_are_retryable() {
    assert!(!retryable_mysql_errno(0));
    assert!(!retryable_mysql_errno(1913));
    assert!(retryable_mysql_errno(1914));
    assert!(retryable_mysql_errno(1915));
    assert!(retryable_mysql_errno(1916));
    assert!(!retryable_mysql_errno(1917));
    assert!(!retryable_mysql_errno(u32::MAX));
}

#[test]
fn only_client_errors_with_a_retryable_number_are_retried() {
    assert!(should_retry_mysql_query(Some(&MysqlError::ConnectionOperationError {
        mysql_errno: 1914
    })));
    assert!(should_retry_mysql_query(Some(&MysqlError::QueryResultError { mysql_errno: 1916 })));
    assert!(!should_retry_mysql_query(Some(&MysqlError::QueryResultError { mysql_errno: 1045 })));
    assert!(!should_retry_mysql_query(Some(&MysqlError::ConnectionOperationError {
        mysql_errno: 2002
    })));
    assert!(!should_retry_mysql_query(Some(&MysqlError::Other)));
    assert!(!should_retry_mysql_query(None));
}

#[test]
fn a_query_gets_two_attempts() {
    assert_eq!(RETRY_ATTEMPTS, 2);
    let retryable = MysqlError::QueryResultError { mysql_errno: 1915 };
    assert!(should_attempt_again(false, 1, Some(&retryable)));
    assert!(!should_attempt_again(false, 2, Some(&retryable)));
    assert!(!should_attempt_again(false, 0, Some(&retryable)));
    assert!(!should_attempt_again(true, 1, Some(&retryable)));
    assert!(!should_attempt_again(false, 1, Some(&MysqlError::Other)));
    assert!(!should_attempt_again(false, 1, None));
}
