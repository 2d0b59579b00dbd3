use biq::error::AppError;
use biq::validation::{check_query_length, identifier, within_daily_quota};

#[test]
fn rejects_redis_key_injection() {
    assert!(!identifier("device:*"));
    assert!(!identifier(""));
    assert!(identifier("vehicle-123"));
}

#[test]
fn identifier_accepts_dots_and_underscores() {
    assert!(identifier("a.b_c-9"));
    assert!(!identifier("with space"));
    assert!(!identifier("ünïcode"));
}

#[test]
fn identifier_limits_length_to_128_bytes() {
    let ok = "a".repeat(128);
    let long = "a".repeat(129);
    assert!(identifier(&ok));
    assert!(!identifier(&long));
}

#[test]
fn long_queries_are_refused() {
    assert_eq!(check_query_length(&"q".repeat(500)), Ok(()));
    assert_eq!(
        check_query_length(&"q".repeat(501)),
        Err(AppError::BadRequest("Query is too long".to_string()))
    );
    // 250 two-byte characters are 500 bytes; one more makes 502.
    assert_eq!(check_query_length(&"é".repeat(250)), Ok(()));
    assert!(check_query_length(&"é".repeat(251)).is_err());
}

#[test]
fn daily_quota_refuses_past_the_limit() {
    assert_eq!(within_daily_quota(33, 33), Ok(()));
    assert_eq!(within_daily_quota(34, 33), Err(AppError::RateLimited));
    assert_eq!(within_daily_quota(-1, 0), Ok(()));
}
