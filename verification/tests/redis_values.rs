use reredis::RedisErrorValue;

#[test]
fn redis_values_redis_error_contains_correct_two_parts() {
    let error = RedisErrorValue::new("TEST This tests that the error struct works");

    assert_eq!(Some("TEST"), error.kind());
    assert_eq!(
        Some("This tests that the error struct works"),
        error.message()
    )
}

#[test]
fn redis_response_redis_error_contains_correct_two_parts() {
    let error = RedisErrorValue::new("TEST This tests that the error struct works");

    assert_eq!(Some("TEST"), error.kind());
    assert_eq!(
        Some("This tests that the error struct works"),
        error.message()
    )
}
