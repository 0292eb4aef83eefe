use stream_alerts::config::{
    Config, DEFAULT_MAX_STREAMS_PER_USER, MAX_API_RETRIES, RATE_LIMIT_DELAY_MS,
    RECONNECT_DELAY_SECS, RETRY_BASE_DELAY_MS,
};

#[test]
fn constants_have_their_values() {
    assert_eq!(RATE_LIMIT_DELAY_MS, 100);
    assert_eq!(RECONNECT_DELAY_SECS, 5);
    assert_eq!(MAX_API_RETRIES, 3);
    assert_eq!(RETRY_BASE_DELAY_MS, 100);
    assert_eq!(DEFAULT_MAX_STREAMS_PER_USER, 3);
}

#[test]
fn setting_is_parsed_as_a_number() {
    assert_eq!(Config::from_setting(Some("7")).max_streams_per_user, 7);
    assert_eq!(Config::from_setting(Some("-2")).max_streams_per_user, -2);
    assert_eq!(Config::from_setting(Some("+12")).max_streams_per_user, 12);
}

#[test]
fn missing_or_bad_setting_gives_the_default() {
    assert_eq!(Config::from_setting(None).max_streams_per_user, 3);
    assert_eq!(Config::from_setting(Some("")).max_streams_per_user, 3);
    assert_eq!(Config::from_setting(Some("many")).max_streams_per_user, 3);
    assert_eq!(Config::from_setting(Some(" 7")).max_streams_per_user, 3);
    assert_eq!(Config::from_setting(Some("99999999999999999999")).max_streams_per_user, 3);
}

#[test]
fn with_limit_takes_the_limit_or_the_default() {
    assert_eq!(Config::with_limit(Some(9)), Config { max_streams_per_user: 9 });
    assert_eq!(Config::with_limit(None), Config { max_streams_per_user: 3 });
}
