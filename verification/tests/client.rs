use crustacean_states::client::{ClientState, RateLimitError, RateLimits, NANOS_PER_SECOND};
use http::header::{HeaderMap, HeaderValue};

fn header(headers: &HeaderMap, name: &str) -> Option<Vec<u8>> {
    headers.get(name).map(|v| v.as_bytes().to_vec())
}

fn limits_of(headers: &HeaderMap) -> Result<RateLimits, RateLimitError> {
    RateLimits::from_headers(
        header(headers, "RateLimit-Remaining"),
        header(headers, "RateLimit-Reset"),
        header(headers, "Retry-After"),
    )
}

#[test]
fn new_rate_limits() {
    let mut headers = HeaderMap::new();
    headers.insert("RateLimit-Remaining", HeaderValue::from(11));
    headers.insert("RateLimit-Reset", HeaderValue::from(25));

    let limits = limits_of(&headers).unwrap();
    assert_eq!(limits.remaining(), 11);
    assert_eq!(limits.reset(), 25);
    assert_eq!(limits.retry_after(), None);
}

#[test]
fn rate_limits_with_retry_after() {
    let mut headers = HeaderMap::new();
    headers.insert("RateLimit-Remaining", HeaderValue::from(11));
    headers.insert("RateLimit-Reset", HeaderValue::from(25));
    headers.insert("Retry-After", HeaderValue::from(7));

    let limits = limits_of(&headers).unwrap();
    assert_eq!(limits.remaining(), 11);
    assert_eq!(limits.reset(), 25);
    assert_eq!(limits.retry_after(), Some(7));
}

#[test]
fn missing_rate_limit_headers() {
    let mut headers = HeaderMap::new();
    headers.insert("RateLimit-Reset", HeaderValue::from(25));
    assert_eq!(
        limits_of(&headers),
        Err(RateLimitError::NoRateLimitElementError(String::from("Remaining")))
    );
    let mut headers = HeaderMap::new();
    headers.insert("RateLimit-Remaining", HeaderValue::from(3));
    assert_eq!(
        limits_of(&headers),
        Err(RateLimitError::NoRateLimitElementError(String::from("Reset")))
    );
}

#[test]
fn bad_rate_limit_values() {
    assert_eq!(
        RateLimits::from_headers(Some(b"300".to_vec()), Some(b"1".to_vec()), None),
        Err(RateLimitError::IntegerParseError(String::from("300")))
    );
    assert_eq!(
        RateLimits::from_headers(Some(b"1".to_vec()), Some(b"x".to_vec()), None),
        Err(RateLimitError::IntegerParseError(String::from("x")))
    );
    assert_eq!(
        RateLimits::from_headers(Some(vec![0xC3, 0xA4]), Some(b"1".to_vec()), None),
        Err(RateLimitError::ToStrError)
    );
    // std's parse takes a leading plus sign
    assert_eq!(
        RateLimits::from_headers(Some(b"+4".to_vec()), Some(b"1".to_vec()), None)
            .map(|l| l.remaining()),
        Ok(4)
    );
}

#[test]
fn exhausted_limits_make_the_client_wait() {
    let limits = RateLimits::from_headers(Some(b"0".to_vec()), Some(b"30".to_vec()), None).unwrap();
    assert_eq!(limits.wait_seconds(), Some(30));
    let mut state = ClientState::new();
    assert_eq!(state.check_send(0), Ok(()));
    let now = 5 * NANOS_PER_SECOND;
    state.record_response(limits, now);
    let until = now + 30 * NANOS_PER_SECOND;
    assert_eq!(state.last_sent, Some(now));
    assert_eq!(state.send_after, Some(until));
    assert_eq!(state.check_send(until - 1), Err(until));
    assert_eq!(state.check_send(until), Ok(()));
}

#[test]
fn retry_after_sets_the_wait() {
    let limits =
        RateLimits::from_headers(Some(b"4".to_vec()), Some(b"30".to_vec()), Some(b"7".to_vec()))
            .unwrap();
    assert_eq!(limits.wait_seconds(), Some(7));
    let mut state = ClientState::new();
    state.record_response(limits, 0);
    assert_eq!(state.send_after, Some(7 * NANOS_PER_SECOND));
}

#[test]
fn room_left_keeps_the_earlier_wait() {
    let limits = RateLimits::from_headers(Some(b"4".to_vec()), Some(b"30".to_vec()), None).unwrap();
    assert_eq!(limits.wait_seconds(), None);
    let mut state = ClientState::new();
    state.send_after = Some(100);
    state.record_response(limits, 50);
    assert_eq!(state.send_after, Some(100));
    assert_eq!(state.rate_limiter, Some(limits));
}
