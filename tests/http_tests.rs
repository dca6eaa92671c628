use edgar_rs::error::EdgarApiError;
use edgar_rs::http::HttpResponse;

fn response(status: u16, headers: &[(&str, &str)]) -> HttpResponse {
    HttpResponse {
        status,
        headers: headers.iter().map(|(k, v)| (k.to_string(), v.to_string())).collect(),
        body: b"{}".to_vec(),
    }
}

#[test]
fn rate_limited_with_retry_after() {
    let r = response(429, &[("content-type", "application/json"), ("retry-after", "30")]);
    match r.check_status("https://x") {
        Err(EdgarApiError::RateLimitExceeded { retry_after }) => assert_eq!(retry_after, Some(30)),
        other => panic!("unexpected {:?}", other),
    }
}

#[test]
fn rate_limited_without_retry_after() {
    let r = response(429, &[]);
    match r.check_status("https://x") {
        Err(EdgarApiError::RateLimitExceeded { retry_after }) => assert_eq!(retry_after, None),
        other => panic!("unexpected {:?}", other),
    }
    let r = response(429, &[("retry-after", "Wed, 21 Oct 2015 07:28:00 GMT")]);
    match r.check_status("https://x") {
        Err(EdgarApiError::RateLimitExceeded { retry_after }) => assert_eq!(retry_after, None),
        other => panic!("unexpected {:?}", other),
    }
}

#[test]
fn server_error_is_transient() {
    let r = response(500, &[]);
    let e = r.check_status("https://data.sec.gov/x.json").unwrap_err();
    match &e {
        EdgarApiError::ApiError { status, message } => {
            assert_eq!(*status, 500);
            assert_eq!(message, "Request to https://data.sec.gov/x.json failed with status 500");
        }
        other => panic!("unexpected {:?}", other),
    }
    assert!(e.is_transient());
}

#[test]
fn not_found_is_not_transient() {
    let e = response(404, &[]).check_status("u").unwrap_err();
    match &e {
        EdgarApiError::ApiError { status, .. } => assert_eq!(*status, 404),
        other => panic!("unexpected {:?}", other),
    }
    assert!(!e.is_transient());
    assert!(!e.is_rate_limited());
}

#[test]
fn success_statuses_pass() {
    assert_eq!(response(200, &[]).check_status("u").unwrap(), 200);
    assert_eq!(response(299, &[]).check_status("u").unwrap(), 299);
    assert!(response(300, &[]).check_status("u").is_err());
    assert!(response(199, &[]).check_status("u").is_err());
    assert!(response(200, &[]).is_success());
    assert!(!response(404, &[]).is_success());
    assert_eq!(response(200, &[]).bytes(), b"{}");
}

#[test]
fn header_lookup_takes_first_match() {
    let r = response(200, &[("a", "1"), ("retry-after", "+7"), ("retry-after", "9")]);
    assert_eq!(r.header("a"), Some("1".to_string()));
    assert_eq!(r.header("b"), None);
    assert_eq!(r.retry_after(), Some(7));
    let big = response(429, &[("retry-after", "18446744073709551616")]);
    assert_eq!(big.retry_after(), None);
    let max = response(429, &[("retry-after", "18446744073709551615")]);
    assert_eq!(max.retry_after(), Some(u64::MAX));
}

#[test]
fn error_classification() {
    assert!(EdgarApiError::network("down").is_transient());
    assert!(EdgarApiError::rate_limit(None).is_transient());
    assert!(EdgarApiError::rate_limit(Some(3)).is_rate_limited());
    assert!(EdgarApiError::api(503, "x").is_transient());
    assert!(EdgarApiError::api(429, "x").is_transient());
    assert!(EdgarApiError::api(429, "x").is_rate_limited());
    assert!(!EdgarApiError::api(400, "x").is_transient());
    assert!(!EdgarApiError::parse("bad").is_transient());
    assert!(!EdgarApiError::request("bad").is_transient());
    assert!(!EdgarApiError::invalid_cik("abc").is_transient());
    assert!(!EdgarApiError::zip("bad").is_transient());
    match EdgarApiError::invalid_cik("abc") {
        EdgarApiError::InvalidCik(m) => assert_eq!(m, "abc"),
        other => panic!("unexpected {:?}", other),
    }
}
