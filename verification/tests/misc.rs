//! Session-level behaviour: status decoding, timeout merging and cookie
//! handling, against simulated driver responses.

use thirtyfour::{
    decode_protocol_error, decode_status, Cookie, FormatRequestData, Json, RequestMethod, SameSite,
    SessionId, TimeoutConfiguration, WebDriverError,
};

fn obj(entries: Vec<(&str, Json)>) -> Json {
    Json::Object(entries.into_iter().map(|(k, v)| (k.to_string(), v)).collect())
}

/// What a driver's status endpoint reports while one session is open:
/// a driver that supports only a single session is not ready for more,
/// a multi-session driver stays ready.
fn driver_status(browser: &str) -> Json {
    let single_session = browser != "chrome";
    let ready = !single_session;
    obj(vec![(
        "value",
        obj(vec![
            ("ready", Json::Bool(ready)),
            ("message", Json::Str("ok".to_string())),
        ]),
    )])
}

#[test]
fn test_status_firefox() {
    // Geckodriver only supports a single session, and since we're already in a
    // session, it should return `false` here.
    let body = driver_status("firefix");
    let status = decode_status(&body).expect("status should decode");
    assert!(!status.ready);

    let session = SessionId::new("sess-1".to_string());
    let req = thirtyfour::Command::Status.format_request(&session);
    assert_eq!(req.method, RequestMethod::Get);
    assert_eq!(req.path, "/status");
    assert!(req.body.is_none());
}

#[test]
fn test_status_chrome() {
    // Chromedriver supports multiple sessions, so it should always return
    // `true` here.
    let body = driver_status("chrome");
    let status = decode_status(&body).expect("status should decode");
    assert!(status.ready);
}

#[test]
fn status_decoding_error() {
    let body = Json::Str("not a status response".to_string());
    assert_eq!(decode_status(&body), Err(WebDriverError::Decoding));

    let no_ready = obj(vec![("value", obj(vec![("message", Json::Str("x".to_string()))]))]);
    assert_eq!(decode_status(&no_ready), Err(WebDriverError::Decoding));
}

#[test]
fn timeouts_partial_updates_in_sequence() {
    // Start with {script: 60s, page_load: 60s, implicit: 30s}.
    let mut current = TimeoutConfiguration::new(Some(60_000), Some(60_000), Some(30_000));

    // Apply {implicit: 0s}: the other fields stay untouched.
    let update = TimeoutConfiguration::new(None, None, Some(0));
    current = current.merge(&update);
    assert_eq!(current, TimeoutConfiguration::new(Some(60_000), Some(60_000), Some(0)));

    // Apply {implicit: 10s}: still nothing else changes.
    let update = TimeoutConfiguration::new(None, None, Some(10_000));
    current = current.merge(&update);
    assert_eq!(current, TimeoutConfiguration::new(Some(60_000), Some(60_000), Some(10_000)));

    // Apply {page_load: 10s}, then {script: 10s}.
    let update = TimeoutConfiguration::new(None, Some(10_000), None);
    current = current.merge(&update);
    assert_eq!(current, TimeoutConfiguration::new(Some(60_000), Some(10_000), Some(10_000)));

    let update = TimeoutConfiguration::new(Some(10_000), None, None);
    current = current.merge(&update);
    assert_eq!(current, TimeoutConfiguration::new(Some(10_000), Some(10_000), Some(10_000)));

    assert_eq!(current.script(), Some(10_000));
    assert_eq!(current.page_load(), Some(10_000));
    assert_eq!(current.implicit(), Some(10_000));
}

#[test]
fn update_timeouts_sends_full_merged_record() {
    // Read-modify-write: the partial update {implicit: 0} rides on the
    // current full configuration, and the wire body carries all three
    // fields.
    let current = TimeoutConfiguration::new(Some(60_000), Some(60_000), Some(30_000));
    let partial = TimeoutConfiguration::new(None, None, Some(0));
    let session = SessionId::new("sess-7".to_string());
    let req = thirtyfour::update_timeouts_request(&current, &partial, &session);
    assert_eq!(req.method, RequestMethod::Post);
    assert_eq!(req.path, "/session/sess-7/timeouts");
    assert_eq!(
        req.body,
        Some(obj(vec![
            ("script", Json::Int(60_000)),
            ("pageLoad", Json::Int(60_000)),
            ("implicit", Json::Int(0)),
        ]))
    );
}

#[test]
fn timeouts_body_field_names() {
    let t = TimeoutConfiguration::new(Some(1), None, Some(3));
    let body = thirtyfour::timeouts_body(&t);
    assert_eq!(
        body,
        obj(vec![("script", Json::Int(1)), ("implicit", Json::Int(3))])
    );
}

#[test]
fn add_cookie_body_exact_fields() {
    let mut cookie = Cookie::new("cookietest".to_string(), "thirtyfour".to_string());
    cookie.set_domain(".wikipedia.org".to_string());
    cookie.set_path("/".to_string());
    cookie.set_same_site(SameSite::Lax);

    assert_eq!(cookie.name, "cookietest");
    assert_eq!(cookie.value, "thirtyfour");

    let session = SessionId::new("sess-9".to_string());
    let req = thirtyfour::Command::AddCookie(cookie).format_request(&session);
    assert_eq!(req.method, RequestMethod::Post);
    assert_eq!(req.path, "/session/sess-9/cookie");
    let expected = obj(vec![(
        "cookie",
        obj(vec![
            ("name", Json::Str("cookietest".to_string())),
            ("value", Json::Str("thirtyfour".to_string())),
            ("path", Json::Str("/".to_string())),
            ("domain", Json::Str(".wikipedia.org".to_string())),
            ("sameSite", Json::Str("Lax".to_string())),
        ]),
    )]);
    assert_eq!(req.body, Some(expected));
}

#[test]
fn named_cookie_not_found_is_protocol_error() {
    // Fetching a deleted cookie by name: the server reports a protocol
    // error, which decodes into its code and message.
    let session = SessionId::new("sess-9".to_string());
    let req = thirtyfour::Command::GetNamedCookie("cookietest".to_string())
        .format_request(&session);
    assert_eq!(req.method, RequestMethod::Get);
    assert_eq!(req.path, "/session/sess-9/cookie/cookietest");

    let response = obj(vec![(
        "value",
        obj(vec![
            ("error", Json::Str("no such cookie".to_string())),
            ("message", Json::Str("no cookie with name cookietest".to_string())),
        ]),
    )]);
    let err = decode_protocol_error(&response);
    assert_eq!(
        err,
        WebDriverError::Protocol {
            error: "no such cookie".to_string(),
            message: "no cookie with name cookietest".to_string(),
        }
    );
}

#[test]
fn cookie_full_record_body() {
    let mut cookie = Cookie::new("a".to_string(), "b".to_string());
    cookie.set_path("/p".to_string());
    cookie.set_domain("example.org".to_string());
    cookie.set_secure(true);
    cookie.set_http_only(false);
    cookie.set_expiry(1_700_000_000);
    cookie.set_same_site(SameSite::NoRestriction);
    let body = thirtyfour::cookie_body(&cookie);
    assert_eq!(
        body,
        obj(vec![
            ("name", Json::Str("a".to_string())),
            ("value", Json::Str("b".to_string())),
            ("path", Json::Str("/p".to_string())),
            ("domain", Json::Str("example.org".to_string())),
            ("secure", Json::Bool(true)),
            ("httpOnly", Json::Bool(false)),
            ("expiry", Json::Int(1_700_000_000)),
            ("sameSite", Json::Str("None".to_string())),
        ])
    );
}
