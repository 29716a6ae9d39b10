use rust_starter::web::session::{
    check_session, extractor_session_token, find_session_token, middleware_session_token,
    require_session_token,
};
use rust_starter::web::todo::ErrorKind;

#[test]
fn middleware_reads_the_auth_cookie_or_the_session_cookie() {
    assert_eq!(
        middleware_session_token("theme=dark; better-auth.session-token=abc123; x=1").as_deref(),
        Some("abc123")
    );
    assert_eq!(middleware_session_token("session=s1").as_deref(), Some("s1"));
    assert_eq!(middleware_session_token("a=1;b=2"), None);
    assert_eq!(middleware_session_token(""), None);
}

#[test]
fn the_first_matching_cookie_wins() {
    assert_eq!(
        middleware_session_token("session=first; better-auth.session-token=second").as_deref(),
        Some("first")
    );
}

#[test]
fn cookies_are_trimmed_and_repeated_prefixes_stripped() {
    assert_eq!(middleware_session_token("  session=tok  ;other=1").as_deref(), Some("tok"));
    assert_eq!(middleware_session_token("session=session=tok").as_deref(), Some("tok"));
    assert_eq!(middleware_session_token("session=").as_deref(), Some(""));
    assert_eq!(middleware_session_token("xsession=tok"), None);
}

#[test]
fn the_extractor_accepts_only_the_session_cookie() {
    assert_eq!(extractor_session_token("better-auth.session-token=abc"), None);
    assert_eq!(extractor_session_token("a=b; session=xyz").as_deref(), Some("xyz"));
}

#[test]
fn custom_prefixes_are_tried_in_order() {
    let prefixes = vec!["b=".chars().collect::<Vec<char>>(), "a=".chars().collect()];
    assert_eq!(find_session_token("a=1; b=2", &prefixes).as_deref(), Some("1"));
    assert_eq!(find_session_token("c=1", &prefixes), None);
}

#[test]
fn the_middleware_refuses_requests_without_a_session_cookie() {
    let e = require_session_token(None).unwrap_err();
    assert_eq!(e.kind, ErrorKind::Unauthorized);
    assert_eq!(e.message, "missing session cookie");
    assert_eq!(e.status_code(), 401);
    let e = require_session_token(Some("theme=dark")).unwrap_err();
    assert_eq!(e.message, "missing session cookie");
    assert_eq!(require_session_token(Some("session=abc")).unwrap(), "abc");
}

#[test]
fn only_a_found_session_passes() {
    assert!(check_session::<u8, String>(Ok(Some(1))).is_ok());
    let e = check_session::<u8, String>(Ok(None)).unwrap_err();
    assert_eq!(e.message, "invalid or expired session");
    assert_eq!(e.status_code(), 401);
    let e = check_session::<u8, String>(Err("db down".into())).unwrap_err();
    assert_eq!(e.kind, ErrorKind::Unauthorized);
}
