use csrf_guard::Csrf;
use csrf_guard::CsrfEndpoint;
use csrf_guard::CsrfVerifier;

const KEY: [u8; 32] = [7u8; 32];

fn app() -> CsrfEndpoint {
    Csrf::new().key(KEY).transform()
}

/// A login handler enforcing the token check: reject when no token was
/// submitted, otherwise ask the verifier.
fn login(verifier: &CsrfVerifier, submitted: Option<&str>) -> Result<&'static str, &'static str> {
    let token = submitted.ok_or("missing token")?;
    if verifier.is_valid(token) {
        Ok("ok")
    } else {
        Err("invalid token")
    }
}

#[test]
fn test_csrf() {
    let app = app();

    for _ in 0..5 {
        let get = app.call(None);
        let cookie = get.cookie.value;
        let token = get.token.0;

        let post = app.call(Some(cookie.as_str()));
        let resp = login(&post.verifier, Some(token.as_str())).expect("POST should succeed");
        assert_eq!(resp, "ok");
    }

    let get = app.call(None);
    let cookie = get.cookie.value;
    let mut token = base64::decode(get.token.0).unwrap();
    token[0] = token[0].wrapping_add(1);

    let post = app.call(Some(cookie.as_str()));
    let resp = login(&post.verifier, Some(base64::encode(token).as_str()));
    assert_eq!(resp, Err("invalid token"));
}

#[test]
fn post_with_token_but_no_cookie_always_fails() {
    let app = app();

    let get = app.call(None);
    let token = get.token.0;

    let post = app.call(None);
    let resp = login(&post.verifier, Some(token.as_str()));
    assert_eq!(resp, Err("invalid token"));
}

#[test]
fn post_without_token_reports_missing() {
    let app = app();

    let get = app.call(None);
    let cookie = get.cookie.value;

    let post = app.call(Some(cookie.as_str()));
    let resp = login(&post.verifier, None);
    assert_eq!(resp, Err("missing token"));
}

#[test]
fn token_stays_valid_while_cookie_rotates() {
    let app = app();

    let get = app.call(None);
    let token = get.token.0;
    let mut cookie = get.cookie.value;

    for _ in 0..3 {
        let next = app.call(Some(cookie.as_str()));
        assert!(next.verifier.is_valid(token.as_str()), "old token must stay valid");
        assert_ne!(next.cookie.value, cookie, "the outward cookie must rotate");
        cookie = next.cookie.value;
    }
}

#[test]
fn tampered_cookie_yields_unbound_session() {
    let app = app();

    let get = app.call(None);
    let token = get.token.0;
    let mut raw = base64::decode(get.cookie.value).unwrap();
    raw[20] ^= 0x01;
    let bad_cookie = base64::encode(raw);

    let post = app.call(Some(bad_cookie.as_str()));
    assert!(!post.verifier.is_valid(token.as_str()));
}

#[test]
fn garbled_cookie_value_yields_unbound_session() {
    let app = app();

    let get = app.call(None);
    let token = get.token.0;

    let post = app.call(Some("%%% not base64 %%%"));
    assert!(!post.verifier.is_valid(token.as_str()));
}

#[test]
fn garbled_token_is_rejected() {
    let app = app();

    let get = app.call(None);
    let cookie = get.cookie.value;

    let post = app.call(Some(cookie.as_str()));
    assert!(!post.verifier.is_valid("%%% not base64 %%%"));
    assert!(!post.verifier.is_valid(""));
}

#[test]
fn fresh_sessions_differ() {
    let app = app();

    let a = app.call(None);
    let b = app.call(None);
    assert_ne!(a.token.0, b.token.0);
    assert_ne!(a.cookie.value, b.cookie.value);

    // A token belongs to its own session, not to an unrelated one.
    let replay = app.call(Some(a.cookie.value.as_str()));
    assert!(replay.verifier.is_valid(a.token.0.as_str()));
    assert!(!replay.verifier.is_valid(b.token.0.as_str()));
}
