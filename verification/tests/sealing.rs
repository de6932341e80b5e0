use csrf_guard::AeadContext;
use csrf_guard::Csrf;
use csrf_guard::SameSite;
use csrf_guard::SessionMaterial;
use csrf_guard::ValidationError;
use csrf_guard::MATERIAL_LEN;
use csrf_guard::MAX_TTL_SECONDS;
use csrf_guard::SEALED_COOKIE_LEN;
use csrf_guard::SEALED_TOKEN_LEN;

const KEY: [u8; 32] = [9u8; 32];

fn material(fill: u8) -> SessionMaterial {
    SessionMaterial::from_bytes(vec![fill; MATERIAL_LEN]).unwrap()
}

#[test]
fn seal_open_round_trip() {
    let ctx = AeadContext::from_key(KEY);
    let m = material(5);
    let sealed = ctx.seal(&m, 300);
    assert_eq!(sealed.len(), SEALED_COOKIE_LEN);
    let opened = ctx.open(&sealed).unwrap();
    assert_eq!(opened.as_bytes(), m.as_bytes());
}

#[test]
fn flipped_cookie_byte_is_tampered() {
    let ctx = AeadContext::from_key(KEY);
    let m = material(5);
    let mut sealed = ctx.seal(&m, 300);
    for i in [0usize, 13, 77, SEALED_COOKIE_LEN - 1] {
        sealed[i] ^= 0x01;
        assert!(matches!(ctx.open(&sealed), Err(ValidationError::Tampered)));
        sealed[i] ^= 0x01;
    }
    // Untouched again, it opens.
    assert!(ctx.open(&sealed).is_ok());
}

#[test]
fn wrong_shape_is_malformed() {
    let ctx = AeadContext::from_key(KEY);
    let m = material(5);
    let mut sealed = ctx.seal(&m, 300);
    sealed.pop();
    assert!(matches!(ctx.open(&sealed), Err(ValidationError::Malformed)));
    assert!(matches!(ctx.open(&Vec::new()), Err(ValidationError::Malformed)));
}

#[test]
fn opening_under_another_key_is_tampered() {
    let ctx = AeadContext::from_key(KEY);
    let other = AeadContext::from_key([1u8; 32]);
    let m = material(5);
    let sealed = ctx.seal(&m, 300);
    assert!(matches!(other.open(&sealed), Err(ValidationError::Tampered)));
}

#[test]
fn token_carries_its_material_only() {
    let ctx = AeadContext::from_key(KEY);
    let app = Csrf::new().key(KEY).transform();
    let m1 = material(1);
    let m2 = material(2);

    let token1 = base64::encode(ctx.seal_token(&m1));
    let token2 = base64::encode(ctx.seal_token(&m2));
    let cookie2 = base64::encode(ctx.seal(&m2, 300));

    let out = app.call(Some(cookie2.as_str()));
    assert!(!out.verifier.is_valid(token1.as_str()), "token of another session must fail");
    assert!(out.verifier.is_valid(token2.as_str()), "token of the same session must pass");
}

#[test]
fn expired_cookie_collapses_to_no_session() {
    let ctx = AeadContext::from_key(KEY);
    let app = Csrf::new().key(KEY).transform();
    let m = material(3);
    let token = base64::encode(ctx.seal_token(&m));

    let fresh_cookie = base64::encode(ctx.seal(&m, 300));
    let stale_cookie = base64::encode(ctx.seal(&m, -1));

    let with_fresh = app.call(Some(fresh_cookie.as_str()));
    assert!(with_fresh.verifier.is_valid(token.as_str()));

    let with_stale = app.call(Some(stale_cookie.as_str()));
    assert!(!with_stale.verifier.is_valid(token.as_str()));
}

#[test]
fn material_size_is_checked() {
    assert!(SessionMaterial::from_bytes(vec![0u8; MATERIAL_LEN - 1]).is_none());
    assert!(SessionMaterial::from_bytes(vec![0u8; MATERIAL_LEN + 1]).is_none());
    assert!(SessionMaterial::from_bytes(vec![0u8; MATERIAL_LEN]).is_some());
}

#[test]
fn generated_pair_is_real_base64_of_sealed_values() {
    let app = Csrf::new().key(KEY).transform();
    let out = app.call(None);
    let token_raw = base64::decode(out.token.0).unwrap();
    let cookie_raw = base64::decode(out.cookie.value).unwrap();
    assert_eq!(token_raw.len(), SEALED_TOKEN_LEN);
    assert_eq!(cookie_raw.len(), SEALED_COOKIE_LEN);
}

#[test]
fn default_configuration() {
    let app = Csrf::new().transform();
    let out = app.call(None);
    assert_eq!(out.cookie.name, "poem-csrf-token");
    assert!(out.cookie.secure);
    assert!(out.cookie.http_only);
    assert_eq!(out.cookie.same_site, Some(SameSite::Strict));
    assert_eq!(out.cookie.max_age_seconds, 86400);
}

#[test]
fn huge_ttl_is_clamped_and_sealing_still_works() {
    let app = Csrf::new().key(KEY).ttl(u64::MAX).transform();
    let out = app.call(None);
    assert_eq!(out.cookie.max_age_seconds, MAX_TTL_SECONDS);
    assert!(base64::decode(out.cookie.value).unwrap().len() == SEALED_COOKIE_LEN);
}

#[test]
fn ttl_bound_endpoints_seal() {
    let ctx = AeadContext::from_key(KEY);
    let m = material(4);
    assert_eq!(ctx.seal(&m, MAX_TTL_SECONDS).len(), SEALED_COOKIE_LEN);
    assert_eq!(ctx.seal(&m, -MAX_TTL_SECONDS).len(), SEALED_COOKIE_LEN);
}

#[test]
fn builders_reach_the_outgoing_cookie() {
    let app = Csrf::new()
        .key(KEY)
        .secure(false)
        .http_only(false)
        .same_site(Some(SameSite::Lax))
        .ttl(60)
        .transform();
    let out = app.call(None);
    assert!(!out.cookie.secure);
    assert!(!out.cookie.http_only);
    assert_eq!(out.cookie.same_site, Some(SameSite::Lax));
    assert_eq!(out.cookie.max_age_seconds, 60);

    let none_site = Csrf::new().key(KEY).same_site(None).transform();
    let out = none_site.call(None);
    assert_eq!(out.cookie.same_site, None);
}
