use authy_gateway::cookies::{cookie_lookup, create_session_cookie, rewrite_set_cookie, SameSite};

const SESSION_COOKIE_NAME: &str = "authy_session";

#[test]
fn test_create_session_cookie() {
    let token = "test.token.here";
    let cookie = create_session_cookie(token, true);
    assert_eq!(cookie.name().as_str(), SESSION_COOKIE_NAME);
    assert_eq!(cookie.value().as_str(), token);
    assert_eq!(cookie.secure(), Some(true));
    assert_eq!(cookie.http_only(), Some(true));
    assert_eq!(cookie.same_site(), Some(SameSite::Lax));

    let cookie = create_session_cookie(token, false);
    assert_eq!(cookie.secure(), Some(false));
}

#[test]
fn test_session_cookie_serialization() {
    let cookie = create_session_cookie("tok", true);
    assert_eq!(
        cookie.serialize(),
        "authy_session=tok; Path=/; HttpOnly; SameSite=Lax; Secure"
    );
    assert_eq!(cookie.path().as_str(), "/");
}

#[test]
fn test_cookie_round_trip() {
    // What the issuer embeds is what the Cookie header gives back.
    let token = "eyJhbGciOiJSUzI1NiJ9.eyJzdWIiOiJ4In0.c2ln";
    let cookie = create_session_cookie(token, false);
    let sent_back = format!("{}={}", cookie.name(), cookie.value());
    assert_eq!(cookie_lookup(&sent_back, "authy_session").as_deref(), Some(token));
}

#[test]
fn test_cookie_lookup_parsing() {
    assert_eq!(
        cookie_lookup("a=1; authy_session=x; b=2", "authy_session").as_deref(),
        Some("x")
    );
    // Surrounding spaces are trimmed; the last occurrence wins.
    assert_eq!(
        cookie_lookup("  authy_session =  x ", "authy_session").as_deref(),
        Some("x")
    );
    assert_eq!(
        cookie_lookup("authy_session=first; authy_session=second", "authy_session").as_deref(),
        Some("second")
    );
    // A value may itself hold `=`.
    assert_eq!(
        cookie_lookup("authy_session=a=b", "authy_session").as_deref(),
        Some("a=b")
    );
    assert_eq!(cookie_lookup("other=1", "authy_session"), None);
    assert_eq!(cookie_lookup("=nameless", "authy_session"), None);
}

#[test]
fn test_rewrite_set_cookie_overrides_attributes() {
    // Existing Secure and SameSite attributes are overridden, others kept.
    assert_eq!(
        rewrite_set_cookie("id=7; Path=/app; secure; SameSite=Strict; Max-Age=60", true).as_deref(),
        Some("id=7; Path=/app; Max-Age=60; Secure; SameSite=Lax")
    );
    assert_eq!(
        rewrite_set_cookie("id=7", false).as_deref(),
        Some("id=7; SameSite=Lax")
    );
    // A value without a name=value start is forwarded untouched.
    assert_eq!(rewrite_set_cookie("garbage", true), None);
}
