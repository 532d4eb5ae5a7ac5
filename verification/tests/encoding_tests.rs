use authy_gateway::encoding::{b64url_decode, form_urlencode};

#[test]
fn test_form_urlencode_passthrough() {
    assert_eq!(form_urlencode("abc-XYZ.0_9*"), "abc-XYZ.0_9*");
}

#[test]
fn test_form_urlencode_reserved() {
    assert_eq!(
        form_urlencode("http://localhost:3000/callback"),
        "http%3A%2F%2Flocalhost%3A3000%2Fcallback"
    );
    assert_eq!(form_urlencode("a b&c=d"), "a+b%26c%3Dd");
}

#[test]
fn test_b64url_decode_exact() {
    assert_eq!(b64url_decode("TWFu").unwrap(), b"Man".to_vec());
    assert_eq!(b64url_decode("TWE").unwrap(), b"Ma".to_vec());
    assert_eq!(b64url_decode("TQ").unwrap(), b"M".to_vec());
    assert_eq!(b64url_decode("").unwrap(), Vec::<u8>::new());
    // The URL-safe alphabet: `-` is 62 and `_` is 63.
    assert_eq!(b64url_decode("-_8").unwrap(), vec![0xfbu8, 0xffu8]);
}

#[test]
fn test_b64url_decode_rejects() {
    // Padding, non-alphabet characters, a lone trailing character, and
    // nonzero unused bits are all rejected.
    assert!(b64url_decode("TWFu==").is_none());
    assert!(b64url_decode("TWF!").is_none());
    assert!(b64url_decode("TWFuX").is_none());
    assert!(b64url_decode("TR").is_none());
}

#[test]
fn test_b64url_decode_matches_token_payload() {
    // The middle segment of a compact JWT is the claims document.
    let payload = b64url_decode("eyJzdWIiOiJ4In0").unwrap();
    assert_eq!(payload, b"{\"sub\":\"x\"}".to_vec());
}
