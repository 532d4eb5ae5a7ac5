use authy_gateway::config::Config;
use authy_gateway::errors::AppError;
use authy_gateway::headers::{forwarded_host, is_hop_header_str, is_https_request, HeaderField};
use authy_gateway::proxy::{
    build_upstream_url, is_valid_method, plan_upstream_request, response_header_replacement,
    rewrite_response_headers, MAX_PROXY_BODY_BYTES,
};

fn create_test_config(url: String) -> Config {
    Config {
        cognito_domain: "https://test.auth.amazoncognito.com".to_string(),
        cognito_client_id: "test-client-id".to_string(),
        cognito_client_secret: "test-client-secret".to_string(),
        server_domain: "http://localhost:3000".to_string(),
        protected_website_url: url,
        port: 3000,
        cors_allowed_origins: vec!["https://app.example.com".to_string()],
        behind_proxy: false,
    }
}

fn header(name: &str, value: &str) -> HeaderField {
    HeaderField { name: name.to_string(), value: Some(value.to_string()) }
}

#[test]
fn test_is_hop_header() {
    assert!(is_hop_header_str("connection"));
    assert!(is_hop_header_str("keep-alive"));
    assert!(is_hop_header_str("proxy-authenticate"));
    assert!(is_hop_header_str("proxy-authorization"));
    assert!(is_hop_header_str("te"));
    assert!(is_hop_header_str("trailer"));
    assert!(is_hop_header_str("transfer-encoding"));
    assert!(is_hop_header_str("upgrade"));

    assert!(!is_hop_header_str("content-type"));
    assert!(!is_hop_header_str("authorization"));
    assert!(!is_hop_header_str("accept"));
}

#[test]
fn test_is_hop_header_ignores_case() {
    assert!(is_hop_header_str("Connection"));
    assert!(is_hop_header_str("TRANSFER-ENCODING"));
}

#[test]
fn test_proxy_request_with_query() {
    let config = create_test_config("http://backend.example.com".to_string());
    let plan = plan_upstream_request(&config, "GET", "/test", Some("param=value"), &vec![]).unwrap();
    assert_eq!(plan.url, "http://backend.example.com/test?param=value");
    assert!(!plan.is_https);
    assert!(plan.extra.is_empty());

    assert_eq!(
        build_upstream_url("http://b", "/test", None),
        "http://b/test"
    );
}

#[test]
fn test_proxy_request_strips_hop_headers() {
    let config = create_test_config("http://backend.example.com".to_string());
    let headers = vec![
        header("connection", "keep-alive"),
        header("accept", "text/plain"),
        header("Transfer-Encoding", "chunked"),
        header("host", "auth.example.com"),
    ];
    let plan = plan_upstream_request(&config, "GET", "/test", None, &headers).unwrap();
    assert_eq!(plan.kept, vec![1usize, 3usize]);
}

#[test]
fn test_proxy_request_invalid_method() {
    let config = create_test_config("http://backend.example.com".to_string());
    let result = plan_upstream_request(&config, "BAD METHOD", "/", None, &vec![]);
    assert!(matches!(result, Err(AppError::Internal(m)) if m == "Invalid method"));
    assert!(is_valid_method("PATCH"));
    assert!(!is_valid_method(""));
}

#[test]
fn test_proxy_request_forwarded_headers() {
    let mut config = create_test_config("http://backend.example.com".to_string());
    config.behind_proxy = true;
    let headers = vec![
        header("x-forwarded-proto", "https"),
        header("host", "auth.example.com"),
    ];
    let plan = plan_upstream_request(&config, "GET", "/secure", None, &headers).unwrap();
    assert!(plan.is_https);
    assert_eq!(plan.extra.len(), 2);
    assert_eq!(plan.extra[0].0, "x-forwarded-proto");
    assert_eq!(plan.extra[0].1, "https");
    assert_eq!(plan.extra[1].0, "x-forwarded-host");
    assert_eq!(plan.extra[1].1, "auth.example.com");
}

#[test]
fn test_is_https_request_needs_behind_proxy() {
    let headers = vec![header("x-forwarded-proto", "https")];
    assert!(!is_https_request(false, &headers));
    assert!(is_https_request(true, &headers));
    assert!(!is_https_request(true, &vec![header("x-forwarded-proto", "http")]));
    assert!(!is_https_request(true, &vec![]));
}

#[test]
fn test_forwarded_host_captures_last() {
    assert_eq!(forwarded_host(&vec![]), "");
    assert_eq!(
        forwarded_host(&vec![header("Host", "a.example.com"), header("host", "b.example.com")]),
        "b.example.com"
    );
}

#[test]
fn test_proxy_request_with_https_behind_proxy() {
    // Behind a TLS-terminating proxy, a backend cookie gains Secure and
    // SameSite=Lax on the way out.
    let h = header("set-cookie", "session=123; Path=/");
    let replacement = response_header_replacement(&h, true, true);
    let cookie = replacement.unwrap();
    assert!(cookie.contains("Secure"));
    assert!(cookie.contains("SameSite=Lax"));
    assert_eq!(cookie, "session=123; Path=/; Secure; SameSite=Lax");

    // Without an HTTPS client connection the cookie is not forced Secure.
    let replacement = response_header_replacement(&h, true, false);
    assert_eq!(replacement.unwrap(), "session=123; Path=/; SameSite=Lax");

    // Not behind a proxy, the value passes through untouched.
    assert!(response_header_replacement(&h, false, false).is_none());
}

#[test]
fn test_proxy_request_with_redirect() {
    let h = header("location", "http://backend.example.com/target");
    let replacement = response_header_replacement(&h, true, true);
    assert_eq!(replacement.unwrap(), "https://backend.example.com/target");

    // An already-secure redirect is left alone.
    let h = header("location", "https://backend.example.com/target");
    assert!(response_header_replacement(&h, true, true).is_none());

    // Without the HTTPS client connection nothing is rewritten.
    let h = header("location", "http://backend.example.com/target");
    assert!(response_header_replacement(&h, true, false).is_none());
}

#[test]
fn test_rewrite_response_headers_drops_hop_headers() {
    let headers = vec![
        header("content-type", "text/plain"),
        header("Connection", "close"),
        header("set-cookie", "a=1"),
        header("upgrade", "h2c"),
    ];
    let items = rewrite_response_headers(&headers, true, true);
    let indices: Vec<usize> = items.iter().map(|it| it.index).collect();
    assert_eq!(indices, vec![0usize, 2usize]);
    assert!(items[0].replacement.is_none());
    assert_eq!(items[1].replacement.as_deref(), Some("a=1; Secure; SameSite=Lax"));
}

#[test]
fn test_proxy_body_cap() {
    assert_eq!(MAX_PROXY_BODY_BYTES, 10 * 1024 * 1024);
}
