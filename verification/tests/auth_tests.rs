use authy_gateway::auth::{
    begin_callback, begin_login, build_token_request, finish_callback, interpret_exchange_status,
    AuthCallback, TokenResponse,
};
use authy_gateway::config::Config;
use authy_gateway::errors::AppError;

fn create_test_config(cognito_domain: String) -> Config {
    Config {
        cognito_domain,
        cognito_client_id: "test-client-id".to_string(),
        cognito_client_secret: "test-client-secret".to_string(),
        server_domain: "http://localhost:3000".to_string(),
        protected_website_url: "https://test-website.com".to_string(),
        port: 3000,
        cors_allowed_origins: vec!["*".to_string()],
        behind_proxy: false,
    }
}

#[test]
fn test_login_redirect() {
    let config = create_test_config("https://test.auth.region.amazoncognito.com".to_string());

    let location = begin_login(&config);

    assert!(location.starts_with("https://test.auth.region.amazoncognito.com/login"));
    assert!(location.contains("client_id=test-client-id"));
    assert!(location.contains("response_type=code"));
    assert!(location.contains("scope=openid"));
    assert!(location.contains("redirect_uri=http%3A%2F%2Flocalhost%3A3000%2Fcallback"));
}

#[test]
fn test_login_redirect_exact() {
    let config = create_test_config("https://test.auth.region.amazoncognito.com".to_string());
    assert_eq!(
        begin_login(&config),
        "https://test.auth.region.amazoncognito.com/login?client_id=test-client-id\
         &response_type=code&scope=openid&redirect_uri=http%3A%2F%2Flocalhost%3A3000%2Fcallback"
    );
}

#[test]
fn test_callback_no_code() {
    let params = AuthCallback { code: None, error: None };

    let result = begin_callback(&params);
    assert!(matches!(result, Err(AppError::Auth(msg)) if msg == "No authorization code provided"));
}

#[test]
fn test_callback_no_code_with_error() {
    // Code absence is checked first, even when the provider also sent an
    // error string.
    let params = AuthCallback { code: None, error: Some("access_denied".to_string()) };

    let result = begin_callback(&params);
    assert!(matches!(result, Err(AppError::Auth(msg)) if msg == "No authorization code provided"));
}

#[test]
fn test_callback_with_error() {
    let params = AuthCallback {
        code: Some("test-code".to_string()),
        error: Some("access_denied".to_string()),
    };

    let result = begin_callback(&params);
    assert!(matches!(result, Err(AppError::Auth(msg)) if msg == "access_denied"));
}

#[test]
fn test_callback_with_code() {
    let params = AuthCallback { code: Some("test-code".to_string()), error: None };
    assert_eq!(begin_callback(&params).unwrap(), "test-code");
}

#[test]
fn test_exchange_code_request_plan() {
    let config = create_test_config("https://test.auth.amazoncognito.com".to_string());
    let plan = build_token_request(&config, "test-code");
    assert_eq!(plan.url, "https://test.auth.amazoncognito.com/oauth2/token");
    assert_eq!(plan.basic_user, "test-client-id");
    assert_eq!(plan.basic_pass, "test-client-secret");
    assert_eq!(
        plan.form_body,
        "grant_type=authorization_code&client_id=test-client-id&code=test-code\
         &redirect_uri=http%3A%2F%2Flocalhost%3A3000%2Fcallback"
    );
}

#[test]
fn test_exchange_code_success() {
    assert!(interpret_exchange_status(200, "").is_ok());
    assert!(interpret_exchange_status(204, "").is_ok());
}

#[test]
fn test_exchange_code_failure() {
    let result = interpret_exchange_status(400, "invalid_grant");
    assert!(matches!(result, Err(AppError::Auth(msg)) if msg == "invalid_grant"));
}

#[test]
fn test_finish_callback_redirect_with_cookie() {
    let config = create_test_config("https://test.auth.amazoncognito.com".to_string());
    let token = TokenResponse {
        access_token: "test-access-token".to_string(),
        token_type: "Bearer".to_string(),
        expires_in: 3600,
        id_token: Some("test-id-token".to_string()),
    };
    let response = finish_callback(&config, &token);
    assert_eq!(response.status, 302);
    assert_eq!(response.location, "https://test-website.com");
    // The gateway's own domain is plain HTTP here, so no Secure attribute.
    assert_eq!(
        response.set_cookie,
        "authy_session=test-access-token; Path=/; HttpOnly; SameSite=Lax"
    );
}

#[test]
fn test_finish_callback_secure_on_https() {
    let mut config = create_test_config("https://test.auth.amazoncognito.com".to_string());
    config.server_domain = "https://gateway.example.com".to_string();
    let token = TokenResponse {
        access_token: "tok".to_string(),
        token_type: "Bearer".to_string(),
        expires_in: 3600,
        id_token: None,
    };
    let response = finish_callback(&config, &token);
    assert_eq!(
        response.set_cookie,
        "authy_session=tok; Path=/; HttpOnly; SameSite=Lax; Secure"
    );
}

#[test]
fn test_config_validation() {
    let config = create_test_config("https://test.auth.amazoncognito.com".to_string());
    assert!(config.validate());

    let mut bad = create_test_config("ftp://test.example.com".to_string());
    assert!(!bad.validate());
    bad.cognito_domain = "https://idp.example.com/?x=1".to_string();
    assert!(!bad.validate());
}
