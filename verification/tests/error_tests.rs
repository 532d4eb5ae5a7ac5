use authy_gateway::errors::AppError;

#[test]
fn test_auth_error_response() {
    let error = AppError::Auth("Invalid token".to_string());
    assert_eq!(error.status_code(), 401);
    assert_eq!(error.message().as_str(), "Invalid token");
}

#[test]
fn test_unauthorized_error_response() {
    let error = AppError::Unauthorized {
        message: "Invalid token".to_string(),
        client_ip: "192.168.1.1".to_string(),
        path: "/protected".to_string(),
    };
    assert_eq!(error.status_code(), 401);
    assert_eq!(error.message().as_str(), "Invalid token");
}

#[test]
fn test_config_error_response() {
    let error = AppError::Config("environment variable not found".to_string());
    assert_eq!(error.status_code(), 500);
    assert_eq!(error.message().as_str(), "environment variable not found");
}

#[test]
fn test_request_error_response() {
    let error = AppError::Request("error sending request".to_string());
    assert_eq!(error.status_code(), 502);
    assert!(error.message().contains("error"));
}

#[test]
fn test_internal_error_response() {
    let error = AppError::Internal("Server error".to_string());
    assert_eq!(error.status_code(), 500);
    assert_eq!(error.message().as_str(), "Server error");
}
