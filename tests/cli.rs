use todorust::{get_error_message, validate_priority, Config, OperationFailure, Result, TodoError};

#[test]
fn test_priority_validation() {
    assert!(validate_priority(1));
    assert!(validate_priority(4));
    assert!(!validate_priority(0));
    assert!(!validate_priority(5));
}

fn http(status: u16) -> TodoError {
    TodoError::Http { status, body: String::new() }
}

#[test]
fn test_get_error_message_config_not_found() {
    let err = TodoError::ConfigNotFound;
    let msg = get_error_message(&err);
    assert!(msg.contains("Configuration not found"));
}

#[test]
fn test_get_error_message_http_401() {
    let msg = get_error_message(&http(401));
    assert!(msg.contains("Unauthorized"));
}

#[test]
fn test_get_error_message_http_403() {
    let msg = get_error_message(&http(403));
    assert!(msg.contains("Forbidden"));
}

#[test]
fn test_get_error_message_http_429() {
    let msg = get_error_message(&http(429));
    assert!(msg.contains("Too Many Requests"));
}

#[test]
fn test_get_error_message_api() {
    let err = TodoError::Api("custom api error".to_string());
    let msg = get_error_message(&err);
    assert!(msg.contains("Todoist API Error: custom api error"));
}

#[test]
fn test_get_error_message_config() {
    let err = TodoError::Config("bad config".to_string());
    let msg = get_error_message(&err);
    assert!(msg.contains("Configuration Error: bad config"));
}

#[test]
fn test_get_error_message_serialize() {
    let err = TodoError::Serialize("json error".to_string());
    let msg = get_error_message(&err);
    assert!(msg.contains("Data Processing Error: json error"));
}

#[test]
fn test_get_error_message_http_404() {
    let msg = get_error_message(&http(404));
    assert!(msg.contains("Not Found"));
}

#[test]
fn test_get_error_message_http_other() {
    let msg = get_error_message(&http(500));
    assert!(msg.contains("HTTP 500"));
    assert_eq!(msg, "Error: Todoist API returned HTTP 500.");
}

#[test]
fn test_get_error_message_invalid_input() {
    let err = TodoError::InvalidInput("test input".to_string());
    let msg = get_error_message(&err);
    assert!(msg.contains("Invalid Input: test input"));
}

#[test]
fn test_get_error_message_request() {
    // A transport error carries the transport's message.
    let msg = get_error_message(&TodoError::Request("connection refused".to_string()));
    assert_eq!(msg, "Network Request Error: connection refused");
}

#[test]
fn batch_errors_name_the_operations() {
    let failed = TodoError::OperationsFailed {
        failures: vec![OperationFailure { uuid: "u2".to_string(), reason: "not found".to_string() }],
        outcomes: vec![],
    };
    assert_eq!(
        get_error_message(&failed),
        "Error: some operations in the batch did not apply: u2 (not found)"
    );
    let unknown = TodoError::AmbiguousOutcome {
        missing: vec!["u1".to_string(), "u3".to_string()],
        outcomes: vec![],
    };
    assert_eq!(
        get_error_message(&unknown),
        "Error: the outcome of these operations is unknown, please re-run: u1, u3"
    );
}

#[test]
fn test_config_debug_format() {
    let config = Config {
        api_token: "secret".to_string(),
    };
    let debug_format = format!("{:?}", config);
    assert!(debug_format.contains("Config"));
    assert!(debug_format.contains("secret"));
}

#[test]
fn test_config_default_values() {
    // Verify Config struct can be created with default values
    let config = Config {
        api_token: String::new(),
    };
    assert_eq!(config.api_token, "");
}

fn returns_result() -> Result<i32> {
    Ok(42)
}

fn returns_error() -> Result<i32> {
    Err(TodoError::Config("error".to_string()))
}

#[test]
fn test_result_type_alias() {
    let result = returns_result();
    assert!(result.is_ok());
    assert_eq!(result.unwrap(), 42);
}

#[test]
fn test_result_type_alias_error() {
    let result = returns_error();
    assert!(result.is_err());
}

#[test]
fn test_todo_error_debug() {
    let error = TodoError::Config("debug test".to_string());
    let debug_format = format!("{:?}", error);
    assert!(debug_format.contains("Config"));
    assert!(debug_format.contains("debug test"));
}
