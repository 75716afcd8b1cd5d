use paas_auth::error::AppError;

#[test]
fn test_validation_error_response() {
    let error = AppError::ValidationError("Invalid input".to_string());
    assert_eq!(error.status_code(), 400);
}

#[test]
fn test_auth_error_response() {
    let error = AppError::AuthError("Unauthorized".to_string());
    assert_eq!(error.status_code(), 401);
}

#[test]
fn test_not_found_response() {
    let error = AppError::NotFound("Resource not found".to_string());
    assert_eq!(error.status_code(), 404);
}

#[test]
fn test_external_service_error_response() {
    let error = AppError::ExternalServiceError("External service failed".to_string());
    assert_eq!(error.status_code(), 502);
}

#[test]
fn test_database_error_response() {
    let error = AppError::DatabaseError("Database error".to_string());
    assert_eq!(error.status_code(), 500);
}

#[test]
fn test_session_error_response() {
    let error = AppError::SessionError("Session error".to_string());
    assert_eq!(error.status_code(), 500);
}

#[test]
fn configuration_error_is_server_fault() {
    let error = AppError::ConfigurationError("missing client id".to_string());
    assert_eq!(error.status_code(), 500);
}

#[test]
fn message_carries_kind_prefix_and_detail() {
    assert_eq!(
        AppError::DatabaseError("disk full".to_string()).message(),
        "Database error: disk full"
    );
    assert_eq!(
        AppError::AuthError("nope".to_string()).message(),
        "Authentication error: nope"
    );
    assert_eq!(
        AppError::ValidationError("bad".to_string()).message(),
        "Validation error: bad"
    );
    assert_eq!(
        AppError::ExternalServiceError("down".to_string()).message(),
        "External service error: down"
    );
    assert_eq!(
        AppError::SessionError("broken".to_string()).message(),
        "Session error: broken"
    );
    assert_eq!(AppError::NotFound("gone".to_string()).message(), "Not found: gone");
    assert_eq!(
        AppError::ConfigurationError("unset".to_string()).message(),
        "Configuration error: unset"
    );
}

#[test]
fn response_message_hides_server_fault_detail_shape() {
    // Client-visible kinds report their detail bare; server faults report the
    // prefixed message.
    assert_eq!(AppError::AuthError("denied".to_string()).response_message(), "denied");
    assert_eq!(AppError::ValidationError("bad".to_string()).response_message(), "bad");
    assert_eq!(
        AppError::DatabaseError("disk full".to_string()).response_message(),
        "Database error: disk full"
    );
    assert_eq!(
        AppError::SessionError("broken".to_string()).response_message(),
        "Session error: broken"
    );
}
