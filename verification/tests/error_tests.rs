use esms_backend::error::{AppError, ErrorResponse};

#[test]
fn test_validation_error_status() {
    let error = AppError::ValidationError("Invalid temperature".to_string());
    assert_eq!(error.status_code(), 400);
}

#[test]
fn test_not_found_error_status() {
    let error = AppError::NotFound("Resource not found".to_string());
    assert_eq!(error.status_code(), 404);
}

#[test]
fn test_error_response_format() {
    let response = ErrorResponse::new("TEST_ERROR", "Test message", 400);
    assert!(!response.correlation_id.is_empty());
    assert_eq!(response.error_type, "TEST_ERROR");
    assert_eq!(response.message, "Test message");
    assert_eq!(response.status_code, 400);
}

#[test]
fn every_error_kind_maps_to_its_status() {
    assert_eq!(AppError::ValidationError("v".into()).status_code(), 400);
    assert_eq!(AppError::SensorError("s".into()).status_code(), 422);
    assert_eq!(AppError::FhirError("f".into()).status_code(), 500);
    assert_eq!(AppError::InternalError("i".into()).status_code(), 500);
    assert_eq!(AppError::NotFound("n".into()).status_code(), 404);
    assert_eq!(AppError::Unauthorized("u".into()).status_code(), 401);
    assert_eq!(AppError::BadRequest("b".into()).status_code(), 400);
}

#[test]
fn error_types_and_messages() {
    assert_eq!(AppError::SensorError("s".into()).error_type(), "SENSOR_ERROR");
    assert_eq!(AppError::BadRequest("b".into()).error_type(), "BAD_REQUEST");
    // Internal errors are masked; other kinds carry their message.
    assert_eq!(
        AppError::InternalError("db password".into()).client_message(),
        "An internal error occurred"
    );
    assert_eq!(AppError::NotFound("no data".into()).client_message(), "no data");
}

#[test]
fn correlation_id_is_a_canonical_identifier() {
    let response = ErrorResponse::new("X", "y", 500);
    assert_eq!(response.correlation_id.len(), 36);
}

#[test]
fn response_renders_as_type_and_message() {
    let response = ErrorResponse::new("VALIDATION_ERROR", "bad field", 400);
    assert_eq!(response.display_string(), "VALIDATION_ERROR: bad field");
}
