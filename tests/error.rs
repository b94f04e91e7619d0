use tourney::error::{Error, Status};

#[test]
fn test_bad_request_status() {
    let error = Error::BadRequest("invalid input".to_string());
    assert_eq!(error.status(), Status::BadRequest);
}

#[test]
fn test_unauthorized_status() {
    let error = Error::Unauthorized("invalid token".to_string());
    assert_eq!(error.status(), Status::Unauthorized);
}

#[test]
fn test_not_found_status() {
    let error = Error::NotFound("resource missing".to_string());
    assert_eq!(error.status(), Status::NotFound);
}

#[test]
fn test_validation_error_status() {
    let error = Error::ValidationError("invalid field".to_string());
    assert_eq!(error.status(), Status::BadRequest);
}

#[test]
fn test_database_error_status() {
    let error = Error::DatabaseError("connection failed".to_string());
    assert_eq!(error.status(), Status::InternalServerError);
}

#[test]
fn test_internal_error_status() {
    let error = Error::Internal("unexpected".to_string());
    assert_eq!(error.status(), Status::InternalServerError);
}

#[test]
fn test_error_display() {
    let error = Error::BadRequest("test message".to_string());
    assert_eq!(error.message(), "Bad request: test message");
}

#[test]
fn error_response_carries_reason_and_text() {
    let error = Error::NotFound("no such tournament".to_string());
    let body = error.to_response();
    assert_eq!(body.error, "Not Found");
    assert_eq!(body.message, "Not found: no such tournament");
    assert_eq!(error.status().code(), 404);
}

#[test]
fn error_texts_of_each_kind() {
    assert_eq!(Error::Unauthorized("x".to_string()).message(), "Unauthorized: x");
    assert_eq!(Error::ValidationError("x".to_string()).message(), "Validation error: x");
    assert_eq!(Error::DatabaseError("x".to_string()).message(), "Database error: x");
    assert_eq!(Error::Internal("x".to_string()).message(), "Internal error: x");
    assert_eq!(Status::InternalServerError.reason(), "Internal Server Error");
    assert_eq!(Status::ServiceUnavailable.code(), 503);
}
