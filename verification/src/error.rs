//! Centralized error handling: the application error kinds, their mapping
//! to HTTP status codes and client-safe messages, and the standardized
//! error response shape.

use vstd::prelude::*;
use vstd::string::StringExecFns;

use crate::sys;

verus! {

/// Application-wide error types.
#[derive(Debug)]
pub enum AppError {
    ValidationError(String),
    SensorError(String),
    FhirError(String),
    InternalError(String),
    NotFound(String),
    Unauthorized(String),
    BadRequest(String),
}

impl AppError {
    /// The HTTP status code of each error kind.
    pub open spec fn spec_status_code(&self) -> u16 {
        match self {
            AppError::ValidationError(_) => 400,
            AppError::SensorError(_) => 422,
            AppError::FhirError(_) => 500,
            AppError::InternalError(_) => 500,
            AppError::NotFound(_) => 404,
            AppError::Unauthorized(_) => 401,
            AppError::BadRequest(_) => 400,
        }
    }

    /// The HTTP status code this error maps to.
    pub fn status_code(&self) -> (r: u16)
        ensures
            r == self.spec_status_code(),
    {
        match self {
            AppError::ValidationError(_) => 400,
            AppError::SensorError(_) => 422,
            AppError::FhirError(_) => 500,
            AppError::InternalError(_) => 500,
            AppError::NotFound(_) => 404,
            AppError::Unauthorized(_) => 401,
            AppError::BadRequest(_) => 400,
        }
    }

    /// The machine-readable classification of each error kind.
    pub open spec fn spec_error_type(&self) -> Seq<char> {
        match self {
            AppError::ValidationError(_) => "VALIDATION_ERROR"@,
            AppError::SensorError(_) => "SENSOR_ERROR"@,
            AppError::FhirError(_) => "FHIR_ERROR"@,
            AppError::InternalError(_) => "INTERNAL_ERROR"@,
            AppError::NotFound(_) => "NOT_FOUND"@,
            AppError::Unauthorized(_) => "UNAUTHORIZED"@,
            AppError::BadRequest(_) => "BAD_REQUEST"@,
        }
    }

    /// The machine-readable classification of this error.
    pub fn error_type(&self) -> (r: &'static str)
        ensures
            r@ == self.spec_error_type(),
    {
        match self {
            AppError::ValidationError(_) => "VALIDATION_ERROR",
            AppError::SensorError(_) => "SENSOR_ERROR",
            AppError::FhirError(_) => "FHIR_ERROR",
            AppError::InternalError(_) => "INTERNAL_ERROR",
            AppError::NotFound(_) => "NOT_FOUND",
            AppError::Unauthorized(_) => "UNAUTHORIZED",
            AppError::BadRequest(_) => "BAD_REQUEST",
        }
    }

    /// The message that may be shown to a client: internal errors are
    /// masked behind a generic message, every other kind carries its own.
    pub open spec fn spec_client_message(&self) -> Seq<char> {
        match self {
            AppError::ValidationError(m) => m@,
            AppError::SensorError(m) => m@,
            AppError::FhirError(m) => m@,
            AppError::InternalError(_) => "An internal error occurred"@,
            AppError::NotFound(m) => m@,
            AppError::Unauthorized(m) => m@,
            AppError::BadRequest(m) => m@,
        }
    }

    /// The client-safe message for this error.
    pub fn client_message(&self) -> (r: String)
        ensures
            r@ == self.spec_client_message(),
    {
        match self {
            AppError::ValidationError(m) => m.clone(),
            AppError::SensorError(m) => m.clone(),
            AppError::FhirError(m) => m.clone(),
            AppError::InternalError(_) => "An internal error occurred".to_owned(),
            AppError::NotFound(m) => m.clone(),
            AppError::Unauthorized(m) => m.clone(),
            AppError::BadRequest(m) => m.clone(),
        }
    }
}

/// Result type alias for application errors.
pub type AppResult<T> = Result<T, AppError>;

/// Standardized error response format.
#[derive(Debug)]
pub struct ErrorResponse {
    /// Unique correlation ID for tracing.
    pub correlation_id: String,
    /// Error type classification.
    pub error_type: String,
    /// Human-readable error message (safe for clients).
    pub message: String,
    /// HTTP status code.
    pub status_code: u16,
    /// Timestamp of the error, in RFC 3339 form.
    pub timestamp: String,
}

impl ErrorResponse {
    /// Build a response with a fresh correlation identifier and the
    /// current time: the timestamp is the rendering of some clock
    /// reading, or empty on a clock the calendar cannot render.
    pub fn new(error_type: &str, message: &str, status_code: u16) -> (r: ErrorResponse)
        ensures
            r.error_type@ == error_type@,
            r.message@ == message@,
            r.status_code == status_code,
            r.correlation_id@.len() == 36,
            (exists|now: int| r.timestamp@ == #[trigger] sys::rfc3339_of(now)) || r.timestamp@.len()
                == 0,
    {
        let clock = sys::now_millis();
        let timestamp: String = match sys::rfc3339_millis(clock) {
            Some(t) => t,
            None => String::new(),
        };
        proof {
            assert(timestamp@ == sys::rfc3339_of(clock as int) || timestamp@.len() == 0);
        }
        ErrorResponse {
            correlation_id: sys::fresh_uuid_string(),
            error_type: error_type.to_owned(),
            message: message.to_owned(),
            status_code,
            timestamp,
        }
    }

    /// The response rendered as "TYPE: message".
    pub fn display_string(&self) -> (r: String)
        ensures
            r@ == self.error_type@ + ": "@ + self.message@,
    {
        let mut s = self.error_type.clone();
        s.append(": ");
        s.append(self.message.as_str());
        s
    }
}

} // verus!
