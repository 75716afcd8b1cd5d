//! The error taxonomy of the authentication core.

use vstd::prelude::*;
use vstd::string::*;

verus! {

/// Every failure the flow can surface, each carrying a human-readable detail.
///
/// The kinds map onto HTTP statuses: client-caused malformed callbacks are
/// `ValidationError` (400), a provider denial, failed code exchange or missing
/// session is `AuthError` (401), an unreachable provider or an unparseable
/// provider response is `ExternalServiceError` (502), and persistence, session
/// storage and configuration failures are server faults (500); `NotFound`
/// (404) marks an update aimed at an absent user row.
#[derive(Debug)]
pub enum AppError {
    DatabaseError(String),
    AuthError(String),
    ValidationError(String),
    ExternalServiceError(String),
    SessionError(String),
    NotFound(String),
    ConfigurationError(String),
}

impl AppError {
    /// The HTTP status this error is reported with.
    pub open spec fn spec_status_code(&self) -> u16 {
        match self {
            AppError::AuthError(_) => 401u16,
            AppError::ValidationError(_) => 400u16,
            AppError::NotFound(_) => 404u16,
            AppError::ExternalServiceError(_) => 502u16,
            AppError::DatabaseError(_) => 500u16,
            AppError::SessionError(_) => 500u16,
            AppError::ConfigurationError(_) => 500u16,
        }
    }

    pub fn status_code(&self) -> (code: u16)
        ensures
            code == self.spec_status_code(),
    {
        match self {
            AppError::AuthError(_) => 401,
            AppError::ValidationError(_) => 400,
            AppError::NotFound(_) => 404,
            AppError::ExternalServiceError(_) => 502,
            _ => 500,
        }
    }

    /// The detail string the error was built with.
    pub open spec fn spec_detail(&self) -> Seq<char> {
        match self {
            AppError::DatabaseError(d) => d@,
            AppError::AuthError(d) => d@,
            AppError::ValidationError(d) => d@,
            AppError::ExternalServiceError(d) => d@,
            AppError::SessionError(d) => d@,
            AppError::NotFound(d) => d@,
            AppError::ConfigurationError(d) => d@,
        }
    }

    /// The full display text: a kind prefix followed by the detail.
    pub open spec fn spec_message(&self) -> Seq<char> {
        match self {
            AppError::DatabaseError(d) => "Database error: "@ + d@,
            AppError::AuthError(d) => "Authentication error: "@ + d@,
            AppError::ValidationError(d) => "Validation error: "@ + d@,
            AppError::ExternalServiceError(d) => "External service error: "@ + d@,
            AppError::SessionError(d) => "Session error: "@ + d@,
            AppError::NotFound(d) => "Not found: "@ + d@,
            AppError::ConfigurationError(d) => "Configuration error: "@ + d@,
        }
    }

    pub fn message(&self) -> (m: String)
        ensures
            m@ == self.spec_message(),
    {
        match self {
            AppError::DatabaseError(d) => String::from_str("Database error: ").concat(d.as_str()),
            AppError::AuthError(d) => String::from_str("Authentication error: ").concat(d.as_str()),
            AppError::ValidationError(d) => String::from_str("Validation error: ").concat(
                d.as_str(),
            ),
            AppError::ExternalServiceError(d) => String::from_str("External service error: ")
                .concat(d.as_str()),
            AppError::SessionError(d) => String::from_str("Session error: ").concat(d.as_str()),
            AppError::NotFound(d) => String::from_str("Not found: ").concat(d.as_str()),
            AppError::ConfigurationError(d) => String::from_str("Configuration error: ").concat(
                d.as_str(),
            ),
        }
    }

    /// The text placed in the `error` field of the HTTP error body.
    ///
    /// Client-visible kinds carry their detail as-is; server faults report the
    /// full message instead of the bare detail.
    pub open spec fn spec_response_message(&self) -> Seq<char> {
        match self {
            AppError::AuthError(d) => d@,
            AppError::ValidationError(d) => d@,
            AppError::NotFound(d) => d@,
            AppError::ExternalServiceError(d) => d@,
            _ => self.spec_message(),
        }
    }

    pub fn response_message(&self) -> (m: String)
        ensures
            m@ == self.spec_response_message(),
    {
        match self {
            AppError::AuthError(d) => d.clone(),
            AppError::ValidationError(d) => d.clone(),
            AppError::NotFound(d) => d.clone(),
            AppError::ExternalServiceError(d) => d.clone(),
            _ => self.message(),
        }
    }
}

} // verus!
