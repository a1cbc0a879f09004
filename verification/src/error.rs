//! The service's error taxonomy and its mapping to HTTP status codes.

use vstd::prelude::*;

verus! {

/// Error body shape surfaced to clients: a single message field.
#[derive(Debug, Clone)]
pub struct ErrorResponse {
    /// Error message
    pub error: String,
}

/// Application-level errors, each carrying the text surfaced to the client.
#[derive(Debug)]
pub enum AppError {
    /// A project id that no row matches
    ProjectNotFound(String),
    /// A technology id that no row matches
    TechnologyNotFound(String),
    /// A user id that no row matches
    UserNotFound(String),
    /// A uniqueness violation (technology name, user email)
    DuplicateResource(String),
    /// A request payload that fails a field rule
    ValidationError(String),
    /// A failure of the underlying store
    DatabaseError(String),
    /// An invariant violation inside the service
    InternalError(String),
}

/// The HTTP status that each error maps to: not-found 404, duplicate 409,
/// validation 400, store or internal failure 500.
pub open spec fn spec_status_code(e: &AppError) -> u16 {
    match e {
        AppError::ProjectNotFound(_) => 404,
        AppError::TechnologyNotFound(_) => 404,
        AppError::UserNotFound(_) => 404,
        AppError::DuplicateResource(_) => 409,
        AppError::ValidationError(_) => 400,
        AppError::DatabaseError(_) => 500,
        AppError::InternalError(_) => 500,
    }
}

/// The message surfaced in the response body: the carried text, with store
/// failures prefixed so clients see a generic description.
pub open spec fn spec_message(e: &AppError) -> Seq<char> {
    match e {
        AppError::ProjectNotFound(m) => m@,
        AppError::TechnologyNotFound(m) => m@,
        AppError::UserNotFound(m) => m@,
        AppError::DuplicateResource(m) => m@,
        AppError::ValidationError(m) => m@,
        AppError::DatabaseError(m) => "Database error: "@ + m@,
        AppError::InternalError(m) => m@,
    }
}

impl AppError {
    /// The HTTP status code this error is reported with.
    pub fn status_code(&self) -> (code: u16)
        ensures
            code == spec_status_code(self),
    {
        match self {
            AppError::ProjectNotFound(_) => 404,
            AppError::TechnologyNotFound(_) => 404,
            AppError::UserNotFound(_) => 404,
            AppError::DuplicateResource(_) => 409,
            AppError::ValidationError(_) => 400,
            AppError::DatabaseError(_) => 500,
            AppError::InternalError(_) => 500,
        }
    }

    /// The message placed in the JSON error body.
    pub fn message(&self) -> (m: String)
        ensures
            m@ == spec_message(self),
    {
        match self {
            AppError::ProjectNotFound(s) => s.clone(),
            AppError::TechnologyNotFound(s) => s.clone(),
            AppError::UserNotFound(s) => s.clone(),
            AppError::DuplicateResource(s) => s.clone(),
            AppError::ValidationError(s) => s.clone(),
            AppError::DatabaseError(s) => {
                let mut m = String::new();
                m.append("Database error: ");
                m.append(s.as_str());
                m
            },
            AppError::InternalError(s) => s.clone(),
        }
    }

    /// The body sent to the client for this error.
    pub fn response(&self) -> (r: ErrorResponse)
        ensures
            r.error@ == spec_message(self),
    {
        ErrorResponse { error: self.message() }
    }
}

} // verus!
