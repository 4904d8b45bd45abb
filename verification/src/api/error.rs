//! Typed error model of the engine API.

use crate::api::bounds::BoundsError;
use vstd::prelude::*;
use vstd::string::StringExecFns;

verus! {

/// Structured context attached to an error. The engine only carries such a
/// value from where it arose to the response; it never looks inside.
#[verifier::external_type_specification]
#[verifier::external_body]
pub struct ExJsonValue(serde_json::Value);

/// Typed error codes with categories.
#[derive(Debug, Clone, Copy, PartialEq, Eq, Structural)]
pub enum ErrorCode {
    /// Out-of-bounds or malformed request; never reaches the backend
    InvalidRequest,
    /// The repository path is not a repository
    RepoNotFound,
    /// The backend failed or its output could not be understood
    GitBackendError,
    /// The operation needs the user to resolve something first
    Conflict,
    /// A remote operation needs credentials
    AuthRequired,
    /// Cooperative cancellation was observed
    OperationCanceled,
    /// The deadline passed
    Timeout,
    /// Anything unanticipated
    Internal,
}

impl ErrorCode {
    /// The name of this code on the wire.
    pub open spec fn name(self) -> Seq<char> {
        match self {
            ErrorCode::InvalidRequest => "invalid_request"@,
            ErrorCode::RepoNotFound => "repo_not_found"@,
            ErrorCode::GitBackendError => "git_backend_error"@,
            ErrorCode::Conflict => "conflict"@,
            ErrorCode::AuthRequired => "auth_required"@,
            ErrorCode::OperationCanceled => "operation_canceled"@,
            ErrorCode::Timeout => "timeout"@,
            ErrorCode::Internal => "internal"@,
        }
    }

    /// The name of this code on the wire.
    pub fn as_str(&self) -> (s: &'static str)
        ensures
            s@ == self.name(),
    {
        match self {
            ErrorCode::InvalidRequest => "invalid_request",
            ErrorCode::RepoNotFound => "repo_not_found",
            ErrorCode::GitBackendError => "git_backend_error",
            ErrorCode::Conflict => "conflict",
            ErrorCode::AuthRequired => "auth_required",
            ErrorCode::OperationCanceled => "operation_canceled",
            ErrorCode::Timeout => "timeout",
            ErrorCode::Internal => "internal",
        }
    }
}

/// Structured error response.
#[derive(Debug, Clone)]
pub struct Error {
    /// Error code
    pub code: ErrorCode,
    /// Human-readable message
    pub message: String,
    /// Optional remediation hints
    pub remediation: Option<String>,
    /// Optional additional context
    pub details: Option<serde_json::Value>,
}

impl Error {
    /// Create a new error with the given code and message.
    pub fn new(code: ErrorCode, message: String) -> (e: Error)
        ensures
            e.code == code,
            e.message == message,
            e.remediation is None,
            e.details is None,
    {
        Error { code, message, remediation: None, details: None }
    }

    /// An error with the given code whose message is `message`.
    pub fn with_message(code: ErrorCode, message: &str) -> (e: Error)
        ensures
            e.code == code,
            e.message@ == message@,
            e.remediation is None,
            e.details is None,
    {
        Error::new(code, String::from_str(message))
    }

    /// The error for a request whose bounded parameter was rejected: such a
    /// request is invalid and never reaches the backend.
    pub fn out_of_bounds(reason: BoundsError) -> (e: Error)
        ensures
            e.code == ErrorCode::InvalidRequest,
            e.message@ == (match reason {
                BoundsError::TooSmall => "value too small"@,
                BoundsError::TooLarge => "value too large"@,
            }),
            e.remediation is None,
            e.details is None,
    {
        Error::with_message(ErrorCode::InvalidRequest, reason.message())
    }

    /// Add remediation hints.
    pub fn with_remediation(self, remediation: String) -> (e: Error)
        ensures
            e.code == self.code,
            e.message == self.message,
            e.remediation == Some(remediation),
            e.details == self.details,
    {
        let mut e = self;
        e.remediation = Some(remediation);
        e
    }

    /// Add additional details.
    pub fn with_details(self, details: serde_json::Value) -> (e: Error)
        ensures
            e.code == self.code,
            e.message == self.message,
            e.remediation == self.remediation,
            e.details == Some(details),
    {
        let mut e = self;
        e.details = Some(details);
        e
    }

    /// The one-line rendering of this error: its code, a colon and a space,
    /// then its message.
    pub open spec fn rendering(self) -> Seq<char> {
        self.code.name() + ": "@ + self.message@
    }

    /// The one-line rendering of this error.
    pub fn describe(&self) -> (s: String)
        ensures
            s@ == self.rendering(),
    {
        let mut s = String::from_str(self.code.as_str());
        s.append(": ");
        s.append(self.message.as_str());
        s
    }
}

} // verus!
