use vstd::prelude::*;

verus! {

/// Every failure a request can end in, mapped 1:1 onto an HTTP status by
/// [`AppError::status_code`].
#[derive(Debug)]
pub enum AppError {
    /// OAuth2-flow failure: missing code, provider-reported error, or a
    /// rejected token exchange. The message is echoed to the caller.
    Auth(String),
    /// Session-validation failure. The message goes to the caller; the
    /// client IP and path are for the security-audit log at the boundary.
    Unauthorized { message: String, client_ip: String, path: String },
    /// A required configuration value was missing or unreadable.
    Config(String),
    /// Transport-level failure talking to the identity provider or the
    /// backend: the dependency could not be reached.
    Request(String),
    /// Unexpected local failure (malformed generated request, buffering).
    Internal(String),
}

impl AppError {
    /// The HTTP status this failure surfaces as: 401 for both
    /// authentication-flow and session failures, 502 for unreachable
    /// dependencies, 500 otherwise.
    pub fn status_code(&self) -> (code: u16)
        ensures
            code == self.spec_status_code(),
    {
        match self {
            AppError::Auth(_) => 401,
            AppError::Unauthorized { .. } => 401,
            AppError::Config(_) => 500,
            AppError::Request(_) => 502,
            AppError::Internal(_) => 500,
        }
    }

    /// The status [`AppError::status_code`] returns.
    pub open spec fn spec_status_code(&self) -> u16 {
        match self {
            AppError::Auth(_) => 401,
            AppError::Unauthorized { .. } => 401,
            AppError::Config(_) => 500,
            AppError::Request(_) => 502,
            AppError::Internal(_) => 500,
        }
    }

    /// The message surfaced to the caller in the response body.
    pub fn message(&self) -> (msg: &String)
        ensures
            msg@ == self.spec_message(),
    {
        match self {
            AppError::Auth(m) => m,
            AppError::Unauthorized { message, .. } => message,
            AppError::Config(m) => m,
            AppError::Request(m) => m,
            AppError::Internal(m) => m,
        }
    }

    /// The message [`AppError::message`] returns.
    pub open spec fn spec_message(&self) -> Seq<char> {
        match self {
            AppError::Auth(m) => m@,
            AppError::Unauthorized { message, .. } => message@,
            AppError::Config(m) => m@,
            AppError::Request(m) => m@,
            AppError::Internal(m) => m@,
        }
    }
}

} // verus!
