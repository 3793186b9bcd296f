//! The errors that the use cases report.
use vstd::prelude::*;

verus! {

/// Why an authentication request was refused.
#[derive(Debug, Clone, Copy, PartialEq, Eq, Structural)]
pub enum AuthError {
    InvalidCredentials,
    NotAuthenticated,
    AlreadyLoggedIn,
    TooManyAttempts,
    SessionExpired,
    PrivilegedSessionRequired,
}

/// An error of a use case.
#[derive(Debug)]
pub enum DomainError {
    Auth(AuthError),
    InvalidData(String),
    NotFound(String),
    Conflict(String),
    ServiceUnavailable(String),
    Internal(String),
}

/// The value of a [`DomainError`].
pub enum DomainErrorView {
    Auth(AuthError),
    InvalidData(Seq<char>),
    NotFound(Seq<char>),
    Conflict(Seq<char>),
    ServiceUnavailable(Seq<char>),
    Internal(Seq<char>),
}

impl View for DomainError {
    type V = DomainErrorView;

    open spec fn view(&self) -> DomainErrorView {
        match self {
            DomainError::Auth(e) => DomainErrorView::Auth(*e),
            DomainError::InvalidData(m) => DomainErrorView::InvalidData(m@),
            DomainError::NotFound(m) => DomainErrorView::NotFound(m@),
            DomainError::Conflict(m) => DomainErrorView::Conflict(m@),
            DomainError::ServiceUnavailable(m) => DomainErrorView::ServiceUnavailable(m@),
            DomainError::Internal(m) => DomainErrorView::Internal(m@),
        }
    }
}

/// The text that describes an authentication error.
pub open spec fn auth_error_text(e: AuthError) -> Seq<char> {
    match e {
        AuthError::InvalidCredentials => "Invalid credentials"@,
        AuthError::NotAuthenticated => "Not authenticated"@,
        AuthError::AlreadyLoggedIn => "Already logged in"@,
        AuthError::TooManyAttempts => "Too many attempts"@,
        AuthError::SessionExpired => "Session expired"@,
        AuthError::PrivilegedSessionRequired => "Privileged session required"@,
    }
}

/// The text that describes a domain error.
pub open spec fn domain_error_text(e: DomainErrorView) -> Seq<char> {
    match e {
        DomainErrorView::Auth(a) => "Authentication error: "@ + auth_error_text(a),
        DomainErrorView::InvalidData(m) => "Invalid data: "@ + m,
        DomainErrorView::NotFound(m) => "Not found: "@ + m,
        DomainErrorView::Conflict(m) => "Conflict: "@ + m,
        DomainErrorView::ServiceUnavailable(m) => "Service unavailable: "@ + m,
        DomainErrorView::Internal(m) => "Internal error: "@ + m,
    }
}

impl AuthError {
    /// The text that describes the error.
    pub fn message(&self) -> (r: &'static str)
        ensures
            r@ == auth_error_text(*self),
    {
        match self {
            AuthError::InvalidCredentials => "Invalid credentials",
            AuthError::NotAuthenticated => "Not authenticated",
            AuthError::AlreadyLoggedIn => "Already logged in",
            AuthError::TooManyAttempts => "Too many attempts",
            AuthError::SessionExpired => "Session expired",
            AuthError::PrivilegedSessionRequired => "Privileged session required",
        }
    }
}

fn prefixed(prefix: &str, rest: &str) -> (r: String)
    ensures
        r@ == prefix@ + rest@,
{
    let mut s = String::from_str(prefix);
    s.append(rest);
    s
}

impl DomainError {
    /// The text that describes the error.
    pub fn message(&self) -> (r: String)
        ensures
            r@ == domain_error_text(self@),
    {
        match self {
            DomainError::Auth(a) => prefixed("Authentication error: ", a.message()),
            DomainError::InvalidData(m) => prefixed("Invalid data: ", m.as_str()),
            DomainError::NotFound(m) => prefixed("Not found: ", m.as_str()),
            DomainError::Conflict(m) => prefixed("Conflict: ", m.as_str()),
            DomainError::ServiceUnavailable(m) => prefixed("Service unavailable: ", m.as_str()),
            DomainError::Internal(m) => prefixed("Internal error: ", m.as_str()),
        }
    }
}

} // verus!
