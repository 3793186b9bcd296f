//! Logging out.
use vstd::prelude::*;
use crate::domain::errors::{AuthError, DomainError, DomainErrorView};

verus! {

/// A request to end the session of a cookie.
pub struct LogoutCommand {
    pub cookie: Option<String>,
}

/// Ends sessions: without a cookie there is no session to end.
pub struct LogoutCommandHandler {}

impl LogoutCommandHandler {
    pub fn new() -> (r: LogoutCommandHandler) {
        LogoutCommandHandler {}
    }

    /// The cookie whose session the session port is to end, or the error for a
    /// request without a cookie.
    pub fn handle(&self, command: LogoutCommand) -> (r: Result<String, DomainError>)
        ensures
            command.cookie is None <==> r is Err,
            r matches Ok(c) ==> command.cookie.deep_view() == Some(c@),
            r matches Err(e) ==> e@ == DomainErrorView::Auth(AuthError::NotAuthenticated),
    {
        match command.cookie {
            Some(c) => Ok(c),
            None => Err(DomainError::Auth(AuthError::NotAuthenticated)),
        }
    }
}

} // verus!
