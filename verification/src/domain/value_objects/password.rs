//! A password as the user typed it.
use vstd::prelude::*;
use crate::domain::errors::{DomainError, DomainErrorView};

verus! {

/// The error for an empty password.
pub open spec fn empty_password_error() -> DomainErrorView {
    DomainErrorView::InvalidData("Password cannot be empty"@)
}

/// A non-empty password.
pub struct Password {
    value: String,
}

impl View for Password {
    type V = Seq<char>;

    closed spec fn view(&self) -> Seq<char> {
        self.value@
    }
}

impl Password {
    /// The password, unless it is empty.
    pub fn new(value: String) -> (r: Result<Password, DomainError>)
        ensures
            r matches Ok(p) ==> value@.len() > 0 && p@ == value@,
            r matches Err(e) ==> value@.len() == 0 && e@ == empty_password_error(),
    {
        if value.as_str().is_empty() {
            Err(DomainError::InvalidData(String::from_str("Password cannot be empty")))
        } else {
            Ok(Password { value })
        }
    }

    pub fn as_str(&self) -> (r: &str)
        ensures
            r@ == self@,
    {
        self.value.as_str()
    }
}

} // verus!
