//! An e-mail address.
use vstd::prelude::*;
use crate::domain::errors::{DomainError, DomainErrorView};
use crate::text::chars_of;

verus! {

/// An address with an `@` that has text on both sides.
pub open spec fn is_valid_email(s: Seq<char>) -> bool {
    exists|i: int| 0 < i < s.len() - 1 && s[i] == '@'
}

/// The error for an address that is not well formed.
pub open spec fn invalid_email_error() -> DomainErrorView {
    DomainErrorView::InvalidData("Invalid email format"@)
}

/// A well-formed e-mail address.
#[derive(Debug)]
pub struct Email {
    value: String,
}

impl View for Email {
    type V = Seq<char>;

    closed spec fn view(&self) -> Seq<char> {
        self.value@
    }
}

impl Email {
    /// The address, if it is well formed.
    pub fn new(value: String) -> (r: Result<Email, DomainError>)
        ensures
            r matches Ok(e) ==> is_valid_email(value@) && e@ == value@,
            r matches Err(e) ==> !is_valid_email(value@) && e@ == invalid_email_error(),
    {
        let cs = chars_of(value.as_str());
        let n = cs.len();
        let mut i: usize = 1;
        while i < n
            invariant
                cs@ == value@,
                n == cs@.len(),
                1 <= i,
                i <= n || n == 0,
                forall|k: int| 0 < k < i && k < n - 1 ==> cs@[k] != '@',
            decreases n - i,
        {
            if i + 1 < n && cs[i] == '@' {
                assert(0 < i < n - 1 && value@[i as int] == '@');
                return Ok(Email { value });
            }
            i = i + 1;
        }
        Err(DomainError::InvalidData(String::from_str("Invalid email format")))
    }

    pub fn as_str(&self) -> (r: &str)
        ensures
            r@ == self@,
    {
        self.value.as_str()
    }
}

} // verus!
