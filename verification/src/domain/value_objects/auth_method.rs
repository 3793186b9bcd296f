//! The self-service method that a Kratos flow is submitted with.
use vstd::prelude::*;

verus! {

/// A self-service method.
#[derive(Debug, Clone, Copy, PartialEq, Eq, Structural)]
pub enum AuthMethod {
    Password,
    Code,
    Link,
}

/// The name by which Kratos knows a method.
pub open spec fn method_name(m: AuthMethod) -> Seq<char> {
    match m {
        AuthMethod::Password => "password"@,
        AuthMethod::Code => "code"@,
        AuthMethod::Link => "link"@,
    }
}

impl AuthMethod {
    /// The name by which Kratos knows the method.
    pub fn as_str(&self) -> (r: &'static str)
        ensures
            r@ == method_name(*self),
    {
        match self {
            AuthMethod::Password => "password",
            AuthMethod::Code => "code",
            AuthMethod::Link => "link",
        }
    }

    /// Whether the method can carry an account recovery: a link or a code.
    pub fn is_recovery(&self) -> (r: bool)
        ensures
            r == (*self == AuthMethod::Link || *self == AuthMethod::Code),
    {
        match self {
            AuthMethod::Link | AuthMethod::Code => true,
            AuthMethod::Password => false,
        }
    }
}

} // verus!
