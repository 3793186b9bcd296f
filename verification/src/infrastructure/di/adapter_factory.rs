//! What builds the adapters of the use cases.
use std::sync::Arc;
use vstd::prelude::*;
use crate::infrastructure::adapters::kratos::http::login::KratosAuthenticationAdapter;
use crate::infrastructure::adapters::kratos::http::register::KratosRegistrationAdapter;
use crate::infrastructure::adapters::kratos::http::verification::KratosVerificationAdapter;

verus! {

/// Builds the adapters that the use cases talk to Kratos through; every adapter it
/// builds talks to the Kratos service at `kratos_url`.
pub trait AdapterFactory {
    /// The public URL of the Kratos service that the adapters use.
    spec fn kratos_url(&self) -> Seq<char>;

    fn create_registration_adapter(&self) -> (r: Arc<KratosRegistrationAdapter>)
        ensures
            r.public_url() == self.kratos_url(),
    ;

    fn create_authentication_adapter(&self) -> (r: Arc<KratosAuthenticationAdapter>)
        ensures
            r.public_url() == self.kratos_url(),
    ;

    fn create_verification_adapter(&self) -> (r: Arc<KratosVerificationAdapter>)
        ensures
            r.public_url() == self.kratos_url(),
    ;
}

} // verus!
