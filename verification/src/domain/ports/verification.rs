use vstd::prelude::*;
use crate::domain::value_objects::email::Email;
use crate::json::Json;

verus! {

/// A request to verify an address by a link sent to it.
pub struct VerifyByLinkRequest {
    pub email: Email,
    pub transient_payload: Option<Json>,
}

/// A request to send a verification code to an address.
pub struct SendCodeRequest {
    pub email: Email,
    pub transient_payload: Option<Json>,
}

/// A verification code that the user submits.
pub struct SubmitCodeRequest {
    pub code: String,
    pub transient_payload: Option<Json>,
}

} // verus!
