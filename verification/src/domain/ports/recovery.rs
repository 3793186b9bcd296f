use vstd::prelude::*;
use crate::domain::value_objects::email::Email;

verus! {

/// A request to recover the account of an address.
pub struct RecoveryRequest {
    pub email: Email,
}

} // verus!
