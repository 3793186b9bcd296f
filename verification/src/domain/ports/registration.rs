use vstd::prelude::*;
use crate::domain::entities::user_profile::UserProfile;
use crate::domain::value_objects::email::Email;
use crate::domain::value_objects::password::Password;

verus! {

/// What a new account is registered with.
pub struct RegistrationData {
    pub email: Email,
    pub username: String,
    pub password: Password,
    pub geo_location: Option<String>,
}

/// A registration flow that Kratos has opened.
pub struct RegistrationFlowData {
    pub flow_id: String,
    pub csrf_token: String,
    pub cookies: Vec<String>,
}

/// A completed registration.
pub struct RegistrationResult {
    pub session_cookie: String,
    pub user: UserProfile,
}

} // verus!
