use vstd::prelude::*;
use crate::domain::entities::user_profile::UserProfile;
use crate::domain::value_objects::email::Email;
use crate::domain::value_objects::password::Password;

verus! {

/// What a user logs in with.
pub struct LoginCredentials {
    pub identifier: Email,
    pub password: Password,
    pub address: Option<String>,
    pub code: Option<String>,
    pub resend: Option<String>,
}

/// A login flow that Kratos has opened: its id, its CSRF token and the cookies
/// that belong to it.
pub struct LoginFlowData {
    pub flow_id: String,
    pub csrf_token: String,
    pub cookies: Vec<String>,
}

/// A completed login.
pub struct LoginResult {
    pub session_cookie: String,
    pub user: UserProfile,
}

} // verus!
