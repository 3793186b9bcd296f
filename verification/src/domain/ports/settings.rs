use vstd::prelude::*;
use crate::domain::value_objects::password::Password;
use crate::json::Json;

verus! {

/// A change of account settings.
pub struct SettingsData {
    pub method: String,
    pub password: Option<Password>,
    pub traits: Option<Json>,
    pub lookup_secret_confirm: Option<bool>,
    pub lookup_secret_disable: Option<bool>,
    pub lookup_secret_regenerate: Option<bool>,
    pub lookup_secret_reveal: Option<bool>,
    pub transient_payload: Option<Json>,
}

} // verus!
