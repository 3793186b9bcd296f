//! The profile of a user, as the service reports it.
use vstd::prelude::*;
use crate::domain::entities::timestamp::Timestamp;

verus! {

/// The profile of a user.
#[derive(Debug)]
pub struct UserProfile {
    pub id: String,
    pub email: String,
    pub username: String,
    pub geo_location: Option<String>,
    pub created_at: Option<Timestamp>,
    pub updated_at: Option<Timestamp>,
    pub state: Option<String>,
    pub active: bool,
    pub expires_at: Option<Timestamp>,
}

/// The value of a [`UserProfile`].
pub struct UserProfileView {
    pub id: Seq<char>,
    pub email: Seq<char>,
    pub username: Seq<char>,
    pub geo_location: Option<Seq<char>>,
    pub created_at: Option<Timestamp>,
    pub updated_at: Option<Timestamp>,
    pub state: Option<Seq<char>>,
    pub active: bool,
    pub expires_at: Option<Timestamp>,
}

impl View for UserProfile {
    type V = UserProfileView;

    open spec fn view(&self) -> UserProfileView {
        UserProfileView {
            id: self.id@,
            email: self.email@,
            username: self.username@,
            geo_location: self.geo_location.deep_view(),
            created_at: self.created_at,
            updated_at: self.updated_at,
            state: self.state.deep_view(),
            active: self.active,
            expires_at: self.expires_at,
        }
    }
}

} // verus!
