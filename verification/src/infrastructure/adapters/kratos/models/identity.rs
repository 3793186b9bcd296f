//! Identities and sessions as Kratos describes them, and the profile built from them.
use vstd::prelude::*;
use crate::domain::entities::timestamp::{instant_of, timestamp_in, Timestamp};
use crate::domain::entities::user_profile::{UserProfile, UserProfileView};
use crate::json::{bool_in, bool_of, member, member_of, opt_view, text_in, text_of, Json, JsonValue};

verus! {

/// The traits of an identity.
pub struct Traits {
    pub email: String,
    pub username: String,
    pub geo_location: Option<String>,
}

/// An identity.
pub struct Identity {
    pub id: String,
    pub traits: Traits,
    pub created_at: Option<Timestamp>,
    pub updated_at: Option<Timestamp>,
    pub state: Option<String>,
}

/// A session and the identity it belongs to.
pub struct SessionResponse {
    pub identity: Identity,
    pub active: bool,
    pub expires_at: Option<Timestamp>,
}

pub struct TraitsView {
    pub email: Seq<char>,
    pub username: Seq<char>,
    pub geo_location: Option<Seq<char>>,
}

pub struct IdentityView {
    pub id: Seq<char>,
    pub traits: TraitsView,
    pub created_at: Option<Timestamp>,
    pub updated_at: Option<Timestamp>,
    pub state: Option<Seq<char>>,
}

pub struct SessionResponseView {
    pub identity: IdentityView,
    pub active: bool,
    pub expires_at: Option<Timestamp>,
}

impl View for Traits {
    type V = TraitsView;

    open spec fn view(&self) -> TraitsView {
        TraitsView {
            email: self.email@,
            username: self.username@,
            geo_location: self.geo_location.deep_view(),
        }
    }
}

impl View for Identity {
    type V = IdentityView;

    open spec fn view(&self) -> IdentityView {
        IdentityView {
            id: self.id@,
            traits: self.traits@,
            created_at: self.created_at,
            updated_at: self.updated_at,
            state: self.state.deep_view(),
        }
    }
}

impl View for SessionResponse {
    type V = SessionResponseView;

    open spec fn view(&self) -> SessionResponseView {
        SessionResponseView {
            identity: self.identity@,
            active: self.active,
            expires_at: self.expires_at,
        }
    }
}

/// The text of a document, or the empty text.
pub open spec fn text_or_empty(j: Option<JsonValue>) -> Seq<char> {
    match text_of(j) {
        Some(s) => s,
        None => Seq::empty(),
    }
}

/// The identity that a document describes; what is missing or of the wrong
/// kind reads as empty text, or as nothing for the optional parts.
pub open spec fn identity_of(j: Option<JsonValue>) -> IdentityView {
    let traits = member(j, "traits"@);
    IdentityView {
        id: text_or_empty(member(j, "id"@)),
        traits: TraitsView {
            email: text_or_empty(member(traits, "email"@)),
            username: text_or_empty(member(traits, "username"@)),
            geo_location: text_of(member(traits, "geo_location"@)),
        },
        created_at: instant_of(member(j, "created_at"@)),
        updated_at: instant_of(member(j, "updated_at"@)),
        state: text_of(member(j, "state"@)),
    }
}

/// The session that a document describes: its identity, whether it is active
/// (not when unsaid) and when it expires.
pub open spec fn session_of(j: Option<JsonValue>) -> SessionResponseView {
    SessionResponseView {
        identity: identity_of(member(j, "identity"@)),
        active: match bool_of(member(j, "active"@)) {
            Some(b) => b,
            None => false,
        },
        expires_at: instant_of(member(j, "expires_at"@)),
    }
}

/// The profile of a user with an identity and a session state.
pub open spec fn profile_of(identity: IdentityView, active: bool, expires_at: Option<Timestamp>) -> UserProfileView {
    UserProfileView {
        id: identity.id,
        email: identity.traits.email,
        username: identity.traits.username,
        geo_location: identity.traits.geo_location,
        created_at: identity.created_at,
        updated_at: identity.updated_at,
        state: identity.state,
        active,
        expires_at,
    }
}

fn text_or_default(j: Option<&Json>) -> (r: String)
    ensures
        r@ == text_or_empty(opt_view(j)),
{
    match text_in(j) {
        Some(s) => s,
        None => String::new(),
    }
}

impl Identity {
    /// The identity that a document describes.
    pub fn from_json(j: Option<&Json>) -> (r: Identity)
        ensures
            r@ == identity_of(opt_view(j)),
    {
        let traits = member_of(j, "traits");
        Identity {
            id: text_or_default(member_of(j, "id")),
            traits: Traits {
                email: text_or_default(member_of(traits, "email")),
                username: text_or_default(member_of(traits, "username")),
                geo_location: text_in(member_of(traits, "geo_location")),
            },
            created_at: timestamp_in(member_of(j, "created_at")),
            updated_at: timestamp_in(member_of(j, "updated_at")),
            state: text_in(member_of(j, "state")),
        }
    }
}

impl SessionResponse {
    /// The session that a document describes.
    pub fn from_json(j: Option<&Json>) -> (r: SessionResponse)
        ensures
            r@ == session_of(opt_view(j)),
    {
        SessionResponse {
            identity: Identity::from_json(member_of(j, "identity")),
            active: match bool_in(member_of(j, "active")) {
                Some(b) => b,
                None => false,
            },
            expires_at: timestamp_in(member_of(j, "expires_at")),
        }
    }
}

impl UserProfile {
    /// The profile of a user with an identity and a session state.
    pub fn from_session(identity: Identity, active: bool, expires_at: Option<Timestamp>) -> (r: UserProfile)
        ensures
            r@ == profile_of(identity@, active, expires_at),
    {
        UserProfile {
            id: identity.id,
            email: identity.traits.email,
            username: identity.traits.username,
            geo_location: identity.traits.geo_location,
            created_at: identity.created_at,
            updated_at: identity.updated_at,
            state: identity.state,
            active,
            expires_at,
        }
    }
}

} // verus!
