//! The body that submits a registration flow.
use vstd::prelude::*;
use crate::domain::ports::registration::RegistrationData;
use crate::domain::value_objects::auth_method::{method_name, AuthMethod};
use crate::infrastructure::adapters::kratos::models::payload::{
    no_members, push_opt_text, push_text, text_member, with_text,
};
use crate::json::{lemma_lookup_push, lookup, member, members_view, object, push_member, text_value, Json, JsonMember, JsonValue};

verus! {

/// The identity traits that a new account is registered with.
pub struct RegistrationTraits {
    pub email: String,
    pub username: String,
    pub geo_location: Option<String>,
}

/// The body that submits a registration flow with the password method.
pub struct RegistrationPayload {
    pub method: AuthMethod,
    pub password: String,
    pub csrf_token: String,
    pub traits: RegistrationTraits,
}

/// The JSON of a registration body.
pub open spec fn registration_payload_json(
    method: AuthMethod,
    password: Seq<char>,
    csrf_token: Seq<char>,
    email: Seq<char>,
    username: Seq<char>,
    geo_location: Option<Seq<char>>,
) -> JsonValue {
    JsonValue::Object(
        seq![
            text_member("method"@, method_name(method)),
            text_member("password"@, password),
            text_member("csrf_token"@, csrf_token),
            JsonMember {
                key: "traits"@,
                value: JsonValue::Object(
                    with_text(
                        seq![text_member("email"@, email), text_member("username"@, username)],
                        "geo_location"@,
                        geo_location,
                    ),
                ),
            },
        ],
    )
}

/// A registration body submits its method name, password and CSRF token, and
/// under `traits` the e-mail address, the username and, exactly when there is one,
/// the geo location.
pub proof fn lemma_registration_body_fields(
    method: AuthMethod,
    password: Seq<char>,
    csrf_token: Seq<char>,
    email: Seq<char>,
    username: Seq<char>,
    geo_location: Option<Seq<char>>,
)
    ensures ({
        let body = Some(registration_payload_json(method, password, csrf_token, email, username, geo_location));
        let traits = member(body, "traits"@);
        &&& member(body, "method"@) == Some(JsonValue::Str(method_name(method)))
        &&& member(body, "password"@) == Some(JsonValue::Str(password))
        &&& member(body, "csrf_token"@) == Some(JsonValue::Str(csrf_token))
        &&& member(traits, "email"@) == Some(JsonValue::Str(email))
        &&& member(traits, "username"@) == Some(JsonValue::Str(username))
        &&& member(traits, "geo_location"@) == text_value(geo_location)
    }),
{
    reveal_strlit("method");
    reveal_strlit("password");
    reveal_strlit("csrf_token");
    reveal_strlit("traits");
    reveal_strlit("email");
    reveal_strlit("username");
    reveal_strlit("geo_location");
    let e = Seq::<JsonMember>::empty();
    let inner = seq![text_member("email"@, email), text_member("username"@, username)];
    assert(inner =~= e.push(inner[0]).push(inner[1]));
    let traits_members = with_text(inner, "geo_location"@, geo_location);
    let top = seq![
        text_member("method"@, method_name(method)),
        text_member("password"@, password),
        text_member("csrf_token"@, csrf_token),
        JsonMember { key: "traits"@, value: JsonValue::Object(traits_members) },
    ];
    assert(top =~= e.push(top[0]).push(top[1]).push(top[2]).push(top[3]));
    assert(registration_payload_json(method, password, csrf_token, email, username, geo_location)
        == JsonValue::Object(top));
    assert("method"@.len() == 6 && "password"@.len() == 8 && "csrf_token"@.len() == 10);
    assert("traits"@.len() == 6 && "email"@.len() == 5 && "username"@.len() == 8);
    assert("geo_location"@.len() == 12);
    assert("traits"@[0] != "method"@[0]);
    assert("username"@[0] != "password"@[0]);
    assert forall|k: Seq<char>| #[trigger] lookup(top, k) == (
        if k == "method"@ { Some(JsonValue::Str(method_name(method))) }
        else if k == "password"@ { Some(JsonValue::Str(password)) }
        else if k == "csrf_token"@ { Some(JsonValue::Str(csrf_token)) }
        else if k == "traits"@ { Some(JsonValue::Object(traits_members)) }
        else { None }
    ) by {
        lemma_lookup_push(e, top[0], k);
        lemma_lookup_push(e.push(top[0]), top[1], k);
        lemma_lookup_push(e.push(top[0]).push(top[1]), top[2], k);
        lemma_lookup_push(e.push(top[0]).push(top[1]).push(top[2]), top[3], k);
        assert(lookup(e, k) is None);
    }
    assert forall|k: Seq<char>| #[trigger] lookup(traits_members, k) == (
        if k == "email"@ { Some(JsonValue::Str(email)) }
        else if k == "username"@ { Some(JsonValue::Str(username)) }
        else if k == "geo_location"@ { text_value(geo_location) }
        else { None }
    ) by {
        lemma_lookup_push(e, inner[0], k);
        lemma_lookup_push(e.push(inner[0]), inner[1], k);
        assert(lookup(e, k) is None);
        if let Some(g) = geo_location {
            lemma_lookup_push(inner, JsonMember { key: "geo_location"@, value: JsonValue::Str(g) }, k);
        }
    }
    assert(lookup(top, "traits"@) == Some(JsonValue::Object(traits_members)));
    assert(lookup(traits_members, "geo_location"@) == text_value(geo_location));
}

impl RegistrationPayload {
    pub fn from_data(data: RegistrationData, csrf_token: String) -> (r: RegistrationPayload)
        ensures
            r.method == AuthMethod::Password,
            r.password@ == data.password@,
            r.csrf_token@ == csrf_token@,
            r.traits.email@ == data.email@,
            r.traits.username@ == data.username@,
            r.traits.geo_location.deep_view() == data.geo_location.deep_view(),
    {
        RegistrationPayload {
            method: AuthMethod::Password,
            password: String::from_str(data.password.as_str()),
            csrf_token,
            traits: RegistrationTraits {
                email: String::from_str(data.email.as_str()),
                username: data.username,
                geo_location: data.geo_location,
            },
        }
    }

    /// The body as JSON.
    pub fn to_json(&self) -> (r: Json)
        ensures
            r@ == registration_payload_json(
                self.method,
                self.password@,
                self.csrf_token@,
                self.traits.email@,
                self.traits.username@,
                self.traits.geo_location.deep_view(),
            ),
    {
        let mut t = no_members();
        push_text(&mut t, "email", self.traits.email.as_str());
        push_text(&mut t, "username", self.traits.username.as_str());
        assert(members_view(t@) =~= seq![
            text_member("email"@, self.traits.email@),
            text_member("username"@, self.traits.username@),
        ]);
        push_opt_text(&mut t, "geo_location", &self.traits.geo_location);
        let traits = object(t);
        let mut m = no_members();
        push_text(&mut m, "method", self.method.as_str());
        push_text(&mut m, "password", self.password.as_str());
        push_text(&mut m, "csrf_token", self.csrf_token.as_str());
        let ghost tv = traits@;
        push_member(&mut m, "traits", traits);
        assert(members_view(m@) =~= seq![
            text_member("method"@, method_name(self.method)),
            text_member("password"@, self.password@),
            text_member("csrf_token"@, self.csrf_token@),
            JsonMember { key: "traits"@, value: tv },
        ]);
        object(m)
    }
}

} // verus!
