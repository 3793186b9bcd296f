//! The bodies that submit a login flow.
use vstd::prelude::*;
use crate::domain::ports::login::LoginCredentials;
use crate::domain::value_objects::auth_method::{method_name, AuthMethod};
use crate::infrastructure::adapters::kratos::models::payload::{
    no_members, push_opt_text, push_text, text_member, with_text,
};
use crate::json::{lemma_lookup_push, lookup, member, members_view, object, text_value, Json, JsonMember, JsonValue};

verus! {

/// The body that submits a login flow; the optional fields are left out of the
/// JSON when they are missing.
pub struct LoginPayload {
    pub method: AuthMethod,
    pub identifier: String,
    pub password: String,
    pub csrf_token: String,
    pub address: Option<String>,
    pub code: Option<String>,
    pub resend: Option<String>,
}

pub struct LoginPayloadView {
    pub method: AuthMethod,
    pub identifier: Seq<char>,
    pub password: Seq<char>,
    pub csrf_token: Seq<char>,
    pub address: Option<Seq<char>>,
    pub code: Option<Seq<char>>,
    pub resend: Option<Seq<char>>,
}

impl View for LoginPayload {
    type V = LoginPayloadView;

    open spec fn view(&self) -> LoginPayloadView {
        LoginPayloadView {
            method: self.method,
            identifier: self.identifier@,
            password: self.password@,
            csrf_token: self.csrf_token@,
            address: self.address.deep_view(),
            code: self.code.deep_view(),
            resend: self.resend.deep_view(),
        }
    }
}

/// The login body for credentials and a CSRF token: a one-time code selects the
/// code method, anything else the password method.
pub open spec fn login_payload_of(c: LoginCredentials, csrf_token: Seq<char>) -> LoginPayloadView {
    LoginPayloadView {
        method: if c.code is Some { AuthMethod::Code } else { AuthMethod::Password },
        identifier: c.identifier@,
        password: c.password@,
        csrf_token,
        address: c.address.deep_view(),
        code: c.code.deep_view(),
        resend: c.resend.deep_view(),
    }
}

/// The JSON of a login body.
pub open spec fn login_payload_json(p: LoginPayloadView) -> JsonValue {
    JsonValue::Object(
        with_text(
            with_text(
                with_text(
                    seq![
                        text_member("method"@, method_name(p.method)),
                        text_member("identifier"@, p.identifier),
                        text_member("password"@, p.password),
                        text_member("csrf_token"@, p.csrf_token),
                    ],
                    "address"@,
                    p.address,
                ),
                "code"@,
                p.code,
            ),
            "resend"@,
            p.resend,
        ),
    )
}

/// Every field of a login body is submitted under its own key: the method name,
/// the identifier, the password and the CSRF token always, and each of the
/// address, the code and the resend target exactly when it is present.
pub proof fn lemma_login_body_fields(p: LoginPayloadView)
    ensures
        member(Some(login_payload_json(p)), "method"@) == Some(JsonValue::Str(method_name(p.method))),
        member(Some(login_payload_json(p)), "identifier"@) == Some(JsonValue::Str(p.identifier)),
        member(Some(login_payload_json(p)), "password"@) == Some(JsonValue::Str(p.password)),
        member(Some(login_payload_json(p)), "csrf_token"@) == Some(JsonValue::Str(p.csrf_token)),
        member(Some(login_payload_json(p)), "address"@) == text_value(p.address),
        member(Some(login_payload_json(p)), "code"@) == text_value(p.code),
        member(Some(login_payload_json(p)), "resend"@) == text_value(p.resend),
{
    reveal_strlit("method");
    reveal_strlit("identifier");
    reveal_strlit("password");
    reveal_strlit("csrf_token");
    reveal_strlit("address");
    reveal_strlit("code");
    reveal_strlit("resend");
    let base = seq![
        text_member("method"@, method_name(p.method)),
        text_member("identifier"@, p.identifier),
        text_member("password"@, p.password),
        text_member("csrf_token"@, p.csrf_token),
    ];
    let e = Seq::<JsonMember>::empty();
    assert(base =~= e.push(base[0]).push(base[1]).push(base[2]).push(base[3]));
    let with_address = with_text(base, "address"@, p.address);
    let with_code = with_text(with_address, "code"@, p.code);
    let all = with_text(with_code, "resend"@, p.resend);
    assert(login_payload_json(p) == JsonValue::Object(all));
    assert("resend"@[0] != "method"@[0]);
    assert("code"@.len() != "csrf_token"@.len());
    assert("identifier"@[0] != "csrf_token"@[0]);
    assert forall|k: Seq<char>| #[trigger] lookup(all, k) == (
        match lookup(base, k) {
            Some(v) => Some(v),
            None => if k == "address"@ && p.address is Some { text_value(p.address) }
                else if k == "code"@ && p.code is Some { text_value(p.code) }
                else if k == "resend"@ && p.resend is Some { text_value(p.resend) }
                else { None },
        }
    ) by {
        if let Some(a) = p.address {
            lemma_lookup_push(base, JsonMember { key: "address"@, value: JsonValue::Str(a) }, k);
        }
        if let Some(c) = p.code {
            lemma_lookup_push(with_address, JsonMember { key: "code"@, value: JsonValue::Str(c) }, k);
        }
        if let Some(r) = p.resend {
            lemma_lookup_push(with_code, JsonMember { key: "resend"@, value: JsonValue::Str(r) }, k);
        }
    }
    assert forall|k: Seq<char>| #[trigger] lookup(base, k) == (
        if k == "method"@ { Some(JsonValue::Str(method_name(p.method))) }
        else if k == "identifier"@ { Some(JsonValue::Str(p.identifier)) }
        else if k == "password"@ { Some(JsonValue::Str(p.password)) }
        else if k == "csrf_token"@ { Some(JsonValue::Str(p.csrf_token)) }
        else { None }
    ) by {
        lemma_lookup_push(e, base[0], k);
        lemma_lookup_push(e.push(base[0]), base[1], k);
        lemma_lookup_push(e.push(base[0]).push(base[1]), base[2], k);
        lemma_lookup_push(e.push(base[0]).push(base[1]).push(base[2]), base[3], k);
        assert(lookup(e, k) is None);
    }
    assert("method"@.len() == 6 && "identifier"@.len() == 10 && "password"@.len() == 8);
    assert("csrf_token"@.len() == 10 && "address"@.len() == 7 && "code"@.len() == 4);
    assert("resend"@.len() == 6);
    assert("address"@ != "method"@ && "address"@ != "identifier"@ && "address"@ != "password"@);
    assert("address"@ != "csrf_token"@ && "code"@ != "method"@ && "code"@ != "identifier"@);
    assert("code"@ != "password"@ && "code"@ != "csrf_token"@ && "code"@ != "address"@);
    assert("resend"@ != "identifier"@ && "resend"@ != "password"@ && "resend"@ != "csrf_token"@);
    assert("resend"@ != "address"@ && "resend"@ != "code"@);
    assert("resend"@ != "method"@);
    assert("identifier"@ != "method"@ && "password"@ != "method"@ && "csrf_token"@ != "method"@);
    assert("password"@ != "identifier"@ && "csrf_token"@ != "identifier"@ && "csrf_token"@ != "password"@);
    assert(lookup(all, "address"@) == text_value(p.address));
    assert(lookup(all, "code"@) == text_value(p.code));
    assert(lookup(all, "resend"@) == text_value(p.resend));
}

/// The login body of credentials carries them all: the identifier, the password
/// and the CSRF token, and the address, the code and the resend target exactly
/// when the credentials have them; a code selects the `code` method.
pub proof fn lemma_login_body_of_credentials(c: LoginCredentials, csrf_token: Seq<char>)
    ensures
        member(Some(login_payload_json(login_payload_of(c, csrf_token))), "identifier"@)
            == Some(JsonValue::Str(c.identifier@)),
        member(Some(login_payload_json(login_payload_of(c, csrf_token))), "password"@)
            == Some(JsonValue::Str(c.password@)),
        member(Some(login_payload_json(login_payload_of(c, csrf_token))), "csrf_token"@)
            == Some(JsonValue::Str(csrf_token)),
        member(Some(login_payload_json(login_payload_of(c, csrf_token))), "address"@)
            == text_value(c.address.deep_view()),
        member(Some(login_payload_json(login_payload_of(c, csrf_token))), "code"@)
            == text_value(c.code.deep_view()),
        member(Some(login_payload_json(login_payload_of(c, csrf_token))), "resend"@)
            == text_value(c.resend.deep_view()),
        member(Some(login_payload_json(login_payload_of(c, csrf_token))), "method"@)
            == Some(JsonValue::Str(if c.code is Some { "code"@ } else { "password"@ })),
{
    lemma_login_body_fields(login_payload_of(c, csrf_token));
}

impl LoginPayload {
    pub fn from_credentials(credentials: LoginCredentials, csrf_token: String) -> (r: LoginPayload)
        ensures
            r@ == login_payload_of(credentials, csrf_token@),
    {
        let method = if credentials.code.is_some() {
            AuthMethod::Code
        } else {
            AuthMethod::Password
        };
        LoginPayload {
            method,
            identifier: String::from_str(credentials.identifier.as_str()),
            password: String::from_str(credentials.password.as_str()),
            csrf_token,
            address: credentials.address,
            code: credentials.code,
            resend: credentials.resend,
        }
    }

    /// The body as JSON.
    pub fn to_json(&self) -> (r: Json)
        ensures
            r@ == login_payload_json(self@),
    {
        let mut m = no_members();
        push_text(&mut m, "method", self.method.as_str());
        push_text(&mut m, "identifier", self.identifier.as_str());
        push_text(&mut m, "password", self.password.as_str());
        push_text(&mut m, "csrf_token", self.csrf_token.as_str());
        assert(members_view(m@) =~= seq![
            text_member("method"@, method_name(self.method)),
            text_member("identifier"@, self.identifier@),
            text_member("password"@, self.password@),
            text_member("csrf_token"@, self.csrf_token@),
        ]);
        push_opt_text(&mut m, "address", &self.address);
        push_opt_text(&mut m, "code", &self.code);
        push_opt_text(&mut m, "resend", &self.resend);
        object(m)
    }
}

/// The body that starts a login with an OpenID Connect provider.
pub struct OidcLoginPayload {
    pub method: String,
    pub provider: String,
    pub csrf_token: String,
    pub id_token: Option<String>,
    pub id_token_nonce: Option<String>,
}

impl OidcLoginPayload {
    /// The `oidc` method with `provider` and no ID token.
    pub fn new(provider: &str, csrf_token: String) -> (r: OidcLoginPayload)
        ensures
            r.method@ == "oidc"@,
            r.provider@ == provider@,
            r.csrf_token@ == csrf_token@,
            r.id_token is None,
            r.id_token_nonce is None,
    {
        OidcLoginPayload {
            method: String::from_str("oidc"),
            provider: String::from_str(provider),
            csrf_token,
            id_token: None,
            id_token_nonce: None,
        }
    }

    /// The body as JSON.
    pub fn to_json(&self) -> (r: Json)
        ensures
            r@ == JsonValue::Object(
                with_text(
                    with_text(
                        seq![
                            text_member("method"@, self.method@),
                            text_member("provider"@, self.provider@),
                            text_member("csrf_token"@, self.csrf_token@),
                        ],
                        "id_token"@,
                        self.id_token.deep_view(),
                    ),
                    "id_token_nonce"@,
                    self.id_token_nonce.deep_view(),
                ),
            ),
    {
        let mut m = no_members();
        push_text(&mut m, "method", self.method.as_str());
        push_text(&mut m, "provider", self.provider.as_str());
        push_text(&mut m, "csrf_token", self.csrf_token.as_str());
        assert(members_view(m@) =~= seq![
            text_member("method"@, self.method@),
            text_member("provider"@, self.provider@),
            text_member("csrf_token"@, self.csrf_token@),
        ]);
        push_opt_text(&mut m, "id_token", &self.id_token);
        push_opt_text(&mut m, "id_token_nonce", &self.id_token_nonce);
        object(m)
    }
}

} // verus!
