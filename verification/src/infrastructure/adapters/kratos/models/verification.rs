//! The body that submits a verification flow.
use vstd::prelude::*;
use crate::domain::value_objects::auth_method::{method_name, AuthMethod};
use crate::infrastructure::adapters::kratos::models::payload::{
    no_members, opt_doc_view, push_opt_doc, push_opt_text, push_text, text_member, with_doc,
    with_text,
};
use crate::json::{lemma_lookup_push, lookup, member, members_view, object, text_value, Json, JsonMember, JsonValue};

verus! {

/// The body that submits a verification flow; missing fields are left out.
pub struct VerificationPayload {
    pub method: AuthMethod,
    pub email: Option<String>,
    pub code: Option<String>,
    pub csrf_token: String,
    pub transient_payload: Option<Json>,
}

/// The JSON of a verification body.
pub open spec fn verification_payload_json(
    method: AuthMethod,
    email: Option<Seq<char>>,
    code: Option<Seq<char>>,
    csrf_token: Seq<char>,
    transient_payload: Option<JsonValue>,
) -> JsonValue {
    JsonValue::Object(
        with_doc(
            with_text(
                with_text(seq![text_member("method"@, method_name(method))], "email"@, email),
                "code"@,
                code,
            ).push(text_member("csrf_token"@, csrf_token)),
            "transient_payload"@,
            transient_payload,
        ),
    )
}

/// A verification body submits its method name and CSRF token, and each of the
/// e-mail address, the code and the transient payload exactly when it is present.
pub proof fn lemma_verification_body_fields(
    method: AuthMethod,
    email: Option<Seq<char>>,
    code: Option<Seq<char>>,
    csrf_token: Seq<char>,
    transient_payload: Option<JsonValue>,
)
    ensures ({
        let body = Some(verification_payload_json(method, email, code, csrf_token, transient_payload));
        &&& member(body, "method"@) == Some(JsonValue::Str(method_name(method)))
        &&& member(body, "csrf_token"@) == Some(JsonValue::Str(csrf_token))
        &&& member(body, "email"@) == text_value(email)
        &&& member(body, "code"@) == text_value(code)
        &&& member(body, "transient_payload"@) == transient_payload
    }),
{
    reveal_strlit("method");
    reveal_strlit("email");
    reveal_strlit("code");
    reveal_strlit("csrf_token");
    reveal_strlit("transient_payload");
    assert("method"@.len() == 6 && "email"@.len() == 5 && "code"@.len() == 4);
    assert("csrf_token"@.len() == 10 && "transient_payload"@.len() == 17);
    let e = Seq::<JsonMember>::empty();
    let m0 = text_member("method"@, method_name(method));
    let base = seq![m0];
    assert(base =~= e.push(m0));
    let with_email = with_text(base, "email"@, email);
    let with_code = with_text(with_email, "code"@, code);
    let csrf = text_member("csrf_token"@, csrf_token);
    let with_csrf = with_code.push(csrf);
    let all = with_doc(with_csrf, "transient_payload"@, transient_payload);
    assert(verification_payload_json(method, email, code, csrf_token, transient_payload) == JsonValue::Object(all));
    assert forall|k: Seq<char>| #[trigger] lookup(all, k) == (
        if k == "method"@ { Some(JsonValue::Str(method_name(method))) }
        else if k == "email"@ && email is Some { text_value(email) }
        else if k == "code"@ && code is Some { text_value(code) }
        else if k == "csrf_token"@ { Some(JsonValue::Str(csrf_token)) }
        else if k == "transient_payload"@ { transient_payload }
        else { None }
    ) by {
        lemma_lookup_push(e, m0, k);
        assert(lookup(e, k) is None);
        if let Some(a) = email {
            lemma_lookup_push(base, JsonMember { key: "email"@, value: JsonValue::Str(a) }, k);
        }
        if let Some(c) = code {
            lemma_lookup_push(with_email, JsonMember { key: "code"@, value: JsonValue::Str(c) }, k);
        }
        lemma_lookup_push(with_code, csrf, k);
        if let Some(t) = transient_payload {
            lemma_lookup_push(with_csrf, JsonMember { key: "transient_payload"@, value: t }, k);
        }
    }
    assert(lookup(all, "email"@) == text_value(email));
    assert(lookup(all, "code"@) == text_value(code));
    assert(lookup(all, "transient_payload"@) == transient_payload);
}

impl VerificationPayload {
    pub fn new(
        method: AuthMethod,
        email: Option<String>,
        code: Option<String>,
        csrf_token: String,
        transient_payload: Option<Json>,
    ) -> (r: VerificationPayload)
        ensures
            r == (VerificationPayload { method, email, code, csrf_token, transient_payload }),
    {
        VerificationPayload { method, email, code, csrf_token, transient_payload }
    }

    /// The body as JSON.
    pub fn into_json(self) -> (r: Json)
        ensures
            r@ == verification_payload_json(
                self.method,
                self.email.deep_view(),
                self.code.deep_view(),
                self.csrf_token@,
                opt_doc_view(self.transient_payload),
            ),
    {
        let mut m = no_members();
        push_text(&mut m, "method", self.method.as_str());
        assert(members_view(m@) =~= seq![text_member("method"@, method_name(self.method))]);
        push_opt_text(&mut m, "email", &self.email);
        push_opt_text(&mut m, "code", &self.code);
        push_text(&mut m, "csrf_token", self.csrf_token.as_str());
        push_opt_doc(&mut m, "transient_payload", self.transient_payload);
        object(m)
    }
}

} // verus!
