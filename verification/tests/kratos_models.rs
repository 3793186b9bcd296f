use rust_kratos::domain::entities::timestamp::{timestamp_in, Timestamp};
use rust_kratos::domain::entities::user_profile::UserProfile;
use rust_kratos::domain::errors::{AuthError, DomainError};
use rust_kratos::domain::ports::login::LoginCredentials;
use rust_kratos::domain::ports::registration::RegistrationData;
use rust_kratos::domain::value_objects::auth_method::AuthMethod;
use rust_kratos::domain::value_objects::email::Email;
use rust_kratos::domain::value_objects::password::Password;
use rust_kratos::infrastructure::adapters::kratos::http::login::map_login_error;
use rust_kratos::infrastructure::adapters::kratos::http::register::map_registration_error;
use rust_kratos::infrastructure::adapters::kratos::http::verification::map_verification_error;
use rust_kratos::infrastructure::adapters::kratos::models::errors::KratosFlowError;
use rust_kratos::infrastructure::adapters::kratos::models::identity::{Identity, SessionResponse};
use rust_kratos::infrastructure::adapters::kratos::models::login::{LoginPayload, OidcLoginPayload};
use rust_kratos::infrastructure::adapters::kratos::models::registration::RegistrationPayload;
use rust_kratos::infrastructure::adapters::kratos::models::verification::VerificationPayload;
use rust_kratos::json::{object1, Json};

fn s(x: &str) -> String {
    x.to_string()
}

fn obj(members: Vec<(&str, Json)>) -> Json {
    Json::Object(members.into_iter().map(|(k, v)| (s(k), v)).collect())
}

fn text(x: &str) -> Json {
    Json::Str(s(x))
}

fn message(id: &str, text_: &str) -> Json {
    obj(vec![("id", Json::Number(s(id))), ("text", text(text_))])
}

fn flow_error(status: u16, body: Json) -> KratosFlowError {
    KratosFlowError { status, body }
}

fn ui_with_messages(messages: Vec<Json>) -> Json {
    obj(vec![("ui", obj(vec![("messages", Json::Array(messages))]))])
}

#[test]
fn first_message_comes_from_the_flow_or_its_nodes() {
    let e = flow_error(400, ui_with_messages(vec![message("4000006", "The credentials are invalid.")]));
    assert_eq!(e.message_id(), 4000006);
    assert_eq!(e.message_text(), "The credentials are invalid.");
    let node = obj(vec![("messages", Json::Array(vec![message("4000002", "Property email is missing.")]))]);
    let quiet = obj(vec![("messages", Json::Array(vec![]))]);
    let e = flow_error(
        400,
        obj(vec![("ui", obj(vec![("messages", Json::Array(vec![])), ("nodes", Json::Array(vec![quiet, node]))]))]),
    );
    assert_eq!(e.message_id(), 4000002);
    assert_eq!(e.message_text(), "Property email is missing.");
}

#[test]
fn message_text_falls_back_to_the_error_object() {
    let e = flow_error(410, object1("error", obj(vec![("message", text("flow expired"))])));
    assert_eq!(e.message_id(), 0);
    assert_eq!(e.message_text(), "flow expired");
    let e = flow_error(500, obj(vec![]));
    assert_eq!(e.message_text(), "Unknown error");
    assert_eq!(e.describe(), "Kratos flow error (HTTP 500): Unknown error");
}

#[test]
fn network_errors_are_unavailability() {
    let e = KratosFlowError::network("timed out");
    assert_eq!(e.status, 503);
    assert_eq!(e.message_text(), "timed out");
    assert_eq!(e.describe(), "Kratos flow error (HTTP 503): timed out");
}

#[test]
fn browser_location_change_is_recognised() {
    let e = flow_error(422, object1("error", obj(vec![("id", text("browser_location_change_required"))])));
    assert!(e.is_browser_location_change_required());
    assert!(!flow_error(422, obj(vec![])).is_browser_location_change_required());
}

fn is_invalid_data(e: &DomainError, expected: &str) -> bool {
    matches!(e, DomainError::InvalidData(m) if m == expected)
}

#[test]
fn login_errors() {
    let invalid = flow_error(400, ui_with_messages(vec![message("4000006", "bad")]));
    assert!(matches!(map_login_error(&invalid), DomainError::Auth(AuthError::InvalidCredentials)));
    let invalid = flow_error(400, ui_with_messages(vec![message("4000010", "unverified")]));
    assert!(matches!(map_login_error(&invalid), DomainError::Auth(AuthError::InvalidCredentials)));
    let other = flow_error(400, ui_with_messages(vec![message("4000001", "wrong field")]));
    assert!(is_invalid_data(&map_login_error(&other), "wrong field"));
    assert!(matches!(map_login_error(&flow_error(410, obj(vec![]))), DomainError::NotFound(m) if m == "login flow"));
    assert!(matches!(map_login_error(&flow_error(401, obj(vec![]))), DomainError::Auth(AuthError::NotAuthenticated)));
    assert!(matches!(map_login_error(&flow_error(429, obj(vec![]))), DomainError::Auth(AuthError::TooManyAttempts)));
    let unprocessable = flow_error(422, ui_with_messages(vec![message("1", "redo")]));
    assert!(is_invalid_data(&map_login_error(&unprocessable), "redo"));
    assert!(matches!(map_login_error(&flow_error(500, obj(vec![]))),
        DomainError::ServiceUnavailable(m) if m == "Kratos flow error (HTTP 500): Unknown error"));
    let change = flow_error(422, object1("error", obj(vec![("id", text("browser_location_change_required"))])));
    assert!(matches!(map_login_error(&change),
        DomainError::ServiceUnavailable(m) if m == "Browser location change required"));
}

#[test]
fn registration_errors() {
    let exists = flow_error(400, ui_with_messages(vec![message("4000007", "exists")]));
    assert!(matches!(map_registration_error(&exists), DomainError::Conflict(m) if m == "Email already exists"));
    let weak = flow_error(400, ui_with_messages(vec![message("4000010", "weak")]));
    assert!(is_invalid_data(&map_registration_error(&weak), "Password is too weak"));
    let other = flow_error(400, ui_with_messages(vec![message("4000001", "bad field")]));
    assert!(is_invalid_data(&map_registration_error(&other), "bad field"));
    assert!(matches!(map_registration_error(&flow_error(410, obj(vec![]))),
        DomainError::NotFound(m) if m == "registration flow"));
    assert!(matches!(map_registration_error(&flow_error(429, obj(vec![]))),
        DomainError::Auth(AuthError::TooManyAttempts)));
    assert!(matches!(map_registration_error(&flow_error(401, obj(vec![]))),
        DomainError::ServiceUnavailable(m) if m == "Kratos flow error (HTTP 401): Unknown error"));
}

#[test]
fn verification_errors() {
    let code = flow_error(400, ui_with_messages(vec![message("4070006", "x")]));
    assert!(is_invalid_data(&map_verification_error(&code), "Invalid verification code"));
    let address = flow_error(400, ui_with_messages(vec![message("4070001", "x")]));
    assert!(is_invalid_data(&map_verification_error(&address), "Invalid email address"));
    assert!(matches!(map_verification_error(&flow_error(410, obj(vec![]))),
        DomainError::NotFound(m) if m == "verification flow"));
    assert!(matches!(map_verification_error(&flow_error(401, obj(vec![]))),
        DomainError::Auth(AuthError::NotAuthenticated)));
    assert!(matches!(map_verification_error(&KratosFlowError::network("down")),
        DomainError::ServiceUnavailable(m) if m == "Kratos flow error (HTTP 503): down"));
}

fn credentials(code: Option<&str>) -> LoginCredentials {
    LoginCredentials {
        identifier: Email::new(s("user@example.com")).unwrap(),
        password: Password::new(s("secret")).unwrap(),
        address: None,
        code: code.map(s),
        resend: None,
    }
}

#[test]
fn login_payload_with_password() {
    let p = LoginPayload::from_credentials(credentials(None), s("tok"));
    assert_eq!(p.method, AuthMethod::Password);
    assert_eq!(
        p.to_json(),
        obj(vec![
            ("method", text("password")),
            ("identifier", text("user@example.com")),
            ("password", text("secret")),
            ("csrf_token", text("tok")),
        ])
    );
}

#[test]
fn login_payload_with_code() {
    let p = LoginPayload::from_credentials(credentials(Some("123456")), s("tok"));
    assert_eq!(p.method, AuthMethod::Code);
    assert_eq!(
        p.to_json(),
        obj(vec![
            ("method", text("code")),
            ("identifier", text("user@example.com")),
            ("password", text("secret")),
            ("csrf_token", text("tok")),
            ("code", text("123456")),
        ])
    );
}

#[test]
fn oidc_payload() {
    let p = OidcLoginPayload::new("google", s("tok"));
    assert_eq!(p.to_json(), obj(vec![("method", text("oidc")), ("provider", text("google")), ("csrf_token", text("tok"))]));
}

#[test]
fn registration_payload() {
    let data = RegistrationData {
        email: Email::new(s("new@example.com")).unwrap(),
        username: s("neo"),
        password: Password::new(s("pw")).unwrap(),
        geo_location: Some(s("EU")),
    };
    let p = RegistrationPayload::from_data(data, s("tok"));
    assert_eq!(
        p.to_json(),
        obj(vec![
            ("method", text("password")),
            ("password", text("pw")),
            ("csrf_token", text("tok")),
            ("traits", obj(vec![("email", text("new@example.com")), ("username", text("neo")), ("geo_location", text("EU"))])),
        ])
    );
}

#[test]
fn verification_payload() {
    let p = VerificationPayload::new(AuthMethod::Code, None, Some(s("987")), s("tok"), Some(object1("a", Json::Bool(true))));
    assert_eq!(
        p.into_json(),
        obj(vec![
            ("method", text("code")),
            ("code", text("987")),
            ("csrf_token", text("tok")),
            ("transient_payload", object1("a", Json::Bool(true))),
        ])
    );
}

#[test]
fn rfc3339_instants_are_read_by_chrono() {
    assert_eq!(timestamp_in(Some(&text("2024-01-01T00:00:00Z"))), Some(Timestamp { secs: 1704067200, nanos: 0 }));
    assert_eq!(
        timestamp_in(Some(&text("2024-01-01T02:00:00.5+02:00"))),
        Some(Timestamp { secs: 1704067200, nanos: 500_000_000 })
    );
    assert_eq!(timestamp_in(Some(&text("yesterday"))), None);
    assert_eq!(timestamp_in(Some(&Json::Number(s("1")))), None);
    assert_eq!(timestamp_in(None), None);
}

#[test]
fn a_session_document_makes_a_profile() {
    let doc = obj(vec![
        ("active", Json::Bool(true)),
        ("expires_at", text("2024-01-02T00:00:00Z")),
        (
            "identity",
            obj(vec![
                ("id", text("u1")),
                ("state", text("active")),
                ("created_at", text("2024-01-01T00:00:00Z")),
                ("traits", obj(vec![("email", text("a@b.c")), ("username", text("ann"))])),
            ]),
        ),
    ]);
    let session = SessionResponse::from_json(Some(&doc));
    assert!(session.active);
    let SessionResponse { identity, active, expires_at } = session;
    let p: UserProfile = UserProfile::from_session(identity, active, expires_at);
    assert_eq!(p.id, "u1");
    assert_eq!(p.email, "a@b.c");
    assert_eq!(p.username, "ann");
    assert_eq!(p.geo_location, None);
    assert_eq!(p.state, Some(s("active")));
    assert_eq!(p.created_at, Some(Timestamp { secs: 1704067200, nanos: 0 }));
    assert_eq!(p.updated_at, None);
    assert!(p.active);
    assert_eq!(p.expires_at, Some(Timestamp { secs: 1704153600, nanos: 0 }));
}

#[test]
fn a_missing_identity_reads_as_empty() {
    let i = Identity::from_json(None);
    assert_eq!(i.id, "");
    assert_eq!(i.traits.email, "");
    assert_eq!(i.state, None);
    let session = SessionResponse::from_json(Some(&obj(vec![])));
    assert!(!session.active);
    assert_eq!(session.expires_at, None);
}
