use std::sync::Arc;

use rust_kratos::application::commands::auth::login::{LoginCommand, LoginCommandHandler, LoginStep};
use rust_kratos::application::commands::auth::logout::{LogoutCommand, LogoutCommandHandler};
use rust_kratos::application::commands::identity::register::{
    RegisterCommand, RegisterCommandHandler, RegisterStep,
};
use rust_kratos::domain::errors::{AuthError, DomainError};
use rust_kratos::domain::ports::login::LoginCredentials;
use rust_kratos::domain::ports::registration::RegistrationData;
use rust_kratos::domain::ports::verification::{SendCodeRequest, SubmitCodeRequest, VerifyByLinkRequest};
use rust_kratos::domain::value_objects::email::Email;
use rust_kratos::domain::value_objects::password::Password;
use rust_kratos::infrastructure::adapters::kratos::client::{KratosClient, KratosClientConfig};
use rust_kratos::infrastructure::adapters::kratos::http::exchange::HttpReply;
use rust_kratos::infrastructure::adapters::kratos::http::login::KratosAuthenticationAdapter;
use rust_kratos::infrastructure::adapters::kratos::http::register::KratosRegistrationAdapter;
use rust_kratos::infrastructure::adapters::kratos::http::verification::{
    KratosVerificationAdapter, VerificationStep,
};
use rust_kratos::infrastructure::di::adapter_factory::AdapterFactory;
use rust_kratos::infrastructure::di::container::{AppContainer, UseCases};
use rust_kratos::infrastructure::di::factory::KratosAdapterFactory;
use rust_kratos::json::{object1, Json};

fn s(x: &str) -> String {
    x.to_string()
}

fn obj(members: Vec<(&str, Json)>) -> Json {
    Json::Object(members.into_iter().map(|(k, v)| (s(k), v)).collect())
}

fn text(x: &str) -> Json {
    Json::Str(s(x))
}

fn client() -> Arc<KratosClient> {
    Arc::new(KratosClient::new(&KratosClientConfig {
        admin_url: s("http://localhost:4434"),
        public_url: s("http://localhost:4433"),
        timeout_secs: 120,
        connect_timeout_secs: 30,
        pool_idle_timeout_secs: 120,
        pool_max_idle_per_host: 10,
        max_retries: 3,
        retry_delay_ms: 1000,
        accept_invalid_certs: false,
    }))
}

fn flow_doc(id: &str, token: &str) -> Json {
    let csrf = obj(vec![("attributes", obj(vec![("name", text("csrf_token")), ("value", text(token))]))]);
    obj(vec![("id", text(id)), ("ui", obj(vec![("nodes", Json::Array(vec![csrf]))]))])
}

fn reply(status: u16, cookies: Vec<&str>, body: Result<Json, String>) -> HttpReply {
    HttpReply { status, set_cookies: cookies.into_iter().map(s).collect(), location: None, body }
}

fn session_doc() -> Json {
    object1(
        "session",
        obj(vec![
            ("active", Json::Bool(true)),
            (
                "identity",
                obj(vec![
                    ("id", text("u1")),
                    ("traits", obj(vec![("email", text("user@example.com")), ("username", text("neo"))])),
                ]),
            ),
        ]),
    )
}

fn credentials() -> LoginCredentials {
    LoginCredentials {
        identifier: Email::new(s("user@example.com")).unwrap(),
        password: Password::new(s("secret")).unwrap(),
        address: None,
        code: None,
        resend: None,
    }
}

fn login_handler() -> LoginCommandHandler {
    LoginCommandHandler::new(Arc::new(KratosAuthenticationAdapter::new(client())))
}

fn login_session_step(active: bool, recovery: bool) -> LoginStep {
    match login_handler().handle(LoginCommand { credentials: credentials(), cookie: Some(s("c=1")) }) {
        LoginStep::CheckSession { cookie, next } => {
            assert_eq!(cookie, Some(s("c=1")));
            next.resume(active, recovery)
        },
        _ => panic!("a login starts with the session check"),
    }
}

#[test]
fn login_with_an_active_session_is_refused() {
    assert!(matches!(login_session_step(true, false), LoginStep::Done(Err(DomainError::Auth(AuthError::AlreadyLoggedIn)))));
}

#[test]
fn login_with_a_recovery_session_goes_on() {
    assert!(matches!(login_session_step(true, true), LoginStep::Fetch(_, _)));
}

#[test]
fn login_runs_through_the_flow() {
    let (get, process) = match login_session_step(false, false) {
        LoginStep::Fetch(g, p) => (g, p),
        _ => panic!("the flow was not fetched"),
    };
    assert_eq!(get.url, "http://127.0.0.1:4433/self-service/login/browser");
    assert_eq!(get.cookie, None);
    let (post, process) = match process.on_reply(Ok(reply(200, vec!["csrf=1"], Ok(flow_doc("f1", "tok"))))) {
        LoginStep::Submit(p, next) => (p, next),
        _ => panic!("the credentials were not submitted"),
    };
    assert_eq!(post.url, "http://127.0.0.1:4433/self-service/login?flow=f1");
    assert_eq!(post.cookie, "csrf=1");
    assert_eq!(
        post.body,
        obj(vec![
            ("method", text("password")),
            ("identifier", text("user@example.com")),
            ("password", text("secret")),
            ("csrf_token", text("tok")),
        ])
    );
    match process.on_reply(Ok(reply(200, vec!["csrf=2", "ory_kratos_session=abc"], Ok(session_doc())))) {
        LoginStep::Done(Ok(result)) => {
            assert_eq!(result.session_cookie, "ory_kratos_session=abc");
            assert_eq!(result.user.id, "u1");
            assert_eq!(result.user.email, "user@example.com");
            assert_eq!(result.user.username, "neo");
            assert!(result.user.active);
        },
        _ => panic!("the login did not complete"),
    }
}

fn submitted_login() -> rust_kratos::application::commands::auth::login::LoginProcess {
    let process = match login_session_step(false, false) {
        LoginStep::Fetch(_, p) => p,
        _ => panic!("the flow was not fetched"),
    };
    match process.on_reply(Ok(reply(200, vec![], Ok(flow_doc("f1", "tok"))))) {
        LoginStep::Submit(_, next) => next,
        _ => panic!("the credentials were not submitted"),
    }
}

#[test]
fn login_without_a_session_cookie_fails() {
    match submitted_login().on_reply(Ok(reply(200, vec!["csrf=2"], Ok(session_doc())))) {
        LoginStep::Done(Err(DomainError::Internal(m))) => assert_eq!(m, "Session token not found"),
        _ => panic!("expected an internal error"),
    }
}

#[test]
fn login_with_wrong_credentials_fails() {
    let body = obj(vec![(
        "ui",
        obj(vec![("messages", Json::Array(vec![obj(vec![("id", Json::Number(s("4000006"))), ("text", text("no"))])]))]),
    )]);
    assert!(matches!(
        submitted_login().on_reply(Ok(reply(400, vec![], Ok(body)))),
        LoginStep::Done(Err(DomainError::Auth(AuthError::InvalidCredentials)))
    ));
}

#[test]
fn login_flow_that_cannot_be_opened_fails() {
    let process = match login_session_step(false, false) {
        LoginStep::Fetch(_, p) => p,
        _ => panic!("the flow was not fetched"),
    };
    assert!(matches!(
        process.on_reply(Err(s("refused"))),
        LoginStep::Done(Err(DomainError::ServiceUnavailable(m))) if m == "Kratos flow error (HTTP 503): refused"
    ));
}

fn registration_data() -> RegistrationData {
    RegistrationData {
        email: Email::new(s("new@example.com")).unwrap(),
        username: s("neo"),
        password: Password::new(s("pw")).unwrap(),
        geo_location: None,
    }
}

fn register_session_step(active: bool) -> RegisterStep {
    let handler = RegisterCommandHandler::new(Arc::new(KratosRegistrationAdapter::new(client())));
    match handler.handle(RegisterCommand { data: registration_data(), cookie: Some(s("c=1")) }) {
        RegisterStep::CheckSession { cookie, next } => {
            assert_eq!(cookie, Some(s("c=1")));
            next.resume(active)
        },
        _ => panic!("a registration starts with the session check"),
    }
}

#[test]
fn registration_with_an_active_session_is_refused() {
    assert!(matches!(register_session_step(true), RegisterStep::Done(Err(DomainError::Auth(AuthError::AlreadyLoggedIn)))));
}

#[test]
fn registration_runs_through_the_flow() {
    let (get, process) = match register_session_step(false) {
        RegisterStep::Fetch(g, p) => (g, p),
        _ => panic!("the flow was not fetched"),
    };
    assert_eq!(get.url, "http://127.0.0.1:4433/self-service/registration/browser");
    assert_eq!(get.cookie, Some(s("c=1")));
    let (post, process) = match process.on_reply(Ok(reply(200, vec!["csrf=1"], Ok(flow_doc("r1", "tok"))))) {
        RegisterStep::Submit(p, next) => (p, next),
        _ => panic!("the data was not submitted"),
    };
    assert_eq!(post.url, "http://127.0.0.1:4433/self-service/registration?flow=r1");
    assert_eq!(post.cookie, "c=1; csrf=1");
    assert_eq!(
        post.body,
        obj(vec![
            ("method", text("password")),
            ("password", text("pw")),
            ("csrf_token", text("tok")),
            ("traits", obj(vec![("email", text("new@example.com")), ("username", text("neo"))])),
        ])
    );
    let answer = obj(vec![
        ("identity", obj(vec![("id", text("u2")), ("traits", obj(vec![("email", text("new@example.com"))]))])),
        ("session", obj(vec![("active", Json::Bool(true))])),
    ]);
    match process.on_reply(Ok(reply(200, vec!["ory_kratos_session=new"], Ok(answer)))) {
        RegisterStep::Done(Ok(result)) => {
            assert_eq!(result.flow_id, "r1");
            assert_eq!(result.session_cookie, "ory_kratos_session=new");
            assert_eq!(result.user.id, "u2");
            assert_eq!(result.user.email, "new@example.com");
            assert_eq!(result.user.username, "");
            assert!(result.user.active);
        },
        _ => panic!("the registration did not complete"),
    }
}

#[test]
fn registration_without_a_session_cookie_fails() {
    let process = match register_session_step(false) {
        RegisterStep::Fetch(_, p) => p,
        _ => panic!("the flow was not fetched"),
    };
    let process = match process.on_reply(Ok(reply(200, vec![], Ok(flow_doc("r1", "tok"))))) {
        RegisterStep::Submit(_, next) => next,
        _ => panic!("the data was not submitted"),
    };
    assert!(matches!(process.on_reply(Ok(reply(200, vec!["csrf=9"], Ok(obj(vec![]))))),
        RegisterStep::Done(Err(DomainError::Internal(m))) if m == "No session cookie was created"));
}

#[test]
fn verification_by_link_runs_through_the_flow() {
    let adapter = KratosVerificationAdapter::new(client());
    let request = VerifyByLinkRequest { email: Email::new(s("a@b.c")).unwrap(), transient_payload: None };
    let (get, process) = match adapter.verify_by_link(request, None) {
        VerificationStep::Fetch(g, p) => (g, p),
        _ => panic!("the flow was not fetched"),
    };
    assert_eq!(get.url, "http://127.0.0.1:4433/self-service/verification/browser");
    let (post, process) = match process.on_reply(Ok(reply(200, vec![], Ok(flow_doc("v1", "tok"))))) {
        VerificationStep::Submit(p, next) => (p, next),
        _ => panic!("the flow was not submitted"),
    };
    assert_eq!(post.url, "http://127.0.0.1:4433/self-service/verification?flow=v1");
    assert_eq!(post.body, obj(vec![("method", text("link")), ("email", text("a@b.c")), ("csrf_token", text("tok"))]));
    assert!(matches!(process.on_reply(Ok(reply(200, vec![], Ok(obj(vec![]))))), VerificationStep::Done(Ok(()))));
}

#[test]
fn verification_code_is_sent_and_submitted() {
    let adapter = KratosVerificationAdapter::new(client());
    let send = SendCodeRequest { email: Email::new(s("a@b.c")).unwrap(), transient_payload: None };
    let process = match adapter.send_verification_code(send, Some("c=1")) {
        VerificationStep::Fetch(g, p) => {
            assert_eq!(g.cookie, Some(s("c=1")));
            p
        },
        _ => panic!("the flow was not fetched"),
    };
    match process.on_reply(Ok(reply(200, vec![], Ok(flow_doc("v1", "tok"))))) {
        VerificationStep::Submit(p, _) => {
            assert_eq!(p.cookie, "c=1");
            assert_eq!(p.body, obj(vec![("method", text("code")), ("email", text("a@b.c")), ("csrf_token", text("tok"))]));
        },
        _ => panic!("the flow was not submitted"),
    }
    let submit = SubmitCodeRequest { code: s("123"), transient_payload: Some(Json::Null) };
    let process = match adapter.submit_verification_code(submit, "c=2") {
        VerificationStep::Fetch(g, p) => {
            assert_eq!(g.cookie, Some(s("c=2")));
            p
        },
        _ => panic!("the flow was not fetched"),
    };
    let (post, process) = match process.on_reply(Ok(reply(200, vec![], Ok(flow_doc("v2", "t2"))))) {
        VerificationStep::Submit(p, next) => (p, next),
        _ => panic!("the flow was not submitted"),
    };
    assert_eq!(
        post.body,
        obj(vec![("method", text("code")), ("code", text("123")), ("csrf_token", text("t2")), ("transient_payload", Json::Null)])
    );
    let body = obj(vec![(
        "ui",
        obj(vec![("messages", Json::Array(vec![obj(vec![("id", Json::Number(s("4070006"))), ("text", text("bad"))])]))]),
    )]);
    assert!(matches!(process.on_reply(Ok(reply(400, vec![], Ok(body)))),
        VerificationStep::Done(Err(DomainError::InvalidData(m))) if m == "Invalid verification code"));
}

#[test]
fn logout_needs_a_cookie() {
    let handler = LogoutCommandHandler::new();
    assert_eq!(handler.handle(LogoutCommand { cookie: Some(s("ory_kratos_session=x")) }).unwrap(), "ory_kratos_session=x");
    assert!(matches!(handler.handle(LogoutCommand { cookie: None }), Err(DomainError::Auth(AuthError::NotAuthenticated))));
}

#[test]
fn the_container_wires_every_use_case_to_one_client() {
    let container = AppContainer::assemble(client(), 300);
    assert_eq!(container.kratos_client().public_url, "http://localhost:4433");
    let cases = container.use_cases();
    match cases.commands.logout.handle(LogoutCommand { cookie: None }) {
        Err(DomainError::Auth(AuthError::NotAuthenticated)) => {},
        _ => panic!("the logout use case is not wired"),
    }
    let factory = KratosAdapterFactory::from_client(client(), 60);
    assert_eq!(factory.cache_ttl(), 60);
    assert_eq!(factory.client_handle().admin_url, "http://localhost:4434");
    let adapter = factory.create_verification_adapter();
    let request = VerifyByLinkRequest { email: Email::new(s("a@b.c")).unwrap(), transient_payload: None };
    match adapter.verify_by_link(request, None) {
        VerificationStep::Fetch(g, _) => assert_eq!(g.url, "http://127.0.0.1:4433/self-service/verification/browser"),
        _ => panic!("the flow was not fetched"),
    }
    let _ = UseCases::new(&factory);
}

#[test]
fn login_with_a_redirect_ends_after_three_requests() {
    let process = match login_session_step(false, false) {
        LoginStep::Fetch(_, p) => p,
        _ => panic!("the flow was not fetched"),
    };
    let redirect = HttpReply {
        status: 303,
        set_cookies: vec![s("csrf=1")],
        location: Some(s("http://localhost:4455/login?flow=f7")),
        body: Err(s("not JSON")),
    };
    let (lookup, process) = match process.on_reply(Ok(redirect)) {
        LoginStep::Fetch(g, p) => (g, p),
        _ => panic!("the redirect was not followed"),
    };
    assert_eq!(lookup.url, "http://127.0.0.1:4433/self-service/login/flows?id=f7");
    assert_eq!(lookup.cookie, Some(s("csrf=1")));
    let (post, process) = match process.on_reply(Ok(reply(200, vec![], Ok(flow_doc("f7", "tok"))))) {
        LoginStep::Submit(p, next) => (p, next),
        _ => panic!("the credentials were not submitted"),
    };
    assert_eq!(post.url, "http://127.0.0.1:4433/self-service/login?flow=f7");
    assert_eq!(post.cookie, "csrf=1");
    assert!(matches!(process.on_reply(Err(s("reset"))), LoginStep::Done(Err(_))));
}
