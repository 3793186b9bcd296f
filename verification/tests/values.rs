use rust_kratos::domain::errors::{AuthError, DomainError};
use rust_kratos::domain::value_objects::auth_method::AuthMethod;
use rust_kratos::domain::value_objects::email::Email;
use rust_kratos::domain::value_objects::flow_id::FlowId;
use rust_kratos::domain::value_objects::password::Password;
use rust_kratos::domain::value_objects::session_cookie::SessionCookie;
use rust_kratos::infrastructure::di::container::ContainerError;

fn s(x: &str) -> String {
    x.to_string()
}

#[test]
fn email_with_text_around_the_at_sign_is_accepted() {
    let e = Email::new(s("user@example.com")).unwrap();
    assert_eq!(e.as_str(), "user@example.com");
}

#[test]
fn email_without_local_part_or_domain_is_refused() {
    for bad in ["", "user", "@example.com", "user@", "@"] {
        match Email::new(s(bad)) {
            Err(DomainError::InvalidData(m)) => assert_eq!(m, "Invalid email format"),
            other => panic!("unexpected {:?} for {:?}", other.map(|e| e.as_str().to_string()), bad),
        }
    }
}

#[test]
fn password_must_not_be_empty() {
    assert_eq!(Password::new(s("secret")).unwrap().as_str(), "secret");
    match Password::new(s("")) {
        Err(DomainError::InvalidData(m)) => assert_eq!(m, "Password cannot be empty"),
        _ => panic!("an empty password was accepted"),
    }
}

#[test]
fn flow_id_keeps_its_text() {
    assert_eq!(FlowId::new("abc-123").as_str(), "abc-123");
}

#[test]
fn auth_method_names_and_recovery() {
    assert_eq!(AuthMethod::Password.as_str(), "password");
    assert_eq!(AuthMethod::Code.as_str(), "code");
    assert_eq!(AuthMethod::Link.as_str(), "link");
    assert!(!AuthMethod::Password.is_recovery());
    assert!(AuthMethod::Code.is_recovery());
    assert!(AuthMethod::Link.is_recovery());
}

#[test]
fn session_cookie_is_the_first_that_carries_a_session() {
    let cookies = vec![
        s("csrf_token_abc=1; Path=/"),
        s("ory_kratos_session=xyz; HttpOnly"),
        s("other_session=2"),
    ];
    let c = SessionCookie::find_in(cookies).unwrap();
    assert_eq!(c.as_str(), "ory_kratos_session=xyz; HttpOnly");
    assert_eq!(c.into_string(), "ory_kratos_session=xyz; HttpOnly");
}

#[test]
fn session_cookie_by_name_mention() {
    let c = SessionCookie::find_in(vec![s("a=1"), s("my_session=2")]).unwrap();
    assert_eq!(c.as_str(), "my_session=2");
}

#[test]
fn no_session_cookie_among_others() {
    assert!(SessionCookie::find_in(vec![s("a=1"), s("csrf=2")]).is_none());
    assert!(SessionCookie::find_in(vec![]).is_none());
}

#[test]
fn auth_error_texts() {
    assert_eq!(AuthError::InvalidCredentials.message(), "Invalid credentials");
    assert_eq!(AuthError::NotAuthenticated.message(), "Not authenticated");
    assert_eq!(AuthError::AlreadyLoggedIn.message(), "Already logged in");
    assert_eq!(AuthError::TooManyAttempts.message(), "Too many attempts");
    assert_eq!(AuthError::SessionExpired.message(), "Session expired");
    assert_eq!(AuthError::PrivilegedSessionRequired.message(), "Privileged session required");
}

#[test]
fn domain_error_texts() {
    assert_eq!(
        DomainError::Auth(AuthError::AlreadyLoggedIn).message(),
        "Authentication error: Already logged in"
    );
    assert_eq!(DomainError::InvalidData(s("x")).message(), "Invalid data: x");
    assert_eq!(DomainError::NotFound(s("login flow")).message(), "Not found: login flow");
    assert_eq!(DomainError::Conflict(s("taken")).message(), "Conflict: taken");
    assert_eq!(DomainError::ServiceUnavailable(s("down")).message(), "Service unavailable: down");
    assert_eq!(DomainError::Internal(s("oops")).message(), "Internal error: oops");
}

#[test]
fn container_error_texts() {
    assert_eq!(ContainerError::InvalidConfig(s("a")).message(), "Invalid configuration: a");
    assert_eq!(ContainerError::Initialization(s("b")).message(), "Initialization failed: b");
    assert_eq!(ContainerError::FactoryCreation(s("c")).message(), "Factory creation failed: c");
}
