use rust_kratos::domain::errors::{AuthError, DomainError};
use rust_kratos::domain::ports::login::LoginCredentials;
use rust_kratos::domain::ports::recovery::RecoveryRequest;
use rust_kratos::domain::ports::registration::RegistrationData;
use rust_kratos::domain::ports::settings::SettingsData;
use rust_kratos::domain::ports::verification::{SendCodeRequest, SubmitCodeRequest, VerifyByLinkRequest};
use rust_kratos::json::{object1, Json};
use rust_kratos::presentation::answers::{
    invalid_request, login_failure, logout_failure, recovery_failure, register_failure, settings_failure,
    settings_reply,
};
use rust_kratos::presentation::dto::{
    LoginDto, RecoveryDto, RegisterDto, SendVerificationCodeDto, SubmitVerificationCodeDto, UpdateSettingsDto,
    VerifyByLinkDto,
};

fn s(x: &str) -> String {
    x.to_string()
}

fn login_dto(identifier: &str, password: &str) -> LoginDto {
    LoginDto { identifier: s(identifier), password: s(password), address: Some(s("a")), code: None, resend: None }
}

fn invalid_data(r: Option<DomainError>) -> String {
    match r {
        Some(DomainError::InvalidData(m)) => m,
        _ => panic!("expected invalid data"),
    }
}

#[test]
fn login_request_becomes_credentials() {
    let c = LoginCredentials::from_dto(login_dto("user@example.com", "pw")).unwrap();
    assert_eq!(c.identifier.as_str(), "user@example.com");
    assert_eq!(c.password.as_str(), "pw");
    assert_eq!(c.address, Some(s("a")));
    assert_eq!(c.code, None);
}

#[test]
fn the_address_is_checked_before_the_password() {
    assert_eq!(invalid_data(LoginCredentials::from_dto(login_dto("nobody", "")).err()), "Invalid email format");
    assert_eq!(invalid_data(LoginCredentials::from_dto(login_dto("a@b.c", "")).err()), "Password cannot be empty");
}

#[test]
fn registration_request_becomes_data() {
    let dto = RegisterDto { identifier: s("a@b.c"), username: None, password: s("pw"), geo_location: Some(s("EU")) };
    let d = RegistrationData::from_dto(dto).unwrap();
    assert_eq!(d.email.as_str(), "a@b.c");
    assert_eq!(d.username, "");
    assert_eq!(d.password.as_str(), "pw");
    assert_eq!(d.geo_location, Some(s("EU")));
    let dto = RegisterDto { identifier: s("a@b.c"), username: Some(s("neo")), password: s("pw"), geo_location: None };
    assert_eq!(RegistrationData::from_dto(dto).unwrap().username, "neo");
    let dto = RegisterDto { identifier: s("a@"), username: None, password: s(""), geo_location: None };
    assert_eq!(invalid_data(RegistrationData::from_dto(dto).err()), "Invalid email format");
}

#[test]
fn recovery_and_verification_requests_check_the_address() {
    assert_eq!(RecoveryRequest::from_dto(RecoveryDto { email: s("a@b.c") }).unwrap().email.as_str(), "a@b.c");
    assert_eq!(invalid_data(RecoveryRequest::from_dto(RecoveryDto { email: s("x") }).err()), "Invalid email format");
    let r = VerifyByLinkRequest::from_dto(VerifyByLinkDto { email: s("a@b.c"), transient_payload: Some(Json::Null) })
        .unwrap();
    assert_eq!(r.transient_payload, Some(Json::Null));
    let bad = VerifyByLinkDto { email: s("@b"), transient_payload: None };
    assert_eq!(invalid_data(VerifyByLinkRequest::from_dto(bad).err()), "Invalid email format");
    let r = SendCodeRequest::from_dto(SendVerificationCodeDto { email: s("a@b.c"), transient_payload: None }).unwrap();
    assert_eq!(r.email.as_str(), "a@b.c");
    let bad = SendVerificationCodeDto { email: s(""), transient_payload: None };
    assert_eq!(invalid_data(SendCodeRequest::from_dto(bad).err()), "Invalid email format");
    let r = SubmitCodeRequest::from_dto(SubmitVerificationCodeDto { code: s("42"), transient_payload: None });
    assert_eq!(r.code, "42");
}

fn settings_dto(password: Option<&str>) -> UpdateSettingsDto {
    UpdateSettingsDto {
        method: s("password"),
        password: password.map(s),
        traits: None,
        lookup_secret_confirm: Some(true),
        lookup_secret_disable: None,
        lookup_secret_regenerate: None,
        lookup_secret_reveal: Some(false),
        transient_payload: None,
    }
}

#[test]
fn settings_request_checks_a_new_password() {
    let d = SettingsData::from_dto(settings_dto(Some("new"))).unwrap();
    assert_eq!(d.method, "password");
    assert_eq!(d.password.unwrap().as_str(), "new");
    assert_eq!(d.lookup_secret_confirm, Some(true));
    assert_eq!(d.lookup_secret_reveal, Some(false));
    assert!(SettingsData::from_dto(settings_dto(None)).unwrap().password.is_none());
    assert_eq!(invalid_data(SettingsData::from_dto(settings_dto(Some(""))).err()), "Password cannot be empty");
}

#[test]
fn invalid_requests_are_answered_400_with_the_error_text() {
    let a = invalid_request(&DomainError::InvalidData(s("Invalid email format")));
    assert_eq!((a.status, a.body.as_str()), (400, "Invalid data: Invalid email format"));
}

#[test]
fn login_failures() {
    let cases = [
        (DomainError::Auth(AuthError::AlreadyLoggedIn), 409, "Already logged in"),
        (DomainError::Auth(AuthError::InvalidCredentials), 401, "Invalid credentials"),
        (DomainError::Auth(AuthError::NotAuthenticated), 401, "Not authenticated"),
        (DomainError::InvalidData(s("bad field")), 400, "bad field"),
        (DomainError::Auth(AuthError::TooManyAttempts), 500, "Authentication error: Too many attempts"),
        (DomainError::ServiceUnavailable(s("down")), 500, "Service unavailable: down"),
    ];
    for (e, status, body) in cases {
        let a = login_failure(&e);
        assert_eq!((a.status, a.body.as_str()), (status, body));
    }
}

#[test]
fn logout_failures() {
    let a = logout_failure(&DomainError::Auth(AuthError::NotAuthenticated));
    assert_eq!((a.status, a.body.as_str()), (401, "Not authenticated"));
    let a = logout_failure(&DomainError::Auth(AuthError::SessionExpired));
    assert_eq!((a.status, a.body.as_str()), (401, "Session expired"));
    let a = logout_failure(&DomainError::Internal(s("x")));
    assert_eq!((a.status, a.body.as_str()), (500, "Internal error: x"));
}

#[test]
fn register_failures() {
    let a = register_failure(&DomainError::Auth(AuthError::AlreadyLoggedIn));
    assert_eq!((a.status, a.body.as_str()), (409, "Already logged in"));
    let a = register_failure(&DomainError::Conflict(s("Email already exists")));
    assert_eq!((a.status, a.body.as_str()), (409, "Email already exists"));
    let a = register_failure(&DomainError::InvalidData(s("Password is too weak")));
    assert_eq!((a.status, a.body.as_str()), (400, "Password is too weak"));
    let a = register_failure(&DomainError::NotFound(s("registration flow")));
    assert_eq!((a.status, a.body.as_str()), (500, "Not found: registration flow"));
}

#[test]
fn recovery_failures() {
    let a = recovery_failure(&DomainError::Auth(AuthError::AlreadyLoggedIn));
    assert_eq!((a.status, a.body.as_str()), (409, "Already logged in"));
    let a = recovery_failure(&DomainError::NotFound(s("account")));
    assert_eq!((a.status, a.body.as_str()), (404, "account"));
    let a = recovery_failure(&DomainError::InvalidData(s("x")));
    assert_eq!((a.status, a.body.as_str()), (400, "x"));
    let a = recovery_failure(&DomainError::Conflict(s("c")));
    assert_eq!((a.status, a.body.as_str()), (500, "Conflict: c"));
}

#[test]
fn settings_failures_and_reply() {
    let a = settings_failure(&DomainError::Auth(AuthError::NotAuthenticated));
    assert_eq!((a.status, a.body.as_str()), (401, "Not authenticated"));
    let a = settings_failure(&DomainError::Auth(AuthError::PrivilegedSessionRequired));
    assert_eq!((a.status, a.body.as_str()), (403, "Privileged session required"));
    let a = settings_failure(&DomainError::InvalidData(s("x")));
    assert_eq!((a.status, a.body.as_str()), (400, "x"));
    let a = settings_failure(&DomainError::Auth(AuthError::SessionExpired));
    assert_eq!((a.status, a.body.as_str()), (500, "Authentication error: Session expired"));
    assert_eq!(settings_reply(s("f9")), object1("flow_id", Json::Str(s("f9"))));
}

#[test]
fn refused_credentials_are_answered_before_kratos_is_asked() {
    let e = LoginCredentials::from_dto(login_dto("not-an-address", "pw")).err().unwrap();
    let a = invalid_request(&e);
    assert_eq!((a.status, a.body.as_str()), (400, "Invalid data: Invalid email format"));
    let e = LoginCredentials::from_dto(login_dto("a@b.c", "")).err().unwrap();
    let a = invalid_request(&e);
    assert_eq!((a.status, a.body.as_str()), (400, "Invalid data: Password cannot be empty"));
}

#[test]
fn an_active_session_is_answered_conflict() {
    let a = login_failure(&DomainError::Auth(AuthError::AlreadyLoggedIn));
    assert_eq!((a.status, a.body.as_str()), (409, "Already logged in"));
    let a = register_failure(&DomainError::Auth(AuthError::AlreadyLoggedIn));
    assert_eq!((a.status, a.body.as_str()), (409, "Already logged in"));
}
