//! How the REST API answers the outcome of a use case.
use vstd::prelude::*;
use crate::application::commands::auth::login::{login_after_session, LoginSessionCheckView, LoginStepView};
use crate::application::commands::identity::register::{
    register_after_session, RegisterSessionCheckView, RegisterStepView,
};
use crate::domain::errors::{domain_error_text, AuthError, DomainError, DomainErrorView};
use crate::domain::value_objects::email::is_valid_email;
use crate::json::{object1, Json, JsonMember, JsonValue};
use crate::presentation::dto::credentials_problem;

verus! {

/// An HTTP answer: its status code and its plain-text body.
pub struct HttpAnswer {
    pub status: u16,
    pub body: String,
}

/// The value of an [`HttpAnswer`].
pub struct AnswerView {
    pub status: u16,
    pub body: Seq<char>,
}

impl View for HttpAnswer {
    type V = AnswerView;

    open spec fn view(&self) -> AnswerView {
        AnswerView { status: self.status, body: self.body@ }
    }
}

/// An answer with a status and a body.
pub open spec fn answer(status: u16, body: Seq<char>) -> AnswerView {
    AnswerView { status, body }
}

/// The answer to an error that no rule of the endpoint names.
pub open spec fn internal_answer(e: DomainErrorView) -> AnswerView {
    answer(500, domain_error_text(e))
}

/// The answer to a request body that does not make valid use-case input.
pub open spec fn invalid_request_answer(e: DomainErrorView) -> AnswerView {
    answer(400, domain_error_text(e))
}

/// How the login endpoint answers a failed login.
pub open spec fn login_failure_answer(e: DomainErrorView) -> AnswerView {
    match e {
        DomainErrorView::Auth(AuthError::AlreadyLoggedIn) => answer(409, "Already logged in"@),
        DomainErrorView::Auth(AuthError::InvalidCredentials) => answer(401, "Invalid credentials"@),
        DomainErrorView::Auth(AuthError::NotAuthenticated) => answer(401, "Not authenticated"@),
        DomainErrorView::InvalidData(m) => answer(400, m),
        _ => internal_answer(e),
    }
}

/// How the logout endpoint answers a failed logout.
pub open spec fn logout_failure_answer(e: DomainErrorView) -> AnswerView {
    match e {
        DomainErrorView::Auth(AuthError::NotAuthenticated) => answer(401, "Not authenticated"@),
        DomainErrorView::Auth(AuthError::SessionExpired) => answer(401, "Session expired"@),
        _ => internal_answer(e),
    }
}

/// How the registration endpoint answers a failed registration.
pub open spec fn register_failure_answer(e: DomainErrorView) -> AnswerView {
    match e {
        DomainErrorView::Auth(AuthError::AlreadyLoggedIn) => answer(409, "Already logged in"@),
        DomainErrorView::Conflict(m) => answer(409, m),
        DomainErrorView::InvalidData(m) => answer(400, m),
        _ => internal_answer(e),
    }
}

/// How the recovery endpoint answers a failed recovery.
pub open spec fn recovery_failure_answer(e: DomainErrorView) -> AnswerView {
    match e {
        DomainErrorView::Auth(AuthError::AlreadyLoggedIn) => answer(409, "Already logged in"@),
        DomainErrorView::InvalidData(m) => answer(400, m),
        DomainErrorView::NotFound(m) => answer(404, m),
        _ => internal_answer(e),
    }
}

/// How the settings endpoint answers a failed change of settings.
pub open spec fn settings_failure_answer(e: DomainErrorView) -> AnswerView {
    match e {
        DomainErrorView::Auth(AuthError::NotAuthenticated) => answer(401, "Not authenticated"@),
        DomainErrorView::Auth(AuthError::PrivilegedSessionRequired) => answer(403, "Privileged session required"@),
        DomainErrorView::InvalidData(m) => answer(400, m),
        _ => internal_answer(e),
    }
}

/// A login is refused while a session other than a recovery session is active, and
/// the API answers it 409 "Already logged in"; a recovery session does not stop a
/// login.
pub proof fn lemma_login_with_active_session(c: LoginSessionCheckView, active: bool, recovery: bool)
    ensures
        login_after_session(c, active, recovery) is Done <==> active && !recovery,
        login_after_session(c, active, recovery) matches LoginStepView::Done(Err(e))
            ==> login_failure_answer(e) == answer(409, "Already logged in"@),
{
}

/// A registration is refused while a session is active, and the API answers it
/// 409 "Already logged in".
pub proof fn lemma_register_with_active_session(c: RegisterSessionCheckView, active: bool)
    ensures
        register_after_session(c, active) is Done <==> active,
        register_after_session(c, active) matches RegisterStepView::Done(Err(e))
            ==> register_failure_answer(e) == answer(409, "Already logged in"@),
{
}

/// Login and registration requests are checked before anything is sent to Kratos:
/// an address that is not well formed is answered 400 "Invalid data: Invalid email
/// format", and a good address with an empty password 400 "Invalid data: Password
/// cannot be empty".
pub proof fn lemma_refused_credentials(email: Seq<char>, password: Seq<char>)
    ensures
        !is_valid_email(email) ==> (credentials_problem(email, password) matches Some(e)
            && invalid_request_answer(e) == answer(400, "Invalid data: Invalid email format"@)),
        is_valid_email(email) && password.len() == 0 ==> (credentials_problem(email, password) matches Some(e)
            && invalid_request_answer(e) == answer(400, "Invalid data: Password cannot be empty"@)),
        is_valid_email(email) && password.len() > 0 ==> credentials_problem(email, password) is None,
{
    reveal_strlit("Invalid data: ");
    reveal_strlit("Invalid email format");
    reveal_strlit("Invalid data: Invalid email format");
    reveal_strlit("Password cannot be empty");
    reveal_strlit("Invalid data: Password cannot be empty");
    assert("Invalid data: "@ + "Invalid email format"@ =~= "Invalid data: Invalid email format"@);
    assert("Invalid data: "@ + "Password cannot be empty"@ =~= "Invalid data: Password cannot be empty"@);
}

/// Whether an error is one of the authentication errors `a`.
pub open spec fn is_auth(e: DomainErrorView, a: AuthError) -> bool {
    e == DomainErrorView::Auth(a)
}

/// An error that an endpoint does not name is answered 500 with the error's full
/// text; a service failure reads "Service unavailable: " and its message.
pub proof fn lemma_internal_answer(e: DomainErrorView)
    ensures
        internal_answer(e).status == 500,
        internal_answer(e).body == domain_error_text(e),
        e matches DomainErrorView::ServiceUnavailable(m) ==> internal_answer(e).body == "Service unavailable: "@ + m,
        e matches DomainErrorView::Internal(m) ==> internal_answer(e).body == "Internal error: "@ + m,
        e matches DomainErrorView::NotFound(m) ==> internal_answer(e).body == "Not found: "@ + m,
{
}

/// The registration endpoint answers 409 exactly for an active session and a
/// conflict, 400 exactly for invalid data, and 500 with the error's full text for
/// every other error.
pub proof fn lemma_register_answers(e: DomainErrorView)
    ensures
        register_failure_answer(e).status == 409 <==> (is_auth(e, AuthError::AlreadyLoggedIn) || e is Conflict),
        register_failure_answer(e).status == 400 <==> e is InvalidData,
        !(is_auth(e, AuthError::AlreadyLoggedIn) || e is Conflict || e is InvalidData)
            ==> register_failure_answer(e) == internal_answer(e),
        e matches DomainErrorView::Conflict(m) ==> register_failure_answer(e).body == m,
        e matches DomainErrorView::InvalidData(m) ==> register_failure_answer(e).body == m,
{
}

/// The login endpoint answers 409 exactly for an active session, 401 exactly for
/// bad credentials and a missing authentication, 400 exactly for invalid data, and
/// 500 with the error's full text for every other error.
pub proof fn lemma_login_answers(e: DomainErrorView)
    ensures
        login_failure_answer(e).status == 409 <==> is_auth(e, AuthError::AlreadyLoggedIn),
        login_failure_answer(e).status == 401 <==> (is_auth(e, AuthError::InvalidCredentials)
            || is_auth(e, AuthError::NotAuthenticated)),
        login_failure_answer(e).status == 400 <==> e is InvalidData,
        !(is_auth(e, AuthError::AlreadyLoggedIn) || is_auth(e, AuthError::InvalidCredentials)
            || is_auth(e, AuthError::NotAuthenticated) || e is InvalidData)
            ==> login_failure_answer(e) == internal_answer(e),
        e matches DomainErrorView::InvalidData(m) ==> login_failure_answer(e).body == m,
{
}

/// The logout endpoint answers 401 exactly for a missing authentication and an
/// expired session, and 500 with the error's full text for every other error.
pub proof fn lemma_logout_answers(e: DomainErrorView)
    ensures
        logout_failure_answer(e).status == 401 <==> (is_auth(e, AuthError::NotAuthenticated)
            || is_auth(e, AuthError::SessionExpired)),
        !(is_auth(e, AuthError::NotAuthenticated) || is_auth(e, AuthError::SessionExpired))
            ==> logout_failure_answer(e) == internal_answer(e),
{
}

/// The recovery endpoint answers 409 exactly for an active session, 400 exactly
/// for invalid data, 404 exactly for what is not found, and 500 with the error's
/// full text for every other error.
pub proof fn lemma_recovery_answers(e: DomainErrorView)
    ensures
        recovery_failure_answer(e).status == 409 <==> is_auth(e, AuthError::AlreadyLoggedIn),
        recovery_failure_answer(e).status == 400 <==> e is InvalidData,
        recovery_failure_answer(e).status == 404 <==> e is NotFound,
        !(is_auth(e, AuthError::AlreadyLoggedIn) || e is InvalidData || e is NotFound)
            ==> recovery_failure_answer(e) == internal_answer(e),
        e matches DomainErrorView::NotFound(m) ==> recovery_failure_answer(e).body == m,
{
}

/// The settings endpoint answers 401 exactly for a missing authentication, 403
/// exactly when a privileged session is required, 400 exactly for invalid data,
/// and 500 with the error's full text for every other error.
pub proof fn lemma_settings_answers(e: DomainErrorView)
    ensures
        settings_failure_answer(e).status == 401 <==> is_auth(e, AuthError::NotAuthenticated),
        settings_failure_answer(e).status == 403 <==> is_auth(e, AuthError::PrivilegedSessionRequired),
        settings_failure_answer(e).status == 400 <==> e is InvalidData,
        !(is_auth(e, AuthError::NotAuthenticated) || is_auth(e, AuthError::PrivilegedSessionRequired)
            || e is InvalidData) ==> settings_failure_answer(e) == internal_answer(e),
{
}

fn text_answer(status: u16, body: &str) -> (r: HttpAnswer)
    ensures
        r@ == answer(status, body@),
{
    HttpAnswer { status, body: String::from_str(body) }
}

fn copy_answer(status: u16, body: &String) -> (r: HttpAnswer)
    ensures
        r@ == answer(status, body@),
{
    HttpAnswer { status, body: body.clone() }
}

fn internal(e: &DomainError) -> (r: HttpAnswer)
    ensures
        r@ == internal_answer(e@),
{
    HttpAnswer { status: 500, body: e.message() }
}

/// The answer to a request body that does not make valid use-case input: 400 with
/// the error's text.
pub fn invalid_request(e: &DomainError) -> (r: HttpAnswer)
    ensures
        r@ == invalid_request_answer(e@),
{
    HttpAnswer { status: 400, body: e.message() }
}

/// The answer to a failed login.
pub fn login_failure(e: &DomainError) -> (r: HttpAnswer)
    ensures
        r@ == login_failure_answer(e@),
{
    match e {
        DomainError::Auth(AuthError::AlreadyLoggedIn) => text_answer(409, "Already logged in"),
        DomainError::Auth(AuthError::InvalidCredentials) => text_answer(401, "Invalid credentials"),
        DomainError::Auth(AuthError::NotAuthenticated) => text_answer(401, "Not authenticated"),
        DomainError::InvalidData(m) => copy_answer(400, m),
        _ => internal(e),
    }
}

/// The answer to a failed logout.
pub fn logout_failure(e: &DomainError) -> (r: HttpAnswer)
    ensures
        r@ == logout_failure_answer(e@),
{
    match e {
        DomainError::Auth(AuthError::NotAuthenticated) => text_answer(401, "Not authenticated"),
        DomainError::Auth(AuthError::SessionExpired) => text_answer(401, "Session expired"),
        _ => internal(e),
    }
}

/// The answer to a failed registration.
pub fn register_failure(e: &DomainError) -> (r: HttpAnswer)
    ensures
        r@ == register_failure_answer(e@),
{
    match e {
        DomainError::Auth(AuthError::AlreadyLoggedIn) => text_answer(409, "Already logged in"),
        DomainError::Conflict(m) => copy_answer(409, m),
        DomainError::InvalidData(m) => copy_answer(400, m),
        _ => internal(e),
    }
}

/// The answer to a failed recovery.
pub fn recovery_failure(e: &DomainError) -> (r: HttpAnswer)
    ensures
        r@ == recovery_failure_answer(e@),
{
    match e {
        DomainError::Auth(AuthError::AlreadyLoggedIn) => text_answer(409, "Already logged in"),
        DomainError::InvalidData(m) => copy_answer(400, m),
        DomainError::NotFound(m) => copy_answer(404, m),
        _ => internal(e),
    }
}

/// The answer to a failed change of settings.
pub fn settings_failure(e: &DomainError) -> (r: HttpAnswer)
    ensures
        r@ == settings_failure_answer(e@),
{
    match e {
        DomainError::Auth(AuthError::NotAuthenticated) => text_answer(401, "Not authenticated"),
        DomainError::Auth(AuthError::PrivilegedSessionRequired) =>
            text_answer(403, "Privileged session required"),
        DomainError::InvalidData(m) => copy_answer(400, m),
        _ => internal(e),
    }
}

/// The body of a successful change of settings: `{"flow_id": <flow id>}`.
pub fn settings_reply(flow_id: String) -> (r: Json)
    ensures
        r@ == JsonValue::Object(seq![JsonMember { key: "flow_id"@, value: JsonValue::Str(flow_id@) }]),
{
    object1("flow_id", Json::Str(flow_id))
}

} // verus!
