//! What every error answer and every completed flow of the Kratos adapters yields.
use vstd::prelude::*;
use crate::domain::errors::{AuthError, DomainErrorView};
use crate::domain::value_objects::session_cookie::first_session_cookie;
use crate::infrastructure::adapters::kratos::http::login::{login_error, login_result_of};
use crate::infrastructure::adapters::kratos::http::register::{registration_error, registration_result_of};
use crate::infrastructure::adapters::kratos::http::verification::verification_error;
use crate::infrastructure::adapters::kratos::models::flows::{FlowErrorView, PostFlowResultView};
use crate::infrastructure::adapters::kratos::models::identity::identity_of;
use crate::json::{bool_of, member, text_of, JsonValue};

verus! {

/// Whether an error body's `error.id` asks the browser to go elsewhere.
pub open spec fn names_browser_change(body: JsonValue) -> bool {
    text_of(member(member(Some(body), "error"@), "id"@)) == Some("browser_location_change_required"@)
}

/// Whether a text reads as it is, or, when it is missing, as the empty text.
pub open spec fn reads_as(t: Seq<char>, doc: Option<JsonValue>) -> bool {
    match text_of(doc) {
        Some(s) => t == s,
        None => t == Seq::<char>::empty(),
    }
}

/// An error answer whose body asks for a browser location change is reported as
/// the service being unavailable for that reason, in login, registration and
/// verification alike, whatever its status and messages.
pub proof fn lemma_browser_change_is_unavailable(e: FlowErrorView)
    requires
        names_browser_change(e.body),
    ensures
        login_error(e) == DomainErrorView::ServiceUnavailable("Browser location change required"@),
        registration_error(e) == DomainErrorView::ServiceUnavailable("Browser location change required"@),
        verification_error(e) == DomainErrorView::ServiceUnavailable("Browser location change required"@),
{
}

/// When Kratos rate-limits a flow (status 429) without asking for a browser
/// location change, login, registration and verification report too many
/// attempts, whatever the body says.
pub proof fn lemma_rate_limit_is_too_many_attempts(e: FlowErrorView)
    requires
        e.status == 429,
        !names_browser_change(e.body),
    ensures
        login_error(e) == DomainErrorView::Auth(AuthError::TooManyAttempts),
        registration_error(e) == DomainErrorView::Auth(AuthError::TooManyAttempts),
        verification_error(e) == DomainErrorView::Auth(AuthError::TooManyAttempts),
{
}

/// Without a browser location change: an expired flow (status 410) is reported as
/// the flow not being found; a 401 means the caller is not authenticated for login
/// and verification; a 400 or a 422 is invalid data, unless its message names bad
/// credentials (login) or a taken address (registration); any other status that is
/// not one of these is the service being unavailable.
pub proof fn lemma_error_classes(e: FlowErrorView)
    requires
        !names_browser_change(e.body),
    ensures
        e.status == 410 ==> login_error(e) == DomainErrorView::NotFound("login flow"@),
        e.status == 410 ==> registration_error(e) == DomainErrorView::NotFound("registration flow"@),
        e.status == 410 ==> verification_error(e) == DomainErrorView::NotFound("verification flow"@),
        e.status == 401 ==> login_error(e) == DomainErrorView::Auth(AuthError::NotAuthenticated),
        e.status == 401 ==> verification_error(e) == DomainErrorView::Auth(AuthError::NotAuthenticated),
        e.status == 401 ==> registration_error(e) is ServiceUnavailable,
        e.status == 400 || e.status == 422 ==> login_error(e) is InvalidData
            || login_error(e) == DomainErrorView::Auth(AuthError::InvalidCredentials),
        e.status == 400 || e.status == 422 ==> registration_error(e) is InvalidData
            || registration_error(e) is Conflict,
        e.status == 400 || e.status == 422 ==> verification_error(e) is InvalidData,
        e.status == 422 ==> login_error(e) is InvalidData && registration_error(e) is InvalidData,
        !(e.status == 400 || e.status == 401 || e.status == 410 || e.status == 422 || e.status == 429)
            ==> login_error(e) is ServiceUnavailable && registration_error(e) is ServiceUnavailable
                && verification_error(e) is ServiceUnavailable,
{
}

/// The identity read from a document keeps what the document says: its id, e-mail
/// and username (empty when missing), its geo location and state (none when missing).
pub proof fn lemma_identity_keeps_document(j: Option<JsonValue>)
    ensures
        reads_as(identity_of(j).id, member(j, "id"@)),
        reads_as(identity_of(j).traits.email, member(member(j, "traits"@), "email"@)),
        reads_as(identity_of(j).traits.username, member(member(j, "traits"@), "username"@)),
        identity_of(j).traits.geo_location == text_of(member(member(j, "traits"@), "geo_location"@)),
        identity_of(j).state == text_of(member(j, "state"@)),
{
}

/// A registration that set a session cookie yields that cookie and the profile of
/// the identity in the answer: its id, e-mail, username, geo location and state,
/// active exactly when the answer's session says so.
pub proof fn lemma_registration_profile(p: PostFlowResultView)
    requires
        first_session_cookie(p.cookies) is Some,
    ensures
        registration_result_of(Ok(p)) matches Ok(r) && {
            let identity = member(Some(p.data), "identity"@);
            let traits = member(identity, "traits"@);
            &&& Some(r.session_cookie) == first_session_cookie(p.cookies)
            &&& reads_as(r.user.id, member(identity, "id"@))
            &&& reads_as(r.user.email, member(traits, "email"@))
            &&& reads_as(r.user.username, member(traits, "username"@))
            &&& r.user.geo_location == text_of(member(traits, "geo_location"@))
            &&& r.user.state == text_of(member(identity, "state"@))
            &&& r.user.active == (bool_of(member(member(Some(p.data), "session"@), "active"@)) == Some(true))
        },
{
}

/// A login that set a session cookie yields that cookie and the profile of the
/// identity of the answer's session: its id, e-mail, username, geo location and
/// state, active exactly when the session says so.
pub proof fn lemma_login_profile(p: PostFlowResultView)
    requires
        first_session_cookie(p.cookies) is Some,
    ensures
        login_result_of(Ok(p)) matches Ok(r) && {
            let session = member(Some(p.data), "session"@);
            let identity = member(session, "identity"@);
            let traits = member(identity, "traits"@);
            &&& Some(r.session_cookie) == first_session_cookie(p.cookies)
            &&& reads_as(r.user.id, member(identity, "id"@))
            &&& reads_as(r.user.email, member(traits, "email"@))
            &&& reads_as(r.user.username, member(traits, "username"@))
            &&& r.user.geo_location == text_of(member(traits, "geo_location"@))
            &&& r.user.state == text_of(member(identity, "state"@))
            &&& r.user.active == (bool_of(member(session, "active"@)) == Some(true))
        },
{
}

/// A login or registration whose answer set no session cookie fails.
pub proof fn lemma_no_session_cookie_fails(p: PostFlowResultView)
    requires
        first_session_cookie(p.cookies) is None,
    ensures
        login_result_of(Ok(p)) == Err::<crate::infrastructure::adapters::kratos::http::login::LoginResultView, DomainErrorView>(
            DomainErrorView::Internal("Session token not found"@)),
        registration_result_of(Ok(p)) is Err,
{
}

} // verus!
