//! The Kratos login adapter: the decisions around the login flow.
use std::sync::Arc;
use vstd::prelude::*;
use crate::domain::entities::user_profile::{UserProfile, UserProfileView};
use crate::domain::errors::{AuthError, DomainError, DomainErrorView};
use crate::domain::ports::login::{LoginCredentials, LoginFlowData, LoginResult};
use crate::domain::value_objects::flow_id::FlowId;
use crate::domain::value_objects::session_cookie::{first_session_cookie, SessionCookie};
use crate::infrastructure::adapters::kratos::client::KratosClient;
use crate::infrastructure::adapters::kratos::http::exchange::{HttpGet, HttpPost};
use crate::infrastructure::adapters::kratos::http::flows::{
    fetch_flow, first_request, post_flow, submit_request, FlowFetch, FlowFetchView,
};
use crate::infrastructure::adapters::kratos::models::errors::{
    asks_browser_change, flow_error_text, message_id_of, message_text_of, KratosFlowError,
    STATUS_BAD_REQUEST, STATUS_GONE, STATUS_TOO_MANY_REQUESTS, STATUS_UNAUTHORIZED,
    STATUS_UNPROCESSABLE_ENTITY,
};
use crate::infrastructure::adapters::kratos::models::flows::{
    flow_outcome_view, post_outcome_view, FlowErrorView, FlowResult, FlowResultView,
    PostFlowResult, PostFlowResultView,
};
use crate::infrastructure::adapters::kratos::models::identity::{profile_of, session_of, SessionResponse};
use crate::infrastructure::adapters::kratos::models::login::{
    login_payload_json, login_payload_of, LoginPayload,
};
use crate::json::{member, member_of, opt_view};

verus! {

/// The value of a [`LoginFlowData`].
pub struct LoginFlowDataView {
    pub flow_id: Seq<char>,
    pub csrf_token: Seq<char>,
    pub cookies: Seq<Seq<char>>,
}

/// The value of a [`LoginResult`].
pub struct LoginResultView {
    pub session_cookie: Seq<char>,
    pub user: UserProfileView,
}

impl View for LoginFlowData {
    type V = LoginFlowDataView;

    open spec fn view(&self) -> LoginFlowDataView {
        LoginFlowDataView {
            flow_id: self.flow_id@,
            csrf_token: self.csrf_token@,
            cookies: self.cookies.deep_view(),
        }
    }
}

impl View for LoginResult {
    type V = LoginResultView;

    open spec fn view(&self) -> LoginResultView {
        LoginResultView { session_cookie: self.session_cookie@, user: self.user@ }
    }
}

/// The domain error for an error answer of the login flow.
pub open spec fn login_error(e: FlowErrorView) -> DomainErrorView {
    if asks_browser_change(e.body) {
        DomainErrorView::ServiceUnavailable("Browser location change required"@)
    } else if e.status == STATUS_BAD_REQUEST && (message_id_of(e.body) == 4000006
        || message_id_of(e.body) == 4000010) {
        DomainErrorView::Auth(AuthError::InvalidCredentials)
    } else if e.status == STATUS_BAD_REQUEST {
        DomainErrorView::InvalidData(message_text_of(e.body))
    } else if e.status == STATUS_GONE {
        DomainErrorView::NotFound("login flow"@)
    } else if e.status == STATUS_UNAUTHORIZED {
        DomainErrorView::Auth(AuthError::NotAuthenticated)
    } else if e.status == STATUS_TOO_MANY_REQUESTS {
        DomainErrorView::Auth(AuthError::TooManyAttempts)
    } else if e.status == STATUS_UNPROCESSABLE_ENTITY {
        DomainErrorView::InvalidData(message_text_of(e.body))
    } else {
        DomainErrorView::ServiceUnavailable(flow_error_text(e.status, e.body))
    }
}

/// The login flow data of an opened flow, or the domain error for the failure.
pub open spec fn login_flow_of(r: Result<FlowResultView, FlowErrorView>) -> Result<LoginFlowDataView, DomainErrorView> {
    match r {
        Ok(f) => Ok(LoginFlowDataView { flow_id: f.flow_id, csrf_token: f.csrf_token, cookies: f.cookies }),
        Err(e) => Err(login_error(e)),
    }
}

/// The completed login that an answer to the submitted flow yields: the session
/// cookie it set and the user of its session.
pub open spec fn login_result_of(r: Result<PostFlowResultView, FlowErrorView>) -> Result<LoginResultView, DomainErrorView> {
    match r {
        Err(e) => Err(login_error(e)),
        Ok(p) => match first_session_cookie(p.cookies) {
            None => Err(DomainErrorView::Internal("Session token not found"@)),
            Some(c) => {
                let s = session_of(member(Some(p.data), "session"@));
                Ok(LoginResultView { session_cookie: c, user: profile_of(s.identity, s.active, s.expires_at) })
            },
        },
    }
}

pub open spec fn login_flow_view(r: Result<LoginFlowData, DomainError>) -> Result<LoginFlowDataView, DomainErrorView> {
    match r {
        Ok(f) => Ok(f@),
        Err(e) => Err(e@),
    }
}

pub open spec fn login_result_view(r: Result<LoginResult, DomainError>) -> Result<LoginResultView, DomainErrorView> {
    match r {
        Ok(f) => Ok(f@),
        Err(e) => Err(e@),
    }
}

/// The domain error for an error answer of the login flow.
pub fn map_login_error(e: &KratosFlowError) -> (r: DomainError)
    ensures
        r@ == login_error(e@),
{
    if e.is_browser_location_change_required() {
        return DomainError::ServiceUnavailable(String::from_str("Browser location change required"));
    }
    let id = e.message_id();
    if e.status == STATUS_BAD_REQUEST && (id == 4000006 || id == 4000010) {
        DomainError::Auth(AuthError::InvalidCredentials)
    } else if e.status == STATUS_BAD_REQUEST {
        DomainError::InvalidData(e.message_text())
    } else if e.status == STATUS_GONE {
        DomainError::NotFound(String::from_str("login flow"))
    } else if e.status == STATUS_UNAUTHORIZED {
        DomainError::Auth(AuthError::NotAuthenticated)
    } else if e.status == STATUS_TOO_MANY_REQUESTS {
        DomainError::Auth(AuthError::TooManyAttempts)
    } else if e.status == STATUS_UNPROCESSABLE_ENTITY {
        DomainError::InvalidData(e.message_text())
    } else {
        DomainError::ServiceUnavailable(e.describe())
    }
}

/// The Kratos login adapter.
pub struct KratosAuthenticationAdapter {
    client: Arc<KratosClient>,
}

impl KratosAuthenticationAdapter {
    pub fn new(client: Arc<KratosClient>) -> (r: KratosAuthenticationAdapter)
        ensures
            r.public_url() == client.public_url@,
    {
        KratosAuthenticationAdapter { client }
    }

    /// The public URL of the Kratos service.
    pub closed spec fn public_url(&self) -> Seq<char> {
        self.client.public_url@
    }

    /// A login is refused while a session is active, unless that session is a
    /// recovery session.
    pub fn check_session(active: bool, recovery: bool) -> (r: Result<(), DomainError>)
        ensures
            r is Err <==> (active && !recovery),
            r matches Err(e) ==> e@ == DomainErrorView::Auth(AuthError::AlreadyLoggedIn),
    {
        if active && !recovery {
            Err(DomainError::Auth(AuthError::AlreadyLoggedIn))
        } else {
            Ok(())
        }
    }

    /// Opens a login flow, without the caller's cookie.
    pub fn initiate_login(&self) -> (r: (HttpGet, FlowFetch))
        ensures
            r.0@ == first_request(self.public_url(), "login"@, None),
            r.1@ == (FlowFetchView {
                public_url: self.public_url(),
                endpoint: "login"@,
                cookie: None,
                redirected: None,
            }),
    {
        fetch_flow(self.client.public_url.as_str(), "login", None)
    }

    /// The login flow data of an opened flow, or the domain error for the failure.
    pub fn flow_data(r: Result<FlowResult, KratosFlowError>) -> (out: Result<LoginFlowData, DomainError>)
        ensures
            login_flow_view(out) == login_flow_of(flow_outcome_view(r)),
    {
        match r {
            Ok(flow) => Ok(
                LoginFlowData {
                    flow_id: String::from_str(flow.flow_id.as_str()),
                    csrf_token: flow.csrf_token,
                    cookies: flow.cookies,
                },
            ),
            Err(e) => Err(map_login_error(&e)),
        }
    }

    /// The request that submits the credentials to the flow.
    pub fn complete_login(&self, flow: LoginFlowData, credentials: LoginCredentials) -> (r: HttpPost)
        ensures
            r@ == submit_request(
                self.public_url(),
                "login"@,
                flow.flow_id@,
                login_payload_json(login_payload_of(credentials, flow.csrf_token@)),
                flow.cookies.deep_view(),
            ),
    {
        let payload = LoginPayload::from_credentials(credentials, flow.csrf_token.clone());
        let flow_id = FlowId::new(flow.flow_id.as_str());
        post_flow(self.client.public_url.as_str(), "login", &flow_id, payload.to_json(), &flow.cookies)
    }

    /// The completed login that the answer to the submitted flow yields.
    pub fn login_result(r: Result<PostFlowResult, KratosFlowError>) -> (out: Result<LoginResult, DomainError>)
        ensures
            login_result_view(out) == login_result_of(post_outcome_view(r)),
    {
        match r {
            Err(e) => Err(map_login_error(&e)),
            Ok(result) => {
                let PostFlowResult { data, cookies } = result;
                match SessionCookie::find_in(cookies) {
                    None => Err(DomainError::Internal(String::from_str("Session token not found"))),
                    Some(cookie) => {
                        let session = SessionResponse::from_json(member_of(Some(&data), "session"));
                        let SessionResponse { identity, active, expires_at } = session;
                        let user = UserProfile::from_session(identity, active, expires_at);
                        Ok(LoginResult { session_cookie: cookie.into_string(), user })
                    },
                }
            },
        }
    }
}

} // verus!
