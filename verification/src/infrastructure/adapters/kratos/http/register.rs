//! The Kratos registration adapter: the decisions around the registration flow.
use std::sync::Arc;
use vstd::prelude::*;
use crate::domain::entities::user_profile::{UserProfile, UserProfileView};
use crate::domain::value_objects::auth_method::AuthMethod;
use crate::domain::errors::{AuthError, DomainError, DomainErrorView};
use crate::domain::ports::registration::{RegistrationData, RegistrationFlowData, RegistrationResult};
use crate::domain::value_objects::flow_id::FlowId;
use crate::domain::value_objects::session_cookie::{first_session_cookie, SessionCookie};
use crate::infrastructure::adapters::kratos::client::KratosClient;
use crate::infrastructure::adapters::kratos::http::exchange::{HttpGet, HttpPost};
use crate::infrastructure::adapters::kratos::http::flows::{
    fetch_flow, first_request, post_flow, submit_request, FlowFetch, FlowFetchView,
};
use crate::infrastructure::adapters::kratos::models::errors::{
    asks_browser_change, flow_error_text, message_id_of, message_text_of, KratosFlowError,
    STATUS_BAD_REQUEST, STATUS_GONE, STATUS_TOO_MANY_REQUESTS, STATUS_UNPROCESSABLE_ENTITY,
};
use crate::infrastructure::adapters::kratos::models::flows::{
    flow_outcome_view, post_outcome_view, FlowErrorView, FlowResult, FlowResultView,
    PostFlowResult, PostFlowResultView,
};
use crate::infrastructure::adapters::kratos::models::identity::{
    profile_of, session_of, Identity, SessionResponse,
};
use crate::infrastructure::adapters::kratos::models::registration::{
    registration_payload_json, RegistrationPayload,
};
use crate::json::{member, member_of, opt_view};

verus! {

/// The value of a [`RegistrationFlowData`].
pub struct RegistrationFlowDataView {
    pub flow_id: Seq<char>,
    pub csrf_token: Seq<char>,
    pub cookies: Seq<Seq<char>>,
}

/// The value of a [`RegistrationResult`].
pub struct RegistrationResultView {
    pub session_cookie: Seq<char>,
    pub user: UserProfileView,
}

impl View for RegistrationFlowData {
    type V = RegistrationFlowDataView;

    open spec fn view(&self) -> RegistrationFlowDataView {
        RegistrationFlowDataView {
            flow_id: self.flow_id@,
            csrf_token: self.csrf_token@,
            cookies: self.cookies.deep_view(),
        }
    }
}

impl View for RegistrationResult {
    type V = RegistrationResultView;

    open spec fn view(&self) -> RegistrationResultView {
        RegistrationResultView { session_cookie: self.session_cookie@, user: self.user@ }
    }
}

/// The domain error for an error answer of the registration flow.
pub open spec fn registration_error(e: FlowErrorView) -> DomainErrorView {
    if asks_browser_change(e.body) {
        DomainErrorView::ServiceUnavailable("Browser location change required"@)
    } else if e.status == STATUS_BAD_REQUEST && message_id_of(e.body) == 4000007 {
        DomainErrorView::Conflict("Email already exists"@)
    } else if e.status == STATUS_BAD_REQUEST && message_id_of(e.body) == 4000010 {
        DomainErrorView::InvalidData("Password is too weak"@)
    } else if e.status == STATUS_BAD_REQUEST {
        DomainErrorView::InvalidData(message_text_of(e.body))
    } else if e.status == STATUS_GONE {
        DomainErrorView::NotFound("registration flow"@)
    } else if e.status == STATUS_TOO_MANY_REQUESTS {
        DomainErrorView::Auth(AuthError::TooManyAttempts)
    } else if e.status == STATUS_UNPROCESSABLE_ENTITY {
        DomainErrorView::InvalidData(message_text_of(e.body))
    } else {
        DomainErrorView::ServiceUnavailable(flow_error_text(e.status, e.body))
    }
}

/// The registration flow data of an opened flow, or the domain error for the failure.
pub open spec fn registration_flow_of(r: Result<FlowResultView, FlowErrorView>) -> Result<RegistrationFlowDataView, DomainErrorView> {
    match r {
        Ok(f) => Ok(RegistrationFlowDataView { flow_id: f.flow_id, csrf_token: f.csrf_token, cookies: f.cookies }),
        Err(e) => Err(registration_error(e)),
    }
}

/// The completed registration that an answer to the submitted flow yields: the
/// session cookie it set and the user of the new identity.
pub open spec fn registration_result_of(r: Result<PostFlowResultView, FlowErrorView>) -> Result<RegistrationResultView, DomainErrorView> {
    match r {
        Err(e) => Err(registration_error(e)),
        Ok(p) => match first_session_cookie(p.cookies) {
            None => Err(DomainErrorView::Internal("No session cookie was created"@)),
            Some(c) => {
                let s = session_of(member(Some(p.data), "session"@));
                let identity = crate::infrastructure::adapters::kratos::models::identity::identity_of(
                    member(Some(p.data), "identity"@),
                );
                Ok(RegistrationResultView { session_cookie: c, user: profile_of(identity, s.active, s.expires_at) })
            },
        },
    }
}

pub open spec fn registration_flow_view(r: Result<RegistrationFlowData, DomainError>) -> Result<RegistrationFlowDataView, DomainErrorView> {
    match r {
        Ok(f) => Ok(f@),
        Err(e) => Err(e@),
    }
}

pub open spec fn registration_result_view(r: Result<RegistrationResult, DomainError>) -> Result<RegistrationResultView, DomainErrorView> {
    match r {
        Ok(f) => Ok(f@),
        Err(e) => Err(e@),
    }
}

/// The domain error for an error answer of the registration flow.
pub fn map_registration_error(e: &KratosFlowError) -> (r: DomainError)
    ensures
        r@ == registration_error(e@),
{
    if e.is_browser_location_change_required() {
        return DomainError::ServiceUnavailable(String::from_str("Browser location change required"));
    }
    let id = e.message_id();
    if e.status == STATUS_BAD_REQUEST && id == 4000007 {
        DomainError::Conflict(String::from_str("Email already exists"))
    } else if e.status == STATUS_BAD_REQUEST && id == 4000010 {
        DomainError::InvalidData(String::from_str("Password is too weak"))
    } else if e.status == STATUS_BAD_REQUEST {
        DomainError::InvalidData(e.message_text())
    } else if e.status == STATUS_GONE {
        DomainError::NotFound(String::from_str("registration flow"))
    } else if e.status == STATUS_TOO_MANY_REQUESTS {
        DomainError::Auth(AuthError::TooManyAttempts)
    } else if e.status == STATUS_UNPROCESSABLE_ENTITY {
        DomainError::InvalidData(e.message_text())
    } else {
        DomainError::ServiceUnavailable(e.describe())
    }
}

/// The Kratos registration adapter.
pub struct KratosRegistrationAdapter {
    client: Arc<KratosClient>,
}

impl KratosRegistrationAdapter {
    pub fn new(client: Arc<KratosClient>) -> (r: KratosRegistrationAdapter)
        ensures
            r.public_url() == client.public_url@,
    {
        KratosRegistrationAdapter { client }
    }

    /// The public URL of the Kratos service.
    pub closed spec fn public_url(&self) -> Seq<char> {
        self.client.public_url@
    }

    /// A registration is refused while a session is active.
    pub fn check_session(active: bool) -> (r: Result<(), DomainError>)
        ensures
            r is Err <==> active,
            r matches Err(e) ==> e@ == DomainErrorView::Auth(AuthError::AlreadyLoggedIn),
    {
        if active {
            Err(DomainError::Auth(AuthError::AlreadyLoggedIn))
        } else {
            Ok(())
        }
    }

    /// Opens a registration flow with the caller's cookie.
    pub fn initiate_registration(&self, cookie: Option<&str>) -> (r: (HttpGet, FlowFetch))
        ensures
            r.0@ == first_request(self.public_url(), "registration"@, cookie.deep_view()),
            r.1@ == (FlowFetchView {
                public_url: self.public_url(),
                endpoint: "registration"@,
                cookie: cookie.deep_view(),
                redirected: None,
            }),
    {
        fetch_flow(self.client.public_url.as_str(), "registration", cookie)
    }

    /// The registration flow data of an opened flow, or the domain error for the failure.
    pub fn flow_data(r: Result<FlowResult, KratosFlowError>) -> (out: Result<RegistrationFlowData, DomainError>)
        ensures
            registration_flow_view(out) == registration_flow_of(flow_outcome_view(r)),
    {
        match r {
            Ok(flow) => Ok(
                RegistrationFlowData {
                    flow_id: String::from_str(flow.flow_id.as_str()),
                    csrf_token: flow.csrf_token,
                    cookies: flow.cookies,
                },
            ),
            Err(e) => Err(map_registration_error(&e)),
        }
    }

    /// The request that submits the registration data to the flow.
    pub fn complete_registration(&self, flow: RegistrationFlowData, data: RegistrationData) -> (r: HttpPost)
        ensures
            r@ == submit_request(
                self.public_url(),
                "registration"@,
                flow.flow_id@,
                registration_payload_json(
                    AuthMethod::Password,
                    data.password@,
                    flow.csrf_token@,
                    data.email@,
                    data.username@,
                    data.geo_location.deep_view(),
                ),
                flow.cookies.deep_view(),
            ),
    {
        let flow_id = FlowId::new(flow.flow_id.as_str());
        let payload = RegistrationPayload::from_data(data, flow.csrf_token);
        post_flow(self.client.public_url.as_str(), "registration", &flow_id, payload.to_json(), &flow.cookies)
    }

    /// The completed registration that the answer to the submitted flow yields.
    pub fn registration_result(r: Result<PostFlowResult, KratosFlowError>) -> (out: Result<RegistrationResult, DomainError>)
        ensures
            registration_result_view(out) == registration_result_of(post_outcome_view(r)),
    {
        match r {
            Err(e) => Err(map_registration_error(&e)),
            Ok(result) => {
                let PostFlowResult { data, cookies } = result;
                match SessionCookie::find_in(cookies) {
                    None => Err(DomainError::Internal(String::from_str("No session cookie was created"))),
                    Some(cookie) => {
                        let session = SessionResponse::from_json(member_of(Some(&data), "session"));
                        let identity = Identity::from_json(member_of(Some(&data), "identity"));
                        let user = UserProfile::from_session(identity, session.active, session.expires_at);
                        Ok(RegistrationResult { session_cookie: cookie.into_string(), user })
                    },
                }
            },
        }
    }
}

} // verus!
