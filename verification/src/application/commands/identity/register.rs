//! Registering a new account.
//!
//! A registration checks the caller's session, opens a registration flow with the
//! caller's cookie and submits the registration data to it.
use std::sync::Arc;
use vstd::prelude::*;
use crate::domain::entities::user_profile::{UserProfile, UserProfileView};
use crate::domain::errors::{AuthError, DomainError, DomainErrorView};
use crate::domain::ports::registration::{RegistrationData, RegistrationResult};
use crate::domain::value_objects::auth_method::AuthMethod;
use crate::infrastructure::adapters::kratos::http::exchange::{
    reply_view, HttpGet, HttpGetView, HttpPost, HttpPostView, HttpReply, HttpReplyView,
};
use crate::infrastructure::adapters::kratos::http::flows::{
    fetch_step, first_request, post_flow_outcome, submit_outcome, submit_request, FetchStep,
    FetchStepView, FlowFetch, FlowFetchView,
};
use crate::infrastructure::adapters::kratos::http::register::{
    registration_flow_of, registration_result_of, KratosRegistrationAdapter,
};
use crate::infrastructure::adapters::kratos::models::registration::registration_payload_json;
use crate::shared::share;

verus! {

/// A request to register: the registration data, and the caller's cookie if any.
pub struct RegisterCommand {
    pub data: RegistrationData,
    pub cookie: Option<String>,
}

/// A completed registration, with the id of the flow it went through.
pub struct RegisterCommandResult {
    pub flow_id: String,
    pub session_cookie: String,
    pub user: UserProfile,
}

pub struct RegisterCommandResultView {
    pub flow_id: Seq<char>,
    pub session_cookie: Seq<char>,
    pub user: UserProfileView,
}

impl View for RegisterCommandResult {
    type V = RegisterCommandResultView;

    open spec fn view(&self) -> RegisterCommandResultView {
        RegisterCommandResultView {
            flow_id: self.flow_id@,
            session_cookie: self.session_cookie@,
            user: self.user@,
        }
    }
}

/// Runs registrations through the Kratos registration adapter.
pub struct RegisterCommandHandler {
    registration_port: Arc<KratosRegistrationAdapter>,
}

/// A registration waiting for the state of the caller's session.
pub struct RegisterSessionCheck {
    registration_port: Arc<KratosRegistrationAdapter>,
    data: RegistrationData,
    cookie: Option<String>,
}

/// A registration waiting for the answer to an HTTP request.
pub enum RegisterProcess {
    Fetching { registration_port: Arc<KratosRegistrationAdapter>, data: RegistrationData, fetch: FlowFetch },
    Submitting { flow_id: String },
}

/// What a registration does next.
pub enum RegisterStep {
    /// Find out whether `cookie` belongs to an active session; hand that to `next`.
    CheckSession { cookie: Option<String>, next: RegisterSessionCheck },
    Fetch(HttpGet, RegisterProcess),
    Submit(HttpPost, RegisterProcess),
    Done(Result<RegisterCommandResult, DomainError>),
}

pub struct RegisterSessionCheckView {
    pub public_url: Seq<char>,
    pub data: RegistrationData,
    pub cookie: Option<Seq<char>>,
}

pub enum RegisterProcessView {
    Fetching { public_url: Seq<char>, data: RegistrationData, fetch: FlowFetchView },
    Submitting { flow_id: Seq<char> },
}

pub enum RegisterStepView {
    CheckSession { cookie: Option<Seq<char>>, next: RegisterSessionCheckView },
    Fetch(HttpGetView, RegisterProcessView),
    Submit(HttpPostView, RegisterProcessView),
    Done(Result<RegisterCommandResultView, DomainErrorView>),
}

impl View for RegisterSessionCheck {
    type V = RegisterSessionCheckView;

    closed spec fn view(&self) -> RegisterSessionCheckView {
        RegisterSessionCheckView {
            public_url: self.registration_port.public_url(),
            data: self.data,
            cookie: self.cookie.deep_view(),
        }
    }
}

impl View for RegisterProcess {
    type V = RegisterProcessView;

    closed spec fn view(&self) -> RegisterProcessView {
        match self {
            RegisterProcess::Fetching { registration_port, data, fetch } => RegisterProcessView::Fetching {
                public_url: registration_port.public_url(),
                data: *data,
                fetch: fetch@,
            },
            RegisterProcess::Submitting { flow_id } => RegisterProcessView::Submitting { flow_id: flow_id@ },
        }
    }
}

impl View for RegisterStep {
    type V = RegisterStepView;

    open spec fn view(&self) -> RegisterStepView {
        match self {
            RegisterStep::CheckSession { cookie, next } => RegisterStepView::CheckSession {
                cookie: cookie.deep_view(),
                next: next@,
            },
            RegisterStep::Fetch(g, p) => RegisterStepView::Fetch(g@, p@),
            RegisterStep::Submit(q, p) => RegisterStepView::Submit(q@, p@),
            RegisterStep::Done(r) => RegisterStepView::Done(
                match r {
                    Ok(v) => Ok(v@),
                    Err(e) => Err(e@),
                },
            ),
        }
    }
}

/// How a registration goes on once the caller's session is known: it is refused
/// while a session is active; otherwise a registration flow is opened with the
/// caller's cookie.
pub open spec fn register_after_session(c: RegisterSessionCheckView, active: bool) -> RegisterStepView {
    if active {
        RegisterStepView::Done(Err(DomainErrorView::Auth(AuthError::AlreadyLoggedIn)))
    } else {
        RegisterStepView::Fetch(
            first_request(c.public_url, "registration"@, c.cookie),
            RegisterProcessView::Fetching {
                public_url: c.public_url,
                data: c.data,
                fetch: FlowFetchView {
                    public_url: c.public_url,
                    endpoint: "registration"@,
                    cookie: c.cookie,
                    redirected: None,
                },
            },
        )
    }
}

/// How a registration goes on with an answer: follow the flow fetch, submit the
/// data to the opened flow, or report the outcome with the flow's id.
pub open spec fn register_after_reply(p: RegisterProcessView, reply: Result<HttpReplyView, Seq<char>>) -> RegisterStepView {
    match p {
        RegisterProcessView::Fetching { public_url, data, fetch } => match fetch_step(fetch, reply) {
            FetchStepView::Send(get, next) => RegisterStepView::Fetch(
                get,
                RegisterProcessView::Fetching { public_url, data, fetch: next },
            ),
            FetchStepView::Done(r) => match registration_flow_of(r) {
                Err(e) => RegisterStepView::Done(Err(e)),
                Ok(flow) => RegisterStepView::Submit(
                    submit_request(
                        public_url,
                        "registration"@,
                        flow.flow_id,
                        registration_payload_json(
                            AuthMethod::Password,
                            data.password@,
                            flow.csrf_token,
                            data.email@,
                            data.username@,
                            data.geo_location.deep_view(),
                        ),
                        flow.cookies,
                    ),
                    RegisterProcessView::Submitting { flow_id: flow.flow_id },
                ),
            },
        },
        RegisterProcessView::Submitting { flow_id } => match registration_result_of(submit_outcome(reply)) {
            Ok(r) => RegisterStepView::Done(
                Ok(RegisterCommandResultView { flow_id, session_cookie: r.session_cookie, user: r.user }),
            ),
            Err(e) => RegisterStepView::Done(Err(e)),
        },
    }
}

/// Where a registration stands after it has been handed `replies` in turn, one
/// for each request that it asked to send; a registration that has ended stays
/// where it is.
pub open spec fn register_run(s: RegisterStepView, replies: Seq<Result<HttpReplyView, Seq<char>>>) -> RegisterStepView
    decreases replies.len(),
{
    if replies.len() == 0 {
        s
    } else {
        match s {
            RegisterStepView::Fetch(_, p) => register_run(register_after_reply(p, replies[0]), replies.drop_first()),
            RegisterStepView::Submit(_, p) => register_run(register_after_reply(p, replies[0]), replies.drop_first()),
            _ => s,
        }
    }
}

/// Once the caller's session is known, a registration sends at most three
/// requests and then ends, whatever the answers are.
pub proof fn lemma_registration_ends(
    c: RegisterSessionCheckView,
    active: bool,
    replies: Seq<Result<HttpReplyView, Seq<char>>>,
)
    requires
        replies.len() >= 3,
    ensures
        register_run(register_after_session(c, active), replies) is Done,
{
    reveal_with_fuel(register_run, 4);
    let r1 = replies.drop_first();
    let r2 = r1.drop_first();
    assert(r1.len() >= 2 && r2.len() >= 1);
    assert(r1[0] == replies[1] && r2[0] == replies[2]);
}

impl RegisterCommandHandler {
    pub fn new(registration_port: Arc<KratosRegistrationAdapter>) -> (r: RegisterCommandHandler)
        ensures
            r.public_url() == registration_port.public_url(),
    {
        RegisterCommandHandler { registration_port }
    }

    /// The public URL of the Kratos service that registrations go to.
    pub closed spec fn public_url(&self) -> Seq<char> {
        self.registration_port.public_url()
    }

    /// Starts a registration: first the caller's session is checked.
    pub fn handle(&self, command: RegisterCommand) -> (r: RegisterStep)
        ensures
            r@ == (RegisterStepView::CheckSession {
                cookie: command.cookie.deep_view(),
                next: RegisterSessionCheckView {
                    public_url: self.public_url(),
                    data: command.data,
                    cookie: command.cookie.deep_view(),
                },
            }),
    {
        let cookie = match &command.cookie {
            Some(c) => Some(c.clone()),
            None => None,
        };
        RegisterStep::CheckSession {
            cookie,
            next: RegisterSessionCheck {
                registration_port: share(&self.registration_port),
                data: command.data,
                cookie: command.cookie,
            },
        }
    }
}

impl RegisterSessionCheck {
    /// Goes on with the state of the caller's session.
    pub fn resume(self, active: bool) -> (r: RegisterStep)
        ensures
            r@ == register_after_session(self@, active),
    {
        match KratosRegistrationAdapter::check_session(active) {
            Err(e) => RegisterStep::Done(Err(e)),
            Ok(()) => {
                let cookie: Option<&str> = match &self.cookie {
                    Some(c) => Some(c.as_str()),
                    None => None,
                };
                let (get, fetch) = self.registration_port.initiate_registration(cookie);
                RegisterStep::Fetch(
                    get,
                    RegisterProcess::Fetching {
                        registration_port: self.registration_port,
                        data: self.data,
                        fetch,
                    },
                )
            },
        }
    }
}

impl RegisterProcess {
    /// Goes on with the answer to the last request (or with the reason why none came).
    pub fn on_reply(self, reply: Result<HttpReply, String>) -> (r: RegisterStep)
        ensures
            r@ == register_after_reply(self@, reply_view(reply)),
    {
        match self {
            RegisterProcess::Fetching { registration_port, data, fetch } => match fetch.on_reply(reply) {
                FetchStep::Send(get, next) => RegisterStep::Fetch(
                    get,
                    RegisterProcess::Fetching { registration_port, data, fetch: next },
                ),
                FetchStep::Done(r) => match KratosRegistrationAdapter::flow_data(r) {
                    Err(e) => RegisterStep::Done(Err(e)),
                    Ok(flow) => {
                        let flow_id = flow.flow_id.clone();
                        let request = registration_port.complete_registration(flow, data);
                        RegisterStep::Submit(request, RegisterProcess::Submitting { flow_id })
                    },
                },
            },
            RegisterProcess::Submitting { flow_id } => {
                match KratosRegistrationAdapter::registration_result(post_flow_outcome(reply)) {
                    Ok(result) => {
                        let RegistrationResult { session_cookie, user } = result;
                        RegisterStep::Done(Ok(RegisterCommandResult { flow_id, session_cookie, user }))
                    },
                    Err(e) => RegisterStep::Done(Err(e)),
                }
            },
        }
    }
}

} // verus!
