//! Logging in.
//!
//! A login checks the caller's session, opens a login flow and submits the
//! credentials to it. [`LoginCommandHandler::handle`] starts it; each [`LoginStep`]
//! names the outside work to do next and the part of the process that reads its
//! answer.
use std::sync::Arc;
use vstd::prelude::*;
use crate::domain::entities::user_profile::{UserProfile, UserProfileView};
use crate::domain::errors::{AuthError, DomainError, DomainErrorView};
use crate::domain::ports::login::{LoginCredentials, LoginResult};
use crate::shared::share;
use crate::infrastructure::adapters::kratos::http::exchange::{
    reply_view, HttpGet, HttpGetView, HttpPost, HttpPostView, HttpReply, HttpReplyView,
};
use crate::infrastructure::adapters::kratos::http::flows::{
    fetch_step, first_request, post_flow_outcome, submit_outcome, submit_request, FetchStep,
    FetchStepView, FlowFetch, FlowFetchView,
};
use crate::infrastructure::adapters::kratos::http::login::{
    login_flow_of, login_result_of, KratosAuthenticationAdapter,
};
use crate::infrastructure::adapters::kratos::models::flows::flow_outcome_view;
use crate::infrastructure::adapters::kratos::models::login::{login_payload_json, login_payload_of};

verus! {

/// A request to log in: the credentials, and the caller's cookie if any.
pub struct LoginCommand {
    pub credentials: LoginCredentials,
    pub cookie: Option<String>,
}

/// A completed login.
pub struct LoginCommandResult {
    pub session_cookie: String,
    pub user: UserProfile,
}

pub struct LoginCommandResultView {
    pub session_cookie: Seq<char>,
    pub user: UserProfileView,
}

impl View for LoginCommandResult {
    type V = LoginCommandResultView;

    open spec fn view(&self) -> LoginCommandResultView {
        LoginCommandResultView { session_cookie: self.session_cookie@, user: self.user@ }
    }
}

/// Runs logins through the Kratos login adapter.
pub struct LoginCommandHandler {
    auth_port: Arc<KratosAuthenticationAdapter>,
}

/// A login waiting for the state of the caller's session.
pub struct LoginSessionCheck {
    auth_port: Arc<KratosAuthenticationAdapter>,
    credentials: LoginCredentials,
}

/// A login waiting for the answer to an HTTP request.
pub enum LoginProcess {
    Fetching { auth_port: Arc<KratosAuthenticationAdapter>, credentials: LoginCredentials, fetch: FlowFetch },
    Submitting,
}

/// What a login does next.
pub enum LoginStep {
    /// Find out whether `cookie` belongs to an active session, and whether that is a
    /// recovery session; hand both to `next`.
    CheckSession { cookie: Option<String>, next: LoginSessionCheck },
    Fetch(HttpGet, LoginProcess),
    Submit(HttpPost, LoginProcess),
    Done(Result<LoginCommandResult, DomainError>),
}

pub struct LoginSessionCheckView {
    pub public_url: Seq<char>,
    pub credentials: LoginCredentials,
}

pub enum LoginProcessView {
    Fetching { public_url: Seq<char>, credentials: LoginCredentials, fetch: FlowFetchView },
    Submitting,
}

pub enum LoginStepView {
    CheckSession { cookie: Option<Seq<char>>, next: LoginSessionCheckView },
    Fetch(HttpGetView, LoginProcessView),
    Submit(HttpPostView, LoginProcessView),
    Done(Result<LoginCommandResultView, DomainErrorView>),
}

impl View for LoginSessionCheck {
    type V = LoginSessionCheckView;

    closed spec fn view(&self) -> LoginSessionCheckView {
        LoginSessionCheckView { public_url: self.auth_port.public_url(), credentials: self.credentials }
    }
}

impl View for LoginProcess {
    type V = LoginProcessView;

    closed spec fn view(&self) -> LoginProcessView {
        match self {
            LoginProcess::Fetching { auth_port, credentials, fetch } => LoginProcessView::Fetching {
                public_url: auth_port.public_url(),
                credentials: *credentials,
                fetch: fetch@,
            },
            LoginProcess::Submitting => LoginProcessView::Submitting,
        }
    }
}

impl View for LoginStep {
    type V = LoginStepView;

    open spec fn view(&self) -> LoginStepView {
        match self {
            LoginStep::CheckSession { cookie, next } => LoginStepView::CheckSession {
                cookie: cookie.deep_view(),
                next: next@,
            },
            LoginStep::Fetch(g, p) => LoginStepView::Fetch(g@, p@),
            LoginStep::Submit(q, p) => LoginStepView::Submit(q@, p@),
            LoginStep::Done(r) => LoginStepView::Done(
                match r {
                    Ok(v) => Ok(v@),
                    Err(e) => Err(e@),
                },
            ),
        }
    }
}

/// How a login goes on once the caller's session is known: a login is refused
/// while a session other than a recovery session is active; otherwise a login
/// flow is opened, without the caller's cookie.
pub open spec fn login_after_session(c: LoginSessionCheckView, active: bool, recovery: bool) -> LoginStepView {
    if active && !recovery {
        LoginStepView::Done(Err(DomainErrorView::Auth(AuthError::AlreadyLoggedIn)))
    } else {
        LoginStepView::Fetch(
            first_request(c.public_url, "login"@, None),
            LoginProcessView::Fetching {
                public_url: c.public_url,
                credentials: c.credentials,
                fetch: FlowFetchView { public_url: c.public_url, endpoint: "login"@, cookie: None, redirected: None },
            },
        )
    }
}

/// How a login goes on with an answer: follow the flow fetch, submit the
/// credentials to the opened flow, or report the outcome of the submission.
pub open spec fn login_after_reply(p: LoginProcessView, reply: Result<HttpReplyView, Seq<char>>) -> LoginStepView {
    match p {
        LoginProcessView::Fetching { public_url, credentials, fetch } => match fetch_step(fetch, reply) {
            FetchStepView::Send(get, next) => LoginStepView::Fetch(
                get,
                LoginProcessView::Fetching { public_url, credentials, fetch: next },
            ),
            FetchStepView::Done(r) => match login_flow_of(r) {
                Err(e) => LoginStepView::Done(Err(e)),
                Ok(flow) => LoginStepView::Submit(
                    submit_request(
                        public_url,
                        "login"@,
                        flow.flow_id,
                        login_payload_json(login_payload_of(credentials, flow.csrf_token)),
                        flow.cookies,
                    ),
                    LoginProcessView::Submitting,
                ),
            },
        },
        LoginProcessView::Submitting => match login_result_of(submit_outcome(reply)) {
            Ok(r) => LoginStepView::Done(Ok(LoginCommandResultView { session_cookie: r.session_cookie, user: r.user })),
            Err(e) => LoginStepView::Done(Err(e)),
        },
    }
}

/// Where a login stands after it has been handed `replies` in turn, one for each
/// request that it asked to send; a login that has ended stays where it is.
pub open spec fn login_run(s: LoginStepView, replies: Seq<Result<HttpReplyView, Seq<char>>>) -> LoginStepView
    decreases replies.len(),
{
    if replies.len() == 0 {
        s
    } else {
        match s {
            LoginStepView::Fetch(_, p) => login_run(login_after_reply(p, replies[0]), replies.drop_first()),
            LoginStepView::Submit(_, p) => login_run(login_after_reply(p, replies[0]), replies.drop_first()),
            _ => s,
        }
    }
}

/// Once the caller's session is known, a login sends at most three requests (the
/// flow, its lookup after a redirect, the submission) and then ends, whatever the
/// answers are.
pub proof fn lemma_login_ends(
    c: LoginSessionCheckView,
    active: bool,
    recovery: bool,
    replies: Seq<Result<HttpReplyView, Seq<char>>>,
)
    requires
        replies.len() >= 3,
    ensures
        login_run(login_after_session(c, active, recovery), replies) is Done,
{
    reveal_with_fuel(login_run, 4);
    let r1 = replies.drop_first();
    let r2 = r1.drop_first();
    assert(r1.len() >= 2 && r2.len() >= 1);
    assert(r1[0] == replies[1] && r2[0] == replies[2]);
}

impl LoginCommandHandler {
    pub fn new(auth_port: Arc<KratosAuthenticationAdapter>) -> (r: LoginCommandHandler)
        ensures
            r.public_url() == auth_port.public_url(),
    {
        LoginCommandHandler { auth_port }
    }

    /// The public URL of the Kratos service that logins go to.
    pub closed spec fn public_url(&self) -> Seq<char> {
        self.auth_port.public_url()
    }

    /// Starts a login: first the caller's session is checked.
    pub fn handle(&self, command: LoginCommand) -> (r: LoginStep)
        ensures
            r@ == (LoginStepView::CheckSession {
                cookie: command.cookie.deep_view(),
                next: LoginSessionCheckView { public_url: self.public_url(), credentials: command.credentials },
            }),
    {
        LoginStep::CheckSession {
            cookie: command.cookie,
            next: LoginSessionCheck { auth_port: share(&self.auth_port), credentials: command.credentials },
        }
    }
}

impl LoginSessionCheck {
    /// Goes on with the state of the caller's session.
    pub fn resume(self, active: bool, recovery: bool) -> (r: LoginStep)
        ensures
            r@ == login_after_session(self@, active, recovery),
    {
        match KratosAuthenticationAdapter::check_session(active, recovery) {
            Err(e) => LoginStep::Done(Err(e)),
            Ok(()) => {
                let (get, fetch) = self.auth_port.initiate_login();
                LoginStep::Fetch(
                    get,
                    LoginProcess::Fetching { auth_port: self.auth_port, credentials: self.credentials, fetch },
                )
            },
        }
    }
}

impl LoginProcess {
    /// Goes on with the answer to the last request (or with the reason why none came).
    pub fn on_reply(self, reply: Result<HttpReply, String>) -> (r: LoginStep)
        ensures
            r@ == login_after_reply(self@, reply_view(reply)),
    {
        match self {
            LoginProcess::Fetching { auth_port, credentials, fetch } => match fetch.on_reply(reply) {
                FetchStep::Send(get, next) => LoginStep::Fetch(
                    get,
                    LoginProcess::Fetching { auth_port, credentials, fetch: next },
                ),
                FetchStep::Done(r) => match KratosAuthenticationAdapter::flow_data(r) {
                    Err(e) => LoginStep::Done(Err(e)),
                    Ok(flow) => {
                        let request = auth_port.complete_login(flow, credentials);
                        LoginStep::Submit(request, LoginProcess::Submitting)
                    },
                },
            },
            LoginProcess::Submitting => {
                match KratosAuthenticationAdapter::login_result(post_flow_outcome(reply)) {
                    Ok(result) => {
                        let LoginResult { session_cookie, user } = result;
                        LoginStep::Done(Ok(LoginCommandResult { session_cookie, user }))
                    },
                    Err(e) => LoginStep::Done(Err(e)),
                }
            },
        }
    }
}

} // verus!
