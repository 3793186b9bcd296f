//! The Kratos verification adapter: verifying an address by link or by code.
//!
//! A verification opens a verification flow and submits it once; [`VerificationStep`]
//! says which request comes next, and [`VerificationProcess::on_reply`] reads its answer.
use std::sync::Arc;
use vstd::prelude::*;
use crate::domain::errors::{AuthError, DomainError, DomainErrorView};
use crate::domain::ports::verification::{SendCodeRequest, SubmitCodeRequest, VerifyByLinkRequest};
use crate::domain::value_objects::auth_method::AuthMethod;
use crate::infrastructure::adapters::kratos::client::KratosClient;
use crate::infrastructure::adapters::kratos::http::exchange::{
    reply_view, HttpGet, HttpGetView, HttpPost, HttpPostView, HttpReply, HttpReplyView,
};
use crate::infrastructure::adapters::kratos::http::flows::{
    fetch_flow, fetch_step, first_request, post_flow, post_flow_outcome, submit_outcome,
    submit_request, FetchStep, FetchStepView, FlowFetch, FlowFetchView,
};
use crate::infrastructure::adapters::kratos::models::errors::{
    asks_browser_change, flow_error_text, message_id_of, message_text_of, KratosFlowError,
    STATUS_BAD_REQUEST, STATUS_GONE, STATUS_TOO_MANY_REQUESTS, STATUS_UNAUTHORIZED,
    STATUS_UNPROCESSABLE_ENTITY,
};
use crate::infrastructure::adapters::kratos::models::flows::FlowErrorView;
use crate::infrastructure::adapters::kratos::models::payload::opt_doc_view;
use crate::infrastructure::adapters::kratos::models::verification::{
    verification_payload_json, VerificationPayload,
};
use crate::json::{Json, JsonValue};

verus! {

/// The domain error for an error answer of the verification flow.
pub open spec fn verification_error(e: FlowErrorView) -> DomainErrorView {
    if asks_browser_change(e.body) {
        DomainErrorView::ServiceUnavailable("Browser location change required"@)
    } else if e.status == STATUS_BAD_REQUEST && message_id_of(e.body) == 4070006 {
        DomainErrorView::InvalidData("Invalid verification code"@)
    } else if e.status == STATUS_BAD_REQUEST && message_id_of(e.body) == 4070001 {
        DomainErrorView::InvalidData("Invalid email address"@)
    } else if e.status == STATUS_BAD_REQUEST {
        DomainErrorView::InvalidData(message_text_of(e.body))
    } else if e.status == STATUS_GONE {
        DomainErrorView::NotFound("verification flow"@)
    } else if e.status == STATUS_UNAUTHORIZED {
        DomainErrorView::Auth(AuthError::NotAuthenticated)
    } else if e.status == STATUS_TOO_MANY_REQUESTS {
        DomainErrorView::Auth(AuthError::TooManyAttempts)
    } else if e.status == STATUS_UNPROCESSABLE_ENTITY {
        DomainErrorView::InvalidData(message_text_of(e.body))
    } else {
        DomainErrorView::ServiceUnavailable(flow_error_text(e.status, e.body))
    }
}

/// The domain error for an error answer of the verification flow.
pub fn map_verification_error(e: &KratosFlowError) -> (r: DomainError)
    ensures
        r@ == verification_error(e@),
{
    if e.is_browser_location_change_required() {
        return DomainError::ServiceUnavailable(String::from_str("Browser location change required"));
    }
    let id = e.message_id();
    if e.status == STATUS_BAD_REQUEST && id == 4070006 {
        DomainError::InvalidData(String::from_str("Invalid verification code"))
    } else if e.status == STATUS_BAD_REQUEST && id == 4070001 {
        DomainError::InvalidData(String::from_str("Invalid email address"))
    } else if e.status == STATUS_BAD_REQUEST {
        DomainError::InvalidData(e.message_text())
    } else if e.status == STATUS_GONE {
        DomainError::NotFound(String::from_str("verification flow"))
    } else if e.status == STATUS_UNAUTHORIZED {
        DomainError::Auth(AuthError::NotAuthenticated)
    } else if e.status == STATUS_TOO_MANY_REQUESTS {
        DomainError::Auth(AuthError::TooManyAttempts)
    } else if e.status == STATUS_UNPROCESSABLE_ENTITY {
        DomainError::InvalidData(e.message_text())
    } else {
        DomainError::ServiceUnavailable(e.describe())
    }
}

/// A verification in progress: opening the flow (with what will be submitted to
/// it), or waiting for the answer to the submitted flow.
pub enum VerificationProcess {
    Fetching {
        public_url: String,
        method: AuthMethod,
        email: Option<String>,
        code: Option<String>,
        transient_payload: Option<Json>,
        fetch: FlowFetch,
    },
    Submitting,
}

pub enum VerificationProcessView {
    Fetching {
        public_url: Seq<char>,
        method: AuthMethod,
        email: Option<Seq<char>>,
        code: Option<Seq<char>>,
        transient_payload: Option<JsonValue>,
        fetch: FlowFetchView,
    },
    Submitting,
}

impl View for VerificationProcess {
    type V = VerificationProcessView;

    open spec fn view(&self) -> VerificationProcessView {
        match self {
            VerificationProcess::Fetching { public_url, method, email, code, transient_payload, fetch } =>
                VerificationProcessView::Fetching {
                    public_url: public_url@,
                    method: *method,
                    email: email.deep_view(),
                    code: code.deep_view(),
                    transient_payload: opt_doc_view(*transient_payload),
                    fetch: fetch@,
                },
            VerificationProcess::Submitting => VerificationProcessView::Submitting,
        }
    }
}

/// What a verification does next.
pub enum VerificationStep {
    Fetch(HttpGet, VerificationProcess),
    Submit(HttpPost, VerificationProcess),
    Done(Result<(), DomainError>),
}

pub enum VerificationStepView {
    Fetch(HttpGetView, VerificationProcessView),
    Submit(HttpPostView, VerificationProcessView),
    Done(Result<(), DomainErrorView>),
}

impl View for VerificationStep {
    type V = VerificationStepView;

    open spec fn view(&self) -> VerificationStepView {
        match self {
            VerificationStep::Fetch(g, p) => VerificationStepView::Fetch(g@, p@),
            VerificationStep::Submit(q, p) => VerificationStepView::Submit(q@, p@),
            VerificationStep::Done(r) => VerificationStepView::Done(
                match r {
                    Ok(()) => Ok(()),
                    Err(e) => Err(e@),
                },
            ),
        }
    }
}

/// How a verification starts: it opens a verification flow with the caller's cookie.
pub open spec fn verification_start(
    public_url: Seq<char>,
    method: AuthMethod,
    email: Option<Seq<char>>,
    code: Option<Seq<char>>,
    transient_payload: Option<JsonValue>,
    cookie: Option<Seq<char>>,
) -> VerificationStepView {
    VerificationStepView::Fetch(
        first_request(public_url, "verification"@, cookie),
        VerificationProcessView::Fetching {
            public_url,
            method,
            email,
            code,
            transient_payload,
            fetch: FlowFetchView { public_url, endpoint: "verification"@, cookie, redirected: None },
        },
    )
}

/// What a verification does with an answer: follow the flow fetch, submit the
/// opened flow, or report how the submission went.
pub open spec fn verification_step(p: VerificationProcessView, reply: Result<HttpReplyView, Seq<char>>) -> VerificationStepView {
    match p {
        VerificationProcessView::Fetching { public_url, method, email, code, transient_payload, fetch } =>
            match fetch_step(fetch, reply) {
                FetchStepView::Send(get, next) => VerificationStepView::Fetch(
                    get,
                    VerificationProcessView::Fetching { public_url, method, email, code, transient_payload, fetch: next },
                ),
                FetchStepView::Done(Err(e)) => VerificationStepView::Done(Err(verification_error(e))),
                FetchStepView::Done(Ok(flow)) => VerificationStepView::Submit(
                    submit_request(
                        public_url,
                        "verification"@,
                        flow.flow_id,
                        verification_payload_json(method, email, code, flow.csrf_token, transient_payload),
                        flow.cookies,
                    ),
                    VerificationProcessView::Submitting,
                ),
            },
        VerificationProcessView::Submitting => match submit_outcome(reply) {
            Ok(_) => VerificationStepView::Done(Ok(())),
            Err(e) => VerificationStepView::Done(Err(verification_error(e))),
        },
    }
}

/// Where a verification stands after it has been handed `replies` in turn, one
/// for each request that it asked to send; a verification that has ended stays
/// where it is.
pub open spec fn verification_run(s: VerificationStepView, replies: Seq<Result<HttpReplyView, Seq<char>>>) -> VerificationStepView
    decreases replies.len(),
{
    if replies.len() == 0 {
        s
    } else {
        match s {
            VerificationStepView::Fetch(_, p) => verification_run(verification_step(p, replies[0]), replies.drop_first()),
            VerificationStepView::Submit(_, p) => verification_run(verification_step(p, replies[0]), replies.drop_first()),
            _ => s,
        }
    }
}

/// A verification sends at most three requests and then ends, whatever the
/// answers are.
pub proof fn lemma_verification_ends(
    public_url: Seq<char>,
    method: AuthMethod,
    email: Option<Seq<char>>,
    code: Option<Seq<char>>,
    transient_payload: Option<JsonValue>,
    cookie: Option<Seq<char>>,
    replies: Seq<Result<HttpReplyView, Seq<char>>>,
)
    requires
        replies.len() >= 3,
    ensures
        verification_run(verification_start(public_url, method, email, code, transient_payload, cookie), replies) is Done,
{
    reveal_with_fuel(verification_run, 4);
    let r1 = replies.drop_first();
    let r2 = r1.drop_first();
    assert(r1.len() >= 2 && r2.len() >= 1);
    assert(r1[0] == replies[1] && r2[0] == replies[2]);
}

fn execute_verification_flow(
    public_url: &str,
    method: AuthMethod,
    email: Option<String>,
    code: Option<String>,
    transient_payload: Option<Json>,
    cookie: Option<&str>,
) -> (r: VerificationStep)
    ensures
        r@ == verification_start(
            public_url@,
            method,
            email.deep_view(),
            code.deep_view(),
            opt_doc_view(transient_payload),
            cookie.deep_view(),
        ),
{
    let (get, fetch) = fetch_flow(public_url, "verification", cookie);
    VerificationStep::Fetch(
        get,
        VerificationProcess::Fetching {
            public_url: String::from_str(public_url),
            method,
            email,
            code,
            transient_payload,
            fetch,
        },
    )
}

impl VerificationProcess {
    /// What to do with the answer to the last request (or with the reason why none came).
    pub fn on_reply(self, reply: Result<HttpReply, String>) -> (r: VerificationStep)
        ensures
            r@ == verification_step(self@, reply_view(reply)),
    {
        match self {
            VerificationProcess::Fetching { public_url, method, email, code, transient_payload, fetch } => {
                match fetch.on_reply(reply) {
                    FetchStep::Send(get, next) => VerificationStep::Fetch(
                        get,
                        VerificationProcess::Fetching { public_url, method, email, code, transient_payload, fetch: next },
                    ),
                    FetchStep::Done(Err(e)) => VerificationStep::Done(Err(map_verification_error(&e))),
                    FetchStep::Done(Ok(flow)) => {
                        let payload = VerificationPayload::new(
                            method,
                            email,
                            code,
                            flow.csrf_token,
                            transient_payload,
                        );
                        let request = post_flow(
                            public_url.as_str(),
                            "verification",
                            &flow.flow_id,
                            payload.into_json(),
                            &flow.cookies,
                        );
                        VerificationStep::Submit(request, VerificationProcess::Submitting)
                    },
                }
            },
            VerificationProcess::Submitting => match post_flow_outcome(reply) {
                Ok(_) => VerificationStep::Done(Ok(())),
                Err(e) => VerificationStep::Done(Err(map_verification_error(&e))),
            },
        }
    }
}

/// The Kratos verification adapter.
pub struct KratosVerificationAdapter {
    client: Arc<KratosClient>,
}

impl KratosVerificationAdapter {
    pub fn new(client: Arc<KratosClient>) -> (r: KratosVerificationAdapter)
        ensures
            r.public_url() == client.public_url@,
    {
        KratosVerificationAdapter { client }
    }

    /// The public URL of the Kratos service.
    pub closed spec fn public_url(&self) -> Seq<char> {
        self.client.public_url@
    }

    /// Verifies an address with a link sent to it.
    pub fn verify_by_link(&self, request: VerifyByLinkRequest, cookie: Option<&str>) -> (r: VerificationStep)
        ensures
            r@ == verification_start(
                self.public_url(),
                AuthMethod::Link,
                Some(request.email@),
                None,
                opt_doc_view(request.transient_payload),
                cookie.deep_view(),
            ),
    {
        let email = String::from_str(request.email.as_str());
        execute_verification_flow(
            self.client.public_url.as_str(),
            AuthMethod::Link,
            Some(email),
            None,
            request.transient_payload,
            cookie,
        )
    }

    /// Sends a verification code to an address.
    pub fn send_verification_code(&self, request: SendCodeRequest, cookie: Option<&str>) -> (r: VerificationStep)
        ensures
            r@ == verification_start(
                self.public_url(),
                AuthMethod::Code,
                Some(request.email@),
                None,
                opt_doc_view(request.transient_payload),
                cookie.deep_view(),
            ),
    {
        let email = String::from_str(request.email.as_str());
        execute_verification_flow(
            self.client.public_url.as_str(),
            AuthMethod::Code,
            Some(email),
            None,
            request.transient_payload,
            cookie,
        )
    }

    /// Submits a verification code, within the session of `cookie`.
    pub fn submit_verification_code(&self, request: SubmitCodeRequest, cookie: &str) -> (r: VerificationStep)
        ensures
            r@ == verification_start(
                self.public_url(),
                AuthMethod::Code,
                None,
                Some(request.code@),
                opt_doc_view(request.transient_payload),
                Some(cookie@),
            ),
    {
        execute_verification_flow(
            self.client.public_url.as_str(),
            AuthMethod::Code,
            None,
            Some(request.code),
            request.transient_payload,
            Some(cookie),
        )
    }
}

} // verus!
