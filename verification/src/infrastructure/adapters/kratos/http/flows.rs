//! Opening and submitting Kratos self-service flows.
//!
//! Opening a flow takes one or two GET requests: Kratos may answer the first with a
//! redirect that names the flow, which is then fetched by its id. [`fetch_flow`]
//! gives the first request and a [`FlowFetch`] that decides, from each answer,
//! on the next request or on the outcome. Submitting a flow is one POST request:
//! [`post_flow`] gives it and [`post_flow_outcome`] reads its answer.
use vstd::prelude::*;
use crate::domain::value_objects::flow_id::FlowId;
use crate::infrastructure::adapters::kratos::http::exchange::{
    reply_view, HttpGet, HttpGetView, HttpPost, HttpPostView, HttpReply, HttpReplyView,
};
use crate::infrastructure::adapters::kratos::models::errors::{
    is_flow_redirect, is_success, network_error_body, KratosFlowError, STATUS_FOUND,
    STATUS_SEE_OTHER, STATUS_SERVICE_UNAVAILABLE, STATUS_UNAUTHORIZED,
};
use crate::infrastructure::adapters::kratos::models::flows::{
    flow_outcome_view, post_outcome_view, FlowErrorView, FlowResult, FlowResultView,
    PostFlowResult, PostFlowResultView,
};
use crate::json::{
    items_of, items_view, member, member_of, object, object1, opt_view, push_member, text_in,
    text_of, Json, JsonMember, JsonValue, members_view,
};
use crate::text::{
    after_first, before_first, contains, find, join, joined, replace_all, replaced, seq_contains,
    find_first,
};

verus! {

broadcast use vstd::string::group_string_axioms;

/// A URL with `localhost` replaced by the loopback address.
pub open spec fn loopback(url: Seq<char>) -> Seq<char> {
    replaced(url, "localhost"@, "127.0.0.1"@)
}

/// Where a browser opens a flow of kind `endpoint`.
pub open spec fn browser_flow_url(public_url: Seq<char>, endpoint: Seq<char>) -> Seq<char> {
    loopback(public_url + "/self-service/"@ + endpoint + "/browser"@)
}

/// Where a flow is submitted.
pub open spec fn submit_flow_url(public_url: Seq<char>, endpoint: Seq<char>, flow_id: Seq<char>) -> Seq<char> {
    loopback(public_url + "/self-service/"@ + endpoint + "?flow="@ + flow_id)
}

/// Where an open flow is fetched by its id.
pub open spec fn flow_lookup_url(public_url: Seq<char>, endpoint: Seq<char>, flow_id: Seq<char>) -> Seq<char> {
    loopback(public_url) + "/self-service/"@ + endpoint + "/flows?id="@ + flow_id
}

/// The caller's own cookie, if any, followed by `cookies`.
pub open spec fn cookies_with(cookie: Option<Seq<char>>, cookies: Seq<Seq<char>>) -> Seq<Seq<char>> {
    match cookie {
        Some(c) => seq![c] + cookies,
        None => cookies,
    }
}

/// The value of a `Cookie` header that carries `cookies`.
pub open spec fn cookie_header(cookies: Seq<Seq<char>>) -> Seq<char> {
    joined(cookies, "; "@)
}

/// The first form node whose `attributes.name` is `csrf_token`.
pub open spec fn csrf_node(nodes: Seq<JsonValue>) -> Option<JsonValue>
    decreases nodes.len(),
{
    if nodes.len() == 0 {
        None
    } else if text_of(member(member(Some(nodes[0]), "attributes"@), "name"@)) == Some("csrf_token"@) {
        Some(nodes[0])
    } else {
        csrf_node(nodes.drop_first())
    }
}

/// The CSRF token of a flow: the text value of its `csrf_token` form node.
pub open spec fn csrf_token_of(flow: JsonValue) -> Option<Seq<char>> {
    match items_of(member(member(Some(flow), "ui"@), "nodes"@)) {
        Some(nodes) => match csrf_node(nodes) {
            Some(n) => text_of(member(member(Some(n), "attributes"@), "value"@)),
            None => None,
        },
        None => None,
    }
}

/// The id of a flow.
pub open spec fn flow_id_of(flow: JsonValue) -> Option<Seq<char>> {
    text_of(member(Some(flow), "id"@))
}

/// The error for a request that Kratos did not answer usefully.
pub open spec fn network_error(message: Seq<char>) -> FlowErrorView {
    FlowErrorView { status: STATUS_SERVICE_UNAVAILABLE, body: network_error_body(message) }
}

/// The error for a redirect that names no flow: a session is needed first.
pub open spec fn session_required_error() -> FlowErrorView {
    FlowErrorView {
        status: STATUS_UNAUTHORIZED,
        body: JsonValue::Object(seq![JsonMember { key: "error"@, value: JsonValue::Str("session required"@) }]),
    }
}

/// The body of an error answer, or an empty object when it is not JSON.
pub open spec fn body_or_empty(body: Result<JsonValue, Seq<char>>) -> JsonValue {
    match body {
        Ok(j) => j,
        Err(_) => JsonValue::Object(Seq::empty()),
    }
}

/// The flow that an answer's body describes, with the given cookies.
pub open spec fn read_flow(body: Result<JsonValue, Seq<char>>, cookies: Seq<Seq<char>>) -> Result<FlowResultView, FlowErrorView> {
    match body {
        Err(m) => Err(network_error(m)),
        Ok(flow) => match csrf_token_of(flow) {
            None => Err(network_error("CSRF token not found in flow response"@)),
            Some(token) => match flow_id_of(flow) {
                None => Err(network_error("Flow ID not found in response"@)),
                Some(id) => Ok(FlowResultView { flow_id: id, csrf_token: token, cookies }),
            },
        },
    }
}

/// The flow id in a redirect target: what follows the first `flow=`, up to a
/// second `flow=` and up to the first `&`.
pub open spec fn redirect_flow_id(location: Seq<char>) -> Seq<char> {
    match after_first(location, "flow="@) {
        Some(rest) => before_first(before_first(rest, "flow="@), "&"@),
        None => Seq::empty(),
    }
}

/// Where a flow fetch stands: the caller's data, and the cookies gathered once
/// the first answer was a redirect.
pub struct FlowFetchView {
    pub public_url: Seq<char>,
    pub endpoint: Seq<char>,
    pub cookie: Option<Seq<char>>,
    pub redirected: Option<Seq<Seq<char>>>,
}

/// What a flow fetch does next.
pub enum FetchStepView {
    Send(HttpGetView, FlowFetchView),
    Done(Result<FlowResultView, FlowErrorView>),
}

/// The first request of a flow fetch.
pub open spec fn first_request(public_url: Seq<char>, endpoint: Seq<char>, cookie: Option<Seq<char>>) -> HttpGetView {
    HttpGetView { url: browser_flow_url(public_url, endpoint), cookie }
}

/// The answer to a redirect: fetch the flow it names, with the caller's cookie and
/// the cookies set so far.
pub open spec fn follow_redirect(f: FlowFetchView, r: HttpReplyView) -> FetchStepView {
    match r.location {
        None => FetchStepView::Done(Err(network_error("No redirect location found"@))),
        Some(location) => if !seq_contains(location, "flow="@) {
            FetchStepView::Done(Err(session_required_error()))
        } else {
            let all = cookies_with(f.cookie, r.set_cookies);
            FetchStepView::Send(
                HttpGetView {
                    url: flow_lookup_url(f.public_url, f.endpoint, redirect_flow_id(location)),
                    cookie: Some(cookie_header(all)),
                },
                FlowFetchView { redirected: Some(all), ..f },
            )
        },
    }
}

/// What a flow fetch does with an answer (or with the reason why none came).
pub open spec fn fetch_step(f: FlowFetchView, reply: Result<HttpReplyView, Seq<char>>) -> FetchStepView {
    match reply {
        Err(m) => FetchStepView::Done(Err(network_error(m))),
        Ok(r) => match f.redirected {
            None => if is_flow_redirect(r.status) {
                follow_redirect(f, r)
            } else if !is_success(r.status) {
                FetchStepView::Done(Err(FlowErrorView { status: r.status, body: body_or_empty(r.body) }))
            } else {
                FetchStepView::Done(read_flow(r.body, cookies_with(f.cookie, r.set_cookies)))
            },
            Some(all) => if !is_success(r.status) {
                FetchStepView::Done(Err(FlowErrorView { status: r.status, body: body_or_empty(r.body) }))
            } else {
                FetchStepView::Done(read_flow(r.body, all))
            },
        },
    }
}

/// A flow fetch follows at most one redirect: once it has sent the lookup that a
/// redirect asked for, whatever comes back ends it.
pub proof fn lemma_fetch_follows_one_redirect(
    f: FlowFetchView,
    first: Result<HttpReplyView, Seq<char>>,
    second: Result<HttpReplyView, Seq<char>>,
)
    requires
        f.redirected is None,
    ensures
        fetch_step(f, first) matches FetchStepView::Send(_, next) ==> fetch_step(next, second) is Done,
{
}

/// The cookies of an opened flow are the caller's cookie, when there is one,
/// followed by the cookies that the first answer set, whether the flow came with
/// that answer or with the lookup after a redirect.
pub proof fn lemma_flow_cookies(
    f: FlowFetchView,
    first: Result<HttpReplyView, Seq<char>>,
    second: Result<HttpReplyView, Seq<char>>,
)
    requires
        f.redirected is None,
    ensures
        fetch_step(f, first) matches FetchStepView::Done(Ok(flow))
            ==> flow.cookies == cookies_with(f.cookie, first->Ok_0.set_cookies),
        fetch_step(f, first) matches FetchStepView::Send(_, next)
            ==> (fetch_step(next, second) matches FetchStepView::Done(Ok(flow))
                ==> flow.cookies == cookies_with(f.cookie, first->Ok_0.set_cookies)),
{
}

/// The request that submits a flow.
pub open spec fn submit_request(
    public_url: Seq<char>,
    endpoint: Seq<char>,
    flow_id: Seq<char>,
    data: JsonValue,
    cookies: Seq<Seq<char>>,
) -> HttpPostView {
    HttpPostView {
        url: submit_flow_url(public_url, endpoint, flow_id),
        cookie: cookie_header(cookies),
        body: data,
    }
}

/// What the answer to a submitted flow yields.
pub open spec fn submit_outcome(reply: Result<HttpReplyView, Seq<char>>) -> Result<PostFlowResultView, FlowErrorView> {
    match reply {
        Err(m) => Err(network_error(m)),
        Ok(r) => if !is_success(r.status) {
            Err(FlowErrorView { status: r.status, body: body_or_empty(r.body) })
        } else {
            match r.body {
                Err(m) => Err(network_error(m)),
                Ok(data) => Ok(PostFlowResultView { data, cookies: r.set_cookies }),
            }
        },
    }
}

/// A flow fetch in progress.
pub struct FlowFetch {
    public_url: String,
    endpoint: String,
    cookie: Option<String>,
    redirected: Option<Vec<String>>,
}

/// What a flow fetch does next: send a request and hand the answer to the fetch,
/// or stop with the outcome.
pub enum FetchStep {
    Send(HttpGet, FlowFetch),
    Done(Result<FlowResult, KratosFlowError>),
}

impl View for FlowFetch {
    type V = FlowFetchView;

    closed spec fn view(&self) -> FlowFetchView {
        FlowFetchView {
            public_url: self.public_url@,
            endpoint: self.endpoint@,
            cookie: self.cookie.deep_view(),
            redirected: match self.redirected {
                Some(v) => Some(v.deep_view()),
                None => None,
            },
        }
    }
}

impl View for FetchStep {
    type V = FetchStepView;

    open spec fn view(&self) -> FetchStepView {
        match self {
            FetchStep::Send(get, next) => FetchStepView::Send(get@, next@),
            FetchStep::Done(r) => FetchStepView::Done(flow_outcome_view(*r)),
        }
    }
}

fn concat3(a: &str, b: &str, c: &str) -> (r: String)
    ensures
        r@ == a@ + b@ + c@,
{
    let mut s = String::from_str(a);
    s.append(b);
    s.append(c);
    s
}

/// `url` with `localhost` replaced by the loopback address.
pub fn to_loopback(url: &str) -> (r: String)
    ensures
        r@ == loopback(url@),
{
    proof {
        reveal_strlit("localhost");
    }
    replace_all(url, "localhost", "127.0.0.1")
}

/// Where a browser opens a flow of kind `endpoint`.
pub fn browser_flow_url_for(public_url: &str, endpoint: &str) -> (r: String)
    ensures
        r@ == browser_flow_url(public_url@, endpoint@),
{
    let mut s = concat3(public_url, "/self-service/", endpoint);
    s.append("/browser");
    to_loopback(s.as_str())
}

/// Where a flow is submitted.
pub fn submit_flow_url_for(public_url: &str, endpoint: &str, flow_id: &str) -> (r: String)
    ensures
        r@ == submit_flow_url(public_url@, endpoint@, flow_id@),
{
    let mut s = concat3(public_url, "/self-service/", endpoint);
    s.append("?flow=");
    s.append(flow_id);
    to_loopback(s.as_str())
}

/// Where an open flow is fetched by its id.
pub fn flow_lookup_url_for(public_url: &str, endpoint: &str, flow_id: &str) -> (r: String)
    ensures
        r@ == flow_lookup_url(public_url@, endpoint@, flow_id@),
{
    let base = to_loopback(public_url);
    let mut s = concat3(base.as_str(), "/self-service/", endpoint);
    s.append("/flows?id=");
    s.append(flow_id);
    s
}

/// The caller's own cookie, if any, followed by `cookies`.
pub fn prepend_cookie(cookie: &Option<String>, cookies: Vec<String>) -> (r: Vec<String>)
    ensures
        r.deep_view() == cookies_with(cookie.deep_view(), cookies.deep_view()),
{
    match cookie {
        Some(c) => {
            let ghost rest_view = cookies.deep_view();
            let mut all: Vec<String> = Vec::new();
            all.push(c.clone());
            let mut rest = cookies;
            all.append(&mut rest);
            assert(all.deep_view() =~= seq![c@] + rest_view);
            all
        },
        None => cookies,
    }
}

fn csrf_node_in(nodes: &Vec<Json>) -> (r: Option<&Json>)
    ensures
        opt_view(r) == csrf_node(items_view(nodes@)),
{
    let ghost all = items_view(nodes@);
    let mut i: usize = 0;
    assert(all.skip(0) =~= all);
    while i < nodes.len()
        invariant
            all == items_view(nodes@),
            i <= nodes@.len(),
            csrf_node(all) == csrf_node(all.skip(i as int)),
        decreases nodes@.len() - i,
    {
        assert(all.skip(i as int).drop_first() =~= all.skip(i + 1));
        assert(all.skip(i as int)[0] == nodes@[i as int]@);
        let name = text_in(member_of(nodes[i].get("attributes"), "name"));
        match name {
            Some(n) => {
                if crate::text::text_eq(n.as_str(), "csrf_token") {
                    return Some(&nodes[i]);
                }
            },
            None => {},
        }
        i = i + 1;
    }
    None
}

/// The CSRF token of a flow.
pub fn extract_csrf_token(flow: &Json) -> (r: Result<String, String>)
    ensures
        r matches Ok(t) ==> csrf_token_of(flow@) == Some(t@),
        r matches Err(m) ==> csrf_token_of(flow@) is None && m@
            == "CSRF token not found in flow response"@,
{
    let token = match member_of(flow.get("ui"), "nodes") {
        Some(n) => match n.as_array() {
            Some(nodes) => match csrf_node_in(nodes) {
                Some(node) => text_in(member_of(node.get("attributes"), "value")),
                None => None,
            },
            None => None,
        },
        None => None,
    };
    match token {
        Some(t) => Ok(t),
        None => Err(String::from_str("CSRF token not found in flow response")),
    }
}

/// The id of a flow.
pub fn extract_flow_id(flow: &Json) -> (r: Result<FlowId, String>)
    ensures
        r matches Ok(id) ==> flow_id_of(flow@) == Some(id@),
        r matches Err(m) ==> flow_id_of(flow@) is None && m@ == "Flow ID not found in response"@,
{
    match text_in(flow.get("id")) {
        Some(id) => Ok(FlowId::new(id.as_str())),
        None => Err(String::from_str("Flow ID not found in response")),
    }
}

fn network(message: &str) -> (r: KratosFlowError)
    ensures
        r@ == network_error(message@),
{
    KratosFlowError::network(message)
}

fn read_flow_from(body: Result<Json, String>, cookies: Vec<String>) -> (r: Result<FlowResult, KratosFlowError>)
    ensures
        flow_outcome_view(r) == read_flow(
            match body {
                Ok(j) => Ok(j@),
                Err(m) => Err(m@),
            },
            cookies.deep_view(),
        ),
{
    match body {
        Err(m) => Err(network(m.as_str())),
        Ok(flow) => match extract_csrf_token(&flow) {
            Err(m) => Err(network(m.as_str())),
            Ok(csrf_token) => match extract_flow_id(&flow) {
                Err(m) => Err(network(m.as_str())),
                Ok(flow_id) => Ok(FlowResult { flow_id, csrf_token, cookies }),
            },
        },
    }
}

fn error_answer(status: u16, body: Result<Json, String>) -> (r: KratosFlowError)
    ensures
        r@ == (FlowErrorView {
            status,
            body: body_or_empty(
                match body {
                    Ok(j) => Ok(j@),
                    Err(m) => Err(m@),
                },
            ),
        }),
{
    match body {
        Ok(j) => KratosFlowError { status, body: j },
        Err(_) => {
            let members: Vec<(String, Json)> = Vec::new();
            assert(members_view(members@) =~= Seq::<JsonMember>::empty());
            KratosFlowError { status, body: object(members) }
        },
    }
}

fn session_required() -> (r: KratosFlowError)
    ensures
        r@ == session_required_error(),
{
    KratosFlowError {
        status: STATUS_UNAUTHORIZED,
        body: object1("error", Json::Str(String::from_str("session required"))),
    }
}

/// The flow id in a redirect target that contains `flow=`.
pub fn flow_id_in_location(location: &str) -> (r: String)
    requires
        seq_contains(location@, "flow="@),
    ensures
        r@ == redirect_flow_id(location@),
{
    proof {
        crate::text::lemma_contains_find(location@, "flow="@);
        crate::text::lemma_find_first_some(location@, "flow="@);
        reveal_strlit("flow=");
        reveal_strlit("&");
    }
    let n = location.unicode_len();
    let start = find(location, "flow=").unwrap();
    assert(start + 5 <= n);
    let rest = location.substring_char(start + 5, n);
    assert(rest@ =~= location@.skip(start + 5));
    let segment = match find(rest, "flow=") {
        Some(end) => {
            proof {
                crate::text::lemma_find_first_some(rest@, "flow="@);
            }
            rest.substring_char(0, end)
        },
        None => rest,
    };
    assert(segment@ =~= before_first(rest@, "flow="@));
    let id = match find(segment, "&") {
        Some(end) => {
            proof {
                crate::text::lemma_find_first_some(segment@, "&"@);
            }
            segment.substring_char(0, end)
        },
        None => segment,
    };
    assert(id@ =~= before_first(segment@, "&"@));
    String::from_str(id)
}

/// The first request that opens a flow of kind `endpoint`, and the fetch that
/// reads its answer. The caller's cookie, if any, goes with the request.
pub fn fetch_flow(public_url: &str, endpoint: &str, cookie: Option<&str>) -> (r: (HttpGet, FlowFetch))
    ensures
        r.0@ == first_request(public_url@, endpoint@, cookie.deep_view()),
        r.1@ == (FlowFetchView {
            public_url: public_url@,
            endpoint: endpoint@,
            cookie: cookie.deep_view(),
            redirected: None,
        }),
{
    let own: Option<String> = match cookie {
        Some(c) => Some(String::from_str(c)),
        None => None,
    };
    let header: Option<String> = match cookie {
        Some(c) => Some(String::from_str(c)),
        None => None,
    };
    (
        HttpGet { url: browser_flow_url_for(public_url, endpoint), cookie: header },
        FlowFetch {
            public_url: String::from_str(public_url),
            endpoint: String::from_str(endpoint),
            cookie: own,
            redirected: None,
        },
    )
}

impl FlowFetch {
    /// What to do with the answer to the last request (or with the reason why none came).
    pub fn on_reply(self, reply: Result<HttpReply, String>) -> (r: FetchStep)
        ensures
            r@ == fetch_step(self@, reply_view(reply)),
    {
        let reply = match reply {
            Err(m) => {
                return FetchStep::Done(Err(network(m.as_str())));
            },
            Ok(reply) => reply,
        };
        let FlowFetch { public_url, endpoint, cookie, redirected } = self;
        match redirected {
            Some(all) => {
                if !(200 <= reply.status && reply.status < 300) {
                    FetchStep::Done(Err(error_answer(reply.status, reply.body)))
                } else {
                    FetchStep::Done(read_flow_from(reply.body, all))
                }
            },
            None => {
                if reply.status == STATUS_SEE_OTHER || reply.status == STATUS_FOUND {
                    let HttpReply { status, set_cookies, location, body } = reply;
                    match location {
                        None => FetchStep::Done(Err(network("No redirect location found"))),
                        Some(location) => {
                            if !contains(location.as_str(), "flow=") {
                                FetchStep::Done(Err(session_required()))
                            } else {
                                let id = flow_id_in_location(location.as_str());
                                let all = prepend_cookie(&cookie, set_cookies);
                                let url = flow_lookup_url_for(public_url.as_str(), endpoint.as_str(), id.as_str());
                                let header = join(&all, "; ");
                                FetchStep::Send(
                                    HttpGet { url, cookie: Some(header) },
                                    FlowFetch { public_url, endpoint, cookie, redirected: Some(all) },
                                )
                            }
                        },
                    }
                } else if !(200 <= reply.status && reply.status < 300) {
                    FetchStep::Done(Err(error_answer(reply.status, reply.body)))
                } else {
                    let HttpReply { status, set_cookies, location, body } = reply;
                    let all = prepend_cookie(&cookie, set_cookies);
                    FetchStep::Done(read_flow_from(body, all))
                }
            },
        }
    }
}

/// The request that submits `data` to an open flow, with the flow's cookies.
pub fn post_flow(public_url: &str, endpoint: &str, flow_id: &FlowId, data: Json, cookies: &Vec<String>) -> (r: HttpPost)
    ensures
        r@ == submit_request(public_url@, endpoint@, flow_id@, data@, cookies.deep_view()),
{
    HttpPost {
        url: submit_flow_url_for(public_url, endpoint, flow_id.as_str()),
        cookie: join(cookies, "; "),
        body: data,
    }
}

/// What the answer to a submitted flow yields.
pub fn post_flow_outcome(reply: Result<HttpReply, String>) -> (r: Result<PostFlowResult, KratosFlowError>)
    ensures
        post_outcome_view(r) == submit_outcome(reply_view(reply)),
{
    match reply {
        Err(m) => Err(network(m.as_str())),
        Ok(reply) => {
            let HttpReply { status, set_cookies, location, body } = reply;
            if !(200 <= status && status < 300) {
                Err(error_answer(status, body))
            } else {
                match body {
                    Err(m) => Err(network(m.as_str())),
                    Ok(data) => Ok(PostFlowResult { data, cookies: set_cookies }),
                }
            }
        },
    }
}

} // verus!
