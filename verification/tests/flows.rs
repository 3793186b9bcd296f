use rust_kratos::domain::value_objects::flow_id::FlowId;
use rust_kratos::infrastructure::adapters::kratos::http::exchange::HttpReply;
use rust_kratos::infrastructure::adapters::kratos::http::flows::{
    browser_flow_url_for, extract_csrf_token, extract_flow_id, fetch_flow, flow_id_in_location,
    flow_lookup_url_for, post_flow, post_flow_outcome, prepend_cookie, submit_flow_url_for,
    to_loopback, FetchStep,
};
use rust_kratos::json::{object1, Json};

fn s(x: &str) -> String {
    x.to_string()
}

fn obj(members: Vec<(&str, Json)>) -> Json {
    Json::Object(members.into_iter().map(|(k, v)| (s(k), v)).collect())
}

fn flow_doc(id: &str, token: &str) -> Json {
    let csrf = obj(vec![(
        "attributes",
        obj(vec![("name", Json::Str(s("csrf_token"))), ("value", Json::Str(s(token)))]),
    )]);
    let other = obj(vec![(
        "attributes",
        obj(vec![("name", Json::Str(s("identifier"))), ("value", Json::Str(s("")))]),
    )]);
    obj(vec![
        ("id", Json::Str(s(id))),
        ("ui", obj(vec![("nodes", Json::Array(vec![other, csrf]))])),
    ])
}

fn reply(status: u16, cookies: Vec<&str>, location: Option<&str>, body: Result<Json, String>) -> HttpReply {
    HttpReply {
        status,
        set_cookies: cookies.into_iter().map(s).collect(),
        location: location.map(s),
        body,
    }
}

fn error_message_body(message: &str) -> Json {
    object1("error", object1("message", Json::Str(s(message))))
}

#[test]
fn urls_use_the_loopback_address() {
    assert_eq!(to_loopback("http://localhost:4433"), "http://127.0.0.1:4433");
    assert_eq!(to_loopback("http://kratos:4433"), "http://kratos:4433");
    assert_eq!(
        browser_flow_url_for("http://localhost:4433", "login"),
        "http://127.0.0.1:4433/self-service/login/browser"
    );
    assert_eq!(
        submit_flow_url_for("http://localhost:4433", "registration", "f1"),
        "http://127.0.0.1:4433/self-service/registration?flow=f1"
    );
    assert_eq!(
        flow_lookup_url_for("http://localhost:4433", "login", "abc"),
        "http://127.0.0.1:4433/self-service/login/flows?id=abc"
    );
}

#[test]
fn caller_cookie_goes_first() {
    assert_eq!(prepend_cookie(&Some(s("c=1")), vec![s("a=2"), s("b=3")]), vec![s("c=1"), s("a=2"), s("b=3")]);
    assert_eq!(prepend_cookie(&None, vec![s("a=2")]), vec![s("a=2")]);
}

#[test]
fn csrf_token_and_flow_id_are_read_from_the_flow() {
    let flow = flow_doc("f1", "tok");
    assert_eq!(extract_csrf_token(&flow), Ok(s("tok")));
    assert_eq!(extract_flow_id(&flow).unwrap().as_str(), "f1");
    let bare = obj(vec![("ui", obj(vec![("nodes", Json::Array(vec![]))]))]);
    assert_eq!(extract_csrf_token(&bare), Err(s("CSRF token not found in flow response")));
    assert_eq!(extract_flow_id(&bare).err(), Some(s("Flow ID not found in response")));
}

#[test]
fn flow_id_is_read_from_a_redirect_target() {
    assert_eq!(flow_id_in_location("http://localhost:4455/login?flow=abc&return_to=x"), "abc");
    assert_eq!(flow_id_in_location("/login?flow=abc"), "abc");
    assert_eq!(flow_id_in_location("/x?flow=a&flow=b"), "a");
}

#[test]
fn a_flow_answered_directly_keeps_the_callers_cookie_first() {
    let (get, fetch) = fetch_flow("http://localhost:4433", "login", Some("c=1"));
    assert_eq!(get.url, "http://127.0.0.1:4433/self-service/login/browser");
    assert_eq!(get.cookie, Some(s("c=1")));
    match fetch.on_reply(Ok(reply(200, vec!["k=v"], None, Ok(flow_doc("f1", "tok"))))) {
        FetchStep::Done(Ok(flow)) => {
            assert_eq!(flow.flow_id.as_str(), "f1");
            assert_eq!(flow.csrf_token, "tok");
            assert_eq!(flow.cookies, vec![s("c=1"), s("k=v")]);
        },
        _ => panic!("the flow was not opened"),
    }
}

#[test]
fn a_redirect_is_followed_once_with_all_cookies() {
    let (get, fetch) = fetch_flow("http://localhost:4433", "login", Some("c=1"));
    assert_eq!(get.cookie, Some(s("c=1")));
    let first = reply(303, vec!["k=v"], Some("http://localhost:4455/login?flow=abc&x=1"), Err(s("not JSON")));
    let (lookup, next) = match fetch.on_reply(Ok(first)) {
        FetchStep::Send(g, n) => (g, n),
        _ => panic!("the redirect was not followed"),
    };
    assert_eq!(lookup.url, "http://127.0.0.1:4433/self-service/login/flows?id=abc");
    assert_eq!(lookup.cookie, Some(s("c=1; k=v")));
    match next.on_reply(Ok(reply(200, vec!["z=9"], None, Ok(flow_doc("abc", "tok2"))))) {
        FetchStep::Done(Ok(flow)) => {
            assert_eq!(flow.flow_id.as_str(), "abc");
            assert_eq!(flow.csrf_token, "tok2");
            assert_eq!(flow.cookies, vec![s("c=1"), s("k=v")]);
        },
        _ => panic!("the flow was not opened"),
    }
}

#[test]
fn a_second_redirect_ends_the_fetch() {
    let (_, fetch) = fetch_flow("http://kratos", "login", None);
    let next = match fetch.on_reply(Ok(reply(302, vec![], Some("/login?flow=abc"), Err(s("")))) ) {
        FetchStep::Send(g, n) => {
            assert_eq!(g.cookie, Some(s("")));
            n
        },
        _ => panic!("the redirect was not followed"),
    };
    match next.on_reply(Ok(reply(303, vec![], Some("/login?flow=other"), Ok(obj(vec![]))))) {
        FetchStep::Done(Err(e)) => {
            assert_eq!(e.status, 303);
            assert_eq!(e.body, obj(vec![]));
        },
        _ => panic!("a second redirect was followed"),
    }
}

#[test]
fn a_redirect_without_a_flow_asks_for_a_session() {
    let (_, fetch) = fetch_flow("http://kratos", "settings", None);
    match fetch.on_reply(Ok(reply(303, vec![], Some("http://app/login"), Err(s(""))))) {
        FetchStep::Done(Err(e)) => {
            assert_eq!(e.status, 401);
            assert_eq!(e.body, object1("error", Json::Str(s("session required"))));
        },
        _ => panic!("expected a session-required error"),
    }
}

#[test]
fn a_redirect_without_a_location_is_a_network_error() {
    let (_, fetch) = fetch_flow("http://kratos", "login", None);
    match fetch.on_reply(Ok(reply(302, vec![], None, Err(s(""))))) {
        FetchStep::Done(Err(e)) => {
            assert_eq!(e.status, 503);
            assert_eq!(e.body, error_message_body("No redirect location found"));
        },
        _ => panic!("expected a network error"),
    }
}

#[test]
fn error_answers_keep_their_status_and_body() {
    let (_, fetch) = fetch_flow("http://kratos", "login", None);
    let body = obj(vec![("error", obj(vec![("id", Json::Str(s("x")))]))]);
    match fetch.on_reply(Ok(reply(400, vec![], None, Ok(body)))) {
        FetchStep::Done(Err(e)) => {
            assert_eq!(e.status, 400);
            assert_eq!(e.body, obj(vec![("error", obj(vec![("id", Json::Str(s("x")))]))]));
        },
        _ => panic!("expected the error answer"),
    }
    let (_, fetch) = fetch_flow("http://kratos", "login", None);
    match fetch.on_reply(Ok(reply(500, vec![], None, Err(s("not JSON"))))) {
        FetchStep::Done(Err(e)) => {
            assert_eq!(e.status, 500);
            assert_eq!(e.body, obj(vec![]));
        },
        _ => panic!("expected the error answer"),
    }
}

#[test]
fn failures_before_an_answer_are_network_errors() {
    let (_, fetch) = fetch_flow("http://kratos", "login", None);
    match fetch.on_reply(Err(s("connection refused"))) {
        FetchStep::Done(Err(e)) => {
            assert_eq!(e.status, 503);
            assert_eq!(e.body, error_message_body("connection refused"));
        },
        _ => panic!("expected a network error"),
    }
    let (_, fetch) = fetch_flow("http://kratos", "login", None);
    match fetch.on_reply(Ok(reply(200, vec![], None, Ok(obj(vec![("id", Json::Str(s("f")))]))))) {
        FetchStep::Done(Err(e)) => {
            assert_eq!(e.body, error_message_body("CSRF token not found in flow response"));
        },
        _ => panic!("expected a missing-token error"),
    }
}

#[test]
fn a_flow_is_submitted_with_its_cookies() {
    let post = post_flow(
        "http://localhost:4433",
        "login",
        &FlowId::new("f1"),
        object1("method", Json::Str(s("password"))),
        &vec![s("a=1"), s("b=2")],
    );
    assert_eq!(post.url, "http://127.0.0.1:4433/self-service/login?flow=f1");
    assert_eq!(post.cookie, "a=1; b=2");
    assert_eq!(post.body, object1("method", Json::Str(s("password"))));
}

#[test]
fn the_answer_to_a_submission() {
    let ok = post_flow_outcome(Ok(reply(200, vec!["ory_kratos_session=s"], None, Ok(object1("x", Json::Null)))))
        .unwrap();
    assert_eq!(ok.data, object1("x", Json::Null));
    assert_eq!(ok.cookies, vec![s("ory_kratos_session=s")]);
    let err = post_flow_outcome(Ok(reply(422, vec![], None, Ok(obj(vec![]))))).unwrap_err();
    assert_eq!(err.status, 422);
    let redirect = post_flow_outcome(Ok(reply(303, vec![], Some("/x"), Err(s(""))))).unwrap_err();
    assert_eq!(redirect.status, 303);
    assert_eq!(redirect.body, obj(vec![]));
    let unreadable = post_flow_outcome(Ok(reply(200, vec![], None, Err(s("bad JSON"))))).unwrap_err();
    assert_eq!(unreadable.status, 503);
    assert_eq!(unreadable.body, error_message_body("bad JSON"));
}
