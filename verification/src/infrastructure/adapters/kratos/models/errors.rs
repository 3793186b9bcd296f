//! The error that a Kratos self-service endpoint answers with.
use vstd::prelude::*;
use crate::json::{
    items_of, items_view, member, member_of, object1, opt_view, text_in, text_of, u64_in, u64_of, Json,
    JsonMember, JsonValue,
};
use crate::text::{decimal, decimal_string, text_eq};

verus! {

/// HTTP status codes that the flow logic tells apart.
pub const STATUS_OK: u16 = 200;
pub const STATUS_FOUND: u16 = 302;
pub const STATUS_SEE_OTHER: u16 = 303;
pub const STATUS_BAD_REQUEST: u16 = 400;
pub const STATUS_UNAUTHORIZED: u16 = 401;
pub const STATUS_GONE: u16 = 410;
pub const STATUS_UNPROCESSABLE_ENTITY: u16 = 422;
pub const STATUS_TOO_MANY_REQUESTS: u16 = 429;
pub const STATUS_SERVICE_UNAVAILABLE: u16 = 503;

/// A status of the 2xx class.
pub open spec fn is_success(status: u16) -> bool {
    200 <= status < 300
}

/// A redirect that Kratos uses to hand over a flow.
pub open spec fn is_flow_redirect(status: u16) -> bool {
    status == STATUS_SEE_OTHER || status == STATUS_FOUND
}

/// The first message that Kratos attached to a flow: one of the flow's own
/// messages, or else the first message of one of its form nodes.
pub open spec fn first_message(body: JsonValue) -> Option<JsonValue> {
    let ui = member(Some(body), "ui"@);
    match items_of(member(ui, "messages"@)) {
        Some(ms) => if ms.len() > 0 {
            Some(ms[0])
        } else {
            first_node_message(items_of(member(ui, "nodes"@)))
        },
        None => first_node_message(items_of(member(ui, "nodes"@))),
    }
}

/// The first message of the first form node that carries one.
pub open spec fn first_node_message(nodes: Option<Seq<JsonValue>>) -> Option<JsonValue> {
    match nodes {
        Some(ns) => first_message_among(ns),
        None => None,
    }
}

pub open spec fn first_message_among(nodes: Seq<JsonValue>) -> Option<JsonValue>
    decreases nodes.len(),
{
    if nodes.len() == 0 {
        None
    } else {
        match items_of(member(Some(nodes[0]), "messages"@)) {
            Some(ms) => if ms.len() > 0 {
                Some(ms[0])
            } else {
                first_message_among(nodes.drop_first())
            },
            None => first_message_among(nodes.drop_first()),
        }
    }
}

/// The numeric id of the first message (0 when there is none).
pub open spec fn message_id_of(body: JsonValue) -> u64 {
    match u64_of(member(first_message(body), "id"@)) {
        Some(n) => n,
        None => 0,
    }
}

/// The text of the first message, else the message of the error object, else a
/// fixed text.
pub open spec fn message_text_of(body: JsonValue) -> Seq<char> {
    match text_of(member(first_message(body), "text"@)) {
        Some(t) => t,
        None => match text_of(member(member(Some(body), "error"@), "message"@)) {
            Some(t) => t,
            None => "Unknown error"@,
        },
    }
}

/// Kratos asks the browser to go elsewhere instead of answering the flow.
pub open spec fn asks_browser_change(body: JsonValue) -> bool {
    text_of(member(member(Some(body), "error"@), "id"@)) == Some("browser_location_change_required"@)
}

/// How the error reads.
pub open spec fn flow_error_text(status: u16, body: JsonValue) -> Seq<char> {
    "Kratos flow error (HTTP "@ + decimal(status as nat) + "): "@ + message_text_of(body)
}

/// The body of an error that never reached Kratos.
pub open spec fn network_error_body(message: Seq<char>) -> JsonValue {
    JsonValue::Object(
        seq![
            JsonMember {
                key: "error"@,
                value: JsonValue::Object(
                    seq![JsonMember { key: "message"@, value: JsonValue::Str(message) }],
                ),
            },
        ],
    )
}

/// An error answer of a self-service endpoint: its status and its JSON body.
#[derive(Debug)]
pub struct KratosFlowError {
    pub status: u16,
    pub body: Json,
}

fn first_message_in(nodes: &Vec<Json>) -> (r: Option<&Json>)
    ensures
        opt_view(r) == first_message_among(items_view(nodes@)),
{
    let ghost all = items_view(nodes@);
    let mut i: usize = 0;
    assert(all.skip(0) =~= all);
    while i < nodes.len()
        invariant
            all == items_view(nodes@),
            i <= nodes@.len(),
            first_message_among(all) == first_message_among(all.skip(i as int)),
        decreases nodes@.len() - i,
    {
        assert(all.skip(i as int).drop_first() =~= all.skip(i + 1));
        assert(all.skip(i as int)[0] == nodes@[i as int]@);
        match nodes[i].get("messages") {
            Some(m) => match m.as_array() {
                Some(ms) => {
                    if ms.len() > 0 {
                        return Some(&ms[0]);
                    }
                },
                None => {},
            },
            None => {},
        }
        i = i + 1;
    }
    None
}

impl KratosFlowError {
    /// An error for a request that failed before Kratos answered it.
    pub fn network(message: &str) -> (r: KratosFlowError)
        ensures
            r.status == STATUS_SERVICE_UNAVAILABLE,
            r.body@ == network_error_body(message@),
    {
        let inner = object1("message", Json::Str(String::from_str(message)));
        KratosFlowError { status: STATUS_SERVICE_UNAVAILABLE, body: object1("error", inner) }
    }

    /// The first message that Kratos attached to the flow.
    pub fn first_message(&self) -> (r: Option<&Json>)
        ensures
            opt_view(r) == first_message(self.body@),
    {
        let ui = self.body.get("ui");
        match member_of(ui, "messages") {
            Some(m) => match m.as_array() {
                Some(ms) => {
                    if ms.len() > 0 {
                        return Some(&ms[0]);
                    }
                },
                None => {},
            },
            None => {},
        }
        match member_of(ui, "nodes") {
            Some(n) => match n.as_array() {
                Some(nodes) => first_message_in(nodes),
                None => None,
            },
            None => None,
        }
    }

    /// The numeric id of the first message, 0 when there is none.
    pub fn message_id(&self) -> (r: u64)
        ensures
            r == message_id_of(self.body@),
    {
        match u64_in(member_of(self.first_message(), "id")) {
            Some(n) => n,
            None => 0,
        }
    }

    /// The text of the first message, else of the error object.
    pub fn message_text(&self) -> (r: String)
        ensures
            r@ == message_text_of(self.body@),
    {
        match text_in(member_of(self.first_message(), "text")) {
            Some(t) => t,
            None => match text_in(member_of(self.body.get("error"), "message")) {
                Some(t) => t,
                None => String::from_str("Unknown error"),
            },
        }
    }

    /// Whether Kratos asks the browser to go elsewhere.
    pub fn is_browser_location_change_required(&self) -> (r: bool)
        ensures
            r == asks_browser_change(self.body@),
    {
        match text_in(member_of(self.body.get("error"), "id")) {
            Some(id) => {
                let r = text_eq(id.as_str(), "browser_location_change_required");
                r
            },
            None => false,
        }
    }

    /// How the error reads.
    pub fn describe(&self) -> (r: String)
        ensures
            r@ == flow_error_text(self.status, self.body@),
    {
        let mut s = String::from_str("Kratos flow error (HTTP ");
        let code = decimal_string(self.status as u64);
        s.append(code.as_str());
        s.append("): ");
        let text = self.message_text();
        s.append(text.as_str());
        s
    }
}

} // verus!
