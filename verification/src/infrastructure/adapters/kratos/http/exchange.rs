//! The HTTP exchanges that the flow logic asks for and is answered with.
use vstd::prelude::*;
use crate::json::{Json, JsonValue};

verus! {

/// A GET request: its URL and the value of its `Cookie` header, if it has one.
#[derive(Debug)]
pub struct HttpGet {
    pub url: String,
    pub cookie: Option<String>,
}

/// A POST request with a JSON body.
#[derive(Debug)]
pub struct HttpPost {
    pub url: String,
    pub cookie: String,
    pub body: Json,
}

/// An answer to a request: its status, the `Set-Cookie` headers that are text,
/// the `Location` header if it is text, and the body read as JSON (or why it
/// could not be read).
pub struct HttpReply {
    pub status: u16,
    pub set_cookies: Vec<String>,
    pub location: Option<String>,
    pub body: Result<Json, String>,
}

pub struct HttpGetView {
    pub url: Seq<char>,
    pub cookie: Option<Seq<char>>,
}

pub struct HttpPostView {
    pub url: Seq<char>,
    pub cookie: Seq<char>,
    pub body: JsonValue,
}

pub struct HttpReplyView {
    pub status: u16,
    pub set_cookies: Seq<Seq<char>>,
    pub location: Option<Seq<char>>,
    pub body: Result<JsonValue, Seq<char>>,
}

impl View for HttpGet {
    type V = HttpGetView;

    open spec fn view(&self) -> HttpGetView {
        HttpGetView { url: self.url@, cookie: self.cookie.deep_view() }
    }
}

impl View for HttpPost {
    type V = HttpPostView;

    open spec fn view(&self) -> HttpPostView {
        HttpPostView { url: self.url@, cookie: self.cookie@, body: self.body@ }
    }
}

impl View for HttpReply {
    type V = HttpReplyView;

    open spec fn view(&self) -> HttpReplyView {
        HttpReplyView {
            status: self.status,
            set_cookies: self.set_cookies.deep_view(),
            location: self.location.deep_view(),
            body: match self.body {
                Ok(j) => Ok(j@),
                Err(m) => Err(m@),
            },
        }
    }
}

/// The value of an answer, or of the reason why none came.
pub open spec fn reply_view(r: Result<HttpReply, String>) -> Result<HttpReplyView, Seq<char>> {
    match r {
        Ok(reply) => Ok(reply@),
        Err(m) => Err(m@),
    }
}

} // verus!
