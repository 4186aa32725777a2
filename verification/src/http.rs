//! HTTP exchanges as data: what to send, and what came back.
use vstd::prelude::*;

use crate::json::{opt_json_owned, render, rendered, Json, JsonView};
use crate::text::{dec, opt_text, owned};

verus! {

/// A request method.
#[derive(Debug, Clone, Copy, PartialEq, Eq, Structural)]
pub enum Method {
    Get,
    Post,
    Put,
    Delete,
}

/// A request to send.
#[derive(Debug, PartialEq, Eq)]
pub struct HttpRequest {
    pub method: Method,
    pub url: String,
    pub headers: Vec<(String, String)>,
    pub query: Vec<(String, String)>,
    pub body: Option<Json>,
}

/// The content of an [`HttpRequest`].
pub struct RequestView {
    pub method: Method,
    pub url: Seq<char>,
    pub headers: Seq<(Seq<char>, Seq<char>)>,
    pub query: Seq<(Seq<char>, Seq<char>)>,
    pub body: Option<JsonView>,
}

/// The content of a list of name and value pairs.
pub open spec fn pairs(v: Seq<(String, String)>) -> Seq<(Seq<char>, Seq<char>)> {
    v.map_values(|p: (String, String)| (p.0@, p.1@))
}

impl View for HttpRequest {
    type V = RequestView;

    open spec fn view(&self) -> RequestView {
        RequestView {
            method: self.method,
            url: self.url@,
            headers: pairs(self.headers@),
            query: pairs(self.query@),
            body: opt_json_owned(self.body),
        }
    }
}

/// A request without headers, query or body.
pub open spec fn bare_request(method: Method, url: Seq<char>) -> RequestView {
    RequestView { method, url, headers: Seq::empty(), query: Seq::empty(), body: None }
}

impl RequestView {
    /// The request with one more header.
    pub open spec fn header(self, name: Seq<char>, value: Seq<char>) -> RequestView {
        RequestView { headers: self.headers.push((name, value)), ..self }
    }

    /// The request with one more query parameter.
    pub open spec fn param(self, name: Seq<char>, value: Seq<char>) -> RequestView {
        RequestView { query: self.query.push((name, value)), ..self }
    }

    /// The request with a JSON body.
    pub open spec fn json(self, body: JsonView) -> RequestView {
        RequestView { body: Some(body), ..self }
    }
}

impl HttpRequest {
    /// A request without headers, query or body.
    pub fn new(method: Method, url: String) -> (r: HttpRequest)
        ensures
            r@ == bare_request(method, url@),
    {
        let r = HttpRequest { method, url, headers: Vec::new(), query: Vec::new(), body: None };
        assert(pairs(r.headers@) =~= Seq::empty());
        assert(pairs(r.query@) =~= Seq::empty());
        r
    }

    /// The request with one more header.
    pub fn header(self, name: &str, value: &str) -> (r: HttpRequest)
        ensures
            r@ == self@.header(name@, value@),
    {
        let ghost before = self@;
        let mut r = self;
        r.headers.push((owned(name), owned(value)));
        assert(pairs(r.headers@) =~= before.headers.push((name@, value@)));
        r
    }

    /// The request with one more query parameter.
    pub fn param(self, name: &str, value: &str) -> (r: HttpRequest)
        ensures
            r@ == self@.param(name@, value@),
    {
        let ghost before = self@;
        let mut r = self;
        r.query.push((owned(name), owned(value)));
        assert(pairs(r.query@) =~= before.query.push((name@, value@)));
        r
    }

    /// The request with a JSON body.
    pub fn json(self, body: Json) -> (r: HttpRequest)
        ensures
            r@ == self@.json(body@),
    {
        let mut r = self;
        r.body = Some(body);
        r
    }
}

/// The content of an optional request.
pub open spec fn opt_request(r: Option<HttpRequest>) -> Option<RequestView> {
    match r {
        Some(x) => Some(x@),
        None => None,
    }
}

/// What came back for a request.
#[derive(Debug, PartialEq, Eq)]
pub enum HttpReply {
    /// No response arrived.
    Failed(Failure),
    /// A response arrived; its body was read as text, or reading it failed with a message.
    Answered { status: u16, body: Result<String, String> },
}

/// Why no response arrived: the transport's own description, and what kind of failure it was.
#[derive(Debug, PartialEq, Eq)]
pub struct Failure {
    pub text: String,
    pub timeout: bool,
    pub connect: bool,
    pub request: bool,
}

/// The content of an [`HttpReply`].
pub enum ReplyView {
    Failed { text: Seq<char>, timeout: bool, connect: bool, request: bool },
    Answered { status: u16, body: Result<Seq<char>, Seq<char>> },
}

/// The content of a response body.
pub open spec fn body_view(body: Result<String, String>) -> Result<Seq<char>, Seq<char>> {
    match body {
        Ok(s) => Ok(s@),
        Err(e) => Err(e@),
    }
}

impl View for HttpReply {
    type V = ReplyView;

    open spec fn view(&self) -> ReplyView {
        match *self {
            HttpReply::Failed(f) => ReplyView::Failed {
                text: f.text@,
                timeout: f.timeout,
                connect: f.connect,
                request: f.request,
            },
            HttpReply::Answered { status, body } => ReplyView::Answered {
                status,
                body: body_view(body),
            },
        }
    }
}

/// The content of an optional reply.
pub open spec fn opt_reply(r: Option<HttpReply>) -> Option<ReplyView> {
    match r {
        Some(x) => Some(x@),
        None => None,
    }
}

/// The content of some replies, in the order in which they came.
pub open spec fn replies_view(v: Seq<HttpReply>) -> Seq<ReplyView> {
    v.map_values(|r: HttpReply| r@)
}

/// The standard reason phrase of a status code, with a stand-in where there is none.
pub uninterp spec fn reason_phrase(code: u16) -> Seq<char>;

/// A status code with its reason phrase, and nothing for a number that is no status code.
pub open spec fn status_line(code: u16) -> Seq<char> {
    if 100 <= code <= 999 {
        dec(code as int) + " "@ + reason_phrase(code)
    } else {
        ""@
    }
}

/// Calls `reqwest::StatusCode::from_u16`, which takes the numbers from 100 to 999, and writes the
/// code out: its three digits, a space and its reason phrase. The contract takes the phrase by name:
/// it depends on the code alone.
#[verifier::external_body]
pub(crate) fn status_text(code: u16) -> (r: String)
    ensures
        r@ == (if 100 <= code <= 999 {
            dec(code as int) + " "@ + reason_phrase(code)
        } else {
            ""@
        }),
{
    reqwest::StatusCode::from_u16(code).map(|status| status.to_string()).unwrap_or_default()
}

/// A response to send.
#[derive(Debug, PartialEq, Eq)]
pub struct HttpResponse {
    pub status: u16,
    pub content_type: Option<&'static str>,
    pub www_authenticate: Option<String>,
    pub session_id: Option<String>,
    pub body: String,
}

/// The content of an [`HttpResponse`].
pub struct ResponseView {
    pub status: u16,
    pub content_type: Option<Seq<char>>,
    pub www_authenticate: Option<Seq<char>>,
    pub session_id: Option<Seq<char>>,
    pub body: Seq<char>,
}

impl View for HttpResponse {
    type V = ResponseView;

    open spec fn view(&self) -> ResponseView {
        ResponseView {
            status: self.status,
            content_type: match self.content_type {
                Some(t) => Some(t@),
                None => None,
            },
            www_authenticate: opt_text(self.www_authenticate),
            session_id: opt_text(self.session_id),
            body: self.body@,
        }
    }
}

/// A response with a JSON body and nothing else.
pub open spec fn json_response(status: u16, body: JsonView) -> ResponseView {
    ResponseView {
        status,
        content_type: Some("application/json"@),
        www_authenticate: None,
        session_id: None,
        body: rendered(body),
    }
}

impl HttpResponse {
    /// A response with a JSON body and nothing else.
    pub fn json(status: u16, body: &Json) -> (r: HttpResponse)
        ensures
            r@ == json_response(status, body@),
    {
        HttpResponse {
            status,
            content_type: Some("application/json"),
            www_authenticate: None,
            session_id: None,
            body: render(body),
        }
    }
}

/// Whether a text can stand in a header: no control characters but the tab.
pub open spec fn is_header_text(s: Seq<char>) -> bool {
    forall|i: int|
        0 <= i < s.len() ==> ((#[trigger] s[i]) as u32 >= 32 && s[i] as u32 != 127) || s[i] as u32
            == 9
}

/// Calls `axum::http::HeaderValue::from_str`, which takes a text whose UTF-8 bytes are each a tab,
/// or at least 32 and not 127. The bytes of a character beyond ASCII are all above 127, so the
/// contract claims the same of its characters.
#[verifier::external_body]
pub(crate) fn is_header_value(s: &str) -> (r: bool)
    ensures
        r == is_header_text(s@),
{
    axum::http::HeaderValue::from_str(s).is_ok()
}

} // verus!
