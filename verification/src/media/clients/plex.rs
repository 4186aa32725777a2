//! Plex: the library, its watch history, and what is playing right now.
//!
//! The historical reads share the services' common errors. The live reads have an error type of
//! their own: "no answer", "the credential was refused" and "an answer that cannot be read" are
//! different facts, and none of them is the fact that nobody is watching.
use vstd::prelude::*;

use crate::http::{
    bare_request, body_view, Failure, HttpReply, HttpRequest, Method, ReplyView, RequestView,
};
use crate::json::{parse, parsed, read_view, Json, JsonView};
use crate::media::clients::{map_reply, read_settings, reply_content, settings_pair, Service};
use crate::text::{
    cat2, cat3, dec, fmt_nat, opt_str, owned, strip_trailing, trim, trimmed, without_trailing,
};
use crate::tool::{answer, ToolError};

verus! {

/// Why a live session read did not produce a session list.
#[derive(Debug, Clone, PartialEq, Eq)]
pub enum PlexSessionsError {
    /// No usable answer: the transport failed, or the server could not serve.
    Unreachable(String),
    /// Plex answered and rejected the credential.
    TokenRejected(String),
    /// Plex answered with something that cannot be read.
    Malformed(String),
}

/// The content of a [`PlexSessionsError`].
pub enum LiveErrorView {
    Unreachable(Seq<char>),
    TokenRejected(Seq<char>),
    Malformed(Seq<char>),
}

impl View for PlexSessionsError {
    type V = LiveErrorView;

    open spec fn view(&self) -> LiveErrorView {
        match *self {
            PlexSessionsError::Unreachable(d) => LiveErrorView::Unreachable(d@),
            PlexSessionsError::TokenRejected(d) => LiveErrorView::TokenRejected(d@),
            PlexSessionsError::Malformed(d) => LiveErrorView::Malformed(d@),
        }
    }
}

impl LiveErrorView {
    /// The machine-readable discriminant.
    pub open spec fn kind(self) -> Seq<char> {
        match self {
            LiveErrorView::Unreachable(_) => "unreachable"@,
            LiveErrorView::TokenRejected(_) => "unauthorized"@,
            LiveErrorView::Malformed(_) => "malformed"@,
        }
    }

    /// The human-readable detail.
    pub open spec fn detail(self) -> Seq<char> {
        match self {
            LiveErrorView::Unreachable(d) => d,
            LiveErrorView::TokenRejected(d) => d,
            LiveErrorView::Malformed(d) => d,
        }
    }
}

impl PlexSessionsError {
    /// The machine-readable discriminant.
    pub fn kind(&self) -> (r: &'static str)
        ensures
            r@ == self@.kind(),
    {
        match self {
            PlexSessionsError::Unreachable(_) => "unreachable",
            PlexSessionsError::TokenRejected(_) => "unauthorized",
            PlexSessionsError::Malformed(_) => "malformed",
        }
    }

    /// The human-readable detail.
    pub fn detail(&self) -> (r: &str)
        ensures
            r@ == self@.detail(),
    {
        match self {
            PlexSessionsError::Unreachable(d) => d.as_str(),
            PlexSessionsError::TokenRejected(d) => d.as_str(),
            PlexSessionsError::Malformed(d) => d.as_str(),
        }
    }

    /// The discriminant and the detail, as one line.
    pub fn describe(&self) -> (r: String)
        ensures
            r@ == self@.kind() + ": "@ + self@.detail(),
    {
        cat3(self.kind(), ": ", self.detail())
    }
}

/// The discriminant tells the three outcomes apart.
pub proof fn live_error_kinds_are_distinct(a: LiveErrorView, b: LiveErrorView)
    ensures
        a.kind() == b.kind() <==> ((a is Unreachable <==> b is Unreachable) && (a is TokenRejected
            <==> b is TokenRejected) && (a is Malformed <==> b is Malformed)),
{
    reveal_strlit("unreachable");
    reveal_strlit("unauthorized");
    reveal_strlit("malformed");
    assert("unreachable"@[2] == 'r');
    assert("unauthorized"@[2] == 'a');
    assert("malformed"@[2] == 'l');
}

/// The content of a live read.
pub open spec fn live(r: Result<Json, PlexSessionsError>) -> Result<JsonView, LiveErrorView> {
    match r {
        Ok(v) => Ok(v@),
        Err(e) => Err(e@),
    }
}

/// A description of a transport failure that leaves the transport's own words, and with them the
/// server's address, out.
pub open spec fn transport_detail_view(timeout: bool, connect: bool, request: bool) -> Seq<char> {
    if timeout {
        "timed out waiting for Plex"@
    } else if connect {
        "could not connect to Plex"@
    } else if request {
        "the request to Plex could not be sent"@
    } else {
        "no response from Plex"@
    }
}

/// Describes a transport failure as [`transport_detail_view`] says.
pub fn transport_detail(failure: &Failure) -> (r: &'static str)
    ensures
        r@ == transport_detail_view(failure.timeout, failure.connect, failure.request),
{
    if failure.timeout {
        "timed out waiting for Plex"
    } else if failure.connect {
        "could not connect to Plex"
    } else if failure.request {
        "the request to Plex could not be sent"
    } else {
        "no response from Plex"
    }
}

/// What the body of a live read that was parsed stands for.
pub open spec fn live_content(read: Result<JsonView, Seq<char>>) -> Result<JsonView, LiveErrorView> {
    match read {
        Ok(v) => Ok(v),
        Err(e) => Err(LiveErrorView::Malformed("Plex did not return JSON: "@ + e)),
    }
}

/// Takes the body of a live read that was parsed as [`live_content`] says.
pub fn take_live(read: Result<Json, String>) -> (r: Result<Json, PlexSessionsError>)
    ensures
        live(r) == live_content(read_view(read)),
{
    match read {
        Ok(v) => Ok(v),
        Err(e) => Err(
            PlexSessionsError::Malformed(cat2("Plex did not return JSON: ", e.as_str())),
        ),
    }
}

/// What a response to a live read stands for. The status decides first, and only a success has its
/// body read.
pub open spec fn live_response_content(
    status: u16,
    body: Result<Seq<char>, Seq<char>>,
) -> Result<JsonView, LiveErrorView> {
    if status == 401 || status == 403 {
        Err(
            LiveErrorView::TokenRejected(
                "Plex rejected the configured token (HTTP "@ + dec(status as int) + ")"@,
            ),
        )
    } else if 500 <= status <= 599 {
        Err(
            LiveErrorView::Unreachable(
                "Plex could not serve the request (HTTP "@ + dec(status as int) + ")"@,
            ),
        )
    } else if !(200 <= status <= 299) {
        Err(
            LiveErrorView::Malformed(
                "unexpected response from Plex (HTTP "@ + dec(status as int) + ")"@,
            ),
        )
    } else {
        match body {
            Err(_) => Err(LiveErrorView::Unreachable("the response from Plex was cut short"@)),
            Ok(text) => if trimmed(text).len() == 0 {
                Err(LiveErrorView::Malformed("Plex returned an empty body"@))
            } else {
                live_content(parsed(text))
            },
        }
    }
}

/// Reads a response to a live read as [`live_response_content`] says.
pub fn map_live_response(status: u16, body: &Result<String, String>) -> (r: Result<
    Json,
    PlexSessionsError,
>)
    ensures
        live(r) == live_response_content(status, body_view(*body)),
{
    let code = fmt_nat(status as u128);
    if status == 401 || status == 403 {
        return Err(
            PlexSessionsError::TokenRejected(
                cat3("Plex rejected the configured token (HTTP ", code.as_str(), ")"),
            ),
        );
    }
    if 500 <= status && status <= 599 {
        return Err(
            PlexSessionsError::Unreachable(
                cat3("Plex could not serve the request (HTTP ", code.as_str(), ")"),
            ),
        );
    }
    if !(200 <= status && status <= 299) {
        return Err(
            PlexSessionsError::Malformed(
                cat3("unexpected response from Plex (HTTP ", code.as_str(), ")"),
            ),
        );
    }
    match body {
        Err(_) => Err(PlexSessionsError::Unreachable(owned("the response from Plex was cut short"))),
        Ok(text) => {
            if trim(text.as_str()).is_empty() {
                return Err(PlexSessionsError::Malformed(owned("Plex returned an empty body")));
            }
            take_live(parse(text.as_str()))
        },
    }
}

/// What a reply to a live read stands for.
pub open spec fn live_reply_content(reply: ReplyView) -> Result<JsonView, LiveErrorView> {
    match reply {
        ReplyView::Failed { text: _, timeout, connect, request } => Err(
            LiveErrorView::Unreachable(transport_detail_view(timeout, connect, request)),
        ),
        ReplyView::Answered { status, body } => live_response_content(status, body),
    }
}

/// Reads a reply to a live read as [`live_reply_content`] says.
pub fn map_live_reply(reply: &HttpReply) -> (r: Result<Json, PlexSessionsError>)
    ensures
        live(r) == live_reply_content(reply@),
{
    match reply {
        HttpReply::Failed(f) => Err(PlexSessionsError::Unreachable(owned(transport_detail(f)))),
        HttpReply::Answered { status, body } => map_live_response(*status, body),
    }
}

/// What a refused live read says does not depend on the transport's own words.
pub proof fn transport_words_never_surface(
    a: Seq<char>,
    b: Seq<char>,
    timeout: bool,
    connect: bool,
    request: bool,
)
    ensures
        live_reply_content(ReplyView::Failed { text: a, timeout, connect, request })
            == live_reply_content(ReplyView::Failed { text: b, timeout, connect, request }),
{
}

/// Where Plex is and the token it takes.
#[derive(Debug, PartialEq, Eq)]
pub struct PlexClient {
    base_url: String,
    token: String,
}

impl PlexClient {
    /// The base URL, without trailing slashes.
    pub closed spec fn base(&self) -> Seq<char> {
        self.base_url@
    }

    /// The token.
    pub closed spec fn secret(&self) -> Seq<char> {
        self.token@
    }

    /// A client out of the values of `PLEX_URL` and `PLEX_TOKEN`.
    pub fn from_env(plex_url: Option<&str>, plex_token: Option<&str>) -> (r: Result<
        PlexClient,
        ToolError,
    >)
        ensures
            match settings_pair(
                "PLEX_URL"@,
                opt_str(plex_url),
                "PLEX_TOKEN"@,
                opt_str(plex_token),
            ) {
                Ok(p) => r matches Ok(c) && c.base() == p.0 && c.secret() == p.1,
                Err(e) => r matches Err(f) && f@ == e,
            },
    {
        match read_settings("PLEX_URL", plex_url, "PLEX_TOKEN", plex_token) {
            Ok(p) => Ok(PlexClient { base_url: p.0, token: p.1 }),
            Err(e) => Err(e),
        }
    }

    /// A client out of its parts; trailing slashes of the base URL are dropped.
    pub fn new(base_url: &str, token: &str) -> (r: PlexClient)
        ensures
            r.base() == without_trailing(base_url@, '/'),
            r.secret() == token@,
    {
        PlexClient { base_url: owned(strip_trailing(base_url, '/')), token: owned(token) }
    }

    /// A read of `path` that asks for JSON and carries the token.
    pub open spec fn read_view(&self, path: Seq<char>) -> RequestView {
        bare_request(Method::Get, self.base() + path).header(
            "X-Plex-Token"@,
            self.secret(),
        ).header("Accept"@, "application/json"@)
    }

    fn read(&self, path: &str) -> (r: HttpRequest)
        ensures
            r@ == self.read_view(path@),
    {
        HttpRequest::new(Method::Get, cat2(self.base_url.as_str(), path)).header(
            "X-Plex-Token",
            self.token.as_str(),
        ).header("Accept", "application/json")
    }

    /// The configured library sections.
    pub fn library_sections(&self) -> (r: HttpRequest)
        ensures
            r@ == self.read_view("/library/sections"@),
    {
        self.read("/library/sections")
    }

    /// The recent watch history.
    pub fn history(&self) -> (r: HttpRequest)
        ensures
            r@ == self.read_view("/status/sessions/history/all"@),
    {
        self.read("/status/sessions/history/all")
    }

    /// What to continue watching.
    pub fn on_deck(&self) -> (r: HttpRequest)
        ensures
            r@ == self.read_view("/library/onDeck"@),
    {
        self.read("/library/onDeck")
    }

    /// What was added recently.
    pub fn recently_added(&self) -> (r: HttpRequest)
        ensures
            r@ == self.read_view("/library/recentlyAdded"@),
    {
        self.read("/library/recentlyAdded")
    }

    /// What is playing right now.
    pub fn sessions(&self) -> (r: HttpRequest)
        ensures
            r@ == self.read_view("/status/sessions"@),
    {
        self.read("/status/sessions")
    }

    /// The server's version and machine identifier.
    pub fn identity(&self) -> (r: HttpRequest)
        ensures
            r@ == self.read_view("/identity"@),
    {
        self.read("/identity")
    }

    /// Reads the reply to one of the historical reads.
    pub fn reply(reply: &HttpReply) -> (r: Result<Json, ToolError>)
        ensures
            answer(r) == reply_content(Service::Plex, reply@),
    {
        map_reply(Service::Plex, reply)
    }
}

} // verus!
