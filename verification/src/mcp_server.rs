//! The server's decisions: who is asking, what is asked, and what is answered.
//!
//! A request to the tool endpoint is read into a [`McpStep`]. What takes a network, a clock or
//! another process (asking the gateway, waiting for an approval, calling a tool) is left to the
//! caller, who comes back with its outcome; which of these is asked, in which order, with what, and
//! what an outcome amounts to, is decided here.
use vstd::prelude::*;

use crate::http::{
    is_header_text, is_header_value, json_response, status_line, status_text, HttpResponse,
    ResponseView,
};
use crate::json::{
    copy_items, jsons, no_fields, opt_json_owned, parse_bytes, parsed_bytes, read_view, render,
    rendered, Fields, Json, JsonView,
};
use crate::mesh::{
    opt_key, opt_principal, opt_principal_ref, person_key, service_key, AssertedPerson,
    AssertedView, CallerKey, ClientIdentity, KeyView, Principal, PrincipalSource, PrincipalView,
    TailnetIdentity,
};
use crate::registry::{distinct_names, offers, InfoView, ToolInfo, ToolRegistry};
use crate::text::{
    after_prefix, cat2, cat3, cat4, cat5, lossy, lossy_text, opt_str, opt_text, owned, owned_opt,
    same, strip_prefix,
};
use crate::tool::{CallerContext, ToolError, ToolOutput};

verus! {

// ── who is asking ───────────────────────────────────────────────────────────

/// What an operator's map of transport identities says about a request.
#[derive(Debug, PartialEq, Eq)]
pub enum IdentityMap {
    /// There is no map.
    Unconfigured,
    /// There is one, and this is the principal it gives.
    Configured(Option<Principal>),
}

/// The content of an [`IdentityMap`].
pub enum MapView {
    Unconfigured,
    Configured(Option<PrincipalView>),
}

impl View for IdentityMap {
    type V = MapView;

    open spec fn view(&self) -> MapView {
        match *self {
            IdentityMap::Unconfigured => MapView::Unconfigured,
            IdentityMap::Configured(p) => MapView::Configured(opt_principal(p)),
        }
    }
}

/// The content of an optional certificate.
pub open spec fn cert_name(cert: Option<&ClientIdentity>) -> Option<Seq<char>> {
    match cert {
        Some(c) => Some(c.0@),
        None => None,
    }
}

/// The principal of a request: what the map gives where there is one, and nothing else; otherwise
/// the name in the certificate.
pub open spec fn principal_of(map: MapView, cert: Option<Seq<char>>) -> Option<PrincipalView> {
    match map {
        MapView::Configured(p) => p,
        MapView::Unconfigured => match cert {
            Some(name) => Some(PrincipalView { name, source: PrincipalSource::MtlsCert }),
            None => None,
        },
    }
}

/// Finds the principal of a request as [`principal_of`] says.
pub fn resolve_principal(resolver: IdentityMap, cert: Option<&ClientIdentity>) -> (r: Option<
    Principal,
>)
    ensures
        opt_principal(r) == principal_of(resolver@, cert_name(cert)),
{
    match resolver {
        IdentityMap::Configured(p) => p,
        IdentityMap::Unconfigured => match cert {
            Some(c) => Some(Principal::from_cert(c)),
            None => None,
        },
    }
}

/// With a map, a certificate that it does not know gives no principal, whatever it says.
pub proof fn unmapped_certificates_are_nobody(cert: Option<Seq<char>>)
    ensures
        principal_of(MapView::Configured(None), cert) is None,
{
}

/// What a request's headers claim about the person it is made for.
#[derive(Debug, PartialEq, Eq)]
pub struct PersonClaims {
    /// A name in plain text; a blank one is still a claim.
    pub on_behalf_of: Option<String>,
    /// A signed assertion.
    pub assertion: Option<String>,
}

/// Which person a request to the tool endpoint is for. A plain name is refused there, not ignored;
/// a signed one is what the gateway says it is, and refused where there is no gateway.
pub open spec fn asserted_of(
    plain: bool,
    signed: bool,
    gateway: Option<AssertedView>,
) -> AssertedView {
    if plain {
        AssertedView::Rejected
    } else {
        match gateway {
            Some(verdict) => verdict,
            None => if signed {
                AssertedView::Rejected
            } else {
                AssertedView::Absent
            },
        }
    }
}

/// The content of an optional verdict.
pub open spec fn opt_asserted(a: Option<AssertedPerson>) -> Option<AssertedView> {
    match a {
        Some(x) => Some(x@),
        None => None,
    }
}

/// Finds out which person a request is for as [`asserted_of`] says. `gateway` is what the gateway,
/// where there is one, says about the signed assertion.
pub fn asserted_person_for_mcp(gateway: Option<AssertedPerson>, claims: &PersonClaims) -> (r:
    AssertedPerson)
    ensures
        r@ == asserted_of(
            claims.on_behalf_of is Some,
            claims.assertion is Some,
            opt_asserted(gateway),
        ),
{
    if claims.on_behalf_of.is_some() {
        return AssertedPerson::Rejected;
    }
    match gateway {
        Some(verdict) => verdict,
        None => {
            if claims.assertion.is_some() {
                AssertedPerson::Rejected
            } else {
                AssertedPerson::Absent
            }
        },
    }
}

/// A claim that cannot be honoured is never taken for the absence of one.
pub proof fn unhonoured_claims_are_rejected(
    plain: bool,
    signed: bool,
    gateway: Option<AssertedView>,
)
    requires
        plain || (signed && gateway is None),
    ensures
        asserted_of(plain, signed, gateway) is Rejected,
{
}

/// The record that a call may use: the principal's where no person was named, that person's where
/// one was verified, and none where a claim was rejected.
pub open spec fn key_of(principal: Option<PrincipalView>, asserted: AssertedView) -> Option<
    KeyView,
> {
    match asserted {
        AssertedView::Absent => match principal {
            Some(p) => service_key(p.name),
            None => None,
        },
        AssertedView::Verified { principal: speaker, person } => person_key(speaker, person),
        AssertedView::Rejected => None,
    }
}

/// Finds the record that a call may use as [`key_of`] says.
pub fn caller_key_for(principal: Option<&Principal>, asserted: &AssertedPerson) -> (r: Option<
    CallerKey,
>)
    ensures
        opt_key(r) == key_of(opt_principal_ref(principal), asserted@),
{
    match asserted {
        AssertedPerson::Absent => match principal {
            Some(p) => CallerKey::for_principal(p),
            None => None,
        },
        AssertedPerson::Verified(v) => CallerKey::for_person(
            v.principal.as_str(),
            v.person.as_str(),
        ),
        AssertedPerson::Rejected => None,
    }
}

/// A rejected claim gets no record, whoever makes it.
pub proof fn rejected_claims_get_no_record(principal: Option<PrincipalView>)
    ensures
        key_of(principal, AssertedView::Rejected) is None,
{
}

/// Where a tool's knowledge of its caller comes from.
#[derive(Debug, Clone, Copy, PartialEq, Eq, Structural)]
pub enum ContextSource {
    /// The gateway's grants.
    Gateway,
    /// The service's default.
    Default,
    /// Nothing: less than the default.
    Unidentified,
}

/// Where a tool's knowledge of its caller comes from. Without a gateway nothing can have been
/// verified, so a claim ends up below the default.
pub open spec fn context_source(has_gateway: bool, asserted: AssertedView) -> ContextSource {
    if has_gateway {
        ContextSource::Gateway
    } else if asserted is Absent {
        ContextSource::Default
    } else {
        ContextSource::Unidentified
    }
}

/// Finds where a tool's knowledge of its caller comes from as [`context_source`] says.
pub fn caller_context_source(has_gateway: bool, asserted: &AssertedPerson) -> (r: ContextSource)
    ensures
        r == context_source(has_gateway, asserted@),
{
    if has_gateway {
        return ContextSource::Gateway;
    }
    match asserted {
        AssertedPerson::Absent => ContextSource::Default,
        _ => ContextSource::Unidentified,
    }
}

/// What a tool knows of its caller where no gateway says more. Either way it is entitled to
/// nothing, and a claim that nobody could verify leaves it unidentified.
pub fn own_context(source: ContextSource) -> (r: Option<CallerContext>)
    ensures
        r is None <==> source is Gateway,
        r matches Some(c) ==> {
            &&& c.identified() == (source is Default)
            &&& !c.calendar()
            &&& !c.routine()
            &&& c.account() is None
        },
{
    match source {
        ContextSource::Gateway => None,
        ContextSource::Default => Some(CallerContext::default()),
        ContextSource::Unidentified => Some(CallerContext::unidentified()),
    }
}

// ── answers ─────────────────────────────────────────────────────────────────

/// A successful answer to a call.
pub open spec fn rpc_result(id: JsonView, result: JsonView) -> JsonView {
    JsonView::Object(
        no_fields().push(("jsonrpc"@, JsonView::Str("2.0"@))).push(("id"@, id)).push(
            ("result"@, result),
        ),
    )
}

/// An error in answer to a call.
pub open spec fn rpc_error(id: JsonView, code: int, message: Seq<char>) -> JsonView {
    JsonView::Object(
        no_fields().push(("jsonrpc"@, JsonView::Str("2.0"@))).push(("id"@, id)).push(
            (
                "error"@,
                JsonView::Object(
                    no_fields().push(("code"@, JsonView::Int(code))).push(
                        ("message"@, JsonView::Str(message)),
                    ),
                ),
            ),
        ),
    )
}

fn make_error(id: Json, code: i64, message: &str) -> (r: Json)
    ensures
        r@ == rpc_error(id@, code as int, message@),
{
    let mut e = Fields::new();
    e.put("code", Json::integer(code));
    e.put("message", Json::text(message));
    let mut f = Fields::new();
    f.put("jsonrpc", Json::text("2.0"));
    f.put("id", id);
    f.put("error", e.object());
    f.object()
}

/// The refusal of a request without a usable credential. The challenge says where to get one, and
/// stands in the header only where it can.
pub open spec fn unauthorized_view(challenge: Option<Seq<char>>) -> ResponseView {
    ResponseView {
        www_authenticate: match challenge {
            Some(c) => if is_header_text(c) {
                Some(c)
            } else {
                None
            },
            None => None,
        },
        ..json_response(401, rpc_error(JsonView::Null, -32001, "Unauthorized"@))
    }
}

fn challenged(response: HttpResponse, challenge: Option<&str>) -> (r: HttpResponse)
    requires
        response.www_authenticate is None,
    ensures
        r@ == (ResponseView {
            www_authenticate: match opt_str(challenge) {
                Some(c) => if is_header_text(c) {
                    Some(c)
                } else {
                    None
                },
                None => None,
            },
            ..response@
        }),
{
    let mut out = response;
    if let Some(c) = challenge {
        if is_header_value(c) {
            out.www_authenticate = Some(owned(c));
        }
    }
    out
}

/// Builds the refusal of a request without a usable credential as [`unauthorized_view`] says.
pub fn unauthorized(challenge: Option<&str>) -> (r: HttpResponse)
    ensures
        r@ == unauthorized_view(opt_str(challenge)),
{
    let body = make_error(Json::Null, -32001, "Unauthorized");
    challenged(HttpResponse::json(401, &body), challenge)
}

/// The refusal of a credential that is good but too narrow.
pub open spec fn insufficient_scope_view(challenge: Seq<char>) -> ResponseView {
    ResponseView {
        www_authenticate: if is_header_text(challenge) {
            Some(challenge)
        } else {
            None
        },
        ..json_response(403, rpc_error(JsonView::Null, -32003, "Insufficient scope"@))
    }
}

/// Builds the refusal of a credential that is too narrow as [`insufficient_scope_view`] says.
pub fn insufficient_scope(challenge: &str) -> (r: HttpResponse)
    ensures
        r@ == insufficient_scope_view(challenge@),
{
    let body = make_error(Json::Null, -32003, "Insufficient scope");
    challenged(HttpResponse::json(403, &body), Some(challenge))
}

/// A framed answer to a call, with the session's id where there is one that can stand in a header.
pub open spec fn framed(body: JsonView, session_id: Seq<char>) -> ResponseView {
    ResponseView {
        status: 200,
        content_type: Some("text/event-stream"@),
        www_authenticate: None,
        session_id: if session_id.len() > 0 && is_header_text(session_id) {
            Some(session_id)
        } else {
            None
        },
        body: "event: message\ndata: "@ + rendered(body) + "\n\n"@,
    }
}

/// The content of a call's outcome.
pub open spec fn outcome_view(id: JsonView, result: Result<Json, (i64, String)>) -> JsonView {
    match result {
        Ok(r) => rpc_result(id, r@),
        Err((code, message)) => rpc_error(id, code as int, message@),
    }
}

/// Frames the answer to a call as [`framed`] says.
pub fn sse_response(id: Json, result: Result<Json, (i64, String)>, session_id: &str) -> (r:
    HttpResponse)
    ensures
        r@ == framed(outcome_view(id@, result), session_id@),
{
    let body = match result {
        Ok(value) => {
            let mut f = Fields::new();
            f.put("jsonrpc", Json::text("2.0"));
            f.put("id", id);
            f.put("result", value);
            f.object()
        },
        Err((code, message)) => make_error(id, code, message.as_str()),
    };
    let text = render(&body);
    let session = if !session_id.is_empty() && is_header_value(session_id) {
        Some(owned(session_id))
    } else {
        None
    };
    HttpResponse {
        status: 200,
        content_type: Some("text/event-stream"),
        www_authenticate: None,
        session_id: session,
        body: cat3("event: message\ndata: ", text.as_str(), "\n\n"),
    }
}

// ── requests ────────────────────────────────────────────────────────────────

/// Whether a request may be heard: no token is asked for, or the very token is presented.
pub open spec fn authorized(expected: Option<Seq<char>>, header: Option<Seq<char>>) -> bool {
    match expected {
        None => true,
        Some(token) => match header {
            Some(h) => after_prefix(h, "Bearer "@) == Some(token),
            None => false,
        },
    }
}

/// Checks whether a request may be heard as [`authorized`] says.
pub fn is_authorized(expected: Option<&str>, header: Option<&str>) -> (r: bool)
    ensures
        r == authorized(opt_str(expected), opt_str(header)),
{
    match expected {
        None => true,
        Some(token) => match header {
            None => false,
            Some(h) => match strip_prefix(h, "Bearer ") {
                Some(presented) => same(presented, token),
                None => false,
            },
        },
    }
}

/// A tool call.
#[derive(Debug, PartialEq, Eq)]
pub struct ToolCall {
    pub id: Json,
    pub name: String,
    pub arguments: Json,
}

/// What a request to the tool endpoint amounts to.
#[derive(Debug, PartialEq, Eq)]
pub enum McpStep {
    /// It is answered at once.
    Reply(HttpResponse),
    /// A session begins.
    Initialize(Json),
    /// The tools are to be listed.
    List(Json),
    /// A tool is to be called.
    Call(ToolCall),
}

/// The content of a [`McpStep`].
pub enum McpView {
    Reply(ResponseView),
    Initialize(JsonView),
    List(JsonView),
    Call { id: JsonView, name: Seq<char>, arguments: JsonView },
}

impl View for McpStep {
    type V = McpView;

    open spec fn view(&self) -> McpView {
        match *self {
            McpStep::Reply(r) => McpView::Reply(r@),
            McpStep::Initialize(id) => McpView::Initialize(id@),
            McpStep::List(id) => McpView::List(id@),
            McpStep::Call(c) => McpView::Call {
                id: c.id@,
                name: c.name@,
                arguments: c.arguments@,
            },
        }
    }
}

/// A response without a body.
pub open spec fn empty_response(status: u16) -> ResponseView {
    ResponseView {
        status,
        content_type: None,
        www_authenticate: None,
        session_id: None,
        body: ""@,
    }
}

/// The method that a request names.
pub open spec fn method_of(req: JsonView) -> Seq<char> {
    match req.text_at("method"@) {
        Some(m) => m,
        None => ""@,
    }
}

/// What a request amounts to, once it may be heard and is JSON. One without an id is a notification
/// and gets no answer, whatever it asks.
pub open spec fn step_of(req: JsonView) -> McpView {
    let id = req.at("id"@);
    let params = req.at("params"@);
    let method = method_of(req);
    if req.field("id"@) is None {
        McpView::Reply(empty_response(202))
    } else if method == "initialize"@ {
        McpView::Initialize(id)
    } else if method == "tools/list"@ {
        McpView::List(id)
    } else if method == "tools/call"@ {
        McpView::Call {
            id,
            name: match params.text_at("name"@) {
                Some(n) => n,
                None => ""@,
            },
            arguments: match params.field("arguments"@) {
                Some(a) => a,
                None => JsonView::Object(no_fields()),
            },
        }
    } else {
        McpView::Reply(
            framed(rpc_error(id, -32601, "Method not found: "@ + method), ""@),
        )
    }
}

/// Reads a request as [`step_of`] says.
pub fn read_request(req: &Json) -> (r: McpStep)
    ensures
        r@ == step_of(req@),
{
    if req.get("id").is_none() {
        return McpStep::Reply(
            HttpResponse {
                status: 202,
                content_type: None,
                www_authenticate: None,
                session_id: None,
                body: owned(""),
            },
        );
    }
    let id = req.copy_at("id");
    let method = match req.str_at("method") {
        Some(m) => m,
        None => "",
    };
    if same(method, "initialize") {
        return McpStep::Initialize(id);
    }
    if same(method, "tools/list") {
        return McpStep::List(id);
    }
    if same(method, "tools/call") {
        let params = req.copy_at("params");
        let name = match params.str_at("name") {
            Some(n) => owned(n),
            None => owned(""),
        };
        let arguments = match params.get("arguments") {
            Some(a) => a.copy(),
            None => Fields::new().object(),
        };
        return McpStep::Call(ToolCall { id, name, arguments });
    }
    let message = cat2("Method not found: ", method);
    McpStep::Reply(sse_response(id, Err((-32601, message)), ""))
}

/// What a request amounts to: the credential is checked first, then the body is read.
pub open spec fn received(
    expected: Option<Seq<char>>,
    challenge: Option<Seq<char>>,
    header: Option<Seq<char>>,
    body: Result<JsonView, Seq<char>>,
) -> McpView {
    if !authorized(expected, header) {
        McpView::Reply(unauthorized_view(challenge))
    } else {
        match body {
            Ok(req) => step_of(req),
            Err(_) => McpView::Reply(
                json_response(400, rpc_error(JsonView::Null, -32700, "Parse error"@)),
            ),
        }
    }
}

/// The server: its tools, its name, the token it asks for, and the challenge that goes with a
/// refusal.
#[derive(Debug)]
pub struct McpServerState {
    pub registry: ToolRegistry,
    pub server_name: String,
    pub server_version: String,
    pub auth_token: Option<String>,
    pub challenge: Option<String>,
}

fn borrow(s: &Option<String>) -> (r: Option<&str>)
    ensures
        opt_str(r) == opt_text(*s),
{
    match s {
        Some(x) => Some(x.as_str()),
        None => None,
    }
}

/// The tokens of 36 characters that sessions are known by: hexadecimal digits in groups of 8, 4, 4,
/// 4 and 12, with hyphens between. The third group begins with a 4, the fourth with one of 8 to b.
pub open spec fn is_session_id(s: Seq<char>) -> bool {
    &&& s.len() == 36
    &&& s[14] == '4'
    &&& s[19] == '8' || s[19] == '9' || s[19] == 'a' || s[19] == 'b'
    &&& forall|i: int|
        0 <= i < 36 ==> if i == 8 || i == 13 || i == 18 || i == 23 {
            (#[trigger] s[i]) == '-'
        } else {
            48 <= s[i] as u32 <= 57 || 97 <= s[i] as u32 <= 102
        }
}

/// Calls `uuid::Uuid::new_v4` and writes it out. Which id comes is left to chance; of every one the
/// contract claims the hyphenated form in lowercase, and the digits that mark a random id.
#[verifier::external_body]
fn new_session_id() -> (r: String)
    ensures
        is_session_id(r@),
{
    uuid::Uuid::new_v4().to_string()
}

/// What the beginning of a session is answered.
pub open spec fn initialize_result(name: Seq<char>, version: Seq<char>) -> JsonView {
    JsonView::Object(
        no_fields().push(("protocolVersion"@, JsonView::Str("2024-11-05"@))).push(
            (
                "capabilities"@,
                JsonView::Object(
                    no_fields().push(
                        (
                            "tools"@,
                            JsonView::Object(
                                no_fields().push(("listChanged"@, JsonView::Bool(false))),
                            ),
                        ),
                    ),
                ),
            ),
        ).push(
            (
                "serverInfo"@,
                JsonView::Object(
                    no_fields().push(("name"@, JsonView::Str(name))).push(
                        ("version"@, JsonView::Str(version)),
                    ),
                ),
            ),
        ),
    )
}

impl McpServerState {
    /// Replaces the tools; nothing else changes.
    pub fn swap_registry(&mut self, new: ToolRegistry)
        ensures
            *final(self) == (McpServerState { registry: new, ..*old(self) }),
    {
        self.registry = new;
    }

    /// Reads a request to the tool endpoint as [`received`] says. `authorization` is its header of
    /// that name.
    pub fn receive(&self, authorization: Option<&str>, body: &[u8]) -> (r: McpStep)
        ensures
            r@ == received(
                opt_text(self.auth_token),
                opt_text(self.challenge),
                opt_str(authorization),
                parsed_bytes(body@),
            ),
    {
        if !is_authorized(borrow(&self.auth_token), authorization) {
            return McpStep::Reply(unauthorized(borrow(&self.challenge)));
        }
        match parse_bytes(body) {
            Ok(req) => read_request(&req),
            Err(_) => {
                let body = make_error(Json::Null, -32700, "Parse error");
                McpStep::Reply(HttpResponse::json(400, &body))
            },
        }
    }

    /// The answer to the beginning of a session with a given id.
    pub fn initialized(&self, id: Json, session_id: &str) -> (r: HttpResponse)
        ensures
            r@ == framed(
                rpc_result(id@, initialize_result(self.server_name@, self.server_version@)),
                session_id@,
            ),
    {
        let mut change = Fields::new();
        change.put("listChanged", Json::Bool(false));
        let mut tools = Fields::new();
        tools.put("tools", change.object());
        let mut info = Fields::new();
        info.put("name", Json::text(self.server_name.as_str()));
        info.put("version", Json::text(self.server_version.as_str()));
        let mut f = Fields::new();
        f.put("protocolVersion", Json::text("2024-11-05"));
        f.put("capabilities", tools.object());
        f.put("serverInfo", info.object());
        sse_response(id, Ok(f.object()), session_id)
    }

    /// Begins a session under a fresh id.
    pub fn initialize(&self, id: Json) -> (r: HttpResponse)
        ensures
            exists|session: Seq<char>|
                is_session_id(session) && r@ == #[trigger] framed(
                    rpc_result(id@, initialize_result(self.server_name@, self.server_version@)),
                    session,
                ),
            r.session_id is Some,
    {
        let session = new_session_id();
        assert(is_header_text(session@));
        self.initialized(id, session.as_str())
    }

    /// What a health probe is answered.
    pub fn healthz(&self) -> (r: HttpResponse)
        ensures
            r@ == (ResponseView {
                status: 200,
                content_type: Some("text/plain; charset=utf-8"@),
                www_authenticate: None,
                session_id: None,
                body: self.server_name@ + " "@ + self.server_version@ + " ok\n"@,
            }),
    {
        HttpResponse {
            status: 200,
            content_type: Some("text/plain; charset=utf-8"),
            www_authenticate: None,
            session_id: None,
            body: cat4(self.server_name.as_str(), " ", self.server_version.as_str(), " ok\n"),
        }
    }
}

/// Without the token that is asked for, nothing of a request is read: the answer does not depend on
/// the body.
pub proof fn unauthorized_requests_are_not_read(
    token: Seq<char>,
    challenge: Option<Seq<char>>,
    header: Option<Seq<char>>,
    body: Result<JsonView, Seq<char>>,
)
    requires
        !authorized(Some(token), header),
    ensures
        received(Some(token), challenge, header, body) == McpView::Reply(
            unauthorized_view(challenge),
        ),
        unauthorized_view(challenge).status == 401,
{
}

/// A challenge stands on a refusal only: no answer to a request that was heard carries one.
pub proof fn heard_requests_carry_no_challenge(
    expected: Option<Seq<char>>,
    challenge: Option<Seq<char>>,
    header: Option<Seq<char>>,
    body: Result<JsonView, Seq<char>>,
)
    requires
        authorized(expected, header),
    ensures
        received(expected, challenge, header, body) matches McpView::Reply(r)
            ==> r.www_authenticate is None,
{
}

/// A notification is accepted without an answer, whatever it asks.
pub proof fn notifications_get_no_answer(req: JsonView)
    requires
        req.field("id"@) is None,
    ensures
        step_of(req) == McpView::Reply(empty_response(202)),
{
}

// ── the catalog ─────────────────────────────────────────────────────────────

/// A tool as it is listed.
pub open spec fn tool_json(tool: InfoView) -> JsonView {
    JsonView::Object(
        no_fields().push(("name"@, JsonView::Str(tool.name))).push(
            ("description"@, JsonView::Str(tool.description)),
        ).push(("inputSchema"@, tool.parameters)),
    )
}

/// The content of a list of tools.
pub open spec fn infos(v: Seq<ToolInfo>) -> Seq<InfoView> {
    v.map_values(|t: ToolInfo| t@)
}

/// Those of some tools whose names are not taken, in order.
pub open spec fn fresh_of(taken: Seq<InfoView>, more: Seq<InfoView>) -> Seq<InfoView>
    decreases more.len(),
{
    if more.len() == 0 {
        Seq::empty()
    } else {
        let front = fresh_of(taken, more.drop_last());
        if offers(taken, more.last().name) {
            front
        } else {
            front.push(more.last())
        }
    }
}

/// The tools of this process, then those of workers whose names are not taken, then those of the
/// personal backend whose names are still not taken.
pub open spec fn own_catalog(
    core: Seq<InfoView>,
    routed: Seq<InfoView>,
    personal: Seq<InfoView>,
) -> Seq<InfoView> {
    let with_workers = core + fresh_of(core, routed);
    with_workers + fresh_of(with_workers, personal)
}

/// The whole catalog: the tools of one's own, then those of upstreams under their own names.
pub open spec fn catalog_of(
    core: Seq<InfoView>,
    routed: Seq<InfoView>,
    personal: Seq<InfoView>,
    mesh: Seq<JsonView>,
) -> Seq<JsonView> {
    own_catalog(core, routed, personal).map_values(|t: InfoView| tool_json(t)) + mesh
}

fn is_taken(taken: &Vec<&ToolInfo>, name: &str) -> (r: bool)
    ensures
        r == offers(infos(taken@.map_values(|t: &ToolInfo| *t)), name@),
{
    let ghost view = infos(taken@.map_values(|t: &ToolInfo| *t));
    let mut i: usize = 0;
    while i < taken.len()
        invariant
            i <= taken.len(),
            view == infos(taken@.map_values(|t: &ToolInfo| *t)),
            crate::registry::position_from(view, name@, 0) == crate::registry::position_from(
                view,
                name@,
                i as int,
            ),
        decreases taken.len() - i,
    {
        assert(view[i as int] == taken@[i as int]@);
        if same(taken[i].name.as_str(), name) {
            return true;
        }
        i += 1;
    }
    false
}

fn add_fresh<'a>(taken: &Vec<&'a ToolInfo>, more: &'a Vec<ToolInfo>) -> (r: Vec<&'a ToolInfo>)
    ensures
        infos(r@.map_values(|t: &ToolInfo| *t)) == infos(taken@.map_values(|t: &ToolInfo| *t))
            + fresh_of(infos(taken@.map_values(|t: &ToolInfo| *t)), infos(more@)),
{
    let ghost deref = |t: &ToolInfo| *t;
    let ghost base = infos(taken@.map_values(deref));
    let ghost view = infos(more@);
    let mut out: Vec<&'a ToolInfo> = Vec::new();
    let mut k: usize = 0;
    while k < taken.len()
        invariant
            k <= taken.len(),
            out@ =~= taken@.take(k as int),
        decreases taken.len() - k,
    {
        out.push(taken[k]);
        k += 1;
    }
    assert(out@ =~= taken@);
    let mut i: usize = 0;
    assert(view.take(0) =~= Seq::<InfoView>::empty());
    assert(base + Seq::<InfoView>::empty() =~= base);
    while i < more.len()
        invariant
            i <= more.len(),
            deref == (|t: &ToolInfo| *t),
            base == infos(taken@.map_values(deref)),
            view == infos(more@),
            infos(out@.map_values(deref)) == base + fresh_of(base, view.take(i as int)),
        decreases more.len() - i,
    {
        let t = &more[i];
        let ghost next = view.take(i + 1);
        let ghost held = infos(out@.map_values(deref));
        let ghost so_far = fresh_of(base, view.take(i as int));
        assert(next.drop_last() =~= view.take(i as int));
        assert(next.last() == t@);
        if !is_taken(taken, t.name.as_str()) {
            out.push(t);
            assert(infos(out@.map_values(deref)) =~= held.push(t@));
            assert(base + so_far.push(t@) =~= (base + so_far).push(t@));
        }
        i += 1;
    }
    assert(view.take(view.len() as int) =~= view);
    out
}

/// Lists the whole catalog as [`catalog_of`] says. `routed` are the tools of workers that are
/// healthy, `personal` those of the personal backend where calls are passed on to it, `mesh` those
/// of healthy upstreams.
pub fn merge_catalog(
    core: &Vec<ToolInfo>,
    routed: &Vec<ToolInfo>,
    personal: &Vec<ToolInfo>,
    mesh: &Vec<Json>,
) -> (r: Vec<Json>)
    ensures
        jsons(r@) == catalog_of(infos(core@), infos(routed@), infos(personal@), jsons(mesh@)),
{
    let ghost deref = |t: &ToolInfo| *t;
    let nothing: Vec<&ToolInfo> = Vec::new();
    assert(infos(nothing@.map_values(deref)) =~= Seq::<InfoView>::empty());
    let own = add_fresh(&nothing, core);
    proof {
        lemma_all_fresh(infos(core@));
        assert(Seq::<InfoView>::empty() + infos(core@) =~= infos(core@));
    }
    let with_workers = add_fresh(&own, routed);
    let all = add_fresh(&with_workers, personal);
    let ghost view = own_catalog(infos(core@), infos(routed@), infos(personal@));
    let mut out: Vec<Json> = Vec::new();
    let mut i: usize = 0;
    while i < all.len()
        invariant
            i <= all.len(),
            view == infos(all@.map_values(|t: &ToolInfo| *t)),
            out.len() == i,
            forall|k: int| 0 <= k < i ==> (#[trigger] out@[k])@ == tool_json(view[k]),
        decreases all.len() - i,
    {
        let t = all[i];
        assert(view[i as int] == t@);
        let mut f = Fields::new();
        f.put("name", Json::text(t.name.as_str()));
        f.put("description", Json::text(t.description.as_str()));
        f.put("inputSchema", t.parameters.copy());
        out.push(f.object());
        i += 1;
    }
    let ghost listed = view.map_values(|t: InfoView| tool_json(t));
    assert(jsons(out@) =~= listed);
    let mut k: usize = 0;
    assert(listed + jsons(mesh@).take(0) =~= listed);
    while k < mesh.len()
        invariant
            k <= mesh.len(),
            jsons(out@) == listed + jsons(mesh@).take(k as int),
        decreases mesh.len() - k,
    {
        let ghost held = jsons(out@);
        out.push(mesh[k].copy());
        assert(jsons(out@) =~= held.push(mesh@[k as int]@));
        assert(listed + jsons(mesh@).take(k + 1) =~= held.push(mesh@[k as int]@));
        k += 1;
    }
    assert(jsons(mesh@).take(mesh@.len() as int) =~= jsons(mesh@));
    out
}

proof fn lemma_all_fresh(tools: Seq<InfoView>)
    ensures
        fresh_of(Seq::<InfoView>::empty(), tools) == tools,
    decreases tools.len(),
{
    if tools.len() > 0 {
        lemma_all_fresh(tools.drop_last());
        assert(tools.drop_last().push(tools.last()) =~= tools);
    } else {
        assert(tools =~= Seq::empty());
    }
}

/// The first of some tools that has a given name.
pub open spec fn first_named(tools: Seq<InfoView>, name: Seq<char>) -> Option<InfoView> {
    match crate::registry::position_from(tools, name, 0) {
        Some(i) => Some(tools[i]),
        None => None,
    }
}

proof fn lemma_position_in_concat(a: Seq<InfoView>, b: Seq<InfoView>, name: Seq<char>, i: int)
    requires
        0 <= i <= a.len(),
    ensures
        crate::registry::position_from(a + b, name, i) == (match crate::registry::position_from(
            a,
            name,
            i,
        ) {
            Some(k) => Some(k),
            None => match crate::registry::position_from(b, name, 0) {
                Some(k) => Some(a.len() + k),
                None => None,
            },
        }),
    decreases a.len() - i,
{
    if i < a.len() {
        lemma_position_in_concat(a, b, name, i + 1);
    } else {
        lemma_position_shift(a, b, name, 0);
    }
}

proof fn lemma_position_shift(a: Seq<InfoView>, b: Seq<InfoView>, name: Seq<char>, i: int)
    requires
        0 <= i <= b.len(),
    ensures
        crate::registry::position_from(a + b, name, a.len() + i) == (
        match crate::registry::position_from(b, name, i) {
            Some(k) => Some(a.len() + k),
            None => None,
        }),
    decreases b.len() - i,
{
    if i < b.len() {
        assert((a + b)[a.len() + i] == b[i]);
        lemma_position_shift(a, b, name, i + 1);
    }
}

proof fn lemma_position_bound(tools: Seq<InfoView>, name: Seq<char>, i: int)
    requires
        0 <= i,
    ensures
        crate::registry::position_from(tools, name, i) matches Some(k) ==> i <= k < tools.len(),
    decreases tools.len() - i,
{
    if i < tools.len() {
        lemma_position_bound(tools, name, i + 1);
    }
}

proof fn lemma_first_in_concat(a: Seq<InfoView>, b: Seq<InfoView>, name: Seq<char>)
    ensures
        first_named(a + b, name) == (if offers(a, name) {
            first_named(a, name)
        } else {
            first_named(b, name)
        }),
{
    lemma_position_in_concat(a, b, name, 0);
    lemma_position_bound(a, name, 0);
    lemma_position_bound(b, name, 0);
}

proof fn lemma_first_fresh(taken: Seq<InfoView>, more: Seq<InfoView>, name: Seq<char>)
    requires
        !offers(taken, name),
    ensures
        first_named(fresh_of(taken, more), name) == first_named(more, name),
        offers(fresh_of(taken, more), name) == offers(more, name),
    decreases more.len(),
{
    if more.len() > 0 {
        let front = more.drop_last();
        let last = seq![more.last()];
        lemma_first_fresh(taken, front, name);
        assert(front + last =~= more);
        lemma_first_in_concat(front, last, name);
        lemma_position_in_concat(front, last, name, 0);
        if !offers(taken, more.last().name) {
            assert(fresh_of(taken, more) =~= fresh_of(taken, front) + last);
            lemma_first_in_concat(fresh_of(taken, front), last, name);
            lemma_position_in_concat(fresh_of(taken, front), last, name, 0);
        } else {
            assert(last[0].name != name);
            assert(crate::registry::position_from(last, name, 1) is None);
            assert(crate::registry::position_from(last, name, 0) is None);
        }
    }
}

/// A name is listed as the tool that a call of it reaches: that of this process where it has one,
/// else a worker's, else the personal backend's.
pub proof fn listed_tool_is_the_one_called(
    core: Seq<InfoView>,
    routed: Seq<InfoView>,
    personal: Seq<InfoView>,
    name: Seq<char>,
)
    ensures
        first_named(own_catalog(core, routed, personal), name) == (if offers(core, name) {
            first_named(core, name)
        } else if offers(routed, name) {
            first_named(routed, name)
        } else {
            first_named(personal, name)
        }),
{
    let workers = fresh_of(core, routed);
    let with_workers = core + workers;
    lemma_first_in_concat(core, workers, name);
    lemma_position_in_concat(core, workers, name, 0);
    lemma_first_in_concat(with_workers, fresh_of(with_workers, personal), name);
    if !offers(core, name) {
        lemma_first_fresh(core, routed, name);
        if !offers(routed, name) {
            lemma_first_fresh(with_workers, personal, name);
        }
    }
}

proof fn lemma_fresh(taken: Seq<InfoView>, more: Seq<InfoView>)
    requires
        distinct_names(more),
    ensures
        distinct_names(fresh_of(taken, more)),
        forall|k: int|
            0 <= k < fresh_of(taken, more).len() ==> !offers(
                taken,
                (#[trigger] fresh_of(taken, more)[k]).name,
            ) && more.contains(fresh_of(taken, more)[k]),
    decreases more.len(),
{
    if more.len() > 0 {
        let front = more.drop_last();
        let kept = fresh_of(taken, front);
        let all = fresh_of(taken, more);
        lemma_fresh(taken, front);
        assert forall|k: int| 0 <= k < all.len() implies !offers(taken, (#[trigger] all[k]).name)
            && more.contains(all[k]) by {
            if k < kept.len() {
                assert(all[k] == kept[k]);
                assert(front.contains(kept[k]));
                let j = choose|j: int| 0 <= j < front.len() && front[j] == kept[k];
                assert(more[j] == all[k]);
            } else {
                assert(all[k] == more.last());
            }
        }
        assert forall|i: int, j: int| 0 <= i < j < all.len() implies (#[trigger] all[i]).name != (
        #[trigger] all[j]).name by {
            assert(all[i] == kept[i]);
            if j < kept.len() {
                assert(all[j] == kept[j]);
            } else {
                assert(front.contains(kept[i]));
                let m = choose|m: int| 0 <= m < front.len() && front[m] == kept[i];
                assert(more[m].name != more[more.len() - 1].name);
            }
        }
    }
}

proof fn lemma_distinct_with_fresh(taken: Seq<InfoView>, more: Seq<InfoView>)
    requires
        distinct_names(taken),
        distinct_names(more),
    ensures
        distinct_names(taken + fresh_of(taken, more)),
{
    let fresh = fresh_of(taken, more);
    let all = taken + fresh;
    lemma_fresh(taken, more);
    assert forall|i: int, j: int| 0 <= i < j < all.len() implies (#[trigger] all[i]).name != (
    #[trigger] all[j]).name by {
        if j < taken.len() {
            assert(all[i] == taken[i] && all[j] == taken[j]);
        } else if i < taken.len() {
            assert(all[i] == taken[i] && all[j] == fresh[j - taken.len()]);
            crate::registry::offered_tools_have_names(taken, all[j].name);
        } else {
            assert(all[i] == fresh[i - taken.len()] && all[j] == fresh[j - taken.len()]);
        }
    }
}

/// No two tools of one's own are listed under one name, where no source has two of one name.
pub proof fn own_names_are_distinct(
    core: Seq<InfoView>,
    routed: Seq<InfoView>,
    personal: Seq<InfoView>,
)
    requires
        distinct_names(core),
        distinct_names(routed),
        distinct_names(personal),
    ensures
        distinct_names(own_catalog(core, routed, personal)),
{
    lemma_distinct_with_fresh(core, routed);
    lemma_distinct_with_fresh(core + fresh_of(core, routed), personal);
}

/// How many listed tools have a given name.
pub open spec fn listings(tools: Seq<JsonView>, name: Seq<char>) -> nat
    decreases tools.len(),
{
    if tools.len() == 0 {
        0
    } else {
        listings(tools.drop_last(), name) + (if tools.last().text_at("name"@) == Some(name) {
            1nat
        } else {
            0
        })
    }
}

proof fn lemma_listed_name(tool: InfoView)
    ensures
        tool_json(tool).text_at("name"@) == Some(tool.name),
{
    broadcast use crate::json::lemma_lookup_push;

    reveal_strlit("name");
    reveal_strlit("description");
    reveal_strlit("inputSchema");
    assert("name"@.len() == 4);
    assert("description"@.len() == 11);
    assert("inputSchema"@.len() == 11);
}

proof fn lemma_listings_of_concat(a: Seq<JsonView>, b: Seq<JsonView>, name: Seq<char>)
    ensures
        listings(a + b, name) == listings(a, name) + listings(b, name),
    decreases b.len(),
{
    if b.len() == 0 {
        assert(a + b =~= a);
    } else {
        assert((a + b).drop_last() =~= a + b.drop_last());
        lemma_listings_of_concat(a, b.drop_last(), name);
    }
}

proof fn lemma_listings_of_distinct(tools: Seq<InfoView>, name: Seq<char>)
    requires
        distinct_names(tools),
    ensures
        listings(tools.map_values(|t: InfoView| tool_json(t)), name) == (if offers(tools, name) {
            1nat
        } else {
            0
        }),
    decreases tools.len(),
{
    crate::registry::offered_tools_have_names(tools, name);
    let listed = tools.map_values(|t: InfoView| tool_json(t));
    if tools.len() > 0 {
        let front = tools.drop_last();
        lemma_listings_of_distinct(front, name);
        lemma_listed_name(tools.last());
        assert(listed.drop_last() =~= front.map_values(|t: InfoView| tool_json(t)));
        crate::registry::offered_tools_have_names(front, name);
        if offers(front, name) {
            let k = choose|k: int| 0 <= k < front.len() && (#[trigger] front[k]).name == name;
            assert(tools[k].name == name);
            assert(tools[tools.len() - 1].name != name);
        } else if offers(tools, name) {
            let k = choose|k: int| 0 <= k < tools.len() && (#[trigger] tools[k]).name == name;
            if k < front.len() {
                assert(front[k].name == name);
            }
        } else {
            assert(tools[tools.len() - 1].name != name);
        }
    }
}

/// Who a name belongs to.
pub enum Owner {
    Core,
    Worker,
    Personal,
}

/// The first source that has a tool of this name: this process, a worker, the personal backend.
pub open spec fn owner_of(
    core: Seq<InfoView>,
    routed: Seq<InfoView>,
    personal: Seq<InfoView>,
    name: Seq<char>,
) -> Option<Owner> {
    if offers(core, name) {
        Some(Owner::Core)
    } else if offers(routed, name) {
        Some(Owner::Worker)
    } else if offers(personal, name) {
        Some(Owner::Personal)
    } else {
        None
    }
}

/// The tool of this name as its owner describes it.
pub open spec fn owned_tool(
    core: Seq<InfoView>,
    routed: Seq<InfoView>,
    personal: Seq<InfoView>,
    name: Seq<char>,
) -> Option<InfoView> {
    match owner_of(core, routed, personal, name) {
        Some(Owner::Core) => first_named(core, name),
        Some(Owner::Worker) => first_named(routed, name),
        Some(Owner::Personal) => first_named(personal, name),
        None => None,
    }
}

/// A name that no upstream lists is in the catalog exactly once where any source has a tool of that
/// name, and not at all otherwise; what is listed is the tool of the first source that has it.
pub proof fn names_are_listed_once(
    core: Seq<InfoView>,
    routed: Seq<InfoView>,
    personal: Seq<InfoView>,
    mesh: Seq<JsonView>,
    name: Seq<char>,
)
    requires
        distinct_names(core),
        distinct_names(routed),
        distinct_names(personal),
        listings(mesh, name) == 0,
    ensures
        match owned_tool(core, routed, personal, name) {
            Some(tool) => listings(catalog_of(core, routed, personal, mesh), name) == 1
                && catalog_of(core, routed, personal, mesh).contains(tool_json(tool)) && tool.name
                == name,
            None => listings(catalog_of(core, routed, personal, mesh), name) == 0,
        },
{
    let own = own_catalog(core, routed, personal);
    let listed = own.map_values(|t: InfoView| tool_json(t));
    own_names_are_distinct(core, routed, personal);
    lemma_listings_of_distinct(own, name);
    lemma_listings_of_concat(listed, mesh, name);
    listed_tool_is_the_one_called(core, routed, personal, name);
    crate::registry::lemma_position(own, name, 0);
    match crate::registry::position_from(own, name, 0) {
        Some(k) => {
            assert(catalog_of(core, routed, personal, mesh)[k] == tool_json(own[k]));
        },
        None => {},
    }
}

/// A listed tool, with whether this caller may use it and whether it works at all.
#[derive(Debug)]
pub struct CatalogEntry {
    pub tool: Json,
    pub allowed: bool,
    pub usable: bool,
}

/// Whether a tool is shown: the caller may use it, and it works. One without a name cannot be said
/// not to work.
pub open spec fn is_shown(entry: CatalogEntry) -> bool {
    entry.allowed && (entry.usable || entry.tool@.text_at("name"@) is None)
}

/// The tools that are shown, in order.
pub open spec fn shown_tools(entries: Seq<CatalogEntry>) -> Seq<JsonView>
    decreases entries.len(),
{
    if entries.len() == 0 {
        Seq::empty()
    } else {
        let front = shown_tools(entries.drop_last());
        if is_shown(entries.last()) {
            front.push(entries.last().tool@)
        } else {
            front
        }
    }
}

/// The answer to a question for the tools.
pub open spec fn list_answer(id: JsonView, entries: Seq<CatalogEntry>) -> ResponseView {
    framed(
        rpc_result(
            id,
            JsonView::Object(
                no_fields().push(("tools"@, JsonView::Array(shown_tools(entries)))),
            ),
        ),
        ""@,
    )
}

/// Answers a question for the tools as [`list_answer`] says.
pub fn list_tools(id: Json, entries: &Vec<CatalogEntry>) -> (r: HttpResponse)
    ensures
        r@ == list_answer(id@, entries@),
{
    let mut out: Vec<Json> = Vec::new();
    let mut i: usize = 0;
    assert(entries@.take(0) =~= Seq::<CatalogEntry>::empty());
    assert(jsons(out@) =~= Seq::<JsonView>::empty());
    while i < entries.len()
        invariant
            i <= entries.len(),
            jsons(out@) == shown_tools(entries@.take(i as int)),
        decreases entries.len() - i,
    {
        let e = &entries[i];
        let ghost next = entries@.take(i + 1);
        let ghost held = jsons(out@);
        assert(next.drop_last() =~= entries@.take(i as int));
        assert(next.last() == *e);
        if e.allowed && (e.usable || e.tool.str_at("name").is_none()) {
            out.push(e.tool.copy());
            assert(jsons(out@) =~= held.push(e.tool@));
        }
        i += 1;
    }
    assert(entries@.take(entries@.len() as int) =~= entries@);
    let mut f = Fields::new();
    f.put("tools", Json::array(out));
    sse_response(id, Ok(f.object()), "")
}

/// The tools of some entries.
pub open spec fn entry_tools(entries: Seq<CatalogEntry>) -> Seq<JsonView> {
    entries.map_values(|e: CatalogEntry| e.tool@)
}

/// A name that the caller may use and that works is shown as often as it is in the catalog.
pub proof fn usable_names_are_shown(entries: Seq<CatalogEntry>, name: Seq<char>)
    requires
        forall|i: int|
            0 <= i < entries.len() && (#[trigger] entries[i]).tool@.text_at("name"@) == Some(name)
                ==> is_shown(entries[i]),
    ensures
        listings(shown_tools(entries), name) == listings(entry_tools(entries), name),
    decreases entries.len(),
{
    if entries.len() > 0 {
        let front = entries.drop_last();
        assert forall|i: int|
            0 <= i < front.len() && (#[trigger] front[i]).tool@.text_at("name"@) == Some(
                name,
            ) implies is_shown(front[i]) by {
            assert(entries[i] == front[i]);
        }
        usable_names_are_shown(front, name);
        assert(entry_tools(entries).drop_last() =~= entry_tools(front));
        let held = shown_tools(front);
        let last = entries.last().tool@;
        assert(entries[entries.len() - 1].tool@ == last);
        assert(held.push(last).drop_last() =~= held);
    }
}

/// What is not allowed is not shown, whether it works or not.
pub proof fn forbidden_tools_are_not_shown(entries: Seq<CatalogEntry>, i: int)
    requires
        0 <= i < entries.len(),
        !entries[i].allowed,
    ensures
        shown_tools(entries) == shown_tools(entries.remove(i)),
    decreases entries.len(),
{
    let rest = entries.remove(i);
    if i == entries.len() - 1 {
        assert(rest =~= entries.drop_last());
    } else {
        forbidden_tools_are_not_shown(entries.drop_last(), i);
        assert(rest.drop_last() =~= entries.drop_last().remove(i));
        assert(rest.last() == entries.last());
    }
}

/// The tools that a router may select from: those of the catalog that have a name.
pub open spec fn router_catalog_view(tools: Seq<JsonView>) -> Seq<InfoView>
    decreases tools.len(),
{
    if tools.len() == 0 {
        Seq::empty()
    } else {
        let front = router_catalog_view(tools.drop_last());
        match tools.last().text_at("name"@) {
            Some(name) => front.push(
                InfoView {
                    name,
                    description: match tools.last().text_at("description"@) {
                        Some(d) => d,
                        None => ""@,
                    },
                    parameters: match tools.last().field("inputSchema"@) {
                        Some(p) => p,
                        None => JsonView::Object(no_fields()),
                    },
                },
            ),
            None => front,
        }
    }
}

fn keep_named(tools: &Vec<Json>) -> (r: Vec<ToolInfo>)
    ensures
        infos(r@) == router_catalog_view(jsons(tools@)),
{
    let ghost view = jsons(tools@);
    let mut out: Vec<ToolInfo> = Vec::new();
    let mut i: usize = 0;
    assert(view.take(0) =~= Seq::<JsonView>::empty());
    assert(infos(out@) =~= Seq::<InfoView>::empty());
    while i < tools.len()
        invariant
            i <= tools.len(),
            view == jsons(tools@),
            infos(out@) == router_catalog_view(view.take(i as int)),
        decreases tools.len() - i,
    {
        let t = &tools[i];
        let ghost next = view.take(i + 1);
        let ghost held = infos(out@);
        assert(next.drop_last() =~= view.take(i as int));
        assert(next.last() == t@);
        if let Some(name) = t.str_at("name") {
            let made = ToolInfo {
                name: owned(name),
                description: match t.str_at("description") {
                    Some(d) => owned(d),
                    None => owned(""),
                },
                parameters: match t.get("inputSchema") {
                    Some(p) => p.copy(),
                    None => Fields::new().object(),
                },
            };
            out.push(made);
            assert(infos(out@) =~= held.push(made@));
        }
        i += 1;
    }
    assert(view.take(view.len() as int) =~= view);
    out
}

impl McpServerState {
    /// The tools that a router may select from: all that are listed, and no narrower view.
    pub fn router_catalog(
        &self,
        routed: &Vec<ToolInfo>,
        personal: &Vec<ToolInfo>,
        mesh: &Vec<Json>,
    ) -> (r: Vec<ToolInfo>)
        ensures
            infos(r@) == router_catalog_view(
                catalog_of(self.registry@, infos(routed@), infos(personal@), jsons(mesh@)),
            ),
    {
        let all = merge_catalog(self.registry.list(), routed, personal, mesh);
        keep_named(&all)
    }
}

// ── tool calls ──────────────────────────────────────────────────────────────

/// The result of a call: a text, and whether it is an error.
pub open spec fn text_result(text: Seq<char>, is_error: bool) -> Seq<(Seq<char>, JsonView)> {
    no_fields().push(
        (
            "content"@,
            JsonView::Array(
                seq![
                    JsonView::Object(
                        no_fields().push(("type"@, JsonView::Str("text"@))).push(
                            ("text"@, JsonView::Str(text)),
                        ),
                    ),
                ],
            ),
        ),
    ).push(("isError"@, JsonView::Bool(is_error)))
}

fn make_result(text: &str, is_error: bool) -> (r: Fields)
    ensures
        r@ == text_result(text@, is_error),
{
    let mut part = Fields::new();
    part.put("type", Json::text("text"));
    part.put("text", Json::text(text));
    let mut content: Vec<Json> = Vec::new();
    let item = part.object();
    content.push(item);
    assert(jsons(content@) =~= seq![item@]);
    let mut f = Fields::new();
    f.put("content", Json::array(content));
    f.put("isError", Json::Bool(is_error));
    f
}

/// The answer to a call whose result is a text.
pub open spec fn text_answer(id: JsonView, text: Seq<char>, is_error: bool) -> ResponseView {
    framed(rpc_result(id, JsonView::Object(text_result(text, is_error))), ""@)
}

fn answer_text(call: &ToolCall, text: &str, is_error: bool) -> (r: HttpResponse)
    ensures
        r@ == text_answer(call.id@, text@, is_error),
{
    sse_response(call.id.copy(), Ok(make_result(text, is_error).object()), "")
}

/// The answer to a call that a tool of this process, or of a worker, carried out.
pub open spec fn output_answer(id: JsonView, text: Seq<char>, structured: Option<JsonView>) -> ResponseView {
    framed(
        rpc_result(
            id,
            JsonView::Object(
                match structured {
                    Some(v) => text_result(text, false).push(("structuredContent"@, v)),
                    None => text_result(text, false),
                },
            ),
        ),
        ""@,
    )
}

fn answer_output(call: &ToolCall, output: &ToolOutput) -> (r: HttpResponse)
    ensures
        r@ == output_answer(call.id@, output.text@, opt_json_owned(output.structured)),
{
    let f = make_result(output.text.as_str(), false);
    let result = match &output.structured {
        Some(v) => f.with("structuredContent", v.copy()).object(),
        None => f.object(),
    };
    sse_response(call.id.copy(), Ok(result), "")
}

/// The message in a gateway's refusal: its `error`, or else all of it.
pub open spec fn denial_message(body: Seq<u8>, read: Result<JsonView, Seq<char>>) -> Seq<char> {
    match read {
        Ok(v) => match v.text_at("error"@) {
            Some(e) => e,
            None => lossy(body),
        },
        Err(_) => lossy(body),
    }
}

/// Picks the message of a gateway's refusal as [`denial_message`] says, once its body was parsed.
pub fn pick_message(body: &[u8], read: Result<Json, String>) -> (r: String)
    ensures
        r@ == denial_message(body@, read_view(read)),
{
    match read {
        Ok(v) => match v.str_at("error") {
            Some(e) => owned(e),
            None => lossy_text(body),
        },
        Err(_) => lossy_text(body),
    }
}

/// Reads the message in a gateway's refusal as [`denial_message`] says.
pub fn response_body_text(body: &[u8]) -> (r: String)
    ensures
        r@ == denial_message(body@, parsed_bytes(body@)),
{
    pick_message(body, parse_bytes(body))
}

/// Why a call to an upstream was not passed on.
#[derive(Debug, Clone, Copy, PartialEq, Eq, Structural)]
pub enum AuditDecision {
    Deny,
    ApprovalRequired,
}

/// The record of a call to an upstream that was not passed on.
#[derive(Debug, PartialEq, Eq)]
pub struct FederatedAudit {
    pub principal: String,
    pub namespace: String,
    pub name: String,
    pub bare_name: String,
    pub decision: AuditDecision,
    pub detail: String,
}

/// The content of a [`FederatedAudit`].
pub struct FederatedAuditView {
    pub principal: Seq<char>,
    pub namespace: Seq<char>,
    pub name: Seq<char>,
    pub bare_name: Seq<char>,
    pub decision: AuditDecision,
    pub detail: Seq<char>,
}

impl View for FederatedAudit {
    type V = FederatedAuditView;

    open spec fn view(&self) -> FederatedAuditView {
        FederatedAuditView {
            principal: self.principal@,
            namespace: self.namespace@,
            name: self.name@,
            bare_name: self.bare_name@,
            decision: self.decision,
            detail: self.detail@,
        }
    }
}

/// A tool on an upstream: the upstream's namespace, and the tool's name there.
#[derive(Debug, PartialEq, Eq)]
pub struct UpstreamTool {
    pub namespace: String,
    pub bare_name: String,
}

/// The content of an [`UpstreamTool`].
pub struct UpstreamView {
    pub namespace: Seq<char>,
    pub bare_name: Seq<char>,
}

impl View for UpstreamTool {
    type V = UpstreamView;

    open spec fn view(&self) -> UpstreamView {
        UpstreamView { namespace: self.namespace@, bare_name: self.bare_name@ }
    }
}

impl UpstreamTool {
    fn copy(&self) -> (r: UpstreamTool)
        ensures
            r@ == self@,
    {
        UpstreamTool {
            namespace: owned(self.namespace.as_str()),
            bare_name: owned(self.bare_name.as_str()),
        }
    }
}

/// The content of an optional upstream tool.
pub open spec fn opt_upstream(u: Option<&UpstreamTool>) -> Option<UpstreamView> {
    match u {
        Some(x) => Some(x@),
        None => None,
    }
}

/// A call that is refused, and the record of it where it was for an upstream.
#[derive(Debug, PartialEq, Eq)]
pub struct Refusal {
    pub response: HttpResponse,
    pub audit: Option<FederatedAudit>,
}

/// The content of a [`Refusal`].
pub struct RefusalView {
    pub response: ResponseView,
    pub audit: Option<FederatedAuditView>,
}

impl View for Refusal {
    type V = RefusalView;

    open spec fn view(&self) -> RefusalView {
        RefusalView {
            response: self.response@,
            audit: match self.audit {
                Some(a) => Some(a@),
                None => None,
            },
        }
    }
}

/// Whether a call may go on: the gateway's refusal counts first, and only then whether the tool
/// works, so that a caller who may not use a tool does not learn of its state.
pub open spec fn screening(
    id: JsonView,
    name: Seq<char>,
    identity: Seq<char>,
    upstream: Option<UpstreamView>,
    denial: Option<Seq<char>>,
    unusable: Option<Seq<char>>,
) -> Option<RefusalView> {
    match denial {
        Some(message) => Some(
            RefusalView {
                response: text_answer(id, message, true),
                audit: match upstream {
                    Some(u) => Some(
                        FederatedAuditView {
                            principal: identity,
                            namespace: u.namespace,
                            name,
                            bare_name: u.bare_name,
                            decision: AuditDecision::Deny,
                            detail: message,
                        },
                    ),
                    None => None,
                },
            },
        ),
        None => match unusable {
            Some(message) => if name.len() > 0 {
                Some(RefusalView { response: text_answer(id, message, true), audit: None })
            } else {
                None
            },
            None => None,
        },
    }
}

/// The content of an optional refusal.
pub open spec fn opt_refusal(r: Option<Refusal>) -> Option<RefusalView> {
    match r {
        Some(x) => Some(x@),
        None => None,
    }
}

/// The message of an optional refusal of the gateway.
pub open spec fn opt_denial(denial: Option<&[u8]>) -> Option<Seq<char>> {
    match denial {
        Some(body) => Some(denial_message(body@, parsed_bytes(body@))),
        None => None,
    }
}

/// Finds out whether a call may go on as [`screening`] says. `identity` is the name that records
/// carry for the caller, `upstream` what the called name says about an upstream, `denial` the
/// message of the gateway's refusal where it refuses, and `unusable` why the tool does not work
/// where it does not.
pub fn screen(
    call: &ToolCall,
    identity: &str,
    upstream: Option<&UpstreamTool>,
    denial: Option<&str>,
    unusable: Option<&str>,
) -> (r: Option<Refusal>)
    ensures
        opt_refusal(r) == screening(
            call.id@,
            call.name@,
            identity@,
            opt_upstream(upstream),
            opt_str(denial),
            opt_str(unusable),
        ),
{
    if let Some(message) = denial {
        let response = answer_text(call, message, true);
        let audit = match upstream {
            Some(u) => Some(
                FederatedAudit {
                    principal: owned(identity),
                    namespace: owned(u.namespace.as_str()),
                    name: owned(call.name.as_str()),
                    bare_name: owned(u.bare_name.as_str()),
                    decision: AuditDecision::Deny,
                    detail: owned(message),
                },
            ),
            None => None,
        };
        return Some(Refusal { response, audit });
    }
    match unusable {
        Some(message) => {
            if call.name.as_str().is_empty() {
                None
            } else {
                Some(Refusal { response: answer_text(call, message, true), audit: None })
            }
        },
        None => None,
    }
}

/// Finds out whether a call may go on, as [`screen`] does, from the body of the gateway's refusal.
pub fn screen_call(
    call: &ToolCall,
    identity: &str,
    upstream: Option<&UpstreamTool>,
    denial: Option<&[u8]>,
    unusable: Option<&str>,
) -> (r: Option<Refusal>)
    ensures
        opt_refusal(r) == screening(
            call.id@,
            call.name@,
            identity@,
            opt_upstream(upstream),
            opt_denial(denial),
            opt_str(unusable),
        ),
{
    match denial {
        Some(body) => {
            let message = response_body_text(body);
            screen(call, identity, upstream, Some(message.as_str()), unusable)
        },
        None => screen(call, identity, upstream, None, unusable),
    }
}

/// What a refused caller is answered does not depend on whether the tool works.
pub proof fn refused_callers_learn_no_state(
    id: JsonView,
    name: Seq<char>,
    identity: Seq<char>,
    upstream: Option<UpstreamView>,
    message: Seq<char>,
    unusable: Option<Seq<char>>,
    other: Option<Seq<char>>,
)
    ensures
        screening(id, name, identity, upstream, Some(message), unusable) == screening(
            id,
            name,
            identity,
            upstream,
            Some(message),
            other,
        ),
{
}

/// A refused call to an upstream always leaves a record.
pub proof fn refused_upstream_calls_are_recorded(
    id: JsonView,
    name: Seq<char>,
    identity: Seq<char>,
    upstream: UpstreamView,
    message: Seq<char>,
    unusable: Option<Seq<char>>,
)
    ensures
        screening(id, name, identity, Some(upstream), Some(message), unusable) matches Some(r)
            && r.audit matches Some(a) && a.decision == AuditDecision::Deny,
{
}

/// The argument that carries an approval to the gateway and no further.
pub const APPROVAL_ARG: &'static str = "_approval_code";

/// Where a called name leads.
#[derive(Debug, PartialEq, Eq)]
pub enum CallRoute {
    /// To a tool on a healthy upstream.
    Upstream(UpstreamTool),
    /// To an upstream that is not available.
    Unavailable(String),
    /// To none.
    Local,
}

/// The content of a [`CallRoute`].
pub enum RouteView {
    Upstream(UpstreamView),
    Unavailable(Seq<char>),
    Local,
}

impl View for CallRoute {
    type V = RouteView;

    open spec fn view(&self) -> RouteView {
        match *self {
            CallRoute::Upstream(u) => RouteView::Upstream(u@),
            CallRoute::Unavailable(n) => RouteView::Unavailable(n@),
            CallRoute::Local => RouteView::Local,
        }
    }
}

/// How a call went. `unconsume` is the approval to give back, `transport_failure` says that nobody
/// was reached who could have carried it out.
#[derive(Debug, PartialEq, Eq)]
pub struct CallOutcome {
    pub response: HttpResponse,
    pub success: bool,
    pub detail: Option<String>,
    pub transport_failure: bool,
    pub unconsume: Option<String>,
}

/// The content of a [`CallOutcome`].
pub struct CallOutcomeView {
    pub response: ResponseView,
    pub success: bool,
    pub detail: Option<Seq<char>>,
    pub transport_failure: bool,
    pub unconsume: Option<Seq<char>>,
}

impl View for CallOutcome {
    type V = CallOutcomeView;

    open spec fn view(&self) -> CallOutcomeView {
        CallOutcomeView {
            response: self.response@,
            success: self.success,
            detail: opt_text(self.detail),
            transport_failure: self.transport_failure,
            unconsume: opt_text(self.unconsume),
        }
    }
}

/// The outcome of a call that another server answered.
pub open spec fn answered(id: JsonView, text: Seq<char>, is_error: bool) -> CallOutcomeView {
    CallOutcomeView {
        response: text_answer(id, text, is_error),
        success: !is_error,
        detail: None,
        transport_failure: false,
        unconsume: None,
    }
}

/// The outcome of a call that failed with a message.
pub open spec fn failed_with(
    id: JsonView,
    message: Seq<char>,
    transport_failure: bool,
    unconsume: Option<Seq<char>>,
) -> CallOutcomeView {
    CallOutcomeView {
        response: text_answer(id, message, true),
        success: false,
        detail: Some(message),
        transport_failure,
        unconsume,
    }
}

fn make_answered(call: &ToolCall, text: &str, is_error: bool) -> (r: CallOutcome)
    ensures
        r@ == answered(call.id@, text@, is_error),
{
    CallOutcome {
        response: answer_text(call, text, is_error),
        success: !is_error,
        detail: None,
        transport_failure: false,
        unconsume: None,
    }
}

fn make_failed(call: &ToolCall, message: String, transport_failure: bool, unconsume: Option<&str>)
    -> (r: CallOutcome)
    ensures
        r@ == failed_with(call.id@, message@, transport_failure, opt_str(unconsume)),
{
    CallOutcome {
        response: answer_text(call, message.as_str(), true),
        success: false,
        detail: Some(message),
        transport_failure,
        unconsume: owned_opt(unconsume),
    }
}

/// What is done with a call that may go on.
#[derive(Debug, PartialEq, Eq)]
pub enum CallPlan {
    /// An approval is asked for first; `code` is the one that the caller presents.
    AskApproval { tool: UpstreamTool, summary: String, code: Option<String> },
    /// It is passed on to an upstream with these arguments.
    PassOn { tool: UpstreamTool, arguments: Json },
    /// It is over.
    Finish(CallOutcome),
    /// It is looked for here, among workers, and in the personal backend, in this order.
    LookUp,
}

/// The content of a [`CallPlan`].
pub enum CallPlanView {
    AskApproval { tool: UpstreamView, summary: Seq<char>, code: Option<Seq<char>> },
    PassOn { tool: UpstreamView, arguments: JsonView },
    Finish(CallOutcomeView),
    LookUp,
}

impl View for CallPlan {
    type V = CallPlanView;

    open spec fn view(&self) -> CallPlanView {
        match *self {
            CallPlan::AskApproval { tool, summary, code } => CallPlanView::AskApproval {
                tool: tool@,
                summary: summary@,
                code: opt_text(code),
            },
            CallPlan::PassOn { tool, arguments } => CallPlanView::PassOn {
                tool: tool@,
                arguments: arguments@,
            },
            CallPlan::Finish(o) => CallPlanView::Finish(o@),
            CallPlan::LookUp => CallPlanView::LookUp,
        }
    }
}

/// What is done with a call that may go on: one to a guarded tool of an upstream waits for an
/// approval, any other to an upstream is passed on, and in either case without the approval code.
pub open spec fn plan_of(
    id: JsonView,
    arguments: JsonView,
    route: Option<RouteView>,
    guarded: bool,
    unavailable: Seq<char>,
) -> CallPlanView {
    match route {
        Some(RouteView::Upstream(tool)) => if guarded {
            CallPlanView::AskApproval {
                tool,
                summary: "federated call \""@ + tool.bare_name + "\" on mesh upstream \""@
                    + tool.namespace + "\""@,
                code: arguments.text_at(APPROVAL_ARG@),
            }
        } else {
            CallPlanView::PassOn { tool, arguments: arguments.without_field(APPROVAL_ARG@) }
        },
        Some(RouteView::Unavailable(_)) => CallPlanView::Finish(
            failed_with(id, unavailable, true, None),
        ),
        Some(RouteView::Local) => CallPlanView::LookUp,
        None => CallPlanView::LookUp,
    }
}

/// The content of an optional route.
pub open spec fn opt_route(r: Option<CallRoute>) -> Option<RouteView> {
    match r {
        Some(x) => Some(x@),
        None => None,
    }
}

/// Decides what is done with a call that may go on as [`plan_of`] says. `guarded` says whether the
/// upstream's tool takes an approval, `unavailable` what is said of an upstream that is not
/// available.
pub fn plan_call(call: &ToolCall, route: &Option<CallRoute>, guarded: bool, unavailable: &str) -> (
r: CallPlan)
    ensures
        r@ == plan_of(call.id@, call.arguments@, opt_route(*route), guarded, unavailable@),
{
    match route {
        Some(CallRoute::Upstream(tool)) => {
            if guarded {
                let summary = cat5(
                    "federated call \"",
                    tool.bare_name.as_str(),
                    "\" on mesh upstream \"",
                    tool.namespace.as_str(),
                    "\"",
                );
                let code = owned_opt(call.arguments.str_at(APPROVAL_ARG));
                CallPlan::AskApproval { tool: tool.copy(), summary, code }
            } else {
                CallPlan::PassOn {
                    tool: tool.copy(),
                    arguments: call.arguments.without_field(APPROVAL_ARG),
                }
            }
        },
        Some(CallRoute::Unavailable(_)) => CallPlan::Finish(
            make_failed(call, owned(unavailable), true, None),
        ),
        Some(CallRoute::Local) => CallPlan::LookUp,
        None => CallPlan::LookUp,
    }
}

/// What an approver says.
#[derive(Debug, PartialEq, Eq)]
pub enum Approval {
    Granted,
    Pending(String),
    Denied(String),
}

/// What a call does once the approver has spoken: it is passed on, or refused with a record.
#[derive(Debug, PartialEq, Eq)]
pub enum Approved {
    PassOn { arguments: Json },
    Refused(Refusal),
}

/// The refusal of a call that was not approved.
pub open spec fn unapproved(
    id: JsonView,
    name: Seq<char>,
    identity: Seq<char>,
    tool: UpstreamView,
    message: Seq<char>,
) -> RefusalView {
    RefusalView {
        response: text_answer(id, message, true),
        audit: Some(
            FederatedAuditView {
                principal: identity,
                namespace: tool.namespace,
                name,
                bare_name: tool.bare_name,
                decision: AuditDecision::ApprovalRequired,
                detail: message,
            },
        ),
    }
}

fn refuse_unapproved(call: &ToolCall, identity: &str, tool: &UpstreamTool, message: String) -> (r:
    Refusal)
    ensures
        r@ == unapproved(call.id@, call.name@, identity@, tool@, message@),
{
    let response = answer_text(call, message.as_str(), true);
    Refusal {
        response,
        audit: Some(
            FederatedAudit {
                principal: owned(identity),
                namespace: owned(tool.namespace.as_str()),
                name: owned(call.name.as_str()),
                bare_name: owned(tool.bare_name.as_str()),
                decision: AuditDecision::ApprovalRequired,
                detail: message,
            },
        ),
    }
}

/// Goes on with a call once the approver has spoken: only a grant passes it on.
pub fn on_approval(call: &ToolCall, identity: &str, tool: &UpstreamTool, approval: &Approval) -> (r:
    Approved)
    ensures
        match *approval {
            Approval::Granted => r matches Approved::PassOn { arguments } && arguments@
                == call.arguments@.without_field(APPROVAL_ARG@),
            Approval::Pending(m) => r matches Approved::Refused(x) && x@ == unapproved(
                call.id@,
                call.name@,
                identity@,
                tool@,
                m@,
            ),
            Approval::Denied(m) => r matches Approved::Refused(x) && x@ == unapproved(
                call.id@,
                call.name@,
                identity@,
                tool@,
                m@,
            ),
        },
{
    match approval {
        Approval::Granted => Approved::PassOn {
            arguments: call.arguments.without_field(APPROVAL_ARG),
        },
        Approval::Pending(m) => Approved::Refused(
            refuse_unapproved(call, identity, tool, owned(m.as_str())),
        ),
        Approval::Denied(m) => Approved::Refused(
            refuse_unapproved(call, identity, tool, owned(m.as_str())),
        ),
    }
}

/// What another server said to a call, or why it could not be reached.
#[derive(Debug, PartialEq, Eq)]
pub enum RemoteAnswer {
    Said { text: String, is_error: bool },
    Unreached(String),
}

/// The content of a [`RemoteAnswer`].
pub enum RemoteView {
    Said { text: Seq<char>, is_error: bool },
    Unreached(Seq<char>),
}

impl View for RemoteAnswer {
    type V = RemoteView;

    open spec fn view(&self) -> RemoteView {
        match *self {
            RemoteAnswer::Said { text, is_error } => RemoteView::Said { text: text@, is_error },
            RemoteAnswer::Unreached(e) => RemoteView::Unreached(e@),
        }
    }
}

/// The outcome of a call that was passed on to an upstream. Where the upstream was not reached, an
/// approval that was spent on the call is given back.
pub open spec fn upstream_outcome(
    id: JsonView,
    namespace: Seq<char>,
    answer: RemoteView,
    approval: Option<Seq<char>>,
) -> CallOutcomeView {
    match answer {
        RemoteView::Said { text, is_error } => answered(id, text, is_error),
        RemoteView::Unreached(e) => failed_with(
            id,
            "mesh upstream \""@ + namespace + "\" call failed: "@ + e,
            true,
            approval,
        ),
    }
}

/// Concludes a call that was passed on to an upstream as [`upstream_outcome`] says. `approval` is
/// the code that was spent on it, where the tool is guarded and the caller presented one.
pub fn on_upstream(call: &ToolCall, namespace: &str, answer: &RemoteAnswer, approval: Option<&str>)
    -> (r: CallOutcome)
    ensures
        r@ == upstream_outcome(call.id@, namespace@, answer@, opt_str(approval)),
{
    match answer {
        RemoteAnswer::Said { text, is_error } => make_answered(call, text.as_str(), *is_error),
        RemoteAnswer::Unreached(e) => {
            let message = cat4(
                "mesh upstream \"",
                namespace,
                "\" call failed: ",
                e.as_str(),
            );
            make_failed(call, message, true, approval)
        },
    }
}

/// An upstream that was not reached is recorded as such, guarded tool or not.
pub proof fn unreached_upstreams_are_transport_failures(
    id: JsonView,
    namespace: Seq<char>,
    error: Seq<char>,
    approval: Option<Seq<char>>,
)
    ensures
        upstream_outcome(id, namespace, RemoteView::Unreached(error), approval).transport_failure,
        !upstream_outcome(id, namespace, RemoteView::Unreached(error), approval).success,
        upstream_outcome(id, namespace, RemoteView::Unreached(error), approval).unconsume
            == approval,
{
}

/// The outcome of a call that a tool carried out, or failed to.
pub open spec fn executed(
    id: JsonView,
    result: Result<ToolOutput, ToolError>,
    transport_failure: bool,
) -> CallOutcomeView {
    match result {
        Ok(output) => CallOutcomeView {
            response: output_answer(id, output.text@, opt_json_owned(output.structured)),
            success: true,
            detail: None,
            transport_failure: false,
            unconsume: None,
        },
        Err(e) => failed_with(id, e@.message(), transport_failure, None),
    }
}

fn make_executed(call: &ToolCall, result: &Result<ToolOutput, ToolError>, transport_failure: bool)
    -> (r: CallOutcome)
    ensures
        r@ == executed(call.id@, *result, transport_failure),
{
    match result {
        Ok(output) => CallOutcome {
            response: answer_output(call, output),
            success: true,
            detail: None,
            transport_failure: false,
            unconsume: None,
        },
        Err(e) => make_failed(call, owned(e.message()), transport_failure, None),
    }
}

/// The outcome of a call, where this process has the tool; a failure is the tool's own.
pub fn on_core(call: &ToolCall, result: &Option<Result<ToolOutput, ToolError>>) -> (r: Option<
    CallOutcome,
>)
    ensures
        match *result {
            Some(x) => r matches Some(o) && o@ == executed(call.id@, x, false),
            None => r is None,
        },
{
    match result {
        Some(x) => Some(make_executed(call, x, false)),
        None => None,
    }
}

/// The outcome of a call, where a worker has the tool; any failure is taken for one to reach it.
pub fn on_worker(call: &ToolCall, result: &Option<Result<ToolOutput, ToolError>>) -> (r: Option<
    CallOutcome,
>)
    ensures
        match *result {
            Some(x) => r matches Some(o) && o@ == executed(call.id@, x, true),
            None => r is None,
        },
{
    match result {
        Some(x) => Some(make_executed(call, x, true)),
        None => None,
    }
}

/// The outcome of a call that nobody here has a tool for: that of the personal backend where there
/// is one, and otherwise that the tool is unknown.
pub open spec fn last_resort(id: JsonView, name: Seq<char>, personal: Option<RemoteView>) -> CallOutcomeView {
    match personal {
        Some(RemoteView::Said { text, is_error }) => answered(id, text, is_error),
        Some(RemoteView::Unreached(e)) => failed_with(
            id,
            "federation error: could not reach personal-tool backend via chord relay ("@ + e
                + ")"@,
            false,
            None,
        ),
        None => failed_with(id, "Unknown tool: "@ + name, false, None),
    }
}

/// The content of an optional answer.
pub open spec fn opt_remote(a: Option<RemoteAnswer>) -> Option<RemoteView> {
    match a {
        Some(x) => Some(x@),
        None => None,
    }
}

/// Concludes a call that nobody here has a tool for as [`last_resort`] says.
pub fn on_personal(call: &ToolCall, personal: &Option<RemoteAnswer>) -> (r: CallOutcome)
    ensures
        r@ == last_resort(call.id@, call.name@, opt_remote(*personal)),
{
    match personal {
        Some(RemoteAnswer::Said { text, is_error }) => make_answered(call, text.as_str(), *is_error),
        Some(RemoteAnswer::Unreached(e)) => {
            let message = cat3(
                "federation error: could not reach personal-tool backend via chord relay (",
                e.as_str(),
                ")",
            );
            make_failed(call, message, false, None)
        },
        None => {
            let message = cat2("Unknown tool: ", call.name.as_str());
            make_failed(call, message, false, None)
        },
    }
}

/// What a call is counted under: the upstream that its route names, where it names one.
pub fn metric_namespace(route: &Option<CallRoute>) -> (r: Option<&str>)
    ensures
        opt_str(r) == (match opt_route(*route) {
            Some(RouteView::Upstream(u)) => Some(u.namespace),
            Some(RouteView::Unavailable(n)) => Some(n),
            _ => None,
        }),
{
    match route {
        Some(CallRoute::Upstream(u)) => Some(u.namespace.as_str()),
        Some(CallRoute::Unavailable(n)) => Some(n.as_str()),
        _ => None,
    }
}

/// The upstream that the record of a finished call names: the one it was passed on to, or the one
/// that was not available, under the whole name that was called.
pub open spec fn recorded_upstream(route: Option<RouteView>, name: Seq<char>) -> Option<UpstreamView> {
    match route {
        Some(RouteView::Upstream(tool)) => Some(tool),
        Some(RouteView::Unavailable(namespace)) => Some(UpstreamView { namespace, bare_name: name }),
        _ => None,
    }
}

/// The content of what a record names.
pub open spec fn recorded_view(u: Option<UpstreamTool>) -> Option<UpstreamView> {
    match u {
        Some(x) => Some(x@),
        None => None,
    }
}

/// Names the upstream of a finished call as [`recorded_upstream`] says.
pub fn record_upstream(route: &Option<CallRoute>, name: &str) -> (r: Option<UpstreamTool>)
    ensures
        recorded_view(r) == recorded_upstream(opt_route(*route), name@),
{
    match route {
        Some(CallRoute::Upstream(tool)) => Some(tool.copy()),
        Some(CallRoute::Unavailable(namespace)) => Some(
            UpstreamTool { namespace: owned(namespace.as_str()), bare_name: owned(name) },
        ),
        _ => None,
    }
}

// ── a call from beginning to end ────────────────────────────────────────────

/// What is known about a call, and what was heard so far from those that were asked about it. Each
/// of `core`, `worker` and `personal` is absent until that one was asked, and then says whether it
/// has the tool and what came of it.
#[derive(Debug)]
pub struct CallFacts {
    /// The name that records carry for the caller.
    pub identity: String,
    /// What the called name says about an upstream.
    pub upstream: Option<UpstreamTool>,
    /// The body of the gateway's refusal, where it refuses.
    pub denial: Option<Vec<u8>>,
    /// Why the tool does not work, where it does not.
    pub unusable: Option<String>,
    /// Where the called name leads, where there are upstreams at all.
    pub route: Option<CallRoute>,
    /// Whether the upstream's tool takes an approval.
    pub guarded: bool,
    /// What is said of an upstream that is not available.
    pub unavailable: String,
    /// What the approver said.
    pub approval: Option<Approval>,
    /// What the upstream said.
    pub answer: Option<RemoteAnswer>,
    pub core: Option<Option<Result<ToolOutput, ToolError>>>,
    pub worker: Option<Option<Result<ToolOutput, ToolError>>>,
    pub personal: Option<Option<RemoteAnswer>>,
}

/// What is done next about a call.
#[derive(Debug, PartialEq, Eq)]
pub enum CallAction {
    /// It is refused.
    Refuse(Refusal),
    /// An approval is asked for; `code` is the one that the caller presents.
    AskApproval { tool: UpstreamTool, summary: String, code: Option<String> },
    /// An upstream is called with these arguments.
    CallUpstream { tool: UpstreamTool, arguments: Json },
    /// This process is asked for the tool, with these arguments.
    CallCore(Json),
    /// The workers are asked for the tool, with these arguments.
    CallWorker(Json),
    /// The personal backend, if there is one, is asked for the tool, with these arguments.
    CallPersonal(Json),
    /// It is over; `upstream` is the one that the record of the call names.
    Finish { outcome: CallOutcome, upstream: Option<UpstreamTool> },
}

/// The content of a [`CallAction`].
pub enum CallActionView {
    Refuse(RefusalView),
    AskApproval { tool: UpstreamView, summary: Seq<char>, code: Option<Seq<char>> },
    CallUpstream { tool: UpstreamView, arguments: JsonView },
    CallCore(JsonView),
    CallWorker(JsonView),
    CallPersonal(JsonView),
    Finish { outcome: CallOutcomeView, upstream: Option<UpstreamView> },
}

impl View for CallAction {
    type V = CallActionView;

    open spec fn view(&self) -> CallActionView {
        match *self {
            CallAction::Refuse(r) => CallActionView::Refuse(r@),
            CallAction::AskApproval { tool, summary, code } => CallActionView::AskApproval {
                tool: tool@,
                summary: summary@,
                code: opt_text(code),
            },
            CallAction::CallUpstream { tool, arguments } => CallActionView::CallUpstream {
                tool: tool@,
                arguments: arguments@,
            },
            CallAction::CallCore(arguments) => CallActionView::CallCore(arguments@),
            CallAction::CallWorker(arguments) => CallActionView::CallWorker(arguments@),
            CallAction::CallPersonal(arguments) => CallActionView::CallPersonal(arguments@),
            CallAction::Finish { outcome, upstream } => CallActionView::Finish {
                outcome: outcome@,
                upstream: recorded_view(upstream),
            },
        }
    }
}

impl CallFacts {
    /// What the called name says about an upstream.
    pub open spec fn upstream_view(&self) -> Option<UpstreamView> {
        match self.upstream {
            Some(u) => Some(u@),
            None => None,
        }
    }

    /// The message of the gateway's refusal.
    pub open spec fn denial_text(&self) -> Option<Seq<char>> {
        match self.denial {
            Some(body) => Some(denial_message(body@, parsed_bytes(body@))),
            None => None,
        }
    }

    /// Whether the gateway or the tool's own state refuses the call.
    pub open spec fn screened(&self, id: JsonView, name: Seq<char>) -> Option<RefusalView> {
        screening(
            id,
            name,
            self.identity@,
            self.upstream_view(),
            self.denial_text(),
            opt_text(self.unusable),
        )
    }

    /// The end of a call.
    pub open spec fn over(&self, name: Seq<char>, outcome: CallOutcomeView) -> CallActionView {
        CallActionView::Finish {
            outcome,
            upstream: recorded_upstream(opt_route(self.route), name),
        }
    }

    /// What is done about a call that is passed on to an upstream.
    pub open spec fn passed_on(
        &self,
        id: JsonView,
        name: Seq<char>,
        tool: UpstreamView,
        arguments: JsonView,
        approval: Option<Seq<char>>,
    ) -> CallActionView {
        match self.answer {
            None => CallActionView::CallUpstream { tool, arguments },
            Some(answer) => self.over(
                name,
                upstream_outcome(id, tool.namespace, answer@, approval),
            ),
        }
    }

    /// What is done about a call that is looked for: here, then among workers, then in the personal
    /// backend.
    pub open spec fn looked_for(
        &self,
        id: JsonView,
        name: Seq<char>,
        arguments: JsonView,
    ) -> CallActionView {
        match self.core {
            None => CallActionView::CallCore(arguments),
            Some(Some(result)) => self.over(name, executed(id, result, false)),
            Some(None) => match self.worker {
                None => CallActionView::CallWorker(arguments),
                Some(Some(result)) => self.over(name, executed(id, result, true)),
                Some(None) => match self.personal {
                    None => CallActionView::CallPersonal(arguments),
                    Some(answer) => self.over(name, last_resort(id, name, opt_remote(answer))),
                },
            },
        }
    }

    /// What is done next about a call.
    pub open spec fn next(&self, id: JsonView, name: Seq<char>, arguments: JsonView) -> CallActionView {
        match self.screened(id, name) {
            Some(refusal) => CallActionView::Refuse(refusal),
            None => match plan_of(
                id,
                arguments,
                opt_route(self.route),
                self.guarded,
                self.unavailable@,
            ) {
                CallPlanView::AskApproval { tool, summary, code } => match self.approval {
                    None => CallActionView::AskApproval { tool, summary, code },
                    Some(Approval::Granted) => self.passed_on(
                        id,
                        name,
                        tool,
                        arguments.without_field(APPROVAL_ARG@),
                        code,
                    ),
                    Some(Approval::Pending(m)) => CallActionView::Refuse(
                        unapproved(id, name, self.identity@, tool, m@),
                    ),
                    Some(Approval::Denied(m)) => CallActionView::Refuse(
                        unapproved(id, name, self.identity@, tool, m@),
                    ),
                },
                CallPlanView::PassOn { tool, arguments: stripped } => self.passed_on(
                    id,
                    name,
                    tool,
                    stripped,
                    None,
                ),
                CallPlanView::Finish(outcome) => self.over(name, outcome),
                CallPlanView::LookUp => self.looked_for(id, name, arguments),
            },
        }
    }

    fn end(&self, call: &ToolCall, outcome: CallOutcome) -> (r: CallAction)
        ensures
            r@ == self.over(call.name@, outcome@),
    {
        CallAction::Finish { outcome, upstream: record_upstream(&self.route, call.name.as_str()) }
    }

    fn pass_on(&self, call: &ToolCall, tool: UpstreamTool, arguments: Json, approval: Option<&str>)
        -> (r: CallAction)
        ensures
            r@ == self.passed_on(call.id@, call.name@, tool@, arguments@, opt_str(approval)),
    {
        match &self.answer {
            None => CallAction::CallUpstream { tool, arguments },
            Some(answer) => self.end(
                call,
                on_upstream(call, tool.namespace.as_str(), answer, approval),
            ),
        }
    }

    fn look_for(&self, call: &ToolCall) -> (r: CallAction)
        ensures
            r@ == self.looked_for(call.id@, call.name@, call.arguments@),
    {
        let core = match &self.core {
            None => {
                return CallAction::CallCore(call.arguments.copy());
            },
            Some(result) => result,
        };
        if let Some(outcome) = on_core(call, core) {
            return self.end(call, outcome);
        }
        let worker = match &self.worker {
            None => {
                return CallAction::CallWorker(call.arguments.copy());
            },
            Some(result) => result,
        };
        if let Some(outcome) = on_worker(call, worker) {
            return self.end(call, outcome);
        }
        match &self.personal {
            None => CallAction::CallPersonal(call.arguments.copy()),
            Some(answer) => self.end(call, on_personal(call, answer)),
        }
    }

    /// Carries a call on to its next step as [`Self::next`] says.
    pub fn advance(&self, call: &ToolCall) -> (r: CallAction)
        ensures
            r@ == self.next(call.id@, call.name@, call.arguments@),
    {
        let upstream = match &self.upstream {
            Some(u) => Some(u),
            None => None,
        };
        let denial = match &self.denial {
            Some(body) => Some(body.as_slice()),
            None => None,
        };
        let refusal = screen_call(
            call,
            self.identity.as_str(),
            upstream,
            denial,
            borrow(&self.unusable),
        );
        if let Some(r) = refusal {
            return CallAction::Refuse(r);
        }
        match plan_call(call, &self.route, self.guarded, self.unavailable.as_str()) {
            CallPlan::AskApproval { tool, summary, code } => match &self.approval {
                None => CallAction::AskApproval { tool, summary, code },
                Some(approval) => match on_approval(call, self.identity.as_str(), &tool, approval) {
                    Approved::PassOn { arguments } => self.pass_on(
                        call,
                        tool,
                        arguments,
                        borrow(&code),
                    ),
                    Approved::Refused(r) => CallAction::Refuse(r),
                },
            },
            CallPlan::PassOn { tool, arguments } => self.pass_on(call, tool, arguments, None),
            CallPlan::Finish(outcome) => self.end(call, outcome),
            CallPlan::LookUp => self.look_for(call),
        }
    }
}

/// A call that the gateway refuses reaches nobody, whatever else is known or heard.
pub proof fn refused_calls_reach_nobody(
    facts: CallFacts,
    id: JsonView,
    name: Seq<char>,
    arguments: JsonView,
)
    requires
        facts.denial is Some,
    ensures
        facts.next(id, name, arguments) is Refuse,
{
}

/// What is listed is what may be called: a named tool is shown exactly where a call of it is let
/// through, when the gateway and the tool's state say the same of both.
pub proof fn shown_tools_are_let_through(
    entry: CatalogEntry,
    facts: CallFacts,
    id: JsonView,
    name: Seq<char>,
)
    requires
        entry.tool@.text_at("name"@) == Some(name),
        name.len() > 0,
        entry.allowed <==> facts.denial is None,
        entry.usable <==> facts.unusable is None,
    ensures
        is_shown(entry) <==> facts.screened(id, name) is None,
{
}

/// A guarded tool of an upstream is called only once its approval was granted.
pub proof fn guarded_tools_wait_for_approval(
    facts: CallFacts,
    id: JsonView,
    name: Seq<char>,
    arguments: JsonView,
)
    requires
        facts.guarded,
    ensures
        facts.next(id, name, arguments) is CallUpstream ==> facts.approval == Some(
            Approval::Granted,
        ),
{
}

/// An approval code that comes with a call is never passed on to an upstream, and nothing else of
/// the arguments is changed.
pub proof fn upstreams_see_no_approval_codes(
    facts: CallFacts,
    id: JsonView,
    name: Seq<char>,
    arguments: JsonView,
    other: Seq<char>,
)
    ensures
        facts.next(id, name, arguments) matches CallActionView::CallUpstream {
            tool,
            arguments: sent,
        } ==> {
            &&& sent.field(APPROVAL_ARG@) is None
            &&& other != APPROVAL_ARG@ ==> sent.field(other) == arguments.field(other)
        },
{
    crate::json::without_field_removes_one_field(arguments, APPROVAL_ARG@, other);
}

/// Whoever is asked for a tool that no upstream has is given the arguments as they came.
pub proof fn own_tools_get_the_arguments_whole(
    facts: CallFacts,
    id: JsonView,
    name: Seq<char>,
    arguments: JsonView,
)
    ensures
        facts.next(id, name, arguments) matches CallActionView::CallCore(sent) ==> sent
            == arguments,
        facts.next(id, name, arguments) matches CallActionView::CallWorker(sent) ==> sent
            == arguments,
        facts.next(id, name, arguments) matches CallActionView::CallPersonal(sent) ==> sent
            == arguments,
{
}

/// The record of a finished call names the upstream whose tool was called, and none where the call
/// was answered here, by a worker or by the personal backend.
pub proof fn records_name_the_upstream(
    facts: CallFacts,
    id: JsonView,
    name: Seq<char>,
    arguments: JsonView,
)
    ensures
        facts.next(id, name, arguments) matches CallActionView::Finish { outcome: _, upstream }
            ==> {
            &&& opt_route(facts.route) matches Some(RouteView::Upstream(tool)) ==> upstream == Some(
                tool,
            )
            &&& opt_route(facts.route) matches Some(RouteView::Unavailable(namespace)) ==> upstream
                == Some(UpstreamView { namespace, bare_name: name })
            &&& facts.route is None || opt_route(facts.route) == Some(RouteView::Local)
                ==> upstream is None
        },
{
}

/// A name that leads to an upstream is never looked for anywhere else, whether that upstream is
/// available or not.
pub proof fn upstream_names_stay_upstream(
    facts: CallFacts,
    id: JsonView,
    name: Seq<char>,
    arguments: JsonView,
)
    requires
        facts.route is Some,
        facts.route != Some(CallRoute::Local),
    ensures
        !(facts.next(id, name, arguments) is CallCore),
        !(facts.next(id, name, arguments) is CallWorker),
        !(facts.next(id, name, arguments) is CallPersonal),
{
}

/// A worker is asked only where this process has no such tool, and the personal backend only where
/// no worker has one either.
pub proof fn calls_keep_the_precedence(
    facts: CallFacts,
    id: JsonView,
    name: Seq<char>,
    arguments: JsonView,
)
    ensures
        facts.next(id, name, arguments) is CallWorker ==> facts.core == Some(
            None::<Result<ToolOutput, ToolError>>,
        ),
        facts.next(id, name, arguments) is CallPersonal ==> facts.core == Some(
            None::<Result<ToolOutput, ToolError>>,
        ) && facts.worker == Some(None::<Result<ToolOutput, ToolError>>),
{
}

/// A call of a listed name goes to the source whose tool is listed, and its answer is that
/// source's. The others are not asked, but for those that come first and do not have the tool.
pub proof fn calls_go_to_the_owner(
    facts: CallFacts,
    id: JsonView,
    name: Seq<char>,
    arguments: JsonView,
    core: Seq<InfoView>,
    routed: Seq<InfoView>,
    personal: Seq<InfoView>,
)
    requires
        facts.screened(id, name) is None,
        facts.route is None || facts.route == Some(CallRoute::Local),
        facts.core matches Some(result) ==> (result is Some <==> offers(core, name)),
        facts.worker matches Some(result) ==> (result is Some <==> offers(routed, name)),
    ensures
        match owner_of(core, routed, personal, name) {
            Some(Owner::Core) => facts.next(id, name, arguments) == (match facts.core {
                Some(Some(result)) => facts.over(name, executed(id, result, false)),
                _ => CallActionView::CallCore(arguments),
            }),
            Some(Owner::Worker) => facts.core is Some ==> facts.next(id, name, arguments) == (
            match facts.worker {
                Some(Some(result)) => facts.over(name, executed(id, result, true)),
                _ => CallActionView::CallWorker(arguments),
            }),
            _ => facts.core is Some && facts.worker is Some ==> facts.next(id, name, arguments) == (
            match facts.personal {
                Some(answer) => facts.over(name, last_resort(id, name, opt_remote(answer))),
                None => CallActionView::CallPersonal(arguments),
            }),
        },
{
}

/// However a call ends, it is answered with a frame under status 200, and what went wrong stands in
/// the result.
pub proof fn calls_are_always_answered(
    facts: CallFacts,
    id: JsonView,
    name: Seq<char>,
    arguments: JsonView,
)
    ensures
        facts.next(id, name, arguments) matches CallActionView::Finish { outcome, upstream: _ }
            ==> outcome.response.status == 200 && outcome.response.www_authenticate is None,
        facts.next(id, name, arguments) matches CallActionView::Refuse(r) ==> r.response.status
            == 200 && r.response.www_authenticate is None,
{
}

// ── the router ──────────────────────────────────────────────────────────────

/// What a router's call comes to: a text, or an error as a text.
pub open spec fn routed_text(r: Result<String, String>) -> Result<Seq<char>, Seq<char>> {
    match r {
        Ok(s) => Ok(s@),
        Err(s) => Err(s@),
    }
}

/// What another server's answer comes to.
pub open spec fn remote_text(answer: RemoteView) -> Result<Seq<char>, Seq<char>> {
    match answer {
        RemoteView::Said { text, is_error } => if is_error {
            Err(text)
        } else {
            Ok(text)
        },
        RemoteView::Unreached(e) => Err(e),
    }
}

fn take_remote(answer: &RemoteAnswer) -> (r: Result<String, String>)
    ensures
        routed_text(r) == remote_text(answer@),
{
    match answer {
        RemoteAnswer::Said { text, is_error } => {
            if *is_error {
                Err(owned(text.as_str()))
            } else {
                Ok(owned(text.as_str()))
            }
        },
        RemoteAnswer::Unreached(e) => Err(owned(e.as_str())),
    }
}

/// What a tool's result comes to.
pub open spec fn result_text(result: Result<ToolOutput, ToolError>) -> Result<
    Seq<char>,
    Seq<char>,
> {
    match result {
        Ok(output) => Ok(output.text@),
        Err(e) => Err(e@.message()),
    }
}

fn take_result(result: &Result<ToolOutput, ToolError>) -> (r: Result<String, String>)
    ensures
        routed_text(r) == result_text(*result),
{
    match result {
        Ok(output) => Ok(owned(output.text.as_str())),
        Err(e) => Err(owned(e.message())),
    }
}

/// What was heard so far of a router's call. Each of `core`, `worker` and `personal` is absent
/// until that one was asked, and then says whether it has the tool and what came of it.
#[derive(Debug)]
pub struct Heard {
    pub route: Option<CallRoute>,
    pub upstream: Option<RemoteAnswer>,
    pub core: Option<Option<Result<ToolOutput, ToolError>>>,
    pub worker: Option<Option<Result<ToolOutput, ToolError>>>,
    pub personal: Option<Option<RemoteAnswer>>,
}

/// What is done next about a router's call, with the arguments that go out.
#[derive(Debug, PartialEq, Eq)]
pub enum RouterAction {
    CallUpstream { tool: UpstreamTool, arguments: Json },
    CallCore(Json),
    CallWorker(Json),
    CallPersonal(Json),
    /// It is over, with a text or with an error as a text.
    Done(Result<String, String>),
}

/// The content of a [`RouterAction`].
pub enum RouterView {
    CallUpstream { tool: UpstreamView, arguments: JsonView },
    CallCore(JsonView),
    CallWorker(JsonView),
    CallPersonal(JsonView),
    Done(Result<Seq<char>, Seq<char>>),
}

impl View for RouterAction {
    type V = RouterView;

    open spec fn view(&self) -> RouterView {
        match *self {
            RouterAction::CallUpstream { tool, arguments } => RouterView::CallUpstream {
                tool: tool@,
                arguments: arguments@,
            },
            RouterAction::CallCore(arguments) => RouterView::CallCore(arguments@),
            RouterAction::CallWorker(arguments) => RouterView::CallWorker(arguments@),
            RouterAction::CallPersonal(arguments) => RouterView::CallPersonal(arguments@),
            RouterAction::Done(r) => RouterView::Done(routed_text(r)),
        }
    }
}

/// What is done next about a router's call, by the same precedence as any call: an upstream, this
/// process, a worker, the personal backend. Each is given the arguments as they came.
pub open spec fn router_next(name: Seq<char>, arguments: JsonView, heard: Heard) -> RouterView {
    match opt_route(heard.route) {
        Some(RouteView::Upstream(tool)) => match heard.upstream {
            None => RouterView::CallUpstream { tool, arguments },
            Some(answer) => RouterView::Done(remote_text(answer@)),
        },
        Some(RouteView::Unavailable(namespace)) => RouterView::Done(
            Err("the `"@ + namespace + "` upstream is currently unavailable"@),
        ),
        _ => match heard.core {
            None => RouterView::CallCore(arguments),
            Some(Some(result)) => RouterView::Done(result_text(result)),
            Some(None) => match heard.worker {
                None => RouterView::CallWorker(arguments),
                Some(Some(result)) => RouterView::Done(result_text(result)),
                Some(None) => match heard.personal {
                    None => RouterView::CallPersonal(arguments),
                    Some(Some(answer)) => RouterView::Done(remote_text(answer@)),
                    Some(None) => RouterView::Done(
                        Err("`"@ + name + "` is not a tool that exists here"@),
                    ),
                },
            },
        },
    }
}

impl McpServerState {
    /// Carries a router's call on to its next step as [`router_next`] says.
    pub fn router_dispatch(name: &str, args: &Json, heard: &Heard) -> (r: RouterAction)
        ensures
            r@ == router_next(name@, args@, *heard),
    {
        match &heard.route {
            Some(CallRoute::Upstream(tool)) => {
                return match &heard.upstream {
                    None => RouterAction::CallUpstream {
                        tool: tool.copy(),
                        arguments: args.copy(),
                    },
                    Some(answer) => RouterAction::Done(take_remote(answer)),
                };
            },
            Some(CallRoute::Unavailable(namespace)) => {
                let message = cat3(
                    "the `",
                    namespace.as_str(),
                    "` upstream is currently unavailable",
                );
                return RouterAction::Done(Err(message));
            },
            _ => {},
        }
        match &heard.core {
            None => {
                return RouterAction::CallCore(args.copy());
            },
            Some(Some(result)) => {
                return RouterAction::Done(take_result(result));
            },
            Some(None) => {},
        }
        match &heard.worker {
            None => {
                return RouterAction::CallWorker(args.copy());
            },
            Some(Some(result)) => {
                return RouterAction::Done(take_result(result));
            },
            Some(None) => {},
        }
        match &heard.personal {
            None => RouterAction::CallPersonal(args.copy()),
            Some(Some(answer)) => RouterAction::Done(take_remote(answer)),
            Some(None) => RouterAction::Done(
                Err(cat3("`", name, "` is not a tool that exists here")),
            ),
        }
    }
}

/// A router's call reaches the same tool as a call that came in: whoever is asked next about the
/// one is asked next about the other, where the gateway, the tool's state and no guard stand in the
/// way.
pub proof fn routers_reach_the_same_tools(
    facts: CallFacts,
    heard: Heard,
    id: JsonView,
    name: Seq<char>,
    arguments: JsonView,
)
    requires
        facts.screened(id, name) is None,
        !facts.guarded,
        facts.route == heard.route,
        facts.answer == heard.upstream,
        facts.core == heard.core,
        facts.worker == heard.worker,
        facts.personal == heard.personal,
    ensures
        match router_next(name, arguments, heard) {
            RouterView::CallUpstream { tool, arguments: _ } => facts.next(id, name, arguments) matches
                CallActionView::CallUpstream { tool: t, arguments: _ } && t == tool,
            RouterView::CallCore(sent) => facts.next(id, name, arguments)
                == CallActionView::CallCore(sent),
            RouterView::CallWorker(sent) => facts.next(id, name, arguments)
                == CallActionView::CallWorker(sent),
            RouterView::CallPersonal(sent) => facts.next(id, name, arguments)
                == CallActionView::CallPersonal(sent),
            RouterView::Done(_) => facts.next(id, name, arguments) is Finish,
        },
{
}

// ── the inference proxy ─────────────────────────────────────────────────────

/// What an inference request does once the gateway has let it in.
#[derive(Debug, PartialEq, Eq)]
pub enum Ingress {
    /// It is refused, with a note for the record.
    Refuse(HttpResponse, &'static str),
    /// An assertion for this person is asked for first.
    Mint(String),
    /// It goes on as it is.
    Plain,
}

/// The body of a refused identity claim.
pub open spec fn claim_refusal(detail: Seq<char>) -> JsonView {
    JsonView::Object(
        no_fields().push(("error"@, JsonView::Str("on-behalf-of assertion refused"@))).push(
            ("detail"@, JsonView::Str(detail)),
        ),
    )
}

fn refuse_claim(detail: &str) -> (r: HttpResponse)
    ensures
        r@ == json_response(403, claim_refusal(detail@)),
{
    let mut f = Fields::new();
    f.put("error", Json::text("on-behalf-of assertion refused"));
    f.put("detail", Json::text(detail));
    HttpResponse::json(403, &f.object())
}

/// What is said to a client that presents an assertion of its own.
pub open spec fn inbound_refusal() -> ResponseView {
    json_response(
        403,
        claim_refusal(
            "a signed person-assertion is server-set on each hop and is never accepted                            from a client; ask to act for someone with the on-behalf-of header instead"@,
        ),
    )
}

/// Decides how an inference request goes on. A plain name is turned into an assertion; an assertion
/// that comes from outside is refused, since nobody outside can make one.
pub fn admit_inference(claims: &PersonClaims) -> (r: Ingress)
    ensures
        match (opt_text(claims.on_behalf_of), claims.assertion is Some) {
            (Some(person), _) => r matches Ingress::Mint(p) && p@ == person,
            (None, true) => r matches Ingress::Refuse(response, note) && response@
                == inbound_refusal() && note@ == "inbound person-assertion refused"@,
            (None, false) => r is Plain,
        },
{
    match (&claims.on_behalf_of, &claims.assertion) {
        (Some(person), _) => Ingress::Mint(owned(person.as_str())),
        (None, Some(_)) => Ingress::Refuse(
            refuse_claim(
                "a signed person-assertion is server-set on each hop and is never accepted                            from a client; ask to act for someone with the on-behalf-of header instead",
            ),
            "inbound person-assertion refused",
        ),
        (None, None) => Ingress::Plain,
    }
}

/// What came of asking for an assertion: nothing where there is no gateway to ask.
pub open spec fn mint_reason(minted: Option<Result<String, String>>) -> Seq<char> {
    match minted {
        Some(Err(e)) => e@,
        _ => "this process has no gateway to authorize an on-behalf-of assertion"@,
    }
}

/// Goes on once an assertion was asked for. Where there is none, the request is refused; it is
/// never run as the service instead.
pub fn on_minted(minted: &Option<Result<String, String>>) -> (r: Result<
    String,
    (HttpResponse, &'static str),
>)
    ensures
        match *minted {
            Some(Ok(token)) => r matches Ok(t) && t@ == token@,
            _ => r matches Err((response, note)) && response@ == json_response(
                403,
                claim_refusal(mint_reason(*minted)),
            ) && note@ == "on-behalf-of assertion refused"@,
        },
{
    match minted {
        Some(Ok(token)) => Ok(owned(token.as_str())),
        Some(Err(e)) => Err((refuse_claim(e.as_str()), "on-behalf-of assertion refused")),
        None => Err(
            (
                refuse_claim("this process has no gateway to authorize an on-behalf-of assertion"),
                "on-behalf-of assertion refused",
            ),
        ),
    }
}

/// The answer where there is nobody to pass an inference request on to.
pub fn proxy_unconfigured() -> (r: HttpResponse)
    ensures
        r@ == unserved_view(),
{
    let mut f = Fields::new();
    f.put("error", Json::text("inference proxy not configured on this terminus process"));
    HttpResponse::json(503, &f.object())
}

/// What is recorded of an inference request, by the status of its answer.
pub fn proxy_record(status: u16) -> (r: (bool, Option<String>))
    ensures
        r.0 == is_success(status),
        opt_text(r.1) == status_detail(status),
{
    if 200 <= status && status <= 299 {
        (true, None)
    } else {
        let line = status_text(status);
        (false, Some(cat2("upstream status ", line.as_str())))
    }
}

/// What is known about an inference request, and what was heard so far. `minted` is absent until an
/// assertion was asked for, and then holds nothing where there is no gateway to ask.
#[derive(Debug)]
pub struct InferenceFacts {
    pub denied: bool,
    pub claims: PersonClaims,
    pub minted: Option<Option<Result<String, String>>>,
    pub has_proxy: bool,
    pub status: Option<u16>,
}

/// What is done next about an inference request.
#[derive(Debug, PartialEq, Eq)]
pub enum InferenceAction {
    /// The gateway's own refusal is the answer.
    Deny,
    /// It is refused, with a note for the record.
    Refuse(HttpResponse, &'static str),
    /// An assertion for this person is asked for.
    Mint(String),
    /// It is passed on, with the assertion that was made for it.
    Forward(Option<String>),
    /// There is nobody to pass it on to; this is the answer, and what is recorded of it.
    Unserved(HttpResponse, (bool, Option<String>)),
    /// It was answered; this is recorded of it.
    Record(bool, Option<String>),
}

/// The content of an [`InferenceAction`].
pub enum InferenceView {
    Deny,
    Refuse(ResponseView, Seq<char>),
    Mint(Seq<char>),
    Forward(Option<Seq<char>>),
    Unserved(ResponseView, bool, Option<Seq<char>>),
    Record(bool, Option<Seq<char>>),
}

impl View for InferenceAction {
    type V = InferenceView;

    open spec fn view(&self) -> InferenceView {
        match *self {
            InferenceAction::Deny => InferenceView::Deny,
            InferenceAction::Refuse(response, note) => InferenceView::Refuse(response@, note@),
            InferenceAction::Mint(person) => InferenceView::Mint(person@),
            InferenceAction::Forward(assertion) => InferenceView::Forward(opt_text(assertion)),
            InferenceAction::Unserved(response, record) => InferenceView::Unserved(
                response@,
                record.0,
                opt_text(record.1),
            ),
            InferenceAction::Record(success, detail) => InferenceView::Record(
                success,
                opt_text(detail),
            ),
        }
    }
}

/// Whether a status is one of success.
pub open spec fn is_success(status: u16) -> bool {
    200 <= status <= 299
}

/// What is recorded beside a status: nothing of a success.
pub open spec fn status_detail(status: u16) -> Option<Seq<char>> {
    if is_success(status) {
        None
    } else {
        Some("upstream status "@ + status_line(status))
    }
}

/// The answer where there is nobody to pass an inference request on to.
pub open spec fn unserved_view() -> ResponseView {
    json_response(
        503,
        JsonView::Object(
            no_fields().push(
                (
                    "error"@,
                    JsonView::Str("inference proxy not configured on this terminus process"@),
                ),
            ),
        ),
    )
}

impl InferenceFacts {
    /// What is done about a request that is passed on.
    pub open spec fn forwarded(&self, assertion: Option<Seq<char>>) -> InferenceView {
        if !self.has_proxy {
            InferenceView::Unserved(unserved_view(), false, status_detail(503))
        } else {
            match self.status {
                None => InferenceView::Forward(assertion),
                Some(status) => InferenceView::Record(is_success(status), status_detail(status)),
            }
        }
    }

    /// What is done next about a request: the gateway comes first, then whom the request claims to
    /// be for, and only then is it passed on.
    pub open spec fn next(&self) -> InferenceView {
        if self.denied {
            InferenceView::Deny
        } else {
            match (opt_text(self.claims.on_behalf_of), self.claims.assertion is Some) {
                (Some(person), _) => match self.minted {
                    None => InferenceView::Mint(person),
                    Some(Some(Ok(token))) => self.forwarded(Some(token@)),
                    Some(minted) => InferenceView::Refuse(
                        json_response(403, claim_refusal(mint_reason(minted))),
                        "on-behalf-of assertion refused"@,
                    ),
                },
                (None, true) => InferenceView::Refuse(
                    inbound_refusal(),
                    "inbound person-assertion refused"@,
                ),
                (None, false) => self.forwarded(None),
            }
        }
    }

    fn forward(&self, assertion: Option<String>) -> (r: InferenceAction)
        ensures
            r@ == self.forwarded(opt_text(assertion)),
    {
        if !self.has_proxy {
            return InferenceAction::Unserved(proxy_unconfigured(), proxy_record(503));
        }
        match self.status {
            None => InferenceAction::Forward(assertion),
            Some(status) => {
                let (success, detail) = proxy_record(status);
                InferenceAction::Record(success, detail)
            },
        }
    }

    /// Carries a request on to its next step as [`Self::next`] says.
    pub fn advance(&self) -> (r: InferenceAction)
        ensures
            r@ == self.next(),
    {
        if self.denied {
            return InferenceAction::Deny;
        }
        match admit_inference(&self.claims) {
            Ingress::Refuse(response, note) => InferenceAction::Refuse(response, note),
            Ingress::Mint(person) => match &self.minted {
                None => InferenceAction::Mint(person),
                Some(minted) => match on_minted(minted) {
                    Ok(token) => self.forward(Some(token)),
                    Err((response, note)) => InferenceAction::Refuse(response, note),
                },
            },
            Ingress::Plain => self.forward(None),
        }
    }
}

/// A request that claims to be for someone is passed on only with the assertion that was made for
/// it here; it never runs as the service instead.
pub proof fn claims_are_never_dropped(facts: InferenceFacts)
    requires
        facts.claims.on_behalf_of is Some || facts.claims.assertion is Some,
    ensures
        facts.next() matches InferenceView::Forward(assertion) ==> {
            &&& facts.claims.on_behalf_of is Some
            &&& facts.minted matches Some(Some(Ok(token)))
            &&& assertion == Some(token@)
        },
{
}

/// What the gateway refuses is neither passed on nor vouched for.
pub proof fn refused_inference_goes_nowhere(facts: InferenceFacts)
    requires
        facts.denied,
    ensures
        facts.next() is Deny,
{
}

// ── the agent ───────────────────────────────────────────────────────────────

/// A turn that an agent is asked for.
#[derive(Debug, PartialEq, Eq)]
pub struct AgentTurn {
    pub system_prompt: String,
    pub history: Vec<Json>,
    pub user_message: String,
    pub stream: bool,
}

/// The content of an [`AgentTurn`].
pub struct AgentTurnView {
    pub system_prompt: Seq<char>,
    pub history: Seq<JsonView>,
    pub user_message: Seq<char>,
    pub stream: bool,
}

impl View for AgentTurn {
    type V = AgentTurnView;

    open spec fn view(&self) -> AgentTurnView {
        AgentTurnView {
            system_prompt: self.system_prompt@,
            history: jsons(self.history@),
            user_message: self.user_message@,
            stream: self.stream,
        }
    }
}

/// The newest message of the user among the first `n`.
pub open spec fn newest_user(messages: Seq<JsonView>, n: int) -> Option<JsonView>
    decreases n,
{
    if n <= 0 {
        None
    } else if messages[n - 1].text_at("role"@) == Some("user"@) {
        Some(messages[n - 1])
    } else {
        newest_user(messages, n - 1)
    }
}

/// The turn that a request asks for. The whole history is carried; the newest message of the user
/// is what tools are selected by.
pub open spec fn turn_of(req: JsonView) -> AgentTurnView {
    let history = match req.items_at("messages"@) {
        Some(items) => items,
        None => Seq::empty(),
    };
    AgentTurnView {
        system_prompt: match req.text_at("system_prompt"@) {
            Some(s) => s,
            None => ""@,
        },
        history,
        user_message: match newest_user(history, history.len() as int) {
            Some(m) => match m.text_at("content"@) {
                Some(c) => c,
                None => ""@,
            },
            None => ""@,
        },
        stream: req.bool_at("stream"@) == Some(true),
    }
}

fn find_user_message(history: &Vec<Json>) -> (r: String)
    ensures
        r@ == (match newest_user(jsons(history@), history@.len() as int) {
            Some(m) => match m.text_at("content"@) {
                Some(c) => c,
                None => ""@,
            },
            None => ""@,
        }),
{
    let ghost view = jsons(history@);
    let mut i: usize = history.len();
    while i > 0
        invariant
            i <= history.len(),
            view == jsons(history@),
            newest_user(view, history@.len() as int) == newest_user(view, i as int),
        decreases i,
    {
        assert(view[i - 1] == history@[i - 1]@);
        let m = &history[i - 1];
        let from_user = match m.str_at("role") {
            Some(role) => same(role, "user"),
            None => false,
        };
        if from_user {
            return match m.str_at("content") {
                Some(c) => owned(c),
                None => owned(""),
            };
        }
        i -= 1;
    }
    owned("")
}

/// Reads the turn that a request asks for as [`turn_of`] says.
pub fn read_turn(req: &Json) -> (r: AgentTurn)
    ensures
        r@ == turn_of(req@),
{
    let history = copy_items(req.array_at("messages"));
    assert(jsons(history@).len() == history@.len());
    let user_message = find_user_message(&history);
    let system_prompt = match req.str_at("system_prompt") {
        Some(s) => owned(s),
        None => owned(""),
    };
    let stream = match req.bool_at("stream") {
        Some(b) => b,
        None => false,
    };
    AgentTurn { system_prompt, history, user_message, stream }
}

/// How a turn that goes through the agent of this process begins.
#[derive(Debug, PartialEq, Eq)]
pub enum AgentStep {
    /// It is refused before the gateway is asked.
    Refuse(HttpResponse),
    /// The gateway is asked.
    AskGateway,
}

/// Decides how a turn begins: an identity claim that cannot be honoured is refused, not run with
/// less.
pub fn admit_turn(asserted: &AssertedPerson) -> (r: AgentStep)
    ensures
        if asserted@ is Rejected {
            r matches AgentStep::Refuse(response) && response@ == json_response(
                403,
                claim_refusal(
                    "this identity could not be honoured; it was not silently downgraded"@,
                ),
            )
        } else {
            r is AskGateway
        },
{
    match asserted {
        AssertedPerson::Rejected => AgentStep::Refuse(
            refuse_claim("this identity could not be honoured; it was not silently downgraded"),
        ),
        _ => AgentStep::AskGateway,
    }
}

/// A turn that cannot be run, with a note for the record.
pub open spec fn turn_error(status: u16, message: Seq<char>) -> ResponseView {
    json_response(
        status,
        JsonView::Object(no_fields().push(("error"@, JsonView::Str(message)))),
    )
}

fn refuse_turn(status: u16, message: &str) -> (r: HttpResponse)
    ensures
        r@ == turn_error(status, message@),
{
    let mut f = Fields::new();
    f.put("error", Json::text(message));
    HttpResponse::json(status, &f.object())
}

/// Reads the turn that a request's body asks for, where there is something to run it with.
pub fn begin_turn(has_backend: bool, body: &[u8]) -> (r: Result<
    AgentTurn,
    (HttpResponse, &'static str),
>)
    ensures
        if !has_backend {
            r matches Err((response, note)) && response@ == turn_error(
                503,
                "no inference backend configured"@,
            ) && note@ == "no inference backend"@
        } else {
            match parsed_bytes(body@) {
                Err(e) => r matches Err((response, note)) && response@ == turn_error(
                    400,
                    "invalid request body: "@ + e,
                ) && note@ == "invalid body"@,
                Ok(req) => r matches Ok(turn) && turn@ == turn_of(req),
            }
        },
{
    if !has_backend {
        return Err(
            (refuse_turn(503, "no inference backend configured"), "no inference backend"),
        );
    }
    match parse_bytes(body) {
        Err(e) => {
            let message = cat2("invalid request body: ", e.as_str());
            Err((refuse_turn(400, message.as_str()), "invalid body"))
        },
        Ok(req) => Ok(read_turn(&req)),
    }
}

/// One tool that an agent called.
#[derive(Debug, PartialEq, Eq)]
pub struct AgentCall {
    pub tool: String,
    pub status: String,
    pub cached: bool,
    pub duration_ms: u64,
}

/// How a turn ended.
#[derive(Debug, PartialEq, Eq)]
pub struct AgentOutcome {
    pub response: String,
    pub status: String,
    pub turns: u64,
    pub steps: Vec<AgentCall>,
}

/// One called tool as it is shown.
pub open spec fn agent_call_json(step: AgentCall) -> JsonView {
    JsonView::Object(
        no_fields().push(("tool"@, JsonView::Str(step.tool@))).push(
            ("status"@, JsonView::Str(step.status@)),
        ).push(("cached"@, JsonView::Bool(step.cached))).push(
            ("duration_ms"@, JsonView::Int(step.duration_ms as int)),
        ),
    )
}

/// The answer to a turn that was not asked for as a stream.
pub open spec fn turn_answer(outcome: AgentOutcome) -> ResponseView {
    json_response(
        200,
        JsonView::Object(
            no_fields().push(("response"@, JsonView::Str(outcome.response@))).push(
                ("status"@, JsonView::Str(outcome.status@)),
            ).push(("turns"@, JsonView::Int(outcome.turns as int))).push(
                ("tools_called"@, JsonView::Int(outcome.steps@.len() as int)),
            ).push(
                (
                    "execution_log"@,
                    JsonView::Array(
                        outcome.steps@.map_values(|s: AgentCall| agent_call_json(s)),
                    ),
                ),
            ),
        ),
    )
}

/// Answers a turn as [`turn_response`] says: as a stream of the given frames where the caller asked
/// for one, and otherwise in one piece.
pub fn finish_turn(stream: bool, frames: &str, outcome: &AgentOutcome) -> (r: HttpResponse)
    ensures
        r@ == turn_response(stream, frames@, *outcome),
{
    if stream {
        return HttpResponse {
            status: 200,
            content_type: Some("text/event-stream"),
            www_authenticate: None,
            session_id: None,
            body: owned(frames),
        };
    }
    let mut log: Vec<Json> = Vec::new();
    let mut i: usize = 0;
    while i < outcome.steps.len()
        invariant
            i <= outcome.steps.len(),
            log.len() == i,
            forall|k: int|
                0 <= k < i ==> (#[trigger] log@[k])@ == agent_call_json(outcome.steps@[k]),
        decreases outcome.steps.len() - i,
    {
        let step = &outcome.steps[i];
        let mut f = Fields::new();
        f.put("tool", Json::text(step.tool.as_str()));
        f.put("status", Json::text(step.status.as_str()));
        f.put("cached", Json::Bool(step.cached));
        f.put("duration_ms", Json::uint(step.duration_ms));
        log.push(f.object());
        i += 1;
    }
    assert(jsons(log@) =~= outcome.steps@.map_values(|s: AgentCall| agent_call_json(s)));
    let mut f = Fields::new();
    f.put("response", Json::text(outcome.response.as_str()));
    f.put("status", Json::text(outcome.status.as_str()));
    f.put("turns", Json::uint(outcome.turns));
    f.put("tools_called", Json::uint(outcome.steps.len() as u64));
    f.put("execution_log", Json::array(log));
    HttpResponse::json(200, &f.object())
}

/// What is known about a turn, and what was heard so far: how it ended, and its frames.
#[derive(Debug)]
pub struct AgentFacts {
    /// Whether turns are run by this process at all.
    pub local: bool,
    pub asserted: AssertedPerson,
    /// Whether the gateway refuses the turn, once it was asked.
    pub denied: Option<bool>,
    pub has_backend: bool,
    pub body: Vec<u8>,
    pub ended: Option<(AgentOutcome, String)>,
}

/// What is done next about a turn.
#[derive(Debug, PartialEq, Eq)]
pub enum AgentAction {
    /// It is an inference request like any other.
    Proxy,
    /// It is refused before the gateway is asked.
    Refuse(HttpResponse),
    /// The gateway is asked.
    AskGateway,
    /// The gateway's own refusal is the answer.
    Deny,
    /// It cannot be run; the note is for the record.
    Fail(HttpResponse, &'static str),
    /// It is run.
    Run(AgentTurn),
    /// It was run; this is the answer, and what is recorded of it.
    Done(HttpResponse, (bool, Option<String>)),
}

/// The content of an [`AgentAction`].
pub enum AgentView {
    Proxy,
    Refuse(ResponseView),
    AskGateway,
    Deny,
    Fail(ResponseView, Seq<char>),
    Run(AgentTurnView),
    Done(ResponseView, bool, Option<Seq<char>>),
}

impl View for AgentAction {
    type V = AgentView;

    open spec fn view(&self) -> AgentView {
        match *self {
            AgentAction::Proxy => AgentView::Proxy,
            AgentAction::Refuse(response) => AgentView::Refuse(response@),
            AgentAction::AskGateway => AgentView::AskGateway,
            AgentAction::Deny => AgentView::Deny,
            AgentAction::Fail(response, note) => AgentView::Fail(response@, note@),
            AgentAction::Run(turn) => AgentView::Run(turn@),
            AgentAction::Done(response, (success, detail)) => AgentView::Done(
                response@,
                success,
                opt_text(detail),
            ),
        }
    }
}

/// The answer to a turn that was run.
pub open spec fn turn_response(stream: bool, frames: Seq<char>, outcome: AgentOutcome) -> ResponseView {
    if stream {
        ResponseView {
            status: 200,
            content_type: Some("text/event-stream"@),
            www_authenticate: None,
            session_id: None,
            body: frames,
        }
    } else {
        turn_answer(outcome)
    }
}

impl AgentFacts {
    /// What is done next about a turn.
    pub open spec fn next(&self) -> AgentView {
        if !self.local {
            AgentView::Proxy
        } else if self.asserted@ is Rejected {
            AgentView::Refuse(
                json_response(
                    403,
                    claim_refusal(
                        "this identity could not be honoured; it was not silently downgraded"@,
                    ),
                ),
            )
        } else if self.denied is None {
            AgentView::AskGateway
        } else if self.denied == Some(true) {
            AgentView::Deny
        } else if !self.has_backend {
            AgentView::Fail(
                turn_error(503, "no inference backend configured"@),
                "no inference backend"@,
            )
        } else {
            match parsed_bytes(self.body@) {
                Err(e) => AgentView::Fail(
                    turn_error(400, "invalid request body: "@ + e),
                    "invalid body"@,
                ),
                Ok(req) => match self.ended {
                    None => AgentView::Run(turn_of(req)),
                    Some((outcome, frames)) => AgentView::Done(
                        turn_response(turn_of(req).stream, frames@, outcome),
                        true,
                        None,
                    ),
                },
            }
        }
    }

    /// Carries a turn on to its next step as [`Self::next`] says.
    pub fn advance(&self) -> (r: AgentAction)
        ensures
            r@ == self.next(),
    {
        if !self.local {
            return AgentAction::Proxy;
        }
        if let AgentStep::Refuse(response) = admit_turn(&self.asserted) {
            return AgentAction::Refuse(response);
        }
        match self.denied {
            None => {
                return AgentAction::AskGateway;
            },
            Some(true) => {
                return AgentAction::Deny;
            },
            Some(false) => {},
        }
        match begin_turn(self.has_backend, self.body.as_slice()) {
            Err((response, note)) => AgentAction::Fail(response, note),
            Ok(turn) => match &self.ended {
                None => AgentAction::Run(turn),
                Some((outcome, frames)) => AgentAction::Done(
                    finish_turn(turn.stream, frames.as_str(), outcome),
                    (true, None),
                ),
            },
        }
    }
}

/// A turn is run only for a caller whose claim, if there is one, was honoured, and whom the gateway
/// let in.
pub proof fn turns_run_for_the_admitted(facts: AgentFacts)
    ensures
        facts.next() is Run ==> !(facts.asserted@ is Rejected) && facts.denied == Some(false),
{
}

/// The whole history that a request sends is carried into its turn.
pub proof fn history_is_carried_whole(req: JsonView, messages: Seq<JsonView>)
    requires
        req.items_at("messages"@) == Some(messages),
    ensures
        turn_of(req).history == messages,
{
}

// ── the tailnet ─────────────────────────────────────────────────────────────

/// What was learned of the caller on a tailnet connection, for every request on it.
#[derive(Debug, PartialEq, Eq)]
pub struct TailnetIdentityLayer {
    identity: Option<TailnetIdentity>,
}

/// A service with what was learned of the caller on its connection.
#[derive(Debug, PartialEq, Eq)]
pub struct TailnetIdentityService<S> {
    inner: S,
    identity: Option<TailnetIdentity>,
}

/// The content of an optional tailnet identity.
pub open spec fn opt_tailnet(t: Option<TailnetIdentity>) -> Option<Seq<char>> {
    match t {
        Some(x) => Some(x.0@),
        None => None,
    }
}

fn copy_tailnet(t: &Option<TailnetIdentity>) -> (r: Option<TailnetIdentity>)
    ensures
        opt_tailnet(r) == opt_tailnet(*t),
{
    match t {
        Some(x) => Some(TailnetIdentity(owned(x.0.as_str()))),
        None => None,
    }
}

impl TailnetIdentityLayer {
    /// The identity.
    pub closed spec fn learned(&self) -> Option<Seq<char>> {
        opt_tailnet(self.identity)
    }

    /// A layer for one connection. It is an ordinary case that nothing was learned.
    pub fn new(identity: Option<TailnetIdentity>) -> (r: TailnetIdentityLayer)
        ensures
            r.learned() == opt_tailnet(identity),
    {
        TailnetIdentityLayer { identity }
    }

    /// A service on the connection.
    pub fn layer<S>(&self, inner: S) -> (r: TailnetIdentityService<S>)
        ensures
            r.wrapped() == inner,
            r.learned() == self.learned(),
    {
        TailnetIdentityService { inner, identity: copy_tailnet(&self.identity) }
    }
}

impl<S> TailnetIdentityService<S> {
    /// The service inside.
    pub closed spec fn wrapped(&self) -> S {
        self.inner
    }

    /// The identity.
    pub closed spec fn learned(&self) -> Option<Seq<char>> {
        opt_tailnet(self.identity)
    }

    /// The service inside.
    pub fn inner(&self) -> (r: &S)
        ensures
            *r == self.wrapped(),
    {
        &self.inner
    }

    /// What to attach to a request: the identity, where one was learned.
    pub fn attach(&self) -> (r: Option<TailnetIdentity>)
        ensures
            opt_tailnet(r) == self.learned(),
    {
        copy_tailnet(&self.identity)
    }
}

} // verus!
