//! The tool endpoint: who is heard, what is listed, where a call goes and what it is answered.
use std::rc::Rc;
use terminus::http::HttpResponse;
use terminus::json::Json;
use terminus::mcp_server::{
    admit_inference, admit_turn, asserted_person_for_mcp, begin_turn, caller_context_source,
    caller_key_for, finish_turn, insufficient_scope, is_authorized, list_tools, merge_catalog,
    metric_namespace, on_approval, on_minted, on_upstream, own_context, plan_call, proxy_record,
    proxy_unconfigured, read_turn, record_upstream, resolve_principal, response_body_text,
    screen_call, sse_response, unauthorized, AgentAction, AgentCall, AgentFacts, AgentOutcome,
    AgentStep, Approval, Approved, AuditDecision, CallAction, CallFacts, CallOutcome, CallPlan,
    CallRoute, CatalogEntry, ContextSource, Heard, IdentityMap, InferenceAction, InferenceFacts,
    Ingress, McpServerState, McpStep, PersonClaims, RemoteAnswer, RouterAction,
    TailnetIdentityLayer, ToolCall, UpstreamTool,
};
use terminus::mesh::{
    AssertedPerson, CallerKey, ClientIdentity, Principal, PrincipalSource, TailnetIdentity,
    VerifiedPerson,
};
use terminus::registry::{ToolInfo, ToolRegistry};
use terminus::tool::{ToolError, ToolOutput};

fn j(text: &str) -> Json {
    Json::parse(text).expect("valid JSON")
}

fn tool(name: &str, description: &str) -> ToolInfo {
    ToolInfo {
        name: name.to_string(),
        description: description.to_string(),
        parameters: j(r#"{"type": "object", "properties": {}}"#),
    }
}

fn health() -> ToolInfo {
    tool("health", "Health check")
}

fn state(auth_token: Option<&str>, challenge: Option<&str>) -> McpServerState {
    let mut registry = ToolRegistry::new();
    registry.register_or_replace(health());
    McpServerState {
        registry,
        server_name: "terminus-personal-test".to_string(),
        server_version: "0.0.0-test".to_string(),
        auth_token: auth_token.map(|t| t.to_string()),
        challenge: challenge.map(|c| c.to_string()),
    }
}

/// What a response says: the data of its frame, or its whole body.
fn body(response: &HttpResponse) -> Json {
    let framed = response.body.lines().find(|l| l.starts_with("data:"));
    match framed {
        Some(line) => j(line.trim_start_matches("data:").trim()),
        None => j(&response.body),
    }
}

fn result(response: &HttpResponse) -> Json {
    body(response).copy_at("result")
}

fn is_error(response: &HttpResponse) -> Option<bool> {
    result(response).bool_at("isError")
}

fn text(response: &HttpResponse) -> String {
    let said = result(response);
    said.array_at("content").expect("content")[0].str_at("text").expect("a text").to_string()
}

/// The tools that this process carries out.
fn here(registry: &ToolRegistry, name: &str) -> Option<Result<ToolOutput, ToolError>> {
    if !registry.contains(name) {
        return None;
    }
    Some(match name {
        "health" => Ok(ToolOutput { text: "ok".to_string(), structured: None }),
        "extra_tool" => Ok(ToolOutput { text: "extra ok".to_string(), structured: None }),
        "structured_echo" => Ok(ToolOutput {
            text: "id: 7, name: widget".to_string(),
            structured: Some(j(r#"{"id": 7, "name": "widget"}"#)),
        }),
        _ => Err(ToolError::Execution("boom".to_string())),
    })
}

fn call_body(name: &str) -> String {
    format!(
        r#"{{"jsonrpc": "2.0", "id": 3, "method": "tools/call",
            "params": {{"name": "{name}", "arguments": {{}}}}}}"#
    )
}

fn call_of(state: &McpServerState, name: &str) -> ToolCall {
    match state.receive(None, call_body(name).as_bytes()) {
        McpStep::Call(call) => call,
        other => panic!("expected a call, got {other:?}"),
    }
}

fn facts() -> CallFacts {
    CallFacts {
        identity: "dev-box".to_string(),
        upstream: None,
        denial: None,
        unusable: None,
        route: None,
        guarded: false,
        unavailable: String::new(),
        approval: None,
        answer: None,
        core: None,
        worker: None,
        personal: None,
    }
}

/// Concludes a call, from what this process, the workers and the personal backend have to say.
fn looked_up(
    call: &ToolCall,
    core: Option<Result<ToolOutput, ToolError>>,
    worker: Option<Result<ToolOutput, ToolError>>,
    personal: Option<RemoteAnswer>,
) -> CallOutcome {
    let heard = CallFacts {
        core: Some(core),
        worker: Some(worker),
        personal: Some(personal),
        ..facts()
    };
    match heard.advance(call) {
        CallAction::Finish { outcome, .. } => outcome,
        other => panic!("expected an end, got {other:?}"),
    }
}

/// Calls a tool with nobody but this process to ask.
fn call(state: &McpServerState, name: &str) -> HttpResponse {
    let call = call_of(state, name);
    looked_up(&call, here(&state.registry, name), None, None).response
}

/// Lists the tools, all of them allowed and in working order.
fn list(state: &McpServerState, routed: &Vec<ToolInfo>, personal: &Vec<ToolInfo>) -> Vec<Json> {
    let request = br#"{"jsonrpc": "2.0", "id": 2, "method": "tools/list"}"#;
    let id = match state.receive(None, request) {
        McpStep::List(id) => id,
        other => panic!("expected a listing, got {other:?}"),
    };
    let entries: Vec<CatalogEntry> =
        merge_catalog(state.registry.list(), routed, personal, &Vec::new())
            .into_iter()
            .map(|tool| CatalogEntry { tool, allowed: true, usable: true })
            .collect();
    let response = list_tools(id, &entries);
    assert_eq!(response.status, 200);
    match result(&response).copy_at("tools") {
        Json::Array(tools) => tools,
        other => panic!("expected a list, got {other:?}"),
    }
}

// ── claims ──────────────────────────────────────────────────────────────────

fn claims(on_behalf_of: Option<&str>, assertion: Option<&str>) -> PersonClaims {
    PersonClaims {
        on_behalf_of: on_behalf_of.map(|s| s.to_string()),
        assertion: assertion.map(|s| s.to_string()),
    }
}

#[test]
fn no_headers_is_the_unchanged_service_path() {
    assert!(matches!(
        asserted_person_for_mcp(None, &claims(None, None)),
        AssertedPerson::Absent
    ));
}

#[test]
fn a_plaintext_on_behalf_of_is_refused_here_not_ignored() {
    assert!(
        matches!(
            asserted_person_for_mcp(None, &claims(Some("alice"), None)),
            AssertedPerson::Rejected
        ),
        "an identity claim this endpoint cannot honour must not read as no claim"
    );
}

#[test]
fn the_plaintext_claim_is_refused_even_alongside_a_token() {
    assert!(matches!(
        asserted_person_for_mcp(None, &claims(Some("alice"), Some("any.token.here"))),
        AssertedPerson::Rejected
    ));
}

#[test]
fn a_blank_on_behalf_of_is_an_attempt_not_an_absence() {
    assert!(matches!(
        asserted_person_for_mcp(None, &claims(Some("   "), None)),
        AssertedPerson::Rejected
    ));
}

#[test]
fn a_token_without_a_gateway_to_check_it_is_refused() {
    assert!(matches!(
        asserted_person_for_mcp(None, &claims(None, Some("any.token.here"))),
        AssertedPerson::Rejected
    ));
}

#[test]
fn a_gateway_speaks_for_a_token_that_comes_alone() {
    let person =
        VerifiedPerson { principal: "lumina".to_string(), person: "alice".to_string() };
    assert!(matches!(
        asserted_person_for_mcp(
            Some(AssertedPerson::Verified(person)),
            &claims(None, Some("any.token.here"))
        ),
        AssertedPerson::Verified(_)
    ));
}

#[test]
fn a_tool_knows_its_caller_from_the_gateway_or_less() {
    assert_eq!(caller_context_source(true, &AssertedPerson::Absent), ContextSource::Gateway);
    assert_eq!(caller_context_source(false, &AssertedPerson::Absent), ContextSource::Default);
    assert_eq!(
        caller_context_source(false, &AssertedPerson::Rejected),
        ContextSource::Unidentified
    );
    assert!(own_context(ContextSource::Gateway).is_none());
    assert!(own_context(ContextSource::Default).unwrap().is_identified());
    assert!(!own_context(ContextSource::Unidentified).unwrap().is_identified());
}

// ── keys ────────────────────────────────────────────────────────────────────

fn principal(name: &str) -> Principal {
    Principal::new(name, PrincipalSource::MtlsCert)
}

fn verified(person: &str) -> AssertedPerson {
    AssertedPerson::Verified(VerifiedPerson {
        principal: "lumina".to_string(),
        person: person.to_string(),
    })
}

#[test]
fn no_assertion_still_yields_the_legacy_service_key() {
    let p = principal("lumina");
    let key = caller_key_for(Some(&p), &AssertedPerson::Absent)
        .expect("a service-scoped caller must still get its key");
    assert!(!key.is_person_scoped(), "no assertion means no person in the key");
}

#[test]
fn two_verified_people_get_different_storage_keys() {
    let p = principal("lumina");
    let a = caller_key_for(Some(&p), &verified("alice")).expect("alice must key");
    let b = caller_key_for(Some(&p), &verified("bob")).expect("bob must key");
    assert!(a.is_person_scoped() && b.is_person_scoped());
    assert_ne!(
        a.storage_key(),
        b.storage_key(),
        "two people behind one principal must not share a record"
    );
}

#[test]
fn a_person_key_is_not_the_service_key() {
    let p = principal("lumina");
    let person = caller_key_for(Some(&p), &verified("alice")).unwrap();
    let service = caller_key_for(Some(&p), &AssertedPerson::Absent).unwrap();
    assert_ne!(person.storage_key(), service.storage_key());
}

#[test]
fn a_rejected_assertion_gets_no_key_at_all() {
    let p = principal("lumina");
    assert!(
        caller_key_for(Some(&p), &AssertedPerson::Rejected).is_none(),
        "a refused identity must not be handed the shared service record"
    );
}

#[test]
fn rejection_outranks_a_usable_principal() {
    let p = principal("lumina");
    let would_have_been = caller_key_for(Some(&p), &AssertedPerson::Absent);
    assert!(would_have_been.is_some(), "control: this principal does key");
    assert!(caller_key_for(Some(&p), &AssertedPerson::Rejected).is_none());
}

#[test]
fn no_principal_yields_no_key() {
    assert!(caller_key_for(None, &AssertedPerson::Absent).is_none());
    assert!(caller_key_for(None, &AssertedPerson::Rejected).is_none());
}

#[test]
fn a_key_names_its_principal_and_person() {
    let service = CallerKey::for_principal(&principal("lumina")).unwrap();
    assert_eq!(service.storage_key(), ("lumina", None));
    let person = CallerKey::for_person("lumina", "alice").unwrap();
    assert_eq!(person.storage_key(), ("lumina", Some("alice")));
}

// ── the protocol ────────────────────────────────────────────────────────────

#[test]
fn test_initialize_handshake() {
    let s = state(None, None);
    let request = br#"{ "jsonrpc": "2.0", "id": 1, "method": "initialize",
        "params": {"protocolVersion": "2024-11-05", "capabilities": {},
                   "clientInfo": {"name": "test", "version": "0.1"}} }"#;
    let id = match s.receive(None, request) {
        McpStep::Initialize(id) => id,
        other => panic!("expected a handshake, got {other:?}"),
    };
    let response = s.initialize(id);
    assert_eq!(response.status, 200);
    assert_eq!(result(&response).str_at("protocolVersion"), Some("2024-11-05"));
    assert_eq!(
        result(&response).get("serverInfo").unwrap().str_at("name"),
        Some("terminus-personal-test")
    );
    let session = response.session_id.expect("a session id");
    assert_eq!(session.len(), 36);
    assert_eq!(&session[14..15], "4");
    assert!("89ab".contains(&session[19..20]));
    assert_ne!(s.initialize(Json::Null).session_id, Some(session));
}

#[test]
fn test_tools_list_returns_registered_tools() {
    let tools = list(&state(None, None), &Vec::new(), &Vec::new());
    assert_eq!(tools.len(), 1);
    assert_eq!(tools[0].str_at("name"), Some("health"));
}

#[test]
fn test_tools_call_round_trips() {
    let response = call(&state(None, None), "health");
    assert_eq!(response.status, 200);
    assert_eq!(text(&response), "ok");
    assert_eq!(is_error(&response), Some(false));
}

#[test]
fn test_tools_call_unknown_tool_is_error_result() {
    let response = call(&state(None, None), "does_not_exist");
    assert_eq!(response.status, 200);
    assert_eq!(is_error(&response), Some(true));
    assert!(text(&response).contains("does_not_exist"));
}

#[test]
fn a_method_nobody_knows_is_a_protocol_error() {
    let s = state(None, None);
    let request = br#"{"jsonrpc": "2.0", "id": 9, "method": "tools/paint"}"#;
    match s.receive(None, request) {
        McpStep::Reply(response) => {
            let said = body(&response);
            assert_eq!(said.get("error").unwrap().int_at("code"), Some(-32601));
            assert_eq!(said.int_at("id"), Some(9));
        }
        other => panic!("expected an answer, got {other:?}"),
    }
}

#[test]
fn a_body_that_is_no_json_is_a_parse_error() {
    match state(None, None).receive(None, b"{") {
        McpStep::Reply(response) => {
            assert_eq!(response.status, 400);
            assert_eq!(body(&response).get("error").unwrap().int_at("code"), Some(-32700));
        }
        other => panic!("expected an answer, got {other:?}"),
    }
}

#[test]
fn frames_carry_an_error_or_a_result() {
    let failed = sse_response(Json::integer(4), Err((-32000, "no".to_string())), "");
    assert_eq!(
        failed.body,
        "event: message\ndata: {\"error\":{\"code\":-32000,\"message\":\"no\"},\"id\":4,\
         \"jsonrpc\":\"2.0\"}\n\n"
    );
    assert_eq!(failed.session_id, None);
    let fine = sse_response(Json::Null, Ok(j("{}")), "session-1");
    assert_eq!(fine.session_id.as_deref(), Some("session-1"));
    // A header can carry neither a line break nor a control character.
    assert_eq!(sse_response(Json::Null, Ok(j("{}")), "a\nb").session_id, None);
}

#[test]
fn header_values_are_what_a_header_can_carry() {
    let kept = |c: &str| unauthorized(Some(c)).www_authenticate.is_some();
    assert!(kept("Bearer realm=\"x\"\ttab"));
    assert!(kept("Bearer \u{e9}"));
    assert!(kept(""));
    assert!(!kept("a\u{7f}"));
    assert!(!kept("a\0"));
    assert!(!kept("line\nbreak"));
}

// ── workers and the personal backend ────────────────────────────────────────

fn worker(reply: &str) -> Option<Result<ToolOutput, ToolError>> {
    Some(Ok(ToolOutput { text: reply.to_string(), structured: None }))
}

#[test]
fn tmod04_unknown_name_with_route_table_present_is_unknown_tool() {
    let s = state(None, None);
    let unknown = call_of(&s, "no_such_tool_anywhere");
    let response =
        looked_up(&unknown, here(&s.registry, "no_such_tool_anywhere"), None, None)
            .response;
    assert_eq!(response.status, 200);
    assert_eq!(is_error(&response), Some(true));
    assert!(text(&response).contains("no_such_tool_anywhere"));
}

#[test]
fn tmod04_healthy_worker_route_dispatches_through_mcp_surface() {
    let s = state(None, None);
    let worker_call = call_of(&s, "worker_tool");
    let outcome = looked_up(
        &worker_call,
        here(&s.registry, "worker_tool"),
        worker("worker answered"),
        None,
    );
    assert_eq!(outcome.response.status, 200);
    assert_eq!(is_error(&outcome.response), Some(false));
    assert_eq!(text(&outcome.response), "worker answered");
}

#[test]
fn tmod04_unhealthy_worker_route_is_unavailable_others_still_work() {
    let s = state(None, None);
    let dead_call = call_of(&s, "dead_tool");
    let failure = ToolError::Execution("worker dead-worker is unavailable".to_string());
    let outcome =
        looked_up(&dead_call, here(&s.registry, "dead_tool"), Some(Err(failure)), None);
    assert_eq!(outcome.response.status, 200);
    assert_eq!(is_error(&outcome.response), Some(true));
    assert!(outcome.transport_failure);
    let said = text(&outcome.response);
    assert!(said.contains("dead-worker"));
    assert!(said.to_lowercase().contains("unavailable"));

    let response = call(&s, "health");
    assert_eq!(is_error(&response), Some(false));
    assert_eq!(text(&response), "ok");
}

#[test]
fn tmod04_tools_list_merges_worker_catalog_compiled_in_wins() {
    let routed = vec![
        tool("worker_only_tool", "only on the worker"),
        tool("health", "worker's rival health"),
    ];
    let tools = list(&state(None, None), &routed, &Vec::new());
    let names: Vec<&str> = tools.iter().filter_map(|t| t.str_at("name")).collect();
    assert!(names.contains(&"worker_only_tool"), "worker's unique tool must be merged in");
    assert_eq!(names.iter().filter(|n| **n == "health").count(), 1);
    let listed = tools.iter().find(|t| t.str_at("name") == Some("health")).unwrap();
    assert_eq!(
        listed.str_at("description"),
        Some("Health check"),
        "compiled-in health wins on the name clash"
    );
}

#[test]
fn tmod04_worker_route_wins_over_personal_federation_in_list_and_call() {
    let s = state(None, None);
    let routed = vec![tool("personal_notes", "worker-route implementation")];
    let personal = vec![tool("personal_notes", "personal implementation")];
    let tools = list(&s, &routed, &personal);
    let matching: Vec<&Json> =
        tools.iter().filter(|t| t.str_at("name") == Some("personal_notes")).collect();
    assert_eq!(matching.len(), 1, "the colliding name must be listed exactly once");
    assert_eq!(
        matching[0].str_at("description"),
        Some("worker-route implementation"),
        "worker route wins over personal federation in tools/list"
    );

    let outcome = looked_up(
        &call_of(&s, "personal_notes"),
        here(&s.registry, "personal_notes"),
        worker("served by worker route"),
        Some(RemoteAnswer::Unreached("connection refused".to_string())),
    );
    assert_eq!(is_error(&outcome.response), Some(false), "worker route must serve the call cleanly");
    assert_eq!(
        text(&outcome.response),
        "served by worker route",
        "worker route wins over personal federation in tools/call"
    );
}

#[test]
fn an_unreached_personal_backend_is_named_as_such() {
    let s = state(None, None);
    let outcome = looked_up(
        &call_of(&s, "personal_notes"),
        None,
        None,
        Some(RemoteAnswer::Unreached("timed out".to_string())),
    );
    assert_eq!(
        text(&outcome.response),
        "federation error: could not reach personal-tool backend via chord relay (timed out)"
    );
    assert!(!outcome.transport_failure);
}

#[test]
fn names_that_may_not_be_used_are_not_listed() {
    let entry = |name: &str, allowed: bool, usable: bool| CatalogEntry {
        tool: j(&format!(r#"{{"name": "{name}"}}"#)),
        allowed,
        usable,
    };
    let entries =
        vec![entry("a", true, true), entry("b", false, true), entry("c", true, false)];
    let listed = result(&list_tools(Json::integer(1), &entries)).copy_at("tools");
    let names: Vec<&str> =
        listed.as_array().unwrap().iter().filter_map(|t| t.str_at("name")).collect();
    assert_eq!(names, vec!["a"]);
}

#[test]
fn a_router_is_given_all_the_tools_that_are_listed() {
    let mesh = vec![
        j(r#"{"name": "ns__a", "inputSchema": {"type": "object"}}"#),
        j(r#"{"description": "nameless"}"#),
    ];
    let routed = vec![tool("worker_tool", "on a worker"), tool("health", "a rival")];
    let given = state(None, None).router_catalog(&routed, &Vec::new(), &mesh);
    let names: Vec<&str> = given.iter().map(|t| t.name.as_str()).collect();
    assert_eq!(names, vec!["health", "worker_tool", "ns__a"]);
    assert_eq!(given[0].description, "Health check");
    assert_eq!(given[2].description, "");
    assert_eq!(given[2].parameters, j(r#"{"type": "object"}"#));
}

// ── what a tool hands back ──────────────────────────────────────────────────

#[test]
fn test_tools_call_includes_structured_content_when_tool_provides_it() {
    let mut s = state(None, None);
    s.registry.register_or_replace(tool("structured_echo", "Echoes structured JSON"));
    let response = call(&s, "structured_echo");
    assert_eq!(response.status, 200);
    assert_eq!(is_error(&response), Some(false));
    assert_eq!(text(&response), "id: 7, name: widget");
    let structured = result(&response).copy_at("structuredContent");
    assert_eq!(structured.int_at("id"), Some(7));
    assert_eq!(structured.str_at("name"), Some("widget"));
}

#[test]
fn test_tools_call_omits_structured_content_for_text_only_tool() {
    let response = call(&state(None, None), "health");
    assert_eq!(response.status, 200);
    assert_eq!(text(&response), "ok");
    assert!(result(&response).get("structuredContent").is_none());
}

#[test]
fn test_tools_call_tool_error_is_error_result() {
    let mut s = state(None, None);
    s.registry.register_or_replace(tool("always_fail", "Always fails"));
    let response = call(&s, "always_fail");
    assert_eq!(response.status, 200);
    assert_eq!(is_error(&response), Some(true));
    assert!(text(&response).contains("boom"));
}

// ── notifications and credentials ───────────────────────────────────────────

#[test]
fn test_notifications_initialized_returns_202_no_body() {
    let request = br#"{"jsonrpc": "2.0", "method": "notifications/initialized", "params": {}}"#;
    match state(None, None).receive(None, request) {
        McpStep::Reply(response) => {
            assert_eq!(response.status, 202);
            assert_eq!(response.body, "");
        }
        other => panic!("expected an answer, got {other:?}"),
    }
}

const LIST: &[u8] = br#"{"jsonrpc": "2.0", "id": 1, "method": "tools/list"}"#;

fn refused(s: &McpServerState) -> HttpResponse {
    match s.receive(None, LIST) {
        McpStep::Reply(response) => response,
        other => panic!("expected a refusal, got {other:?}"),
    }
}

#[test]
fn test_unauthorized_when_token_configured_and_missing() {
    assert_eq!(refused(&state(Some("secret-abc"), None)).status, 401);
}

#[test]
fn test_authorized_when_token_matches() {
    let s = state(Some("secret-abc"), None);
    let response = match s.receive(Some("Bearer secret-abc"), LIST) {
        McpStep::List(id) => list_tools(id, &Vec::new()),
        other => panic!("expected a listing, got {other:?}"),
    };
    assert_eq!(response.status, 200);
    assert!(matches!(s.receive(Some("Bearer secret-abd"), LIST), McpStep::Reply(_)));
    assert!(is_authorized(None, None));
    assert!(!is_authorized(Some("secret-abc"), Some("secret-abc")));
}

const CHALLENGE: &str = "Bearer resource_metadata=\"https://connector.test/.well-known/\
    oauth-protected-resource/mcp\", scope=\"mcp\"";

#[test]
fn rmcp02_unauthenticated_mcp_returns_a_401_challenge() {
    let response = refused(&state(Some("secret-abc"), Some(CHALLENGE)));
    assert_eq!(response.status, 401, "must be 401, never 200");
    let challenge =
        response.www_authenticate.expect("a 401 without a challenge is undiscoverable");
    assert!(challenge.starts_with("Bearer "));
    assert!(
        challenge.contains(
            "resource_metadata=\"https://connector.test/.well-known/oauth-protected-resource/mcp\""
        ),
        "challenge must point at the served document: {challenge}"
    );
    assert!(challenge.contains("scope=\"mcp\""), "{challenge}");
}

#[test]
fn rmcp02_an_unconfigured_door_adds_nothing() {
    let response = refused(&state(Some("secret-abc"), None));
    assert_eq!(response.status, 401);
    assert!(
        response.www_authenticate.is_none(),
        "an unconfigured server must not advertise an authorization server"
    );
}

#[test]
fn rmcp02_an_authorized_call_carries_no_challenge() {
    let s = state(Some("secret-abc"), Some(CHALLENGE));
    let id = match s.receive(Some("Bearer secret-abc"), LIST) {
        McpStep::List(id) => id,
        other => panic!("expected a listing, got {other:?}"),
    };
    let response = list_tools(id, &Vec::new());
    assert_eq!(response.status, 200);
    assert!(response.www_authenticate.is_none());
}

#[test]
fn rmcp02_insufficient_scope_is_a_403_naming_what_is_needed() {
    let response = insufficient_scope(
        "Bearer error=\"insufficient_scope\", scope=\"mcp admin\", \
         resource_metadata=\"https://connector.test/.well-known/oauth-protected-resource/mcp\"",
    );
    assert_eq!(response.status, 403);
    let challenge = response.www_authenticate.expect("a scope failure must say which scope");
    assert!(challenge.contains("error=\"insufficient_scope\""), "{challenge}");
    assert!(challenge.contains("scope=\"mcp admin\""), "{challenge}");
    assert!(
        challenge.contains(
            "resource_metadata=\"https://connector.test/.well-known/oauth-protected-resource/mcp\""
        ),
        "{challenge}"
    );
}

#[test]
fn a_challenge_that_no_header_can_carry_is_left_out() {
    let response = unauthorized(Some("Bearer\r\nX-Other: 1"));
    assert_eq!(response.status, 401);
    assert!(response.www_authenticate.is_none());
}

// ── swapping the tools ──────────────────────────────────────────────────────

#[test]
fn swap_registry_makes_new_tool_callable_while_keeping_the_old_one() {
    let mut s = state(None, None);
    let response = call(&s, "health");
    assert_eq!(response.status, 200);
    assert_eq!(is_error(&response), Some(false));

    let mut new_registry = ToolRegistry::new();
    new_registry.register_or_replace(health());
    new_registry.register_or_replace(tool("extra_tool", "Only present after a swap"));
    s.swap_registry(new_registry);

    let response = call(&s, "health");
    assert_eq!(response.status, 200);
    assert_eq!(is_error(&response), Some(false), "original tool must still work after swap");
    let response = call(&s, "extra_tool");
    assert_eq!(response.status, 200);
    assert_eq!(is_error(&response), Some(false), "newly swapped-in tool must be callable");
    assert_eq!(text(&response), "extra ok");
}

#[test]
fn snapshot_captured_before_swap_is_unaffected_by_a_later_swap() {
    let in_flight = Rc::new(state(None, None));
    assert!(in_flight.registry.contains("health"));
    assert!(!in_flight.registry.contains("extra_tool"));

    let mut next = state(None, None);
    let mut new_registry = ToolRegistry::new();
    new_registry.register_or_replace(tool("extra_tool", "Only present after a swap"));
    next.swap_registry(new_registry);

    let resolved = here(&in_flight.registry, "health");
    assert!(resolved.is_some(), "in-flight snapshot must still resolve its own tool after a swap");
    assert_eq!(resolved.unwrap().unwrap().text, "ok");
    assert!(here(&in_flight.registry, "extra_tool").is_none());

    assert!(!next.registry.contains("health"));
    assert!(next.registry.contains("extra_tool"));
}

#[test]
fn test_healthz() {
    let response = state(None, None).healthz();
    assert_eq!(response.status, 200);
    assert_eq!(response.content_type, Some("text/plain; charset=utf-8"));
    assert_eq!(response.body, "terminus-personal-test 0.0.0-test ok\n");
}

// ── the tailnet ─────────────────────────────────────────────────────────────

#[test]
fn tailnet_identity_extension_absent_by_default_causes_no_panic() {
    let service = TailnetIdentityLayer::new(None).layer(state(None, None));
    assert!(service.attach().is_none());
    let response = service.inner().healthz();
    assert_eq!(response.status, 200);
    assert_eq!(response.body, "terminus-personal-test 0.0.0-test ok\n");
}

#[test]
fn tailnet_identity_extension_get_returns_none_when_never_inserted() {
    let extensions = axum::http::Extensions::new();
    assert!(extensions.get::<TailnetIdentity>().is_none());
}

#[test]
fn a_learned_identity_is_attached_to_every_request() {
    let layer = TailnetIdentityLayer::new(Some(TailnetIdentity("laptop".to_string())));
    let service = layer.layer(());
    assert_eq!(service.attach(), Some(TailnetIdentity("laptop".to_string())));
    assert_eq!(service.attach(), Some(TailnetIdentity("laptop".to_string())));
}

// ── principals ──────────────────────────────────────────────────────────────

/// The map that knows one certificate.
fn harmony(cert: &ClientIdentity) -> IdentityMap {
    let known = cert.0 == "harmony-primary.example.test";
    IdentityMap::Configured(if known { Some(principal("harmony")) } else { None })
}

/// The gateway's word on a call of `health`: only `granted` may make it.
fn guarded_call(granted: &str, caller: Option<&Principal>) -> HttpResponse {
    let s = state(None, None);
    let call = call_of(&s, "health");
    let denial = br#"{"error": "not allowed"}"#;
    let allowed = caller.map(|p| p.name() == granted).unwrap_or(false);
    let identity = caller.map(|p| p.name()).unwrap_or("anonymous");
    let refusal =
        screen_call(&call, identity, None, if allowed { None } else { Some(denial) }, None);
    match refusal {
        Some(r) => r.response,
        None => looked_up(&call, here(&s.registry, "health"), None, None).response,
    }
}

#[test]
fn resolved_principal_not_raw_cn_is_used_at_the_guard_call_site() {
    let cert = ClientIdentity("harmony-primary.example.test".to_string());
    let resolved = resolve_principal(harmony(&cert), Some(&cert));
    let response = guarded_call("harmony", resolved.as_ref());
    assert_eq!(response.status, 200);
    assert_eq!(is_error(&response), Some(false), "mapped principal should be granted");
}

#[test]
fn unmapped_cert_with_a_configured_map_is_denied_fail_closed() {
    let cert = ClientIdentity("stranger.example.test".to_string());
    let resolved = resolve_principal(harmony(&cert), Some(&cert));
    assert!(resolved.is_none());
    let response = guarded_call("harmony", resolved.as_ref());
    assert_eq!(response.status, 200);
    assert_eq!(is_error(&response), Some(true), "unmapped cert must fail closed");
}

#[test]
fn unconfigured_resolver_keeps_legacy_cn_as_name_passthrough() {
    let cert = ClientIdentity("legacy-cn.example.test".to_string());
    let resolved = resolve_principal(IdentityMap::Unconfigured, Some(&cert));
    let response = guarded_call("legacy-cn.example.test", resolved.as_ref());
    assert_eq!(response.status, 200);
    assert_eq!(is_error(&response), Some(false), "legacy passthrough should still work");
}

#[test]
fn client_supplied_identity_header_cannot_elevate_identity() {
    // The map is never asked about a header; without a certificate it gives nobody.
    let resolved = resolve_principal(IdentityMap::Configured(None), None);
    assert!(resolved.is_none());
    let response = guarded_call("harmony", resolved.as_ref());
    assert_eq!(response.status, 200);
    assert_eq!(
        is_error(&response),
        Some(true),
        "a bare client-set identity header must never grant access"
    );
}

// ── upstreams ───────────────────────────────────────────────────────────────

fn upstream_call(bare_name: &str, arguments: &str) -> (ToolCall, UpstreamTool) {
    let call = ToolCall {
        id: Json::integer(5),
        name: format!("mesh10ns__{bare_name}"),
        arguments: j(arguments),
    };
    let tool =
        UpstreamTool { namespace: "mesh10ns".to_string(), bare_name: bare_name.to_string() };
    (call, tool)
}

#[test]
fn federated_call_allowed_and_routed_is_audited_as_allow() {
    let (call, tool) = upstream_call("echo", r#"{"msg": "hi"}"#);
    assert_eq!(screen_call(&call, "dev-box", Some(&tool), None, None), None);
    let passed_on = match plan_call(&call, &Some(CallRoute::Upstream(tool)), false, "") {
        CallPlan::PassOn { tool, arguments } => {
            assert_eq!(arguments.str_at("msg"), Some("hi"));
            tool
        }
        other => panic!("expected it to be passed on, got {other:?}"),
    };
    let answer = RemoteAnswer::Said { text: "echo: hi".to_string(), is_error: false };
    let outcome = on_upstream(&call, &passed_on.namespace, &answer, None);
    assert_eq!(outcome.response.status, 200);
    assert_eq!(is_error(&outcome.response), Some(false), "federated call should succeed");
    assert_eq!(text(&outcome.response), "echo: hi");
    assert!(outcome.success);
}

#[test]
fn federated_call_denied_before_dispatch_is_audited_as_deny() {
    let (call, tool) = upstream_call("echo", "{}");
    let denial = br#"{"error": "dev-box may not call mesh10ns__echo"}"#;
    let refusal = screen_call(&call, "dev-box", Some(&tool), Some(denial), None).expect("refused");
    assert_eq!(refusal.response.status, 200);
    assert_eq!(is_error(&refusal.response), Some(true));
    let audit = refusal.audit.expect("a record");
    assert_eq!(audit.decision, AuditDecision::Deny);
    assert_eq!(audit.principal, "dev-box");
    assert_eq!(audit.namespace, "mesh10ns");
    assert_eq!(audit.bare_name, "echo");
    assert_eq!(audit.detail, "dev-box may not call mesh10ns__echo");
}

#[test]
fn federated_guarded_call_denied_approval_is_audited_not_silent() {
    let (call, tool) = upstream_call("infisical_status", "{}");
    let asked = match plan_call(&call, &Some(CallRoute::Upstream(tool)), true, "") {
        CallPlan::AskApproval { tool, summary, code } => {
            assert_eq!(
                summary,
                "federated call \"infisical_status\" on mesh upstream \"mesh10ns\""
            );
            assert_eq!(code, None);
            tool
        }
        other => panic!("expected an approval to be asked for, got {other:?}"),
    };
    for approval in [Approval::Denied("no store".to_string()), Approval::Pending("ask first".to_string())] {
        match on_approval(&call, "dev-box", &asked, &approval) {
            Approved::Refused(refusal) => {
                assert_eq!(
                    is_error(&refusal.response),
                    Some(true),
                    "a guarded federated call with no valid approval must be refused"
                );
                let audit = refusal.audit.expect("a record");
                assert_eq!(audit.decision, AuditDecision::ApprovalRequired);
            }
            other => panic!("expected a refusal, got {other:?}"),
        }
    }
}

#[test]
fn guarded_upstream_transport_error_sets_is_transport_failure_before_warn() {
    let (call, _) =
        upstream_call("infisical_status", r#"{"_approval_code": "CODE-1", "msg": "hi"}"#);
    let answer = RemoteAnswer::Unreached("connection reset".to_string());
    let outcome = on_upstream(&call, "mesh10ns", &answer, Some("CODE-1"));
    assert!(outcome.transport_failure, "must be recorded as a transport failure");
    assert!(!outcome.success);
    assert_eq!(outcome.unconsume.as_deref(), Some("CODE-1"), "the approval is given back");
    assert_eq!(
        outcome.detail.as_deref(),
        Some("mesh upstream \"mesh10ns\" call failed: connection reset")
    );
}

#[test]
fn federated_non_guarded_call_strips_approval_code_before_forwarding() {
    let (call, tool) =
        upstream_call("echo", r#"{"msg": "hi", "_approval_code": "SHOULD-NOT-LEAK"}"#);
    match plan_call(&call, &Some(CallRoute::Upstream(tool)), false, "") {
        CallPlan::PassOn { arguments, .. } => {
            assert!(!arguments.render().contains("_approval_code"));
            assert_eq!(arguments, j(r#"{"msg": "hi"}"#));
        }
        other => panic!("expected it to be passed on, got {other:?}"),
    }
    let answer = RemoteAnswer::Said { text: "echo: hi".to_string(), is_error: false };
    let response = on_upstream(&call, "mesh10ns", &answer, None).response;
    assert_eq!(response.status, 200);
    assert_eq!(is_error(&response), Some(false));
    assert_eq!(text(&response), "echo: hi");
}

#[test]
fn an_approved_call_is_passed_on_without_its_code() {
    let (call, tool) = upstream_call("x", r#"{"a": 1, "_approval_code": "CODE"}"#);
    match on_approval(&call, "dev-box", &tool, &Approval::Granted) {
        Approved::PassOn { arguments } => assert_eq!(arguments, j(r#"{"a": 1}"#)),
        other => panic!("expected it to be passed on, got {other:?}"),
    }
}

#[test]
fn an_unavailable_upstream_ends_the_call() {
    let (call, _) = upstream_call("echo", "{}");
    let route = Some(CallRoute::Unavailable("mesh10ns".to_string()));
    assert_eq!(metric_namespace(&route), Some("mesh10ns"));
    match plan_call(&call, &route, false, "mesh10ns is away") {
        CallPlan::Finish(outcome) => {
            assert_eq!(text(&outcome.response), "mesh10ns is away");
            assert!(outcome.transport_failure);
        }
        other => panic!("expected an end, got {other:?}"),
    }
}

#[test]
fn an_unusable_tool_is_only_spoken_of_to_those_who_may_use_it() {
    let (call, tool) = upstream_call("echo", "{}");
    let denial = br#"{"error": "not allowed"}"#;
    let told = screen_call(&call, "dev-box", Some(&tool), Some(denial), Some("out of order"));
    let untold = screen_call(&call, "dev-box", Some(&tool), Some(denial), None);
    assert_eq!(told, untold);
    let refusal = screen_call(&call, "dev-box", Some(&tool), None, Some("out of order")).unwrap();
    assert_eq!(text(&refusal.response), "out of order");
    assert_eq!(refusal.audit, None);
}

#[test]
fn a_refusal_is_quoted_by_its_error_or_whole() {
    assert_eq!(response_body_text(br#"{"error": "no"}"#), "no");
    assert_eq!(response_body_text(br#"{"other": "no"}"#), r#"{"other": "no"}"#);
    assert_eq!(response_body_text(b"plain \xff text"), "plain \u{fffd} text");
}

// ── the router ──────────────────────────────────────────────────────────────

fn heard() -> Heard {
    Heard { route: None, upstream: None, core: None, worker: None, personal: None }
}

#[test]
fn a_router_asks_one_after_the_other() {
    let said = |t: &str| RemoteAnswer::Said { text: t.to_string(), is_error: false };
    let done = |t: &str| RouterAction::Done(Ok(t.to_string()));
    let upstream = || UpstreamTool { namespace: "ns".to_string(), bare_name: "a".to_string() };
    let args = j(r#"{"a": 1, "_approval_code": "CODE"}"#);

    let mut h = Heard { route: Some(CallRoute::Upstream(upstream())), ..heard() };
    assert_eq!(
        McpServerState::router_dispatch("a", &args, &h),
        RouterAction::CallUpstream { tool: upstream(), arguments: args.copy() }
    );
    h.upstream = Some(said("upstream"));
    assert_eq!(McpServerState::router_dispatch("a", &args, &h), done("upstream"));
    h.upstream = Some(RemoteAnswer::Said { text: "no".to_string(), is_error: true });
    assert_eq!(
        McpServerState::router_dispatch("a", &args, &h),
        RouterAction::Done(Err("no".to_string()))
    );

    let mut h = heard();
    assert_eq!(
        McpServerState::router_dispatch("a", &args, &h),
        RouterAction::CallCore(args.copy())
    );
    h.core = Some(worker("core"));
    assert_eq!(McpServerState::router_dispatch("a", &args, &h), done("core"));
    h.core = Some(None);
    assert_eq!(
        McpServerState::router_dispatch("a", &args, &h),
        RouterAction::CallWorker(args.copy())
    );
    h.worker = Some(worker("worker"));
    assert_eq!(McpServerState::router_dispatch("a", &args, &h), done("worker"));
    h.worker = Some(None);
    assert_eq!(
        McpServerState::router_dispatch("a", &args, &h),
        RouterAction::CallPersonal(args.copy())
    );
    h.personal = Some(Some(said("personal")));
    assert_eq!(McpServerState::router_dispatch("a", &args, &h), done("personal"));
    h.personal = Some(None);
    assert_eq!(
        McpServerState::router_dispatch("a", &args, &h),
        RouterAction::Done(Err("`a` is not a tool that exists here".to_string()))
    );

    let away = Heard { route: Some(CallRoute::Unavailable("ns".to_string())), ..heard() };
    assert_eq!(
        McpServerState::router_dispatch("a", &args, &away),
        RouterAction::Done(Err("the `ns` upstream is currently unavailable".to_string()))
    );
}

// ── inference and the agent ─────────────────────────────────────────────────

#[test]
fn an_assertion_from_outside_is_refused_and_a_name_is_turned_into_one() {
    match admit_inference(&claims(None, Some("token"))) {
        Ingress::Refuse(response, note) => {
            assert_eq!(response.status, 403);
            assert_eq!(note, "inbound person-assertion refused");
        }
        other => panic!("expected a refusal, got {other:?}"),
    }
    assert_eq!(
        admit_inference(&claims(Some("alice"), Some("token"))),
        Ingress::Mint("alice".to_string())
    );
    assert_eq!(admit_inference(&claims(None, None)), Ingress::Plain);
    assert_eq!(on_minted(&Some(Ok("signed".to_string()))), Ok("signed".to_string()));
    let (response, _) = on_minted(&Some(Err("no grant".to_string()))).unwrap_err();
    assert_eq!(response.status, 403);
    assert_eq!(body(&response).str_at("detail"), Some("no grant"));
    let (response, _) = on_minted(&None).unwrap_err();
    assert_eq!(
        body(&response).str_at("detail"),
        Some("this process has no gateway to authorize an on-behalf-of assertion")
    );
    assert_eq!(proxy_unconfigured().status, 503);
}

#[test]
fn only_a_success_status_is_recorded_as_one() {
    assert_eq!(proxy_record(204), (true, None));
    assert_eq!(
        proxy_record(599),
        (false, Some("upstream status 599 <unknown status code>".to_string()))
    );
    assert_eq!(proxy_record(502), (false, Some("upstream status 502 Bad Gateway".to_string())));
}

#[test]
fn a_turn_carries_its_whole_history() {
    let turn = read_turn(&j(
        r#"{"system_prompt": "Be brief.", "stream": true, "messages": [
            {"role": "user", "content": "first"},
            {"role": "assistant", "content": "answer"},
            {"role": "user", "content": "second"},
            {"role": "tool", "content": "noise"}]}"#,
    ));
    assert_eq!(turn.system_prompt, "Be brief.");
    assert_eq!(turn.history.len(), 4);
    assert_eq!(turn.user_message, "second");
    assert!(turn.stream);
    let empty = read_turn(&j("{}"));
    assert_eq!(empty.user_message, "");
    assert!(empty.history.is_empty() && !empty.stream);
}

#[test]
fn a_turn_needs_an_honoured_identity_a_backend_and_a_body() {
    assert!(matches!(admit_turn(&AssertedPerson::Rejected), AgentStep::Refuse(_)));
    assert!(matches!(admit_turn(&verified("alice")), AgentStep::AskGateway));
    let (response, note) = begin_turn(false, b"{}").unwrap_err();
    assert_eq!((response.status, note), (503, "no inference backend"));
    let (response, note) = begin_turn(true, b"nonsense").unwrap_err();
    assert_eq!((response.status, note), (400, "invalid body"));
    assert!(body(&response).str_at("error").unwrap().starts_with("invalid request body: "));
    assert!(begin_turn(true, b"{}").is_ok());
}

#[test]
fn a_turn_is_answered_as_a_stream_or_in_one_piece() {
    let outcome = AgentOutcome {
        response: "done".to_string(),
        status: "ok".to_string(),
        turns: 2,
        steps: vec![AgentCall {
            tool: "media_search".to_string(),
            status: "ok".to_string(),
            cached: true,
            duration_ms: 12,
        }],
    };
    let streamed = finish_turn(true, "data: x\n\n", &outcome);
    assert_eq!(streamed.body, "data: x\n\n");
    assert_eq!(streamed.content_type, Some("text/event-stream"));
    let whole = body(&finish_turn(false, "", &outcome));
    assert_eq!(whole.str_at("response"), Some("done"));
    assert_eq!(whole.int_at("turns"), Some(2));
    assert_eq!(whole.int_at("tools_called"), Some(1));
    let step = &whole.array_at("execution_log").unwrap()[0];
    assert_eq!(step.str_at("tool"), Some("media_search"));
    assert_eq!(step.int_at("duration_ms"), Some(12));
}

// ── whole requests ──────────────────────────────────────────────────────────

#[test]
fn a_call_is_looked_for_in_order() {
    let args = j(r#"{"a": 1, "_approval_code": "CODE"}"#);
    let call = ToolCall { id: Json::integer(1), name: "a".to_string(), arguments: args.copy() };
    let mut f = facts();
    assert_eq!(f.advance(&call), CallAction::CallCore(args.copy()));
    f.core = Some(None);
    assert_eq!(f.advance(&call), CallAction::CallWorker(args.copy()));
    f.worker = Some(None);
    assert_eq!(f.advance(&call), CallAction::CallPersonal(args.copy()));
    f.personal = Some(None);
    match f.advance(&call) {
        CallAction::Finish { outcome, .. } => assert_eq!(text(&outcome.response), "Unknown tool: a"),
        other => panic!("expected an end, got {other:?}"),
    }
    f.core = Some(worker("here"));
    match f.advance(&call) {
        CallAction::Finish { outcome, .. } => assert_eq!(text(&outcome.response), "here"),
        other => panic!("expected an end, got {other:?}"),
    }
}

#[test]
fn a_record_names_the_upstream_of_a_call() {
    let named = |f: &CallFacts, call: &ToolCall| match f.advance(call) {
        CallAction::Finish { upstream, .. } => upstream,
        other => panic!("expected an end, got {other:?}"),
    };
    let (call, tool) = upstream_call("echo", "{}");
    let mut f = CallFacts {
        route: Some(CallRoute::Upstream(tool)),
        answer: Some(RemoteAnswer::Said { text: "hi".to_string(), is_error: false }),
        ..facts()
    };
    let (_, tool) = upstream_call("echo", "{}");
    assert_eq!(named(&f, &call), Some(tool));
    f.route = Some(CallRoute::Unavailable("mesh10ns".to_string()));
    assert_eq!(
        named(&f, &call),
        Some(UpstreamTool {
            namespace: "mesh10ns".to_string(),
            bare_name: "mesh10ns__echo".to_string(),
        })
    );
    f.core = Some(worker("here"));
    f.route = Some(CallRoute::Local);
    assert_eq!(named(&f, &call), None);
    f.route = None;
    assert_eq!(named(&f, &call), None);
    assert_eq!(record_upstream(&f.route, "a"), None);
}

#[test]
fn a_name_is_listed_once_and_called_where_it_is_listed() {
    let mut registry = ToolRegistry::new();
    registry.register_or_replace(tool("a", "core"));
    registry.register_or_replace(tool("a", "core"));
    let routed = vec![tool("a", "worker"), tool("b", "worker")];
    let personal = vec![tool("a", "personal"), tool("b", "personal"), tool("c", "personal")];
    let listed = merge_catalog(registry.list(), &routed, &personal, &Vec::new());
    let shown: Vec<(&str, &str)> = listed
        .iter()
        .map(|t| (t.str_at("name").unwrap(), t.str_at("description").unwrap()))
        .collect();
    assert_eq!(shown, vec![("a", "core"), ("b", "worker"), ("c", "personal")]);
    for (name, owner) in shown {
        let call = ToolCall { id: Json::integer(1), name: name.to_string(), arguments: j("{}") };
        let outcome = looked_up(
            &call,
            if registry.contains(name) { worker("core") } else { None },
            if routed.iter().any(|t| t.name == name) { worker("worker") } else { None },
            Some(RemoteAnswer::Said { text: "personal".to_string(), is_error: false }),
        );
        assert_eq!(text(&outcome.response), owner);
    }
}

#[test]
fn what_is_shown_is_what_may_be_called() {
    let call = ToolCall { id: Json::integer(1), name: "a".to_string(), arguments: j("{}") };
    for (allowed, usable) in [(true, true), (true, false), (false, true), (false, false)] {
        let entry = CatalogEntry { tool: j(r#"{"name": "a"}"#), allowed, usable };
        let shown = result(&list_tools(Json::integer(1), &vec![entry])).array_at("tools").unwrap().len();
        let f = CallFacts {
            denial: if allowed { None } else { Some(b"no".to_vec()) },
            unusable: if usable { None } else { Some("out of order".to_string()) },
            ..facts()
        };
        let refused = matches!(f.advance(&call), CallAction::Refuse(_));
        assert_eq!(shown == 1, !refused);
        assert_eq!(shown == 1, allowed && usable);
    }
}

#[test]
fn a_refused_call_reaches_nobody() {
    let (call, tool) = upstream_call("echo", "{}");
    let f = CallFacts {
        upstream: Some(UpstreamTool {
            namespace: "mesh10ns".to_string(),
            bare_name: "echo".to_string(),
        }),
        denial: Some(br#"{"error": "no"}"#.to_vec()),
        route: Some(CallRoute::Upstream(tool)),
        approval: Some(Approval::Granted),
        core: Some(worker("here")),
        ..facts()
    };
    match f.advance(&call) {
        CallAction::Refuse(refusal) => assert_eq!(text(&refusal.response), "no"),
        other => panic!("expected a refusal, got {other:?}"),
    }
}

#[test]
fn a_guarded_call_waits_for_its_approval_and_spends_it_once() {
    let (call, tool) = upstream_call("x", r#"{"a": 1, "_approval_code": "CODE"}"#);
    let mut f = CallFacts { route: Some(CallRoute::Upstream(tool)), guarded: true, ..facts() };
    match f.advance(&call) {
        CallAction::AskApproval { code, .. } => assert_eq!(code.as_deref(), Some("CODE")),
        other => panic!("expected a question, got {other:?}"),
    }
    f.approval = Some(Approval::Denied("spent".to_string()));
    assert!(matches!(f.advance(&call), CallAction::Refuse(_)));
    f.approval = Some(Approval::Granted);
    match f.advance(&call) {
        CallAction::CallUpstream { arguments, .. } => assert_eq!(arguments, j(r#"{"a": 1}"#)),
        other => panic!("expected a call, got {other:?}"),
    }
    f.answer = Some(RemoteAnswer::Unreached("reset".to_string()));
    match f.advance(&call) {
        CallAction::Finish { outcome, .. } => {
            assert!(outcome.transport_failure);
            assert_eq!(outcome.unconsume.as_deref(), Some("CODE"));
        }
        other => panic!("expected an end, got {other:?}"),
    }
}

#[test]
fn an_inference_request_goes_on_step_by_step() {
    let mut f = InferenceFacts {
        denied: false,
        claims: claims(Some("alice"), None),
        minted: None,
        has_proxy: true,
        status: None,
    };
    assert_eq!(f.advance(), InferenceAction::Mint("alice".to_string()));
    f.minted = Some(Some(Ok("signed".to_string())));
    assert_eq!(f.advance(), InferenceAction::Forward(Some("signed".to_string())));
    f.status = Some(200);
    assert_eq!(f.advance(), InferenceAction::Record(true, None));
    f.minted = Some(None);
    assert!(matches!(f.advance(), InferenceAction::Refuse(_, "on-behalf-of assertion refused")));
    f.denied = true;
    assert_eq!(f.advance(), InferenceAction::Deny);

    let plain = InferenceFacts {
        denied: false,
        claims: claims(None, None),
        minted: None,
        has_proxy: false,
        status: None,
    };
    match plain.advance() {
        InferenceAction::Unserved(response, (success, detail)) => {
            assert_eq!(response.status, 503);
            assert!(!success);
            assert_eq!(detail.as_deref(), Some("upstream status 503 Service Unavailable"));
        }
        other => panic!("expected an answer, got {other:?}"),
    }
}

#[test]
fn a_turn_goes_on_step_by_step() {
    let mut f = AgentFacts {
        local: true,
        asserted: AssertedPerson::Absent,
        denied: None,
        has_backend: true,
        body: br#"{"messages": [{"role": "user", "content": "hi"}]}"#.to_vec(),
        ended: None,
    };
    assert_eq!(f.advance(), AgentAction::AskGateway);
    f.denied = Some(false);
    match f.advance() {
        AgentAction::Run(turn) => assert_eq!(turn.user_message, "hi"),
        other => panic!("expected a run, got {other:?}"),
    }
    let outcome = AgentOutcome {
        response: "hello".to_string(),
        status: "ok".to_string(),
        turns: 1,
        steps: Vec::new(),
    };
    f.ended = Some((outcome, "frames".to_string()));
    match f.advance() {
        AgentAction::Done(response, record) => {
            assert_eq!(response.status, 200);
            assert_eq!(body(&response).str_at("response"), Some("hello"));
            assert_eq!(record, (true, None));
        }
        other => panic!("expected an answer, got {other:?}"),
    }
    f.denied = Some(true);
    assert_eq!(f.advance(), AgentAction::Deny);
    f.asserted = AssertedPerson::Rejected;
    assert!(matches!(f.advance(), AgentAction::Refuse(_)));
    f.local = false;
    assert_eq!(f.advance(), AgentAction::Proxy);
}
