//! What the server answers, in terms of the requests that it gets, of the tools that there are and
//! of what those that it asks have to say.
use vstd::prelude::*;

use crate::http::ResponseView;
use crate::json::{
    jsons, lemma_lookup_push, opt_json_owned, parsed_bytes, rendered,
    without_field_removes_one_field, Json, JsonView,
};
use crate::mcp_server::{
    asserted_of, catalog_of, context_source, framed, fresh_of, infos, initialize_result, key_of,
    list_answer, merge_catalog, newest_user, opt_remote, opt_route, output_answer, own_catalog,
    principal_of, received, router_catalog_view, router_next, shown_tools, text_answer, tool_json,
    turn_answer, turn_of, APPROVAL_ARG, AgentFacts, AgentOutcome, AgentView, Approval,
    AuditDecision, CallActionView, CallFacts, CallOutcomeView, CatalogEntry, ContextSource, Heard,
    InferenceFacts, InferenceView, MapView, McpView, RemoteView, RouteView, RouterView,
    UpstreamView,
};
use crate::mesh::{AssertedView, KeyView, PrincipalSource, PrincipalView};
use crate::registry::{offered_tools_have_names, InfoView, ToolInfo};
use crate::text::{lossy, trimmed};
use crate::tool::{ToolError, ToolOutput};

verus! {

// ── the catalog ─────────────────────────────────────────────────────────────

/// Whether one of some tools has a name.
pub open spec fn has_tool(tools: Seq<InfoView>, name: Seq<char>) -> bool {
    exists|k: int| 0 <= k < tools.len() && (#[trigger] tools[k]).name == name
}

/// Whether a listed entry says what a tool says of itself: its name, its description and the schema
/// of what it takes.
pub open spec fn lists(entry: JsonView, tool: InfoView) -> bool {
    &&& entry.text_at("name"@) == Some(tool.name)
    &&& entry.text_at("description"@) == Some(tool.description)
    &&& entry.field("inputSchema"@) == Some(tool.parameters)
}

proof fn lemma_lists(tool: InfoView)
    ensures
        lists(tool_json(tool), tool),
{
    broadcast use lemma_lookup_push;
    reveal_strlit("name");
    reveal_strlit("description");
    reveal_strlit("inputSchema");
    assert("name"@.len() == 4);
    assert("description"@.len() == 11);
    assert("inputSchema"@.len() == 11);
    assert("description"@[0] == 'd');
    assert("inputSchema"@[0] == 'i');
}

proof fn lemma_fresh_members(taken: Seq<InfoView>, more: Seq<InfoView>)
    ensures
        forall|i: int|
            0 <= i < more.len() && !has_tool(taken, (#[trigger] more[i]).name) ==> fresh_of(
                taken,
                more,
            ).contains(more[i]),
        forall|k: int|
            0 <= k < fresh_of(taken, more).len() ==> more.contains(
                #[trigger] fresh_of(taken, more)[k],
            ) && !has_tool(taken, fresh_of(taken, more)[k].name),
    decreases more.len(),
{
    if more.len() > 0 {
        let front = more.drop_last();
        let before = fresh_of(taken, front);
        let after = fresh_of(taken, more);
        lemma_fresh_members(taken, front);
        offered_tools_have_names(taken, more.last().name);
        assert forall|i: int| 0 <= i < more.len() && !has_tool(taken, (#[trigger] more[i]).name)
            implies after.contains(more[i]) by {
            if i < front.len() {
                assert(front[i] == more[i]);
                let k = choose|k: int| 0 <= k < before.len() && before[k] == front[i];
                assert(after[k] == more[i]);
            } else {
                assert(after[before.len() as int] == more[i]);
            }
        }
        assert forall|k: int| 0 <= k < after.len() implies more.contains(#[trigger] after[k])
            && !has_tool(taken, after[k].name) by {
            if k < before.len() {
                assert(after[k] == before[k]);
                let i = choose|i: int| 0 <= i < front.len() && front[i] == before[k];
                assert(more[i] == after[k]);
            } else {
                assert(more[more.len() - 1] == after[k]);
            }
        }
    }
}

/// Every tool of this process is listed, every tool of a worker whose name this process does not
/// have, every tool of the personal backend whose name neither has, and every tool of an upstream as
/// it comes. Each entry carries the tool's name, its description and the schema of what it takes.
pub proof fn every_tool_is_listed_with_its_schema(
    core: Seq<InfoView>,
    routed: Seq<InfoView>,
    personal: Seq<InfoView>,
    mesh: Seq<JsonView>,
)
    ensures
        forall|i: int|
            0 <= i < core.len() ==> lists(
                #[trigger] catalog_of(core, routed, personal, mesh)[i],
                core[i],
            ),
        forall|i: int|
            0 <= i < routed.len() && !has_tool(core, (#[trigger] routed[i]).name) ==> exists|k: int|
                0 <= k < catalog_of(core, routed, personal, mesh).len() && lists(
                    #[trigger] catalog_of(core, routed, personal, mesh)[k],
                    routed[i],
                ),
        forall|i: int|
            0 <= i < personal.len() && !has_tool(core, (#[trigger] personal[i]).name) && !has_tool(
                routed,
                personal[i].name,
            ) ==> exists|k: int|
                0 <= k < catalog_of(core, routed, personal, mesh).len() && lists(
                    #[trigger] catalog_of(core, routed, personal, mesh)[k],
                    personal[i],
                ),
        forall|i: int|
            0 <= i < mesh.len() ==> catalog_of(core, routed, personal, mesh)[catalog_of(
                core,
                routed,
                personal,
                mesh,
            ).len() - mesh.len() + i] == #[trigger] mesh[i],
{
    let all = catalog_of(core, routed, personal, mesh);
    let own = own_catalog(core, routed, personal);
    let workers = fresh_of(core, routed);
    let with_workers = core + workers;
    let rest = fresh_of(with_workers, personal);
    lemma_fresh_members(core, routed);
    lemma_fresh_members(with_workers, personal);
    assert forall|k: int| 0 <= k < own.len() implies lists(#[trigger] all[k], own[k]) by {
        lemma_lists(own[k]);
    }
    assert forall|i: int| 0 <= i < core.len() implies lists(#[trigger] all[i], core[i]) by {
        assert(own[i] == core[i]);
    }
    assert forall|i: int| 0 <= i < routed.len() && !has_tool(core, (#[trigger] routed[i]).name)
        implies exists|k: int| 0 <= k < all.len() && lists(#[trigger] all[k], routed[i]) by {
        let k = choose|k: int| 0 <= k < workers.len() && workers[k] == routed[i];
        assert(own[core.len() + k] == routed[i]);
        assert(lists(all[core.len() + k], routed[i]));
    }
    assert forall|i: int|
        0 <= i < personal.len() && !has_tool(core, (#[trigger] personal[i]).name) && !has_tool(
            routed,
            personal[i].name,
        ) implies exists|k: int| 0 <= k < all.len() && lists(#[trigger] all[k], personal[i]) by {
        if has_tool(with_workers, personal[i].name) {
            let k = choose|k: int|
                0 <= k < with_workers.len() && (#[trigger] with_workers[k]).name
                    == personal[i].name;
            if k < core.len() {
                assert(core[k].name == personal[i].name);
            } else {
                assert(with_workers[k] == workers[k - core.len()]);
                assert(routed.contains(workers[k - core.len()]));
                let j = choose|j: int|
                    0 <= j < routed.len() && routed[j] == workers[k - core.len()];
                assert(routed[j].name == personal[i].name);
            }
        }
        let k = choose|k: int| 0 <= k < rest.len() && rest[k] == personal[i];
        assert(own[with_workers.len() + k] == personal[i]);
        assert(lists(all[with_workers.len() + k], personal[i]));
    }
    assert forall|i: int| 0 <= i < mesh.len() implies all[all.len() - mesh.len() + i]
        == #[trigger] mesh[i] by {}
}

/// What a merge of tools gives back begins with the tools of this process, each with its name, its
/// description and its schema, and ends with the tools of the upstreams as they came.
pub proof fn merged_tools_keep_their_schema(
    core: &Vec<ToolInfo>,
    routed: &Vec<ToolInfo>,
    personal: &Vec<ToolInfo>,
    mesh: &Vec<Json>,
    merged: Vec<Json>,
)
    requires
        call_ensures(merge_catalog, (core, routed, personal, mesh), merged),
    ensures
        core@.len() + mesh@.len() <= merged@.len(),
        forall|i: int|
            0 <= i < core@.len() ==> {
                &&& (#[trigger] merged@[i])@.text_at("name"@) == Some(core@[i].name@)
                &&& merged@[i]@.text_at("description"@) == Some(core@[i].description@)
                &&& merged@[i]@.field("inputSchema"@) == Some(core@[i].parameters@)
            },
        forall|i: int|
            0 <= i < mesh@.len() ==> merged@[merged@.len() - mesh@.len() + i]@ == (
            #[trigger] mesh@[i])@,
{
    let tools = infos(core@);
    let others = jsons(mesh@);
    let all = catalog_of(tools, infos(routed@), infos(personal@), others);
    every_tool_is_listed_with_its_schema(tools, infos(routed@), infos(personal@), others);
    assert(jsons(merged@) == all);
    assert forall|i: int| 0 <= i < core@.len() implies {
        &&& (#[trigger] merged@[i])@.text_at("name"@) == Some(core@[i].name@)
        &&& merged@[i]@.text_at("description"@) == Some(core@[i].description@)
        &&& merged@[i]@.field("inputSchema"@) == Some(core@[i].parameters@)
    } by {
        assert(lists(all[i], tools[i]));
        assert(all[i] == merged@[i]@);
    }
    assert forall|i: int| 0 <= i < mesh@.len() implies merged@[merged@.len() - mesh@.len() + i]@ == (
    #[trigger] mesh@[i])@ by {
        assert(all[all.len() - others.len() + i] == others[i]);
        assert(all[all.len() - others.len() + i] == merged@[merged@.len() - mesh@.len() + i]@);
    }
}

/// Nothing is listed that nobody has: before the tools of upstreams, each entry is a tool of this
/// process, of a worker or of the personal backend.
pub proof fn nothing_else_is_listed(
    core: Seq<InfoView>,
    routed: Seq<InfoView>,
    personal: Seq<InfoView>,
    mesh: Seq<JsonView>,
    k: int,
)
    requires
        0 <= k < catalog_of(core, routed, personal, mesh).len() - mesh.len(),
    ensures
        exists|tool: InfoView|
            #[trigger] lists(catalog_of(core, routed, personal, mesh)[k], tool) && (core.contains(
                tool,
            ) || routed.contains(tool) || personal.contains(tool)),
{
    let own = own_catalog(core, routed, personal);
    let workers = fresh_of(core, routed);
    lemma_fresh_members(core, routed);
    lemma_fresh_members(core + workers, personal);
    lemma_lists(own[k]);
    let tool = own[k];
    if k < core.len() {
        assert(core[k] == tool);
    } else if k < core.len() + workers.len() {
        assert(workers[k - core.len()] == tool);
    } else {
        assert(fresh_of(core + workers, personal)[k - core.len() - workers.len()] == tool);
    }
    assert(lists(catalog_of(core, routed, personal, mesh)[k], tool));
}

/// What is shown of a catalog follows it entry by entry: one that the caller may use and that works,
/// or has no name, is shown as it is, and no other.
pub proof fn what_is_shown_follows_the_catalog(
    a: Seq<CatalogEntry>,
    b: Seq<CatalogEntry>,
    entry: CatalogEntry,
)
    ensures
        shown_tools(a + b) == shown_tools(a) + shown_tools(b),
        shown_tools(Seq::empty()).len() == 0,
        shown_tools(seq![entry]) == (if entry.allowed && (entry.usable || entry.tool@.text_at(
            "name"@,
        ) is None) {
            seq![entry.tool@]
        } else {
            Seq::empty()
        }),
    decreases b.len(),
{
    let one = seq![entry];
    assert(one.drop_last() =~= Seq::<CatalogEntry>::empty());
    assert(shown_tools(one.drop_last()) =~= Seq::<JsonView>::empty());
    assert(Seq::<JsonView>::empty().push(entry.tool@) =~= seq![entry.tool@]);
    if b.len() == 0 {
        assert(a + b =~= a);
        assert(shown_tools(a) + shown_tools(b) =~= shown_tools(a));
    } else {
        assert((a + b).drop_last() =~= a + b.drop_last());
        what_is_shown_follows_the_catalog(a, b.drop_last(), entry);
        assert(shown_tools(a + b) =~= shown_tools(a) + shown_tools(b));
    }
}

/// A router may select every listed tool that has a name, with its description and schema.
pub proof fn routers_select_from_what_is_listed(a: Seq<JsonView>, b: Seq<JsonView>, entry: JsonView)
    ensures
        router_catalog_view(a + b) == router_catalog_view(a) + router_catalog_view(b),
        router_catalog_view(Seq::empty()).len() == 0,
        match entry.text_at("name"@) {
            None => router_catalog_view(seq![entry]).len() == 0,
            Some(name) => router_catalog_view(seq![entry]) matches found && found.len() == 1
                && found[0].name == name && (entry.text_at("description"@) matches Some(d)
                ==> found[0].description == d) && (entry.text_at("description"@) is None
                ==> found[0].description.len() == 0) && (entry.field("inputSchema"@) matches Some(s)
                ==> found[0].parameters == s) && (entry.field("inputSchema"@) is None
                ==> (found[0].parameters matches JsonView::Object(f) && f.len() == 0)),
        },
    decreases b.len(),
{
    let one = seq![entry];
    assert(one.drop_last() =~= Seq::<JsonView>::empty());
    assert(router_catalog_view(one.drop_last()) =~= Seq::<InfoView>::empty());
    reveal_strlit("");
    if b.len() == 0 {
        assert(a + b =~= a);
        assert(router_catalog_view(a) + router_catalog_view(b) =~= router_catalog_view(a));
    } else {
        assert((a + b).drop_last() =~= a + b.drop_last());
        routers_select_from_what_is_listed(a, b.drop_last(), entry);
        assert(router_catalog_view(a + b) =~= router_catalog_view(a) + router_catalog_view(b));
    }
}

// ── replies ─────────────────────────────────────────────────────────────────

/// Whether a response is one frame of an event stream that carries a reply to a request with an id.
pub open spec fn frames(response: ResponseView, reply: JsonView, id: JsonView) -> bool {
    &&& response.status == 200
    &&& response.content_type == Some("text/event-stream"@)
    &&& response.www_authenticate is None
    &&& response.body == "event: message\ndata: "@ + rendered(reply) + "\n\n"@
    &&& reply.text_at("jsonrpc"@) == Some("2.0"@)
    &&& reply.field("id"@) == Some(id)
}

/// Whether a response answers a call with a text.
pub open spec fn says_text(
    response: ResponseView,
    id: JsonView,
    text: Seq<char>,
    is_error: bool,
) -> bool {
    exists|reply: JsonView|
        {
            &&& #[trigger] frames(response, reply, id)
            &&& response.session_id is None
            &&& reply.field("error"@) is None
            &&& reply.at("result"@).items_at("content"@) matches Some(content) && content.len() == 1
                && content[0].text_at("type"@) == Some("text"@) && content[0].text_at("text"@)
                == Some(text)
            &&& reply.at("result"@).bool_at("isError"@) == Some(is_error)
            &&& reply.at("result"@).field("structuredContent"@) is None
        }
}

proof fn lemma_says_text(id: JsonView, text: Seq<char>, is_error: bool)
    ensures
        says_text(text_answer(id, text, is_error), id, text, is_error),
{
    broadcast use lemma_lookup_push;
    reveal_strlit("jsonrpc");
    reveal_strlit("id");
    reveal_strlit("result");
    reveal_strlit("error");
    reveal_strlit("content");
    reveal_strlit("isError");
    reveal_strlit("structuredContent");
    reveal_strlit("type");
    reveal_strlit("text");
    assert("jsonrpc"@.len() == 7);
    assert("id"@.len() == 2);
    assert("result"@.len() == 6);
    assert("error"@.len() == 5);
    assert("content"@.len() == 7);
    assert("isError"@.len() == 7);
    assert("structuredContent"@.len() == 17);
    assert("type"@.len() == 4);
    assert("text"@.len() == 4);
    assert("jsonrpc"@[0] == 'j');
    assert("content"@[0] == 'c');
    assert("isError"@[0] == 'i');
    assert("type"@[1] == 'y');
    assert("text"@[1] == 'e');
    reveal_strlit("");
    let reply = crate::mcp_server::rpc_result(
        id,
        JsonView::Object(crate::mcp_server::text_result(text, is_error)),
    );
    assert(frames(text_answer(id, text, is_error), reply, id));
}

/// A tool's output is answered under the id of the call: its text, no error, and its structured
/// content where it has some.
pub proof fn outputs_are_answered_whole(id: JsonView, text: Seq<char>, structured: Option<JsonView>)
    ensures
        exists|reply: JsonView|
            {
                &&& #[trigger] frames(output_answer(id, text, structured), reply, id)
                &&& reply.at("result"@).items_at("content"@) matches Some(content) && content.len()
                    == 1 && content[0].text_at("type"@) == Some("text"@) && content[0].text_at(
                    "text"@,
                ) == Some(text)
                &&& reply.at("result"@).bool_at("isError"@) == Some(false)
                &&& reply.at("result"@).field("structuredContent"@) == structured
            },
{
    broadcast use lemma_lookup_push;
    reveal_strlit("jsonrpc");
    reveal_strlit("id");
    reveal_strlit("result");
    reveal_strlit("error");
    reveal_strlit("content");
    reveal_strlit("isError");
    reveal_strlit("structuredContent");
    reveal_strlit("type");
    reveal_strlit("text");
    assert("jsonrpc"@.len() == 7);
    assert("id"@.len() == 2);
    assert("result"@.len() == 6);
    assert("error"@.len() == 5);
    assert("content"@.len() == 7);
    assert("isError"@.len() == 7);
    assert("structuredContent"@.len() == 17);
    assert("type"@.len() == 4);
    assert("text"@.len() == 4);
    assert("jsonrpc"@[0] == 'j');
    assert("content"@[0] == 'c');
    assert("isError"@[0] == 'i');
    assert("type"@[1] == 'y');
    assert("text"@[1] == 'e');
    reveal_strlit("");
    let fields = crate::mcp_server::text_result(text, false);
    let result = match structured {
        Some(v) => fields.push(("structuredContent"@, v)),
        None => fields,
    };
    let reply = crate::mcp_server::rpc_result(id, JsonView::Object(result));
    assert(frames(output_answer(id, text, structured), reply, id));
}

/// A listing is answered under its id with the tools that are shown.
pub proof fn listings_are_answered(id: JsonView, entries: Seq<CatalogEntry>)
    ensures
        exists|reply: JsonView|
            #[trigger] frames(list_answer(id, entries), reply, id) && reply.at("result"@).items_at(
                "tools"@,
            ) == Some(shown_tools(entries)),
{
    broadcast use lemma_lookup_push;
    reveal_strlit("jsonrpc");
    reveal_strlit("id");
    reveal_strlit("result");
    reveal_strlit("tools");
    assert("jsonrpc"@.len() == 7);
    assert("id"@.len() == 2);
    assert("result"@.len() == 6);
    assert("tools"@.len() == 5);
    reveal_strlit("");
    let result = JsonView::Object(
        crate::json::no_fields().push(("tools"@, JsonView::Array(shown_tools(entries)))),
    );
    let reply = crate::mcp_server::rpc_result(id, result);
    assert(frames(list_answer(id, entries), reply, id));
}

/// An initialization states the protocol, that tools do not announce their changes, and which server
/// this is.
pub proof fn servers_introduce_themselves(name: Seq<char>, version: Seq<char>)
    ensures
        ({
            let it = initialize_result(name, version);
            &&& it.text_at("protocolVersion"@) == Some("2024-11-05"@)
            &&& it.at("capabilities"@).at("tools"@).bool_at("listChanged"@) == Some(false)
            &&& it.at("serverInfo"@).text_at("name"@) == Some(name)
            &&& it.at("serverInfo"@).text_at("version"@) == Some(version)
        }),
{
    broadcast use lemma_lookup_push;
    reveal_strlit("protocolVersion");
    reveal_strlit("capabilities");
    reveal_strlit("serverInfo");
    reveal_strlit("tools");
    reveal_strlit("listChanged");
    reveal_strlit("name");
    reveal_strlit("version");
    assert("protocolVersion"@.len() == 15);
    assert("capabilities"@.len() == 12);
    assert("serverInfo"@.len() == 10);
    assert("tools"@.len() == 5);
    assert("listChanged"@.len() == 11);
    assert("name"@.len() == 4);
    assert("version"@.len() == 7);
}

/// Whether a response is an error of the protocol in one piece.
pub open spec fn is_plain_error(
    response: ResponseView,
    status: u16,
    code: int,
    message: Seq<char>,
) -> bool {
    exists|reply: JsonView|
        {
            &&& response.status == status
            &&& response.content_type == Some("application/json"@)
            &&& response.session_id is None
            &&& response.body == #[trigger] rendered(reply)
            &&& reply.text_at("jsonrpc"@) == Some("2.0"@)
            &&& reply.field("id"@) == Some(JsonView::Null)
            &&& reply.at("error"@).at("code"@) == JsonView::Int(code)
            &&& reply.at("error"@).text_at("message"@) == Some(message)
        }
}

/// A request is heard where no token is asked for, or the very token stands behind `Bearer `. One
/// that is not is answered 401, with the challenge where there is one that a header can carry; one
/// that is no JSON is answered 400.
pub proof fn unheard_requests_are_turned_away(
    expected: Option<Seq<char>>,
    challenge: Option<Seq<char>>,
    header: Option<Seq<char>>,
    body: Result<JsonView, Seq<char>>,
)
    ensures
        expected matches Some(token) ==> header != Some("Bearer "@ + token) ==> (received(
            expected,
            challenge,
            header,
            body,
        ) matches McpView::Reply(r) && is_plain_error(r, 401, -32001, "Unauthorized"@)
            && r.www_authenticate == (match challenge {
            Some(c) => if crate::http::is_header_text(c) {
                Some(c)
            } else {
                None
            },
            None => None,
        })),
        (expected matches Some(token) ==> header == Some("Bearer "@ + token)) && body is Err
            ==> (received(expected, challenge, header, body) matches McpView::Reply(r)
            && is_plain_error(r, 400, -32700, "Parse error"@) && r.www_authenticate is None),
{
    broadcast use lemma_lookup_push;
    reveal_strlit("jsonrpc");
    reveal_strlit("id");
    reveal_strlit("error");
    reveal_strlit("code");
    reveal_strlit("message");
    assert("jsonrpc"@.len() == 7);
    assert("id"@.len() == 2);
    assert("error"@.len() == 5);
    assert("code"@.len() == 4);
    assert("message"@.len() == 7);
    assert("jsonrpc"@[0] == 'j');
    assert("message"@[0] == 'm');
    if let Some(token) = expected {
        if let Some(h) = header {
            crate::text::prefixes_are_taken_off("Bearer "@, token, h);
        }
    }
    let denied = crate::mcp_server::rpc_error(JsonView::Null, -32001, "Unauthorized"@);
    let garbled = crate::mcp_server::rpc_error(JsonView::Null, -32700, "Parse error"@);
    assert(rendered(denied) == rendered(denied));
    assert(rendered(garbled) == rendered(garbled));
}

/// A token that is good but too narrow is answered 403, with the challenge that names the scope.
pub proof fn narrow_tokens_are_told_the_scope(challenge: Seq<char>)
    ensures
        is_plain_error(
            crate::mcp_server::insufficient_scope_view(challenge),
            403,
            -32003,
            "Insufficient scope"@,
        ),
        crate::mcp_server::insufficient_scope_view(challenge).www_authenticate == (
        if crate::http::is_header_text(challenge) {
            Some(challenge)
        } else {
            None
        }),
{
    broadcast use lemma_lookup_push;
    reveal_strlit("jsonrpc");
    reveal_strlit("id");
    reveal_strlit("error");
    reveal_strlit("code");
    reveal_strlit("message");
    assert("jsonrpc"@.len() == 7);
    assert("id"@.len() == 2);
    assert("error"@.len() == 5);
    assert("code"@.len() == 4);
    assert("message"@.len() == 7);
    assert("jsonrpc"@[0] == 'j');
    assert("message"@[0] == 'm');
    let narrow = crate::mcp_server::rpc_error(JsonView::Null, -32003, "Insufficient scope"@);
    assert(rendered(narrow) == rendered(narrow));
}

/// A framed answer carries the session's id exactly where there is one that can stand in a header,
/// and every id that a session is given can.
pub proof fn answers_name_their_session(body: JsonView, session: Seq<char>)
    ensures
        framed(body, session).status == 200,
        framed(body, session).content_type == Some("text/event-stream"@),
        framed(body, session).session_id is Some ==> framed(body, session).session_id == Some(
            session,
        ) && session.len() > 0,
        crate::mcp_server::is_session_id(session) ==> framed(body, session).session_id is Some,
        framed(body, session).body == framed(body, ""@).body,
{
}

/// What a request that is heard comes to: a request without an id is accepted without an answer, and
/// any other goes by its method; a call carries the name and the arguments that its parameters hold,
/// and a method that is not known is an error that names it.
pub proof fn requests_go_by_their_method(
    expected: Option<Seq<char>>,
    challenge: Option<Seq<char>>,
    header: Option<Seq<char>>,
    req: JsonView,
)
    requires
        expected matches Some(token) ==> header == Some("Bearer "@ + token),
    ensures
        ({
            let step = received(expected, challenge, header, Ok(req));
            let method = req.text_at("method"@);
            match req.field("id"@) {
                None => step matches McpView::Reply(r) && r.status == 202 && r.body.len() == 0
                    && r.content_type is None && r.www_authenticate is None && r.session_id is None,
                Some(id) => if method == Some("initialize"@) {
                    step == McpView::Initialize(id)
                } else if method == Some("tools/list"@) {
                    step == McpView::List(id)
                } else if method == Some("tools/call"@) {
                    step matches McpView::Call { id: i, name, arguments } && {
                        let params = req.at("params"@);
                        &&& i == id
                        &&& params.text_at("name"@) matches Some(n) ==> name == n
                        &&& params.text_at("name"@) is None ==> name.len() == 0
                        &&& params.field("arguments"@) matches Some(a) ==> arguments == a
                        &&& params.field("arguments"@) is None ==> (arguments
                            matches JsonView::Object(f) && f.len() == 0)
                    }
                } else {
                    step matches McpView::Reply(r) && exists|reply: JsonView|
                        {
                            &&& #[trigger] frames(r, reply, id)
                            &&& reply.at("error"@).at("code"@) == JsonView::Int(-32601)
                            &&& reply.at("error"@).text_at("message"@) == Some(
                                "Method not found: "@ + (match method {
                                    Some(m) => m,
                                    None => ""@,
                                }),
                            )
                        }
                },
            }
        }),
{
    broadcast use lemma_lookup_push;
    reveal_strlit("jsonrpc");
    reveal_strlit("id");
    reveal_strlit("error");
    reveal_strlit("code");
    reveal_strlit("message");
    reveal_strlit("initialize");
    reveal_strlit("tools/list");
    reveal_strlit("tools/call");
    assert("jsonrpc"@.len() == 7);
    assert("id"@.len() == 2);
    assert("error"@.len() == 5);
    assert("code"@.len() == 4);
    assert("message"@.len() == 7);
    assert("initialize"@.len() == 10);
    assert("tools/list"@.len() == 10);
    assert("tools/call"@.len() == 10);
    assert("jsonrpc"@[0] == 'j');
    assert("message"@[0] == 'm');
    assert("initialize"@[0] == 'i');
    assert("tools/list"@[0] == 't');
    assert("tools/call"@[0] == 't');
    assert("tools/list"@[6] == 'l');
    assert("tools/call"@[6] == 'c');
    reveal_strlit("");
    if let Some(token) = expected {
        crate::text::prefixes_are_taken_off("Bearer "@, token, header.unwrap());
    }
    if let Some(id) = req.field("id"@) {
        let method = crate::mcp_server::method_of(req);
        let reply = crate::mcp_server::rpc_error(id, -32601, "Method not found: "@ + method);
        assert(frames(framed(reply, ""@), reply, id));
    }
}

// ── who is asking ───────────────────────────────────────────────────────────

/// A configured map decides alone who a caller is; without one, a certificate names its holder, and
/// nobody else is anybody.
pub proof fn maps_decide_who_is_who(map: MapView, cert: Option<Seq<char>>)
    ensures
        map matches MapView::Configured(p) ==> principal_of(map, cert) == p,
        map is Unconfigured && cert is None ==> principal_of(map, cert) is None,
        map is Unconfigured ==> (cert matches Some(name) ==> principal_of(map, cert) matches Some(p)
            && p.name == name && p.source == PrincipalSource::MtlsCert),
{
}

/// A plain claim is refused whatever else stands beside it. A signed one is for the gateway to
/// judge, and refused where there is none; without any claim nobody is named.
pub proof fn claims_are_judged(plain: bool, signed: bool, gateway: Option<AssertedView>)
    ensures
        plain ==> asserted_of(plain, signed, gateway) is Rejected,
        !plain ==> match gateway {
            Some(verdict) => asserted_of(plain, signed, gateway) == verdict,
            None => if signed {
                asserted_of(plain, signed, gateway) is Rejected
            } else {
                asserted_of(plain, signed, gateway) is Absent
            },
        },
{
}

/// A verified person has a record of their own behind the principal that speaks for them; without a
/// claim the record is the principal's; a refused claim has none, and neither has a blank name.
pub proof fn records_belong_to_whom_is_verified(
    principal: Option<PrincipalView>,
    asserted: AssertedView,
)
    ensures
        match asserted {
            AssertedView::Rejected => key_of(principal, asserted) is None,
            AssertedView::Absent => match principal {
                None => key_of(principal, asserted) is None,
                Some(p) => key_of(principal, asserted) == (if trimmed(p.name).len() > 0 {
                    Some(KeyView { principal: p.name, person: None })
                } else {
                    None
                }),
            },
            AssertedView::Verified { principal: speaker, person } => key_of(principal, asserted)
                == (if trimmed(speaker).len() > 0 && trimmed(person).len() > 0 {
                Some(KeyView { principal: speaker, person: Some(person) })
            } else {
                None
            }),
        },
{
}

/// What a tool knows of its caller comes from the gateway where there is one; else it is the default
/// for a caller that claims nothing, and less for one that claims something.
pub proof fn claims_need_a_gateway(asserted: AssertedView)
    ensures
        context_source(true, asserted) == ContextSource::Gateway,
        asserted is Absent ==> context_source(false, asserted) == ContextSource::Default,
        !(asserted is Absent) ==> context_source(false, asserted) == ContextSource::Unidentified,
{
}

// ── calls ───────────────────────────────────────────────────────────────────

/// The message of a gateway's refusal: the `error` of its body where that is JSON with one, else the
/// whole body.
pub open spec fn refusal_words(body: Seq<u8>) -> Seq<char> {
    match parsed_bytes(body) {
        Ok(v) => if v.text_at("error"@) is Some {
            v.text_at("error"@).unwrap()
        } else {
            lossy(body)
        },
        Err(_) => lossy(body),
    }
}

/// A call that the gateway refuses is answered with the gateway's words, as an error; where its name
/// belongs to an upstream, a record says so. A call of a tool that does not work is answered with the
/// reason, and leaves no record.
pub proof fn refused_calls_are_told_why(
    facts: CallFacts,
    id: JsonView,
    name: Seq<char>,
    arguments: JsonView,
)
    ensures
        facts.denial matches Some(body) ==> (facts.next(id, name, arguments)
            matches CallActionView::Refuse(r) && says_text(
            r.response,
            id,
            refusal_words(body@),
            true,
        ) && match facts.upstream {
            None => r.audit is None,
            Some(u) => r.audit matches Some(a) && a.principal == facts.identity@ && a.namespace
                == u.namespace@ && a.name == name && a.bare_name == u.bare_name@ && a.decision
                == AuditDecision::Deny && a.detail == refusal_words(body@),
        }),
        facts.denial is None && name.len() > 0 ==> (facts.unusable matches Some(why) ==> (facts.next(
            id,
            name,
            arguments,
        ) matches CallActionView::Refuse(r) && says_text(r.response, id, why@, true)
            && r.audit is None)),
{
    if let Some(body) = facts.denial {
        lemma_says_text(id, refusal_words(body@), true);
    } else if let Some(why) = facts.unusable {
        lemma_says_text(id, why@, true);
    }
}

/// Whether a call is let through: the gateway does not refuse it, and its tool works.
pub open spec fn is_let_through(facts: CallFacts) -> bool {
    facts.denial is None && facts.unusable is None
}

/// Whether an outcome is that of somebody who was reached and said something.
pub open spec fn is_word_of(
    outcome: CallOutcomeView,
    id: JsonView,
    text: Seq<char>,
    is_error: bool,
) -> bool {
    &&& says_text(outcome.response, id, text, is_error)
    &&& outcome.success == !is_error
    &&& outcome.detail is None
    &&& !outcome.transport_failure
    &&& outcome.unconsume is None
}

/// Whether an outcome is a failure that says why.
pub open spec fn is_failure(
    outcome: CallOutcomeView,
    id: JsonView,
    why: Seq<char>,
    transport: bool,
) -> bool {
    &&& says_text(outcome.response, id, why, true)
    &&& !outcome.success
    &&& outcome.detail == Some(why)
    &&& outcome.transport_failure == transport
}

/// A call that leads to an upstream goes there without its approval code, and with everything else
/// that it carries; a guarded one only once an approval was granted. What the upstream says is the
/// answer; where it is not reached, that is said, and a code that was spent is given back.
pub proof fn upstream_calls_run_their_course(
    facts: CallFacts,
    id: JsonView,
    name: Seq<char>,
    arguments: JsonView,
    tool: UpstreamView,
)
    requires
        is_let_through(facts),
        opt_route(facts.route) == Some(RouteView::Upstream(tool)),
    ensures
        facts.guarded && facts.approval is None ==> facts.next(id, name, arguments)
            == (CallActionView::AskApproval {
            tool,
            summary: "federated call \""@ + tool.bare_name + "\" on mesh upstream \""@
                + tool.namespace + "\""@,
            code: arguments.text_at("_approval_code"@),
        }),
        facts.guarded ==> forall|m: String|
            (facts.approval == Some(Approval::Pending(m)) || facts.approval == Some(
                Approval::Denied(m),
            )) ==> #[trigger] refused_for(
                facts.next(id, name, arguments),
                id,
                m@,
                facts.identity@,
                name,
                tool,
            ),
        !facts.guarded || facts.approval == Some(Approval::Granted) ==> match facts.answer {
            None => facts.next(id, name, arguments) matches CallActionView::CallUpstream {
                tool: t,
                arguments: sent,
            } && t == tool && sent.field("_approval_code"@) is None && (forall|key: Seq<char>|
                key != "_approval_code"@ ==> #[trigger] sent.field(key) == arguments.field(key)) && (
            !(arguments is Object) ==> sent == arguments),
            Some(answer) => facts.next(id, name, arguments) matches CallActionView::Finish {
                outcome,
                upstream,
            } && upstream == Some(tool) && match answer@ {
                RemoteView::Said { text, is_error } => is_word_of(outcome, id, text, is_error),
                RemoteView::Unreached(e) => is_failure(
                    outcome,
                    id,
                    "mesh upstream \""@ + tool.namespace + "\" call failed: "@ + e,
                    true,
                ) && outcome.unconsume == (if facts.guarded {
                    arguments.text_at("_approval_code"@)
                } else {
                    None
                }),
            },
        },
{
    assert forall|key: Seq<char>| key != "_approval_code"@ implies #[trigger] arguments.without_field(
        APPROVAL_ARG@,
    ).field(key) == arguments.field(key) by {
        without_field_removes_one_field(arguments, APPROVAL_ARG@, key);
    }
    without_field_removes_one_field(arguments, APPROVAL_ARG@, "_approval_code"@);
    if let Some(answer) = facts.answer {
        match answer@ {
            RemoteView::Said { text, is_error } => {
                lemma_says_text(id, text, is_error);
            },
            RemoteView::Unreached(e) => {
                lemma_says_text(
                    id,
                    "mesh upstream \""@ + tool.namespace + "\" call failed: "@ + e,
                    true,
                );
            },
        }
    }
    assert forall|m: String|
        facts.guarded && (facts.approval == Some(Approval::Pending(m)) || facts.approval == Some(
            Approval::Denied(m),
        )) implies #[trigger] refused_for(
        facts.next(id, name, arguments),
        id,
        m@,
        facts.identity@,
        name,
        tool,
    ) by {
        lemma_says_text(id, m@, true);
    }
}

/// Whether a call of an upstream's tool is refused with a message for want of an approval, and
/// recorded as such.
pub open spec fn refused_for(
    action: CallActionView,
    id: JsonView,
    message: Seq<char>,
    identity: Seq<char>,
    name: Seq<char>,
    tool: UpstreamView,
) -> bool {
    action matches CallActionView::Refuse(r) && says_text(r.response, id, message, true) && (
    r.audit matches Some(a) && a.principal == identity && a.namespace == tool.namespace && a.name
        == name && a.bare_name == tool.bare_name && a.decision == AuditDecision::ApprovalRequired
        && a.detail == message)
}

/// A call whose upstream is not available ends there, as a failure to reach it.
pub proof fn unavailable_upstreams_end_a_call(
    facts: CallFacts,
    id: JsonView,
    name: Seq<char>,
    arguments: JsonView,
    namespace: Seq<char>,
)
    requires
        is_let_through(facts),
        opt_route(facts.route) == Some(RouteView::Unavailable(namespace)),
    ensures
        facts.next(id, name, arguments) matches CallActionView::Finish { outcome, upstream }
            && is_failure(outcome, id, facts.unavailable@, true) && outcome.unconsume is None
            && upstream == Some(UpstreamView { namespace, bare_name: name }),
{
    lemma_says_text(id, facts.unavailable@, true);
}

/// Whether an outcome is that of a tool that was run.
pub open spec fn is_run(
    outcome: CallOutcomeView,
    id: JsonView,
    result: Result<ToolOutput, ToolError>,
    transport: bool,
) -> bool {
    match result {
        Ok(output) => {
            &&& outcome.success
            &&& outcome.detail is None
            &&& !outcome.transport_failure
            &&& outcome.unconsume is None
            &&& outcome.response == output_answer(
                id,
                output.text@,
                opt_json_owned(output.structured),
            )
        },
        Err(e) => is_failure(outcome, id, e@.message(), transport) && outcome.unconsume is None,
    }
}

/// A call that leads to no upstream is answered by this process where it has the tool, else by a
/// worker that has it, else by the personal backend, else as unknown; a worker's failure counts as
/// one to reach it.
pub proof fn own_calls_run_their_course(
    facts: CallFacts,
    id: JsonView,
    name: Seq<char>,
    arguments: JsonView,
)
    requires
        is_let_through(facts),
        facts.route is None || opt_route(facts.route) == Some(RouteView::Local),
    ensures
        facts.core is None ==> facts.next(id, name, arguments) == CallActionView::CallCore(arguments),
        facts.core matches Some(Some(result)) ==> (facts.next(id, name, arguments)
            matches CallActionView::Finish { outcome, upstream } && upstream is None && is_run(
            outcome,
            id,
            result,
            false,
        )),
        facts.core matches Some(None) ==> {
            &&& facts.worker is None ==> facts.next(id, name, arguments)
                == CallActionView::CallWorker(arguments)
            &&& facts.worker matches Some(Some(result)) ==> (facts.next(id, name, arguments)
                matches CallActionView::Finish { outcome, upstream } && upstream is None && is_run(
                outcome,
                id,
                result,
                true,
            ))
            &&& facts.worker matches Some(None) ==> match facts.personal {
                None => facts.next(id, name, arguments) == CallActionView::CallPersonal(arguments),
                Some(answer) => facts.next(id, name, arguments) matches CallActionView::Finish {
                    outcome,
                    upstream,
                } && upstream is None && match opt_remote(answer) {
                    Some(RemoteView::Said { text, is_error }) => is_word_of(
                        outcome,
                        id,
                        text,
                        is_error,
                    ),
                    Some(RemoteView::Unreached(e)) => is_failure(
                        outcome,
                        id,
                        "federation error: could not reach personal-tool backend via chord relay ("@
                            + e + ")"@,
                        false,
                    ),
                    None => is_failure(outcome, id, "Unknown tool: "@ + name, false),
                },
            }
        },
{
    if let Some(Some(Err(e))) = facts.core {
        lemma_says_text(id, e@.message(), true);
    }
    if let Some(Some(Err(e))) = facts.worker {
        lemma_says_text(id, e@.message(), true);
    }
    if let Some(answer) = facts.personal {
        match opt_remote(answer) {
            Some(RemoteView::Said { text, is_error }) => {
                lemma_says_text(id, text, is_error);
            },
            Some(RemoteView::Unreached(e)) => {
                lemma_says_text(
                    id,
                    "federation error: could not reach personal-tool backend via chord relay ("@ + e
                        + ")"@,
                    true,
                );
            },
            None => {
                lemma_says_text(id, "Unknown tool: "@ + name, true);
            },
        }
    }
}

/// What a router's call comes to: whoever has the tool is asked with the arguments as they came, and
/// what they say is the result; an error of theirs is an error.
pub proof fn router_calls_run_their_course(name: Seq<char>, arguments: JsonView, heard: Heard)
    ensures
        match opt_route(heard.route) {
            Some(RouteView::Upstream(tool)) => match heard.upstream {
                None => router_next(name, arguments, heard) == (RouterView::CallUpstream {
                    tool,
                    arguments,
                }),
                Some(answer) => is_routed_word(router_next(name, arguments, heard), answer@),
            },
            Some(RouteView::Unavailable(namespace)) => router_next(name, arguments, heard)
                == RouterView::Done(
                Err("the `"@ + namespace + "` upstream is currently unavailable"@),
            ),
            _ => {
                &&& heard.core is None ==> router_next(name, arguments, heard)
                    == RouterView::CallCore(arguments)
                &&& heard.core matches Some(Some(result)) ==> is_routed_run(
                    router_next(name, arguments, heard),
                    result,
                )
                &&& heard.core matches Some(None) ==> {
                    &&& heard.worker is None ==> router_next(name, arguments, heard)
                        == RouterView::CallWorker(arguments)
                    &&& heard.worker matches Some(Some(result)) ==> is_routed_run(
                        router_next(name, arguments, heard),
                        result,
                    )
                    &&& heard.worker matches Some(None) ==> match heard.personal {
                        None => router_next(name, arguments, heard) == RouterView::CallPersonal(
                            arguments,
                        ),
                        Some(Some(answer)) => is_routed_word(
                            router_next(name, arguments, heard),
                            answer@,
                        ),
                        Some(None) => router_next(name, arguments, heard) == RouterView::Done(
                            Err("`"@ + name + "` is not a tool that exists here"@),
                        ),
                    }
                }
            },
        },
{
}

/// Whether a router's call ends with another server's word.
pub open spec fn is_routed_word(action: RouterView, answer: RemoteView) -> bool {
    match answer {
        RemoteView::Said { text, is_error } => action == RouterView::Done(
            if is_error {
                Err(text)
            } else {
                Ok(text)
            },
        ),
        RemoteView::Unreached(e) => action == RouterView::Done(Err(e)),
    }
}

/// Whether a router's call ends with a tool's result.
pub open spec fn is_routed_run(action: RouterView, result: Result<ToolOutput, ToolError>) -> bool {
    match result {
        Ok(output) => action == RouterView::Done(Ok(output.text@)),
        Err(e) => action == RouterView::Done(Err(e@.message())),
    }
}

// ── inference ───────────────────────────────────────────────────────────────

/// Whether a response is a JSON object with an error and, where there is one, a detail.
pub open spec fn is_error_reply(
    response: ResponseView,
    status: u16,
    error: Seq<char>,
    detail: Option<Seq<char>>,
) -> bool {
    exists|reply: JsonView|
        {
            &&& response.status == status
            &&& response.content_type == Some("application/json"@)
            &&& response.body == #[trigger] rendered(reply)
            &&& reply.text_at("error"@) == Some(error)
            &&& reply.text_at("detail"@) == detail
        }
}

/// What is said to a client that presents an assertion of its own.
pub open spec fn inbound_words() -> Seq<char> {
    "a signed person-assertion is server-set on each hop and is never accepted                            from a client; ask to act for someone with the on-behalf-of header instead"@
}

/// An inference request that the gateway lets in goes on: with nobody named it is passed on plainly;
/// with somebody named it is passed on with the assertion that was made for them, and refused where
/// none could be made; with an assertion of its own it is refused.
pub proof fn inference_requests_run_their_course(facts: InferenceFacts)
    ensures
        facts.denied ==> facts.next() is Deny,
        !facts.denied ==> match facts.claims.on_behalf_of {
            Some(person) => match facts.minted {
                None => facts.next() == InferenceView::Mint(person@),
                Some(Some(Ok(token))) => facts.next() == facts.forwarded(Some(token@)),
                Some(Some(Err(e))) => facts.next() matches InferenceView::Refuse(r, note)
                    && is_error_reply(r, 403, "on-behalf-of assertion refused"@, Some(e@)) && note
                    == "on-behalf-of assertion refused"@,
                Some(None) => facts.next() matches InferenceView::Refuse(r, note) && is_error_reply(
                    r,
                    403,
                    "on-behalf-of assertion refused"@,
                    Some("this process has no gateway to authorize an on-behalf-of assertion"@),
                ) && note == "on-behalf-of assertion refused"@,
            },
            None => if facts.claims.assertion is Some {
                facts.next() matches InferenceView::Refuse(r, note) && is_error_reply(
                    r,
                    403,
                    "on-behalf-of assertion refused"@,
                    Some(inbound_words()),
                ) && note == "inbound person-assertion refused"@
            } else {
                facts.next() == facts.forwarded(None)
            },
        },
        forall|assertion: Option<Seq<char>>|
            match facts.status {
                _ if !facts.has_proxy => #[trigger] facts.forwarded(assertion)
                    matches InferenceView::Unserved(r, success, detail) && is_error_reply(
                    r,
                    503,
                    "inference proxy not configured on this terminus process"@,
                    None,
                ) && !success && detail == Some(
                    "upstream status "@ + crate::http::status_line(503),
                ),
                None => facts.forwarded(assertion) == InferenceView::Forward(assertion),
                Some(status) => facts.forwarded(assertion) == (if 200 <= status <= 299 {
                    InferenceView::Record(true, None)
                } else {
                    InferenceView::Record(
                        false,
                        Some("upstream status "@ + crate::http::status_line(status)),
                    )
                }),
            },
{
    broadcast use lemma_lookup_push;
    reveal_strlit("error");
    reveal_strlit("detail");
    assert("error"@.len() == 5);
    assert("detail"@.len() == 6);
    let unserved = JsonView::Object(
        crate::json::no_fields().push(
            (
                "error"@,
                JsonView::Str("inference proxy not configured on this terminus process"@),
            ),
        ),
    );
    assert(rendered(unserved) == rendered(unserved));
    let inbound = crate::mcp_server::claim_refusal(inbound_words());
    assert(rendered(inbound) == rendered(inbound));
    if let Some(m) = facts.minted {
        let refused = crate::mcp_server::claim_refusal(crate::mcp_server::mint_reason(m));
        assert(rendered(refused) == rendered(refused));
    }
}

// ── turns ───────────────────────────────────────────────────────────────────

/// The newest of some messages that a user wrote.
pub proof fn the_newest_message_counts(messages: Seq<JsonView>, n: int)
    requires
        0 <= n <= messages.len(),
    ensures
        match newest_user(messages, n) {
            Some(m) => exists|i: int|
                {
                    &&& 0 <= i < n
                    &&& #[trigger] messages[i] == m
                    &&& m.text_at("role"@) == Some("user"@)
                    &&& forall|j: int|
                        i < j < n ==> (#[trigger] messages[j]).text_at("role"@) != Some("user"@)
                },
            None => forall|j: int|
                0 <= j < n ==> (#[trigger] messages[j]).text_at("role"@) != Some("user"@),
        },
    decreases n,
{
    if n > 0 {
        if messages[n - 1].text_at("role"@) == Some("user"@) {
            assert(messages[n - 1] == newest_user(messages, n).unwrap());
        } else {
            the_newest_message_counts(messages, n - 1);
            if let Some(m) = newest_user(messages, n - 1) {
                let i = choose|i: int|
                    {
                        &&& 0 <= i < n - 1
                        &&& #[trigger] messages[i] == m
                        &&& m.text_at("role"@) == Some("user"@)
                        &&& forall|j: int|
                            i < j < n - 1 ==> (#[trigger] messages[j]).text_at("role"@) != Some(
                                "user"@,
                            )
                    };
                assert(messages[i] == m);
            }
        }
    }
}

/// A turn carries the system prompt, all messages, the content of the newest one that a user wrote,
/// and whether a stream is wanted, as the request states them.
pub proof fn turns_carry_the_request(req: JsonView)
    ensures
        req.text_at("system_prompt"@) matches Some(s) ==> turn_of(req).system_prompt == s,
        req.text_at("system_prompt"@) is None ==> turn_of(req).system_prompt.len() == 0,
        req.items_at("messages"@) matches Some(m) ==> turn_of(req).history == m,
        req.items_at("messages"@) is None ==> turn_of(req).history.len() == 0,
        turn_of(req).stream <==> req.bool_at("stream"@) == Some(true),
        ({
            let history = turn_of(req).history;
            match newest_user(history, history.len() as int) {
                Some(m) => {
                    &&& m.text_at("content"@) matches Some(c) ==> turn_of(req).user_message == c
                    &&& m.text_at("content"@) is None ==> turn_of(req).user_message.len() == 0
                },
                None => turn_of(req).user_message.len() == 0,
            }
        }),
{
    reveal_strlit("");
}

/// A turn is answered with its response, its status, how many rounds it took, how many tools it
/// called, and for each call, in order, the tool, the status, whether it was cached and how long it
/// took.
pub proof fn turns_are_answered_whole(outcome: AgentOutcome)
    ensures
        turn_answer(outcome).status == 200,
        turn_answer(outcome).content_type == Some("application/json"@),
        exists|reply: JsonView|
            {
                &&& turn_answer(outcome).body == #[trigger] rendered(reply)
                &&& reply.text_at("response"@) == Some(outcome.response@)
                &&& reply.text_at("status"@) == Some(outcome.status@)
                &&& reply.at("turns"@) == JsonView::Int(outcome.turns as int)
                &&& reply.at("tools_called"@) == JsonView::Int(outcome.steps@.len() as int)
                &&& reply.items_at("execution_log"@) matches Some(log) && log.len()
                    == outcome.steps@.len() && forall|i: int|
                    0 <= i < log.len() ==> {
                        let entry = #[trigger] log[i];
                        &&& entry.text_at("tool"@) == Some(outcome.steps@[i].tool@)
                        &&& entry.text_at("status"@) == Some(outcome.steps@[i].status@)
                        &&& entry.bool_at("cached"@) == Some(outcome.steps@[i].cached)
                        &&& entry.at("duration_ms"@) == JsonView::Int(
                            outcome.steps@[i].duration_ms as int,
                        )
                    }
            },
{
    broadcast use lemma_lookup_push;
    reveal_strlit("response");
    reveal_strlit("status");
    reveal_strlit("turns");
    reveal_strlit("tools_called");
    reveal_strlit("execution_log");
    reveal_strlit("tool");
    reveal_strlit("cached");
    reveal_strlit("duration_ms");
    assert("response"@.len() == 8);
    assert("status"@.len() == 6);
    assert("turns"@.len() == 5);
    assert("tools_called"@.len() == 12);
    assert("execution_log"@.len() == 13);
    assert("tool"@.len() == 4);
    assert("cached"@.len() == 6);
    assert("duration_ms"@.len() == 11);
    assert("status"@[0] == 's');
    assert("cached"@[0] == 'c');
    let log = outcome.steps@.map_values(
        |s: crate::mcp_server::AgentCall| crate::mcp_server::agent_call_json(s),
    );
    let reply = JsonView::Object(
        crate::json::no_fields().push(("response"@, JsonView::Str(outcome.response@))).push(
            ("status"@, JsonView::Str(outcome.status@)),
        ).push(("turns"@, JsonView::Int(outcome.turns as int))).push(
            ("tools_called"@, JsonView::Int(outcome.steps@.len() as int)),
        ).push(("execution_log"@, JsonView::Array(log))),
    );
    assert(turn_answer(outcome).body == rendered(reply));
    assert(reply.items_at("execution_log"@) == Some(log));
}

/// A turn is run by this process where turns are, for a caller whose claim was honoured and whom the
/// gateway lets in, where there is a backend and the body is JSON. Its answer is its frames where a
/// stream is wanted, and one object otherwise; then it counts as a success.
pub proof fn turns_run_their_course(facts: AgentFacts)
    ensures
        !facts.local ==> facts.next() is Proxy,
        facts.local && facts.asserted@ is Rejected ==> (facts.next() matches AgentView::Refuse(r)
            && is_error_reply(
            r,
            403,
            "on-behalf-of assertion refused"@,
            Some("this identity could not be honoured; it was not silently downgraded"@),
        )),
        facts.local && !(facts.asserted@ is Rejected) ==> {
            &&& facts.denied is None ==> facts.next() is AskGateway
            &&& facts.denied == Some(true) ==> facts.next() is Deny
            &&& facts.denied == Some(false) && !facts.has_backend ==> (facts.next()
                matches AgentView::Fail(r, note) && is_error_reply(
                r,
                503,
                "no inference backend configured"@,
                None,
            ) && note == "no inference backend"@)
            &&& facts.denied == Some(false) && facts.has_backend ==> match parsed_bytes(facts.body@) {
                Err(e) => facts.next() matches AgentView::Fail(r, note) && is_error_reply(
                    r,
                    400,
                    "invalid request body: "@ + e,
                    None,
                ) && note == "invalid body"@,
                Ok(req) => match facts.ended {
                    None => facts.next() == AgentView::Run(turn_of(req)),
                    Some((outcome, said)) => facts.next() matches AgentView::Done(
                        r,
                        success,
                        detail,
                    ) && success && detail is None && if req.bool_at("stream"@) == Some(true) {
                        r.status == 200 && r.content_type == Some("text/event-stream"@) && r.body
                            == said@
                    } else {
                        r == turn_answer(outcome)
                    },
                },
            }
        },
{
    broadcast use lemma_lookup_push;
    reveal_strlit("error");
    reveal_strlit("detail");
    assert("error"@.len() == 5);
    assert("detail"@.len() == 6);
    let refused = crate::mcp_server::claim_refusal(
        "this identity could not be honoured; it was not silently downgraded"@,
    );
    assert(rendered(refused) == rendered(refused));
    let missing = JsonView::Object(
        crate::json::no_fields().push(
            ("error"@, JsonView::Str("no inference backend configured"@)),
        ),
    );
    assert(rendered(missing) == rendered(missing));
    if let Err(e) = parsed_bytes(facts.body@) {
        let garbled = JsonView::Object(
            crate::json::no_fields().push(("error"@, JsonView::Str("invalid request body: "@ + e))),
        );
        assert(rendered(garbled) == rendered(garbled));
    }
}

} // verus!
