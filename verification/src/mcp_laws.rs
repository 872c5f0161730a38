//! What holds of the configured MCP servers, of their answers and of their tools.

use vstd::prelude::*;

use crate::json::{self, JsonView};
use crate::mcp::{
    self,
    Discovery,
    FailedServer,
    McpState,
    McpTool,
    ResourceAnswer,
    UnsupportedServer,
};
use crate::permissions::PermissionMode;
use crate::text;

verus! {

// ---------------------------------------------------------------------------
// Discovery
// ---------------------------------------------------------------------------

/// A server that failed is told by its name and its error and may come back; one
/// that is not supported is told by its name, the reason and its transport in
/// lower case, and does not.
pub proof fn law_lost_servers_are_told(failed: FailedServer, unsupported: UnsupportedServer)
    ensures
        ({
            let lost = mcp::lost_by_failure(failed);
            &&& lost.server_name == failed.server_name@
            &&& lost.message == failed.error@
            &&& lost.phase is ToolDiscovery
            &&& lost.transport is None
            &&& lost.recoverable
        }),
        ({
            let lost = mcp::lost_by_transport(unsupported);
            &&& lost.server_name == unsupported.server_name@
            &&& lost.message == unsupported.reason@
            &&& lost.phase is ServerRegistration
            &&& lost.transport == Some(text::lowered(unsupported.transport@))
            &&& !lost.recoverable
        }),
{
}

/// Every server that failed or is not supported is lost, and none besides; those
/// that failed come first.
pub proof fn law_lost_servers_are_those_that_fell_out(discovery: Discovery, at: int)
    ensures
        mcp::lost_servers(discovery).len() == discovery.failed@.len()
            + discovery.unsupported@.len(),
        0 <= at < discovery.failed@.len() ==> mcp::lost_servers(discovery)[at].server_name
            == discovery.failed@[at].server_name@ && mcp::is_lost(
            discovery,
            discovery.failed@[at].server_name@,
        ),
        0 <= at < discovery.unsupported@.len() ==> mcp::lost_servers(discovery)[at
            + discovery.failed@.len()].server_name == discovery.unsupported@[at].server_name@
            && mcp::is_lost(discovery, discovery.unsupported@[at].server_name@),
        discovery.failed@.len() == 0 && discovery.unsupported@.len() == 0 ==> forall|
            name: Seq<char>,
        | !#[trigger] mcp::is_lost(discovery, name),
{
    let lost = mcp::lost_servers(discovery);
    let shift = discovery.failed@.len();
    if 0 <= at < discovery.failed@.len() {
        assert(lost[at].server_name == discovery.failed@[at].server_name@);
    }
    if 0 <= at < discovery.unsupported@.len() {
        assert(lost[at + shift].server_name == discovery.unsupported@[at].server_name@);
    }
}

/// A configured server that is not lost counts as working.
pub proof fn law_servers_that_are_not_lost_work(
    discovery: Discovery,
    names: Seq<Seq<char>>,
    at: int,
)
    requires
        0 <= at < names.len(),
        !mcp::is_lost(discovery, names[at]),
    ensures
        mcp::working_names(discovery, names).contains(names[at]),
    decreases names.len(),
{
    let front = mcp::working_names(discovery, names.drop_last());
    let working = mcp::working_names(discovery, names);
    if at == names.len() - 1 {
        assert(working.last() == names[at]);
    } else {
        law_servers_that_are_not_lost_work(discovery, names.drop_last(), at);
        let i = choose|i: int| 0 <= i < front.len() && front[i] == names[at];
        assert(working[i] == names[at]);
    }
}

/// Nothing is known where no server is configured. Else the lost servers are
/// waited for, and where there are any, a report tells them, the servers that
/// work, and the tools that there are.
pub proof fn law_states_tell_what_is_lost(
    discovery: Discovery,
    known: Option<McpState>,
    waited: Option<Vec<String>>,
    name: Seq<char>,
)
    requires
        mcp::is_known_of(discovery, known),
        known is Some ==> mcp::are_waited_for(known->0, waited),
    ensures
        known is None <==> discovery.server_names@.len() == 0 && discovery.unsupported@.len() == 0,
        known is Some ==> (known->0.degraded_report is Some <==> discovery.failed@.len()
            + discovery.unsupported@.len() > 0),
        known is Some && waited is Some ==> (text::texts(waited->0@).contains(name)
            <==> mcp::is_lost(discovery, name)),
        known is Some && waited is None ==> !mcp::is_lost(discovery, name),
        known is Some && known->0.degraded_report is Some ==> ({
            let report = known->0.degraded_report->0;
            &&& report.failed_servers@.len() == discovery.failed@.len()
                + discovery.unsupported@.len()
            &&& text::texts(report.available_tools@) == text::texts(discovery.tool_names@)
            &&& text::texts(report.expected_tools@) == text::texts(discovery.tool_names@)
            &&& text::texts(report.working_servers@).contains(name) ==> !mcp::is_lost(
                discovery,
                name,
            )
        }),
{
    law_lost_servers_are_those_that_fell_out(discovery, 0);
    if known is Some {
        let state = known->0;
        let pending = text::texts(state.pending_servers@);
        assert(pending.len() == state.pending_servers@.len());
        assert(pending.contains(name) <==> mcp::is_lost(discovery, name));
        if state.degraded_report is Some {
            let report = state.degraded_report->0;
            assert(mcp::lost_views(report.failed_servers@).len() == report.failed_servers@.len());
            let names = text::texts(discovery.server_names@);
            mcp::law_working_servers_are_not_lost(discovery, names);
            let working = mcp::working_names(discovery, names);
            if working.contains(name) {
                let i = choose|i: int| 0 <= i < working.len() && working[i] == name;
                assert(!mcp::is_lost(discovery, working[i]));
            }
        }
    }
}

// ---------------------------------------------------------------------------
// Answers
// ---------------------------------------------------------------------------

/// A call that brought a result without an error comes to that result; an error
/// is told with the tool, its message and its number, and a call that brought
/// neither is told with the tool.
pub proof fn law_tool_answers_tell_result_or_error(
    tool: Seq<char>,
    message: Seq<char>,
    code: int,
    printed: Option<Seq<char>>,
)
    ensures
        printed is Some ==> mcp::tool_answer(tool, None, printed) == Ok::<Seq<char>, Seq<char>>(
            printed->0,
        ),
        mcp::tool_answer(tool, None, None) is Err,
        text::contains_text(mcp::tool_answer(tool, None, None)->Err_0, "`"@ + tool + "`"@),
        mcp::tool_answer(tool, Some((message, code)), printed) is Err,
        text::contains_text(
            mcp::tool_answer(tool, Some((message, code)), printed)->Err_0,
            "`"@ + tool + "`"@,
        ),
        text::has_suffix(
            mcp::tool_answer(tool, Some((message, code)), printed)->Err_0,
            ": "@ + message + " ("@ + text::signed_decimal(code) + ")"@,
        ),
{
    let error = mcp::tool_answer(tool, Some((message, code)), printed)->Err_0;
    let empty = mcp::tool_answer(tool, None, None)->Err_0;
    let named = "`"@ + tool + "`"@;
    assert(text::contains_text(empty, named)) by {
        reveal_strlit("MCP tool `");
        reveal_strlit("MCP tool ");
        reveal_strlit("`");
        reveal_strlit("` returned no result payload");
        reveal_strlit(" returned no result payload");
        assert("MCP tool `"@ =~= "MCP tool "@ + "`"@);
        assert("` returned no result payload"@ =~= "`"@ + " returned no result payload"@);
        assert(empty =~= "MCP tool "@ + named + " returned no result payload"@);
        text::lemma_contains_part("MCP tool "@, named, " returned no result payload"@);
    }
    let tail = message + " ("@ + text::signed_decimal(code) + ")"@;
    assert(error =~= "MCP tool `"@ + tool + "` returned JSON-RPC error: "@ + tail);
    assert(text::contains_text(error, named)) by {
        reveal_strlit("MCP tool `");
        reveal_strlit("MCP tool ");
        reveal_strlit("`");
        reveal_strlit("` returned JSON-RPC error: ");
        reveal_strlit(" returned JSON-RPC error: ");
        assert("MCP tool `"@ =~= "MCP tool "@ + "`"@);
        assert("` returned JSON-RPC error: "@ =~= "`"@ + " returned JSON-RPC error: "@);
        let after = " returned JSON-RPC error: "@ + tail;
        assert(error =~= "MCP tool "@ + named + after);
        text::lemma_contains_part("MCP tool "@, named, after);
    }
    assert(text::has_suffix(error, ": "@ + tail)) by {
        reveal_strlit("` returned JSON-RPC error: ");
        reveal_strlit("` returned JSON-RPC error");
        reveal_strlit(": ");
        assert("` returned JSON-RPC error: "@ =~= "` returned JSON-RPC error"@ + ": "@);
        let before = "MCP tool `"@ + tool + "` returned JSON-RPC error"@;
        assert(error =~= before + (": "@ + tail) + Seq::<char>::empty());
        text::lemma_contains_part(before, ": "@ + tail, Seq::empty());
    }
    assert(": "@ + tail =~= ": "@ + message + " ("@ + text::signed_decimal(code) + ")"@);
}

/// What a server says of its resources stands beside its name.
pub proof fn law_resources_are_told_with_their_server(server: Seq<char>, resources: JsonView)
    ensures
        mcp::server_resources(server, resources).get("resources"@) == Some(resources),
        mcp::server_resources(server, resources).get("server"@) == Some(JsonView::Text(server)),
{
    reveal_strlit("resources");
    reveal_strlit("server");
    assert("resources"@.len() == 9);
    assert("server"@.len() == 6);
    let members = mcp::server_resources(server, resources)->Object_0;
    json::lemma_member_at(members, 0);
    json::lemma_member_at(members, 1);
}

/// What a server says of a resource stands beside its name.
pub proof fn law_contents_are_told_with_their_server(server: Seq<char>, contents: JsonView)
    ensures
        mcp::resource_contents(server, contents).get("contents"@) == Some(contents),
        mcp::resource_contents(server, contents).get("server"@) == Some(JsonView::Text(server)),
{
    reveal_strlit("contents");
    reveal_strlit("server");
    assert("contents"@.len() == 8);
    assert("server"@.len() == 6);
    let members = mcp::resource_contents(server, contents)->Object_0;
    json::lemma_member_at(members, 0);
    json::lemma_member_at(members, 1);
}

/// Why a server did not answer stands beside its name.
pub proof fn law_failures_are_told_with_their_server(server: Seq<char>, error: Seq<char>)
    ensures
        mcp::server_failure(server, error).get("error"@) == Some(JsonView::Text(error)),
        mcp::server_failure(server, error).get("server"@) == Some(JsonView::Text(server)),
{
    reveal_strlit("error");
    reveal_strlit("server");
    assert("error"@.len() == 5);
    assert("server"@.len() == 6);
    let members = mcp::server_failure(server, error)->Object_0;
    json::lemma_member_at(members, 0);
    json::lemma_member_at(members, 1);
}

/// Of all servers the answers and the failures are told apart.
pub proof fn law_all_answers_are_told_by_kind(answers: Seq<ResourceAnswer>)
    ensures
        mcp::all_resources(answers).get("failures"@) == Some(JsonView::Array(mcp::refused(answers))),
        mcp::all_resources(answers).get("resources"@) == Some(JsonView::Array(mcp::listed(answers))),
{
    reveal_strlit("failures");
    reveal_strlit("resources");
    assert("failures"@.len() == 8);
    assert("resources"@.len() == 9);
    let members = mcp::all_resources(answers)->Object_0;
    json::lemma_member_at(members, 0);
    json::lemma_member_at(members, 1);
}

/// Of each further server, what it answered is listed under its name, or why it did
/// not answer is told under its name; the others stay as they were.
pub proof fn law_each_server_answers_or_fails(
    answers: Seq<ResourceAnswer>,
    answer: ResourceAnswer,
)
    ensures
        ({
            let more = answers.push(answer);
            let server = answer.server_name@;
            &&& answer.answer is Ok ==> mcp::listed(more) == mcp::listed(answers).push(
                mcp::server_resources(server, json::value_json(answer.answer->Ok_0)),
            ) && mcp::refused(more) == mcp::refused(answers) && mcp::refusals(more)
                == mcp::refusals(answers)
            &&& answer.answer is Err ==> mcp::listed(more) == mcp::listed(answers) && mcp::refused(
                more,
            ) == mcp::refused(answers).push(
                mcp::server_failure(server, answer.answer->Err_0@),
            ) && mcp::refusals(more) == mcp::refusals(answers).push(answer.answer->Err_0@)
        }),
        mcp::listed(Seq::empty()).len() == 0,
        mcp::refused(Seq::empty()).len() == 0,
        mcp::refusals(Seq::empty()).len() == 0,
{
    assert(answers.push(answer).drop_last() =~= answers);
}

/// All servers together fail only where none answered and one failed, and the
/// error tells why each did; one server fails with just its error.
pub proof fn law_resources_are_told_where_any_server_answers(
    answers: Seq<ResourceAnswer>,
    told: Result<String, String>,
    server: Seq<char>,
    answer: Result<serde_json::Value, String>,
    listed: Result<String, String>,
    read: Result<String, String>,
)
    requires
        mcp::tells_all_resources(answers, told),
        mcp::tells_resources(server, answer, listed),
        mcp::tells_contents(server, answer, read),
    ensures
        told is Err <==> mcp::listed(answers).len() == 0 && mcp::refusals(answers).len() > 0,
        told is Err ==> told->Err_0@ == text::joined(mcp::refusals(answers), "; "@),
        told is Ok ==> told->Ok_0@ == json::json_indented(mcp::all_resources(answers)),
        listed is Ok <==> answer is Ok,
        read is Ok <==> answer is Ok,
        answer is Err ==> listed->Err_0 == answer->Err_0 && read->Err_0 == answer->Err_0,
        answer is Ok ==> listed->Ok_0@ == json::json_indented(
            mcp::server_resources(server, json::value_json(answer->Ok_0)),
        ),
        answer is Ok ==> read->Ok_0@ == json::json_indented(
            mcp::resource_contents(server, json::value_json(answer->Ok_0)),
        ),
{
}

// ---------------------------------------------------------------------------
// Tools
// ---------------------------------------------------------------------------

/// A tool that may destroy something or reach out needs full access, whatever else
/// it is annotated with; one that only reads needs no more than reading; any other
/// may write to the workspace.
pub proof fn law_hints_set_the_permission(tool: McpTool)
    ensures
        mcp::hint(tool, "destructiveHint"@) ==> mcp::tool_permission(tool)
            == PermissionMode::DangerFullAccess,
        mcp::hint(tool, "openWorldHint"@) ==> mcp::tool_permission(tool)
            == PermissionMode::DangerFullAccess,
        mcp::tool_permission(tool) == PermissionMode::ReadOnly <==> mcp::hint(
            tool,
            "readOnlyHint"@,
        ) && !mcp::hint(tool, "destructiveHint"@) && !mcp::hint(tool, "openWorldHint"@),
        mcp::tool_permission(tool) == PermissionMode::WorkspaceWrite <==> !mcp::hint(
            tool,
            "readOnlyHint"@,
        ) && !mcp::hint(tool, "destructiveHint"@) && !mcp::hint(tool, "openWorldHint"@),
        tool.annotations is None ==> mcp::tool_permission(tool) == PermissionMode::WorkspaceWrite,
        tool.annotations is Some ==> (mcp::hint(tool, "readOnlyHint"@)
            <==> tool.annotations->0.view().get("readOnlyHint"@) == Some(JsonView::Bool(true))),
{
}

/// A tool of a server keeps its name, its description and its schema. Without a
/// description its name is told, and without a schema it takes any object.
pub proof fn law_tools_are_brought_in_as_they_are(tool: McpTool)
    ensures
        ({
            let brought = mcp::runtime_tool(tool);
            &&& brought.name == tool.qualified_name@
            &&& brought.required_permission == mcp::tool_permission(tool)
            &&& brought.description is Some
            &&& tool.description is Some ==> brought.description->0 == tool.description->0@
            &&& tool.description is None ==> text::contains_text(
                brought.description->0,
                "`"@ + tool.qualified_name@ + "`"@,
            )
            &&& tool.input_schema is Some ==> brought.input_schema == tool.input_schema->0.view()
            &&& tool.input_schema is None ==> brought.input_schema.get("type"@) == Some(
                JsonView::Text("object"@),
            ) && brought.input_schema.get("additionalProperties"@) == Some(JsonView::Bool(true))
        }),
{
    let name = tool.qualified_name@;
    assert(text::contains_text("Invoke MCP tool `"@ + name + "`."@, "`"@ + name + "`"@)) by {
        reveal_strlit("Invoke MCP tool `");
        reveal_strlit("Invoke MCP tool ");
        reveal_strlit("`");
        reveal_strlit("`.");
        reveal_strlit(".");
        assert("Invoke MCP tool `"@ =~= "Invoke MCP tool "@ + "`"@);
        assert("`."@ =~= "`"@ + "."@);
        let part = "`"@ + name + "`"@;
        assert("Invoke MCP tool `"@ + name + "`."@ =~= "Invoke MCP tool "@ + part + "."@);
        text::lemma_contains_part("Invoke MCP tool "@, part, "."@);
    }
    reveal_strlit("type");
    reveal_strlit("additionalProperties");
    assert("type"@.len() == 4);
    assert("additionalProperties"@.len() == 20);
    let members = mcp::any_object_schema()->Object_0;
    json::lemma_member_at(members, 0);
    json::lemma_member_at(members, 1);
}

/// The tools of the servers come in their order, and behind them those through
/// which every server is reached, where there is one. Calling a tool needs full
/// access; listing and reading resources only reads.
pub proof fn law_tools_of_servers_come_first(tools: Seq<McpTool>, has_servers: bool, at: int)
    ensures
        ({
            let brought = mcp::tools_brought_in(tools, has_servers);
            let n = tools.len() as int;
            &&& brought.len() == n + (if has_servers {
                3int
            } else {
                0
            })
            &&& 0 <= at < n ==> brought[at] == mcp::runtime_tool(tools[at])
            &&& has_servers ==> {
                &&& brought[n].name == "MCPTool"@
                &&& brought[n].required_permission == PermissionMode::DangerFullAccess
                &&& brought[n + 1].name == "ListMcpResourcesTool"@
                &&& brought[n + 1].required_permission == PermissionMode::ReadOnly
                &&& brought[n + 2].name == "ReadMcpResourceTool"@
                &&& brought[n + 2].required_permission == PermissionMode::ReadOnly
            }
        }),
{
}

/// The schema of an object holds its properties and no others; what is required is
/// told where anything is.
pub proof fn law_schemas_hold_their_properties(
    properties: Seq<(Seq<char>, JsonView)>,
    required: Seq<Seq<char>>,
)
    ensures
        ({
            let schema = mcp::object_schema(properties, required);
            &&& schema.get("type"@) == Some(JsonView::Text("object"@))
            &&& schema.get("properties"@) == Some(JsonView::Object(properties))
            &&& schema.get("additionalProperties"@) == Some(JsonView::Bool(false))
            &&& required.len() > 0 ==> schema.get("required"@) == Some(json::texts_json(required))
        }),
{
    reveal_strlit("type");
    reveal_strlit("properties");
    reveal_strlit("required");
    reveal_strlit("additionalProperties");
    assert("type"@.len() == 4);
    assert("properties"@.len() == 10);
    assert("required"@.len() == 8);
    assert("additionalProperties"@.len() == 20);
    let members = mcp::object_schema(properties, required)->Object_0;
    json::lemma_member_at(members, 0);
    json::lemma_member_at(members, 1);
    json::lemma_member_at(members, 2);
    if required.len() > 0 {
        json::lemma_member_at(members, 3);
    }
}

/// A call needs the name of its tool and may bring arguments; listing may name a
/// server; reading needs a server and an address.
pub proof fn law_reaching_tools_require_what_they_need()
    ensures
        ({
            let tools = mcp::wrapper_tools();
            let calls = tools[0].input_schema;
            let lists = tools[1].input_schema;
            let reads = tools[2].input_schema;
            &&& calls == mcp::object_schema(
                calls.get("properties"@)->0->Object_0,
                seq!["qualifiedName"@],
            )
            &&& lists == mcp::object_schema(
                lists.get("properties"@)->0->Object_0,
                Seq::empty(),
            )
            &&& reads == mcp::object_schema(
                reads.get("properties"@)->0->Object_0,
                seq!["server"@, "uri"@],
            )
            &&& calls.get("properties"@)->0.get("qualifiedName"@) is Some
            &&& calls.get("properties"@)->0.get("arguments"@) is Some
            &&& lists.get("properties"@)->0.get("server"@) is Some
            &&& reads.get("properties"@)->0.get("server"@) is Some
            &&& reads.get("properties"@)->0.get("uri"@) is Some
        }),
{
    let tools = mcp::wrapper_tools();
    let calls = seq![
        mcp::string_property("qualifiedName"@),
        ("arguments"@, JsonView::Object(Seq::empty())),
    ];
    let lists = seq![mcp::string_property("server"@)];
    let reads = seq![mcp::string_property("server"@), mcp::string_property("uri"@)];
    law_schemas_hold_their_properties(calls, seq!["qualifiedName"@]);
    law_schemas_hold_their_properties(lists, Seq::empty());
    law_schemas_hold_their_properties(reads, seq!["server"@, "uri"@]);
    reveal_strlit("qualifiedName");
    reveal_strlit("arguments");
    reveal_strlit("server");
    reveal_strlit("uri");
    assert("qualifiedName"@.len() == 13);
    assert("arguments"@.len() == 9);
    assert("server"@.len() == 6);
    assert("uri"@.len() == 3);
    json::lemma_member_at(calls, 0);
    json::lemma_member_at(calls, 1);
    json::lemma_member_at(lists, 0);
    json::lemma_member_at(reads, 0);
    json::lemma_member_at(reads, 1);
}

} // verus!
