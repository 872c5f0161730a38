//! What holds of every tool call that is carried out.

use vstd::prelude::*;

use crate::json::JsonView;
use crate::text;
use crate::text_laws;
use crate::tool_executor::{self, ExecutionPlan, RouteView, RuntimeToolKind, ToolInvocation};

verus! {

/// A tool is carried out exactly where it is allowed and its input is JSON; it
/// gets that input, and goes to the search, to the servers or to the tools of the
/// program as it belongs there.
pub proof fn law_allowed_calls_go_where_they_belong(
    allowed: Option<Seq<Seq<char>>>,
    tool: Seq<char>,
    parsed: Result<JsonView, Seq<char>>,
    is_runtime_tool: bool,
)
    ensures
        ({
            let came = tool_executor::routed(allowed, tool, parsed, is_runtime_tool);
            let permitted = allowed is None || allowed->0.contains(tool);
            &&& came is Ok <==> permitted && parsed is Ok
            &&& came matches Ok(RouteView::Search(input)) ==> tool == "ToolSearch"@ && parsed
                == Ok::<JsonView, Seq<char>>(input)
            &&& came matches Ok(RouteView::Runtime(input)) ==> tool != "ToolSearch"@
                && is_runtime_tool && parsed == Ok::<JsonView, Seq<char>>(input)
            &&& came matches Ok(RouteView::Registry(input)) ==> tool != "ToolSearch"@
                && !is_runtime_tool && parsed == Ok::<JsonView, Seq<char>>(input)
            &&& !permitted ==> text::contains_text(
                came->Err_0,
                "`"@ + tool + "` is not enabled"@,
            )
            &&& permitted && parsed is Err ==> text::has_suffix(came->Err_0, parsed->Err_0)
        }),
{
    reveal_strlit("tool `");
    reveal_strlit("tool ");
    reveal_strlit("`");
    assert("tool `"@ =~= "tool "@ + "`"@);
    reveal_strlit("` is not enabled by the current --allowedTools setting");
    reveal_strlit("` is not enabled");
    reveal_strlit(" by the current --allowedTools setting");
    assert("` is not enabled by the current --allowedTools setting"@ =~= "` is not enabled"@ + " by the current --allowedTools setting"@);
    let part = "`"@ + tool + "` is not enabled"@;
    let tail = " by the current --allowedTools setting"@;
    assert("tool `"@ + tool + "` is not enabled by the current --allowedTools setting"@ =~= "tool "@
        + part + tail);
    text::lemma_contains_part("tool "@, part, tail);
    if parsed is Err {
        text::lemma_contains_part("invalid tool input JSON: "@, parsed->Err_0, Seq::empty());
    }
}

/// A search gives as many tools as it is asked for, and five where it is not told.
pub proof fn law_searches_give_what_is_asked_for(asked: usize)
    ensures
        tool_executor::search_limit(Some(asked)) == asked,
        tool_executor::search_limit(None) == 5,
{
}

/// What a tool of the servers asks for is told by its name: a resource is read or
/// listed by the two tools for that, and any other name is that of a tool.
/// Without servers it is refused by name.
pub proof fn law_server_tools_are_told_by_name(tool: Seq<char>)
    ensures
        tool_executor::runtime_call("ListMcpResourcesTool"@, true) == Ok::<
            RuntimeToolKind,
            Seq<char>,
        >(RuntimeToolKind::ListResources),
        tool_executor::runtime_call("ReadMcpResourceTool"@, true) == Ok::<
            RuntimeToolKind,
            Seq<char>,
        >(RuntimeToolKind::ReadResource),
        tool_executor::runtime_call("MCPTool"@, true) == Ok::<RuntimeToolKind, Seq<char>>(
            RuntimeToolKind::CallNamedTool,
        ),
        tool != "ListMcpResourcesTool"@ && tool != "ReadMcpResourceTool"@ && tool != "MCPTool"@
            ==> tool_executor::runtime_call(tool, true) == Ok::<RuntimeToolKind, Seq<char>>(
            RuntimeToolKind::CallTool,
        ),
        tool_executor::runtime_call(tool, false) matches Err(message) && text::contains_text(
            message,
            "`"@ + tool + "` is unavailable"@,
        ),
{
    reveal_strlit("ListMcpResourcesTool");
    reveal_strlit("ReadMcpResourceTool");
    reveal_strlit("MCPTool");
    assert("ListMcpResourcesTool"@.len() == 20);
    assert("ReadMcpResourceTool"@.len() == 19);
    assert("MCPTool"@.len() == 7);
    reveal_strlit("runtime tool `");
    reveal_strlit("runtime tool ");
    reveal_strlit("`");
    assert("runtime tool `"@ =~= "runtime tool "@ + "`"@);
    reveal_strlit("` is unavailable without configured MCP servers");
    reveal_strlit("` is unavailable");
    reveal_strlit(" without configured MCP servers");
    assert("` is unavailable without configured MCP servers"@ =~= "` is unavailable"@ + " without configured MCP servers"@);
    let part = "`"@ + tool + "` is unavailable"@;
    let tail = " without configured MCP servers"@;
    assert("runtime tool `"@ + tool + "` is unavailable without configured MCP servers"@
        =~= "runtime tool "@ + part + tail);
    text::lemma_contains_part("runtime tool "@, part, tail);
}

/// A call names its tool by the qualified name before the older one, and one of
/// the two is needed.
pub proof fn law_qualified_names_come_first(name: Seq<char>, other: Option<Seq<char>>)
    ensures
        tool_executor::tool_named(Some(name), other) == Ok::<Seq<char>, Seq<char>>(name),
        tool_executor::tool_named(None, Some(name)) == Ok::<Seq<char>, Seq<char>>(name),
        tool_executor::tool_named(None, None) is Err,
{
}

/// A result that was shown is handed on as it is; one that was not is an error,
/// which tells whether a result or an error was lost.
pub proof fn law_results_are_handed_on(
    result: Result<String, String>,
    error: String,
    told: Seq<char>,
)
    ensures
        tool_executor::call_comes_to(result, Ok(())) == result,
        tool_executor::call_comes_to(result, Err(error)) == Err::<String, String>(error),
        text::has_suffix(tool_executor::unshown(true, told), "error: "@ + told),
        text::has_suffix(tool_executor::unshown(false, told), "result: "@ + told),
{
    reveal_strlit("failed to render tool error");
    reveal_strlit("failed to render tool ");
    reveal_strlit("error");
    assert("failed to render tool error"@ =~= "failed to render tool "@ + "error"@);
    reveal_strlit("failed to render tool result");
    reveal_strlit("failed to render tool ");
    reveal_strlit("result");
    assert("failed to render tool result"@ =~= "failed to render tool "@ + "result"@);
    reveal_strlit("error: ");
    reveal_strlit("error");
    reveal_strlit(": ");
    assert("error: "@ =~= "error"@ + ": "@);
    reveal_strlit("result: ");
    reveal_strlit("result");
    reveal_strlit(": ");
    assert("result: "@ =~= "result"@ + ": "@);
    text::lemma_contains_part("failed to render tool "@, "error: "@ + told, Seq::empty());
    text::lemma_contains_part("failed to render tool "@, "result: "@ + told, Seq::empty());
    assert(tool_executor::unshown(true, told) =~= "failed to render tool "@ + ("error: "@ + told));
    assert(tool_executor::unshown(false, told) =~= "failed to render tool "@ + ("result: "@ + told));
}

/// As many sub-agents run side by side as is configured, and four where no number
/// above nought is.
pub proof fn law_the_limit_is_the_configured_one(limit: nat, configured: Seq<char>)
    requires
        0 < limit <= usize::MAX,
    ensures
        tool_executor::agent_limit(Some(text::decimal(limit))) == limit,
        tool_executor::agent_limit(None) == 4,
        tool_executor::agent_limit(Some("0"@)) == 4,
        text::number_in(text::trimmed(configured), usize::MAX as nat) is None
            ==> tool_executor::agent_limit(Some(configured)) == 4,
        tool_executor::agent_limit(Some(configured)) > 0,
{
    let shown = text::decimal(limit);
    text::lemma_decimal_reads_back(limit, usize::MAX as nat);
    assert(text::is_digit(shown[0]) && text::is_digit(shown[shown.len() - 1]));
    text_laws::law_trimmed_texts_stay(shown);
    reveal_strlit("0");
    assert("0"@ =~= text::decimal(0));
    text::lemma_decimal_reads_back(0, usize::MAX as nat);
    assert("0"@[0] == '0');
    text_laws::law_trimmed_texts_stay("0"@);
}

/// Calls run side by side only where all of them are of sub-agents and there are
/// at least two; every call is in the plan, in its place.
pub proof fn law_only_agents_run_side_by_side(
    plan: ExecutionPlan,
    invocations: Vec<ToolInvocation>,
    limit: nat,
    at: int,
)
    requires
        tool_executor::is_plan_of(plan, invocations, limit),
        limit > 0,
        0 <= at < invocations@.len(),
    ensures
        plan is Groups ==> invocations@.len() >= 2 && invocations@[at].tool_name@ == "Agent"@,
        invocations@[at].tool_name@ != "Agent"@ ==> plan is OneByOne,
        plan matches ExecutionPlan::OneByOne(calls) ==> calls@ == invocations@,
        plan matches ExecutionPlan::Groups(groups) ==> tool_executor::end_to_end(
            tool_executor::piece_views(groups@),
        ) == invocations@,
        tool_executor::runs_beside_others("Agent"@),
        tool_executor::runs_beside_others(invocations@[at].tool_name@) ==> invocations@[at].tool_name@
            == "Agent"@,
{
    tool_executor::law_groups_keep_calls_and_limit(invocations@, limit);
}

/// Several calls of sub-agents do run side by side, and as many as the limit
/// allows: all groups but the last are full.
pub proof fn law_groups_are_full(invocations: Seq<ToolInvocation>, limit: nat, at: int)
    requires
        limit > 0,
    ensures
        0 <= at < tool_executor::pieces(invocations, limit).len() - 1 ==> tool_executor::pieces(
            invocations,
            limit,
        )[at].len() == limit,
    decreases invocations.len(),
{
    if invocations.len() > limit {
        let rest = invocations.skip(limit as int);
        law_groups_are_full(rest, limit, at - 1);
        let groups = tool_executor::pieces(invocations, limit);
        assert(groups =~= seq![invocations.take(limit as int)] + tool_executor::pieces(
            rest,
            limit,
        ));
        if 0 < at < groups.len() - 1 {
            assert(groups[at] == tool_executor::pieces(rest, limit)[at - 1]);
        }
    }
}

/// The result of a call is what its thread gave; a thread that panicked gives an
/// error.
pub proof fn law_threads_give_their_result(result: Result<String, String>)
    ensures
        tool_executor::joined_result(Some(result)) == text::result_text(result),
        tool_executor::joined_result(None) is Err,
{
}

/// A call is told by its tool; of a sub-agent it is told whether it runs in the
/// background, and how long its prompt is, or that its input cannot be read.
pub proof fn law_calls_are_told_in_a_line(tool: Seq<char>, input: JsonView)
    ensures
        tool != "Agent"@ ==> tool_executor::call_line(tool, Some(input)) == "tool="@ + tool,
        tool_executor::call_line("Agent"@, None) == "tool=Agent input_parse_error"@,
        input.get("run_in_background"@) == Some(JsonView::Bool(true)) ==> text::contains_text(
            tool_executor::call_line("Agent"@, Some(input)),
            " background=true "@,
        ),
        input.get("run_in_background"@) is None ==> text::contains_text(
            tool_executor::call_line("Agent"@, Some(input)),
            " background=false "@,
        ),
{
    reveal_strlit("tool=Agent input_parse_error");
    reveal_strlit("tool=");
    reveal_strlit("Agent");
    reveal_strlit(" input_parse_error");
    assert("tool=Agent input_parse_error"@ =~= "tool="@ + "Agent"@ + " input_parse_error"@);
    reveal_strlit(" background=true ");
    reveal_strlit(" background=");
    reveal_strlit("true");
    reveal_strlit(" ");
    assert(" background=true "@ =~= " background="@ + "true"@ + " "@);
    reveal_strlit(" background=false ");
    reveal_strlit(" background=");
    reveal_strlit("false");
    reveal_strlit(" ");
    assert(" background=false "@ =~= " background="@ + "false"@ + " "@);
    reveal_strlit(" prompt_len=");
    reveal_strlit(" ");
    reveal_strlit("prompt_len=");
    assert(" prompt_len="@ =~= " "@ + "prompt_len="@);
    let head = "tool="@ + "Agent"@ + " description="@ + tool_executor::debug_printed(
        input.str_field("description"@),
    ) + " name="@ + tool_executor::debug_printed(input.str_field("name"@));
    let length = text::decimal(
        match input.str_field("prompt"@) {
            Some(prompt) => crate::tool_display::byte_len(prompt) as nat,
            None => 0,
        },
    );
    let line = tool_executor::call_line("Agent"@, Some(input));
    if input.get("run_in_background"@) == Some(JsonView::Bool(true)) {
        assert(line =~= head + " background=true "@ + ("prompt_len="@ + length));
        text::lemma_contains_part(head, " background=true "@, "prompt_len="@ + length);
    }
    if input.get("run_in_background"@) is None {
        assert(line =~= head + " background=false "@ + ("prompt_len="@ + length));
        text::lemma_contains_part(head, " background=false "@, "prompt_len="@ + length);
    }
}

/// Two calls of sub-agents run side by side; one call, or a call of anything else
/// among them, does not.
pub proof fn law_two_agents_run_side_by_side(first: ToolInvocation, second: ToolInvocation)
    ensures
        first.tool_name@ == "Agent"@ && second.tool_name@ == "Agent"@
            ==> tool_executor::runs_in_parallel(seq![first, second]),
        !tool_executor::runs_in_parallel(seq![first]),
        first.tool_name@ != "Agent"@ || second.tool_name@ != "Agent"@
            ==> !tool_executor::runs_in_parallel(seq![first, second]),
{
    let both = seq![first, second];
    assert(both[0] == first && both[1] == second);
}

} // verus!
