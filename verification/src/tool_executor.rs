//! How tool calls are carried out: which are let through, where they go, and
//! which of them run side by side.

use vstd::prelude::*;

use crate::agent;
use crate::json::{self, Json, JsonView};
use crate::stream;
use crate::text;
use crate::tool_display;

verus! {

pub const DEFAULT_PARALLEL_AGENT_LIMIT: usize = 4;

pub const DEFAULT_SEARCH_RESULTS: usize = 5;

/// A call of a tool.
#[derive(Debug, PartialEq, Eq)]
pub struct ToolInvocation {
    pub tool_name: String,
    pub input: String,
}

// ---------------------------------------------------------------------------
// One call
// ---------------------------------------------------------------------------

/// Where a tool call goes, with the document that is its input.
#[derive(Debug)]
pub enum ToolRoute {
    /// The search among the tools.
    Search(Json),
    /// A tool that the configuration brought in.
    Runtime(Json),
    /// A tool that is built in or comes from a plugin.
    Registry(Json),
}

pub enum RouteView {
    Search(JsonView),
    Runtime(JsonView),
    Registry(JsonView),
}

impl ToolRoute {
    pub open spec fn view(&self) -> RouteView {
        match self {
            ToolRoute::Search(input) => RouteView::Search(input.view()),
            ToolRoute::Runtime(input) => RouteView::Runtime(input.view()),
            ToolRoute::Registry(input) => RouteView::Registry(input.view()),
        }
    }
}

pub open spec fn route_result(r: Result<ToolRoute, String>) -> Result<RouteView, Seq<char>> {
    match r {
        Ok(route) => Ok(route.view()),
        Err(message) => Err(message@),
    }
}

/// Where a tool call goes, from what parsing its input gave.
pub open spec fn routed(
    allowed: Option<Seq<Seq<char>>>,
    tool_name: Seq<char>,
    parsed: Result<JsonView, Seq<char>>,
    is_runtime_tool: bool,
) -> Result<RouteView, Seq<char>> {
    if allowed matches Some(allowed) && !allowed.contains(tool_name) {
        Err("tool `"@ + tool_name + "` is not enabled by the current --allowedTools setting"@)
    } else {
        match parsed {
            Err(error) => Err("invalid tool input JSON: "@ + error),
            Ok(input) => if tool_name == "ToolSearch"@ {
                Ok(RouteView::Search(input))
            } else if is_runtime_tool {
                Ok(RouteView::Runtime(input))
            } else {
                Ok(RouteView::Registry(input))
            },
        }
    }
}

/// Where a tool call goes, from what parsing its input gave, or why it is not
/// carried out.
pub fn route_tool_call(
    allowed_tools: Option<&Vec<String>>,
    tool_name: &str,
    parsed: Result<Json, String>,
    is_runtime_tool: bool,
) -> (r: Result<ToolRoute, String>)
    ensures
        route_result(r) == routed(
            agent::opt_texts(allowed_tools),
            tool_name@,
            agent::document_result(parsed),
            is_runtime_tool,
        ),
{
    match allowed_tools {
        Some(allowed) => {
            if !text::lists(allowed, tool_name) {
                let mut message = "tool `".to_string();
                message.append(tool_name);
                message.append("` is not enabled by the current --allowedTools setting");
                return Err(message);
            }
        },
        None => {},
    }
    match parsed {
        Err(error) => {
            let mut message = "invalid tool input JSON: ".to_string();
            message.append(error.as_str());
            Err(message)
        },
        Ok(input) => if text::str_eq(tool_name, "ToolSearch") {
            Ok(ToolRoute::Search(input))
        } else if is_runtime_tool {
            Ok(ToolRoute::Runtime(input))
        } else {
            Ok(ToolRoute::Registry(input))
        },
    }
}

/// Where a tool call goes, or why it is not carried out. A call without input
/// has the empty object as its input.
pub fn execute_raw(
    allowed_tools: Option<&Vec<String>>,
    tool_name: &str,
    input: &str,
    is_runtime_tool: bool,
) -> (r: Result<ToolRoute, String>)
    ensures
        route_result(r) == routed(
            agent::opt_texts(allowed_tools),
            tool_name@,
            json::json_parse(stream::normalized_input(input@)),
            is_runtime_tool,
        ),
{
    let parsed = json::parse_json(stream::normalize_tool_input_json(input));
    route_tool_call(allowed_tools, tool_name, parsed, is_runtime_tool)
}

/// How many tools a search gives.
pub open spec fn search_limit(max_results: Option<usize>) -> usize {
    match max_results {
        Some(n) => n,
        None => DEFAULT_SEARCH_RESULTS,
    }
}

pub fn search_result_limit(max_results: Option<usize>) -> (r: usize)
    ensures
        r == search_limit(max_results),
{
    match max_results {
        Some(n) => n,
        None => DEFAULT_SEARCH_RESULTS,
    }
}

/// What is asked of the configured servers.
#[derive(Debug, Clone, Copy, PartialEq, Eq, Structural)]
pub enum RuntimeToolKind {
    /// A tool of a server, named in the input.
    CallNamedTool,
    ListResources,
    ReadResource,
    /// The tool of a server that the call itself names.
    CallTool,
}

pub open spec fn runtime_kind(tool_name: Seq<char>) -> RuntimeToolKind {
    if tool_name == "MCPTool"@ {
        RuntimeToolKind::CallNamedTool
    } else if tool_name == "ListMcpResourcesTool"@ {
        RuntimeToolKind::ListResources
    } else if tool_name == "ReadMcpResourceTool"@ {
        RuntimeToolKind::ReadResource
    } else {
        RuntimeToolKind::CallTool
    }
}

/// What a runtime tool asks of the configured servers.
pub open spec fn runtime_call(tool_name: Seq<char>, has_servers: bool) -> Result<
    RuntimeToolKind,
    Seq<char>,
> {
    if has_servers {
        Ok(runtime_kind(tool_name))
    } else {
        Err("runtime tool `"@ + tool_name + "` is unavailable without configured MCP servers"@)
    }
}

/// What a runtime tool asks of the configured servers; an error where there are
/// none.
pub fn execute_runtime_tool(tool_name: &str, has_servers: bool) -> (r: Result<
    RuntimeToolKind,
    String,
>)
    ensures
        match r {
            Ok(kind) => runtime_call(tool_name@, has_servers) == Ok::<RuntimeToolKind, Seq<char>>(
                kind,
            ),
            Err(message) => runtime_call(tool_name@, has_servers) == Err::<
                RuntimeToolKind,
                Seq<char>,
            >(message@),
        },
{
    if !has_servers {
        let mut message = "runtime tool `".to_string();
        message.append(tool_name);
        message.append("` is unavailable without configured MCP servers");
        return Err(message);
    }
    if text::str_eq(tool_name, "MCPTool") {
        Ok(RuntimeToolKind::CallNamedTool)
    } else if text::str_eq(tool_name, "ListMcpResourcesTool") {
        Ok(RuntimeToolKind::ListResources)
    } else if text::str_eq(tool_name, "ReadMcpResourceTool") {
        Ok(RuntimeToolKind::ReadResource)
    } else {
        Ok(RuntimeToolKind::CallTool)
    }
}

/// The tool that a call names.
pub open spec fn tool_named(
    qualified_name: Option<Seq<char>>,
    tool: Option<Seq<char>>,
) -> Result<Seq<char>, Seq<char>> {
    match (qualified_name, tool) {
        (Some(name), _) => Ok(name),
        (None, Some(name)) => Ok(name),
        (None, None) => Err("missing required field `qualifiedName`"@),
    }
}

/// The tool that a call names: by its qualified name, or else by its older one.
pub fn named_mcp_tool(qualified_name: Option<String>, tool: Option<String>) -> (r: Result<
    String,
    String,
>)
    ensures
        text::result_text(r) == tool_named(text::opt_text(qualified_name), text::opt_text(tool)),
{
    match qualified_name {
        Some(name) => Ok(name),
        None => match tool {
            Some(name) => Ok(name),
            None => Err("missing required field `qualifiedName`".to_string()),
        },
    }
}

/// The error of a result that could not be shown.
pub open spec fn unshown(is_error: bool, error: Seq<char>) -> Seq<char> {
    (if is_error {
        "failed to render tool error"@
    } else {
        "failed to render tool result"@
    }) + ": "@ + error
}

pub fn render_failure(is_error: bool, error: &str) -> (r: String)
    ensures
        r@ == unshown(is_error, error@),
{
    let mut out = if is_error {
        "failed to render tool error".to_string()
    } else {
        "failed to render tool result".to_string()
    };
    out.append(": ");
    out.append(error);
    out
}

/// What a call comes to.
pub open spec fn call_comes_to(
    result: Result<String, String>,
    shown: Result<(), String>,
) -> Result<String, String> {
    match shown {
        Ok(_) => result,
        Err(error) => Err(error),
    }
}

/// What a call comes to: a result that could not be shown is an error.
pub fn shown_result(
    result: Result<String, String>,
    shown: Result<(), String>,
) -> (r: Result<String, String>)
    ensures
        r == call_comes_to(result, shown),
{
    match shown {
        Ok(_) => result,
        Err(error) => Err(error),
    }
}

// ---------------------------------------------------------------------------
// Many calls
// ---------------------------------------------------------------------------

/// How many sub-agents run side by side: the configured number where it is one,
/// or else the default.
pub open spec fn agent_limit(configured: Option<Seq<char>>) -> nat {
    match configured {
        Some(value) => match text::number_in(text::trimmed(value), usize::MAX as nat) {
            Some(n) => if n > 0 {
                n
            } else {
                DEFAULT_PARALLEL_AGENT_LIMIT as nat
            },
            None => DEFAULT_PARALLEL_AGENT_LIMIT as nat,
        },
        None => DEFAULT_PARALLEL_AGENT_LIMIT as nat,
    }
}

pub fn parallel_agent_limit(configured: Option<&str>) -> (r: usize)
    ensures
        r == agent_limit(text::opt_str(configured)),
        r > 0,
{
    match configured {
        Some(value) => match text::parse_usize(text::trim(value)) {
            Some(n) => if n > 0 {
                n
            } else {
                DEFAULT_PARALLEL_AGENT_LIMIT
            },
            None => DEFAULT_PARALLEL_AGENT_LIMIT,
        },
        None => DEFAULT_PARALLEL_AGENT_LIMIT,
    }
}

/// What `{:?}` prints of an optional string.
pub uninterp spec fn debug_printed(value: Option<Seq<char>>) -> Seq<char>;

/// Formats an optional string by its `Debug` impl in std, which escapes it by
/// tables of Unicode; a missing one is `None`.
#[verifier::external_body]
fn debug_print(value: Option<&str>) -> (r: String)
    ensures
        r@ == debug_printed(text::opt_str(value)),
        value is None ==> r@ == "None"@,
{
    format!("{:?}", value)
}

/// A call in one line, from what its input holds where it is JSON.
pub open spec fn call_line(tool_name: Seq<char>, input: Option<JsonView>) -> Seq<char> {
    let head = "tool="@ + tool_name;
    if tool_name != "Agent"@ {
        head
    } else {
        match input {
            None => head + " input_parse_error"@,
            Some(input) => head + " description="@ + debug_printed(input.str_field("description"@))
                + " name="@ + debug_printed(input.str_field("name"@)) + " background="@ + text::bool_text(
                input.flag("run_in_background"@),
            ) + " prompt_len="@ + text::decimal(
                match input.str_field("prompt"@) {
                    Some(prompt) => tool_display::byte_len(prompt) as nat,
                    None => 0,
                },
            ),
        }
    }
}

/// A call in one line, from what its input holds where it is JSON.
pub fn describe_parsed_invocation(tool_name: &str, input: Option<&Json>) -> (r: String)
    ensures
        r@ == call_line(tool_name@, json::opt_json(input)),
{
    let mut out = "tool=".to_string();
    out.append(tool_name);
    if !text::str_eq(tool_name, "Agent") {
        return out;
    }
    match input {
        None => {
            out.append(" input_parse_error");
        },
        Some(input) => {
            out.append(" description=");
            out.append(debug_print(input.str_field("description")).as_str());
            out.append(" name=");
            out.append(debug_print(input.str_field("name")).as_str());
            out.append(" background=");
            out.append(text::bool_str(input.flag("run_in_background")));
            out.append(" prompt_len=");
            let prompt_len: usize = match input.str_field("prompt") {
                Some(prompt) => prompt.len(),
                None => 0,
            };
            out.append(text::decimal_usize(prompt_len).as_str());
        },
    }
    out
}

/// A call in one line, as it is told of where calls run side by side.
pub fn describe_parallel_invocation(invocation: &ToolInvocation) -> (r: String)
    ensures
        r@ == call_line(
            invocation.tool_name@,
            match json::json_parse(invocation.input@) {
                Ok(input) => Some(input),
                Err(_) => None,
            },
        ),
{
    match json::parse_json(invocation.input.as_str()) {
        Ok(input) => describe_parsed_invocation(invocation.tool_name.as_str(), Some(&input)),
        Err(_) => describe_parsed_invocation(invocation.tool_name.as_str(), None),
    }
}

/// Whether calls of a tool may run side by side.
pub open spec fn runs_beside_others(tool_name: Seq<char>) -> bool {
    tool_name == "Agent"@
}

pub fn supports_parallel_execution(tool_name: &str) -> (r: bool)
    ensures
        r == runs_beside_others(tool_name@),
{
    text::str_eq(tool_name, "Agent")
}

/// Whether calls run side by side: where there are several, all of sub-agents.
pub open spec fn runs_in_parallel(invocations: Seq<ToolInvocation>) -> bool {
    &&& invocations.len() >= 2
    &&& forall|i: int|
        0 <= i < invocations.len() ==> (#[trigger] invocations[i]).tool_name@ == "Agent"@
}

/// The pieces of a sequence that are `size` long, and what is left at the end.
pub open spec fn pieces(all: Seq<ToolInvocation>, size: nat) -> Seq<Seq<ToolInvocation>>
    decreases all.len(),
{
    if all.len() == 0 || size == 0 {
        Seq::empty()
    } else if all.len() <= size {
        seq![all]
    } else {
        seq![all.take(size as int)] + pieces(all.skip(size as int), size)
    }
}

pub open spec fn piece_views(chunks: Seq<Vec<ToolInvocation>>) -> Seq<Seq<ToolInvocation>> {
    chunks.map_values(|c: Vec<ToolInvocation>| c@)
}

/// How several calls are carried out.
#[derive(Debug, PartialEq, Eq)]
pub enum ExecutionPlan {
    OneByOne(Vec<ToolInvocation>),
    /// Each group runs side by side, one group after the other.
    Groups(Vec<Vec<ToolInvocation>>),
}

/// Whether calls are carried out by this plan.
pub open spec fn is_plan_of(
    plan: ExecutionPlan,
    invocations: Vec<ToolInvocation>,
    parallel_limit: nat,
) -> bool {
    if runs_in_parallel(invocations@) {
        plan matches ExecutionPlan::Groups(groups) && piece_views(groups@) == pieces(
            invocations@,
            parallel_limit,
        )
    } else {
        plan == ExecutionPlan::OneByOne(invocations)
    }
}

/// How several calls are carried out.
pub fn execute_many(invocations: Vec<ToolInvocation>, parallel_limit: usize) -> (r: ExecutionPlan)
    requires
        parallel_limit > 0,
    ensures
        is_plan_of(r, invocations, parallel_limit as nat),
{
    if invocations.len() < 2 {
        return ExecutionPlan::OneByOne(invocations);
    }
    let mut i: usize = 0;
    while i < invocations.len()
        invariant
            i <= invocations@.len(),
            forall|j: int| 0 <= j < i ==> (#[trigger] invocations@[j]).tool_name@ == "Agent"@,
        decreases invocations.len() - i,
    {
        if !supports_parallel_execution(invocations[i].tool_name.as_str()) {
            return ExecutionPlan::OneByOne(invocations);
        }
        i += 1;
    }
    ExecutionPlan::Groups(split_into_groups(invocations, parallel_limit))
}

fn split_into_groups(invocations: Vec<ToolInvocation>, size: usize) -> (r: Vec<Vec<ToolInvocation>>)
    requires
        size > 0,
    ensures
        piece_views(r@) == pieces(invocations@, size as nat),
{
    let ghost all = invocations@;
    let mut rest = invocations;
    let mut groups: Vec<Vec<ToolInvocation>> = Vec::new();
    assert(piece_views(groups@) + pieces(rest@, size as nat) =~= pieces(all, size as nat));
    while rest.len() > size
        invariant
            size > 0,
            piece_views(groups@) + pieces(rest@, size as nat) == pieces(all, size as nat),
        decreases rest.len(),
    {
        let ghost before = rest@;
        let ghost done = piece_views(groups@);
        let tail = rest.split_off(size);
        proof {
            assert(rest@ =~= before.take(size as int));
            assert(tail@ =~= before.skip(size as int));
        }
        let group = rest;
        groups.push(group);
        rest = tail;
        proof {
            assert(piece_views(groups@) =~= done.push(group@));
            assert(piece_views(groups@) + pieces(rest@, size as nat) =~= done + pieces(
                before,
                size as nat,
            ));
        }
    }
    let ghost done = piece_views(groups@);
    let ghost last = rest@;
    if rest.len() > 0 {
        groups.push(rest);
        assert(piece_views(groups@) =~= done + pieces(last, size as nat));
    } else {
        assert(piece_views(groups@) =~= done + pieces(last, size as nat));
    }
    groups
}

/// The result of a call that ran on its own thread; none where the thread
/// panicked.
pub open spec fn joined_result(r: Option<Result<String, String>>) -> Result<Seq<char>, Seq<char>> {
    match r {
        Some(result) => text::result_text(result),
        None => Err("tool execution thread panicked"@),
    }
}

pub open spec fn results_view(results: Seq<Result<String, String>>) -> Seq<
    Result<Seq<char>, Seq<char>>,
> {
    results.map_values(|r: Result<String, String>| text::result_text(r))
}

pub open spec fn joined_results(results: Seq<Option<Result<String, String>>>) -> Seq<
    Result<Seq<char>, Seq<char>>,
> {
    results.map_values(|r: Option<Result<String, String>>| joined_result(r))
}

/// The results of a group, in the order of its calls.
pub fn join_group(results: Vec<Option<Result<String, String>>>) -> (r: Vec<Result<String, String>>)
    ensures
        results_view(r@) == joined_results(results@),
{
    let ghost all = results@;
    let mut out: Vec<Result<String, String>> = Vec::new();
    assert(results_view(out@) =~= joined_results(all).take(0));
    for result in it: results
        invariant
            it.seq() == all,
            results_view(out@) == joined_results(all).take(it.index()),
    {
        let ghost before = out@;
        let joined = match result {
            Some(result) => result,
            None => Err("tool execution thread panicked".to_string()),
        };
        out.push(joined);
        proof {
            assert(results_view(out@) =~= results_view(before).push(text::result_text(joined)));
            assert(joined_results(all).take(it.index() + 1) =~= joined_results(all).take(
                it.index(),
            ).push(joined_result(all[it.index()])));
        }
    }
    assert(joined_results(all).take(all.len() as int) =~= joined_results(all));
    out
}

/// Groups one behind the other.
pub open spec fn end_to_end<T>(groups: Seq<Seq<T>>) -> Seq<T>
    decreases groups.len(),
{
    if groups.len() == 0 {
        Seq::empty()
    } else {
        groups[0] + end_to_end(groups.skip(1))
    }
}

proof fn lemma_end_to_end_push<T>(groups: Seq<Seq<T>>, group: Seq<T>)
    ensures
        end_to_end(groups.push(group)) == end_to_end(groups) + group,
    decreases groups.len(),
{
    if groups.len() == 0 {
        assert(groups.push(group).skip(1) =~= Seq::empty());
        assert(end_to_end(groups.push(group).skip(1)) == Seq::<T>::empty());
        assert(end_to_end(groups.push(group)) =~= end_to_end(groups) + group);
    } else {
        assert(groups.push(group).skip(1) =~= groups.skip(1).push(group));
        lemma_end_to_end_push(groups.skip(1), group);
        assert(end_to_end(groups.push(group)) =~= end_to_end(groups) + group);
    }
}

pub open spec fn group_views(groups: Seq<Vec<Result<String, String>>>) -> Seq<
    Seq<Result<String, String>>,
> {
    groups.map_values(|g: Vec<Result<String, String>>| g@)
}

/// The results of a batch that ran in groups, in the order of its calls.
pub fn join_groups(groups: Vec<Vec<Result<String, String>>>) -> (r: Vec<Result<String, String>>)
    ensures
        r@ == end_to_end(group_views(groups@)),
{
    let ghost all = group_views(groups@);
    let mut out: Vec<Result<String, String>> = Vec::new();
    assert(all.take(0) =~= Seq::empty());
    for group in it: groups
        invariant
            all == group_views(it.seq()),
            out@ == end_to_end(all.take(it.index())),
    {
        let mut group = group;
        proof {
            assert(all.take(it.index() + 1) =~= all.take(it.index()).push(group@));
            lemma_end_to_end_push(all.take(it.index()), group@);
        }
        out.append(&mut group);
    }
    assert(all.take(all.len() as int) =~= all);
    out
}

/// The results of a batch in which the result at `index` could not be shown.
pub fn with_render_failure(
    results: Vec<Result<String, String>>,
    index: usize,
    error: String,
) -> (r: Vec<Result<String, String>>)
    requires
        index < results@.len(),
    ensures
        r@ == results@.update(index as int, Err(error)),
{
    let mut results = results;
    results.set(index, Err(error));
    results
}

// ---------------------------------------------------------------------------
// Laws
// ---------------------------------------------------------------------------

/// Groups hold every call once and in order, none is empty, and none is larger
/// than the limit.
pub proof fn law_groups_keep_calls_and_limit(invocations: Seq<ToolInvocation>, limit: nat)
    requires
        limit > 0,
    ensures
        end_to_end(pieces(invocations, limit)) == invocations,
        forall|i: int|
            0 <= i < pieces(invocations, limit).len() ==> 0 < (#[trigger] pieces(
                invocations,
                limit,
            )[i]).len() <= limit,
    decreases invocations.len(),
{
    let groups = pieces(invocations, limit);
    if invocations.len() == 0 {
        assert(end_to_end(groups) =~= invocations);
    } else if invocations.len() <= limit {
        assert(groups.skip(1) =~= Seq::empty());
        assert(end_to_end(groups.skip(1)) =~= Seq::empty());
        assert(end_to_end(groups) =~= invocations);
    } else {
        let rest = invocations.skip(limit as int);
        law_groups_keep_calls_and_limit(rest, limit);
        assert(groups.skip(1) =~= pieces(rest, limit));
        assert(end_to_end(groups) =~= invocations);
        assert forall|i: int| 0 <= i < groups.len() implies 0 < (#[trigger] groups[i]).len()
            <= limit by {
            if i > 0 {
                assert(groups[i] == pieces(rest, limit)[i - 1]);
            }
        }
    }
}

/// Where every call of every group has its result, the results of the batch
/// stand in the order of the calls: each is at the place of its call.
pub proof fn law_results_stand_in_call_order<T>(
    invocations: Seq<ToolInvocation>,
    limit: nat,
    results: Seq<Seq<T>>,
    group: int,
    place: int,
)
    requires
        limit > 0,
        results.len() == pieces(invocations, limit).len(),
        forall|g: int|
            0 <= g < results.len() ==> (#[trigger] results[g]).len() == pieces(
                invocations,
                limit,
            )[g].len(),
        0 <= group < results.len(),
        0 <= place < results[group].len(),
    ensures
        end_to_end(results).len() == invocations.len(),
        ({
            let at = end_to_end(results.take(group)).len() + place;
            &&& at < invocations.len()
            &&& invocations[at] == pieces(invocations, limit)[group][place]
            &&& end_to_end(results)[at] == results[group][place]
        }),
{
    let groups = pieces(invocations, limit);
    law_groups_keep_calls_and_limit(invocations, limit);
    lemma_same_lengths(results, groups);
    lemma_same_lengths(results.take(group), groups.take(group));
    lemma_placed(results, group, place);
    lemma_placed(groups, group, place);
}

proof fn lemma_same_lengths<S, T>(a: Seq<Seq<S>>, b: Seq<Seq<T>>)
    requires
        a.len() == b.len(),
        forall|g: int| 0 <= g < a.len() ==> (#[trigger] a[g]).len() == b[g].len(),
    ensures
        end_to_end(a).len() == end_to_end(b).len(),
    decreases a.len(),
{
    if a.len() > 0 {
        assert forall|g: int| 0 <= g < a.skip(1).len() implies (#[trigger] a.skip(1)[g]).len()
            == b.skip(1)[g].len() by {
            assert(a.skip(1)[g] == a[g + 1]);
        }
        lemma_same_lengths(a.skip(1), b.skip(1));
        assert(a[0].len() == b[0].len());
    }
}

proof fn lemma_placed<T>(groups: Seq<Seq<T>>, group: int, place: int)
    requires
        0 <= group < groups.len(),
        0 <= place < groups[group].len(),
    ensures
        end_to_end(groups.take(group)).len() + place < end_to_end(groups).len(),
        end_to_end(groups)[end_to_end(groups.take(group)).len() + place] == groups[group][place],
    decreases groups.len(),
{
    if group == 0 {
        assert(groups.take(0) =~= Seq::empty());
    } else {
        let rest = groups.skip(1);
        lemma_placed(rest, group - 1, place);
        assert(groups.take(group).skip(1) =~= rest.take(group - 1));
        assert(rest[group - 1] == groups[group]);
        assert(groups.take(group)[0] == groups[0]);
    }
}

} // verus!
