//! Configured MCP servers: which of them work, and which tools they bring.

use vstd::prelude::*;

use crate::json::{self, Json, JsonObject, JsonView};
use crate::permissions::PermissionMode;
use crate::text;

verus! {

// ---------------------------------------------------------------------------
// Discovery
// ---------------------------------------------------------------------------

/// A server whose tools could not be listed.
#[derive(Debug, PartialEq, Eq)]
pub struct FailedServer {
    pub server_name: String,
    pub error: String,
}

/// A server that cannot be spoken to at all.
#[derive(Debug, PartialEq, Eq)]
pub struct UnsupportedServer {
    pub server_name: String,
    pub transport: String,
    pub reason: String,
}

/// What came of asking every server for its tools.
#[derive(Debug, PartialEq, Eq)]
pub struct Discovery {
    pub server_names: Vec<String>,
    pub failed: Vec<FailedServer>,
    pub unsupported: Vec<UnsupportedServer>,
    pub tool_names: Vec<String>,
}

/// The step at which a server was lost.
#[derive(Debug, Clone, Copy, PartialEq, Eq, Structural)]
pub enum LifecyclePhase {
    ToolDiscovery,
    ServerRegistration,
}

/// What is reported of a server that is lost.
#[derive(Debug, PartialEq, Eq)]
pub struct LostServer {
    pub server_name: String,
    pub phase: LifecyclePhase,
    pub message: String,
    pub transport: Option<String>,
    pub recoverable: bool,
}

pub struct LostView {
    pub server_name: Seq<char>,
    pub phase: LifecyclePhase,
    pub message: Seq<char>,
    pub transport: Option<Seq<char>>,
    pub recoverable: bool,
}

impl LostServer {
    pub open spec fn view(&self) -> LostView {
        LostView {
            server_name: self.server_name@,
            phase: self.phase,
            message: self.message@,
            transport: text::opt_text(self.transport),
            recoverable: self.recoverable,
        }
    }
}

pub open spec fn lost_views(servers: Seq<LostServer>) -> Seq<LostView> {
    servers.map_values(|s: LostServer| s.view())
}

/// A server whose tools could not be listed may come back.
pub open spec fn lost_by_failure(server: FailedServer) -> LostView {
    LostView {
        server_name: server.server_name@,
        phase: LifecyclePhase::ToolDiscovery,
        message: server.error@,
        transport: None,
        recoverable: true,
    }
}

/// A server that is not supported stays lost.
pub open spec fn lost_by_transport(server: UnsupportedServer) -> LostView {
    LostView {
        server_name: server.server_name@,
        phase: LifecyclePhase::ServerRegistration,
        message: server.reason@,
        transport: Some(text::lowered(server.transport@)),
        recoverable: false,
    }
}

/// The servers that are lost, those that failed first.
pub open spec fn lost_servers(discovery: Discovery) -> Seq<LostView> {
    discovery.failed@.map_values(|s: FailedServer| lost_by_failure(s))
        + discovery.unsupported@.map_values(|s: UnsupportedServer| lost_by_transport(s))
}

/// Whether `name` is the name of a lost server.
pub open spec fn is_lost(discovery: Discovery, name: Seq<char>) -> bool {
    exists|i: int|
        0 <= i < lost_servers(discovery).len() && (#[trigger] lost_servers(discovery)[i]).server_name
            == name
}

/// Whether names stand in order, each once.
pub open spec fn ordered_once(names: Seq<Seq<char>>) -> bool {
    forall|i: int, j: int|
        0 <= i < j < names.len() ==> text::comes_before(#[trigger] names[i], #[trigger] names[j])
}

/// The names that belong to no lost server.
pub open spec fn working_names(discovery: Discovery, names: Seq<Seq<char>>) -> Seq<Seq<char>>
    decreases names.len(),
{
    if names.len() == 0 {
        Seq::empty()
    } else {
        let front = working_names(discovery, names.drop_last());
        if is_lost(discovery, names.last()) {
            front
        } else {
            front.push(names.last())
        }
    }
}

/// What is known of the servers while some of them are lost.
#[derive(Debug, PartialEq, Eq)]
pub struct DegradedReport {
    pub working_servers: Vec<String>,
    pub failed_servers: Vec<LostServer>,
    pub available_tools: Vec<String>,
    pub expected_tools: Vec<String>,
}

/// What is known of the configured servers.
#[derive(Debug, PartialEq, Eq)]
pub struct McpState {
    pub pending_servers: Vec<String>,
    pub degraded_report: Option<DegradedReport>,
}

impl McpState {
    /// Whether the state is the one that a discovery leads to.
    pub open spec fn follows(self, discovery: Discovery) -> bool {
        let pending = text::texts(self.pending_servers@);
        &&& ordered_once(pending)
        &&& forall|name: Seq<char>| #[trigger] pending.contains(name) <==> is_lost(discovery, name)
        &&& match self.degraded_report {
            Some(report) => {
                &&& lost_servers(discovery).len() > 0
                &&& text::texts(report.working_servers@) == working_names(
                    discovery,
                    text::texts(discovery.server_names@),
                )
                &&& lost_views(report.failed_servers@) == lost_servers(discovery)
                &&& text::texts(report.available_tools@) == text::texts(discovery.tool_names@)
                &&& text::texts(report.expected_tools@) == text::texts(discovery.tool_names@)
            },
            None => lost_servers(discovery).len() == 0,
        }
    }
}

fn clone_strings(v: &Vec<String>) -> (r: Vec<String>)
    ensures
        text::texts(r@) == text::texts(v@),
{
    let mut out: Vec<String> = Vec::new();
    let mut i: usize = 0;
    assert(text::texts(out@) =~= text::texts(v@).take(0));
    while i < v.len()
        invariant
            i <= v@.len(),
            text::texts(out@) == text::texts(v@).take(i as int),
        decreases v.len() - i,
    {
        let s = v[i].clone();
        proof {
            text::lemma_texts_push(out@, s);
            assert(text::texts(v@).take(i + 1) =~= text::texts(v@).take(i as int).push(s@));
        }
        out.push(s);
        i += 1;
    }
    assert(text::texts(v@).take(i as int) =~= text::texts(v@));
    out
}

fn list_lost_servers(discovery: &Discovery) -> (r: Vec<LostServer>)
    ensures
        lost_views(r@) == lost_servers(*discovery),
{
    let mut out: Vec<LostServer> = Vec::new();
    let ghost all = lost_servers(*discovery);
    let mut i: usize = 0;
    assert(lost_views(out@) =~= all.take(0));
    while i < discovery.failed.len()
        invariant
            i <= discovery.failed@.len(),
            all == lost_servers(*discovery),
            lost_views(out@) == all.take(i as int),
        decreases discovery.failed.len() - i,
    {
        let ghost before = out@;
        let server = LostServer {
            server_name: discovery.failed[i].server_name.clone(),
            phase: LifecyclePhase::ToolDiscovery,
            message: discovery.failed[i].error.clone(),
            transport: None,
            recoverable: true,
        };
        out.push(server);
        i += 1;
        proof {
            assert(all[i - 1] == server.view());
            assert(lost_views(out@) =~= lost_views(before).push(server.view()));
            assert(all.take(i as int) =~= all.take(i - 1).push(all[i - 1]));
        }
    }
    let ghost n = discovery.failed@.len();
    let mut j: usize = 0;
    while j < discovery.unsupported.len()
        invariant
            n == discovery.failed@.len(),
            j <= discovery.unsupported@.len(),
            all == lost_servers(*discovery),
            lost_views(out@) == all.take(n + j),
        decreases discovery.unsupported.len() - j,
    {
        let ghost before = out@;
        let server = LostServer {
            server_name: discovery.unsupported[j].server_name.clone(),
            phase: LifecyclePhase::ServerRegistration,
            message: discovery.unsupported[j].reason.clone(),
            transport: Some(text::to_lower(discovery.unsupported[j].transport.as_str())),
            recoverable: false,
        };
        out.push(server);
        j += 1;
        proof {
            assert(all[n + j - 1] == server.view());
            assert(lost_views(out@) =~= lost_views(before).push(server.view()));
            assert(all.take(n + j) =~= all.take(n + j - 1).push(all[n + j - 1]));
        }
    }
    assert(all.take(n + j) =~= all);
    out
}

/// Adds a name to names that stand in order, each once.
fn insert_name(names: &mut Vec<String>, name: String)
    requires
        ordered_once(text::texts(old(names)@)),
    ensures
        ordered_once(text::texts(final(names)@)),
        forall|other: Seq<char>| #[trigger]
            text::texts(final(names)@).contains(other) <==> (text::texts(old(names)@).contains(
                other,
            ) || other == name@),
{
    let ghost before = text::texts(names@);
    let ghost old_names = names@;
    let mut at: usize = 0;
    while at < names.len() && text::str_before(names[at].as_str(), name.as_str())
        invariant
            names@ == old_names,
            before == text::texts(old_names),
            at <= names@.len(),
            forall|i: int| 0 <= i < at ==> text::comes_before(#[trigger] before[i], name@),
        ensures
            at <= names@.len(),
            forall|i: int| 0 <= i < at ==> text::comes_before(#[trigger] before[i], name@),
            at < names@.len() ==> !text::comes_before(before[at as int], name@),
        decreases names.len() - at,
    {
        assert(before[at as int] == old_names[at as int]@);
        at += 1;
    }
    if at < names.len() && text::str_eq(names[at].as_str(), name.as_str()) {
        proof {
            assert(before[at as int] == name@);
            assert(before.contains(name@));
        }
        return ;
    }
    names.insert(at, name);
    proof {
        let after = text::texts(names@);
        assert(after =~= before.insert(at as int, name@));
        assert forall|i: int, j: int| 0 <= i < j < after.len() implies text::comes_before(
            #[trigger] after[i],
            #[trigger] after[j],
        ) by {
            if i == at {
                let next = before[at as int];
                text::lemma_comes_before_is_an_order(name@, next, next);
                assert(old_names[at as int]@ == next);
                if j - 1 > at {
                    assert(text::comes_before(before[at as int], before[j - 1]));
                    text::lemma_comes_before_is_an_order(name@, next, before[j - 1]);
                }
            } else if j == at {
            } else {
                let a = if i < at {
                    i
                } else {
                    i - 1
                };
                let b = if j < at {
                    j
                } else {
                    j - 1
                };
                assert(text::comes_before(before[a], before[b]));
            }
        }
        assert forall|other: Seq<char>| #[trigger] after.contains(other) <==> (before.contains(
            other,
        ) || other == name@) by {
            if before.contains(other) {
                let i = choose|i: int| 0 <= i < before.len() && before[i] == other;
                assert(after[if i < at {
                    i
                } else {
                    i + 1
                }] == other);
            }
            if other == name@ {
                assert(after[at as int] == other);
            }
            if after.contains(other) {
                let i = choose|i: int| 0 <= i < after.len() && after[i] == other;
                if i != at {
                    assert(before[if i < at {
                        i
                    } else {
                        i - 1
                    }] == other);
                }
            }
        }
    }
}

fn list_pending_servers(lost: &Vec<LostServer>) -> (r: Vec<String>)
    ensures
        ordered_once(text::texts(r@)),
        forall|name: Seq<char>| #[trigger]
            text::texts(r@).contains(name) <==> exists|i: int|
                0 <= i < lost@.len() && (#[trigger] lost@[i]).server_name@ == name,
{
    let mut out: Vec<String> = Vec::new();
    let mut i: usize = 0;
    while i < lost.len()
        invariant
            i <= lost@.len(),
            ordered_once(text::texts(out@)),
            forall|name: Seq<char>| #[trigger]
                text::texts(out@).contains(name) <==> exists|j: int|
                    0 <= j < i && (#[trigger] lost@[j]).server_name@ == name,
        decreases lost.len() - i,
    {
        let ghost before = text::texts(out@);
        insert_name(&mut out, lost[i].server_name.clone());
        i += 1;
        proof {
            assert forall|name: Seq<char>| #[trigger]
                text::texts(out@).contains(name) <==> exists|j: int|
                    0 <= j < i && (#[trigger] lost@[j]).server_name@ == name by {
                if text::texts(out@).contains(name) {
                    if name == lost@[i - 1].server_name@ {
                    } else {
                        assert(before.contains(name));
                    }
                }
                if exists|j: int| 0 <= j < i && (#[trigger] lost@[j]).server_name@ == name {
                    let j = choose|j: int|
                        0 <= j < i && (#[trigger] lost@[j]).server_name@ == name;
                    if j < i - 1 {
                        assert(before.contains(name));
                    }
                }
            }
        }
    }
    out
}

fn list_working_servers(discovery: &Discovery, pending: &Vec<String>) -> (r: Vec<String>)
    requires
        forall|name: Seq<char>| #[trigger]
            text::texts(pending@).contains(name) <==> is_lost(*discovery, name),
    ensures
        text::texts(r@) == working_names(*discovery, text::texts(discovery.server_names@)),
{
    let names = &discovery.server_names;
    let ghost all = text::texts(names@);
    let mut out: Vec<String> = Vec::new();
    let mut i: usize = 0;
    assert(all.take(0) =~= Seq::empty());
    assert(text::texts(out@) =~= Seq::empty());
    while i < names.len()
        invariant
            names == &discovery.server_names,
            i <= names@.len(),
            all == text::texts(names@),
            forall|name: Seq<char>| #[trigger]
                text::texts(pending@).contains(name) <==> is_lost(*discovery, name),
            text::texts(out@) == working_names(*discovery, all.take(i as int)),
        decreases names.len() - i,
    {
        proof {
            assert(all.take(i + 1).drop_last() =~= all.take(i as int));
            assert(all.take(i + 1).last() == names@[i as int]@);
        }
        if !text::lists(pending, names[i].as_str()) {
            let name = names[i].clone();
            proof {
                text::lemma_texts_push(out@, name);
            }
            out.push(name);
        }
        i += 1;
    }
    assert(all.take(i as int) =~= all);
    out
}

/// Whether this is known of the servers once all were asked.
pub open spec fn is_known_of(discovery: Discovery, known: Option<McpState>) -> bool {
    match known {
        Some(state) => {
            &&& discovery.server_names@.len() > 0 || discovery.unsupported@.len() > 0
            &&& state.follows(discovery)
        },
        None => discovery.server_names@.len() == 0 && discovery.unsupported@.len() == 0,
    }
}

/// What is known of the servers once all were asked; nothing where none is
/// configured.
pub fn mcp_state(discovery: &Discovery) -> (r: Option<McpState>)
    ensures
        is_known_of(*discovery, r),
{
    if discovery.server_names.len() == 0 && discovery.unsupported.len() == 0 {
        return None;
    }
    let failed_servers = list_lost_servers(discovery);
    let pending_servers = list_pending_servers(&failed_servers);
    proof {
        let lost = lost_servers(*discovery);
        assert(lost_views(failed_servers@) == lost);
        assert forall|name: Seq<char>| #[trigger]
            text::texts(pending_servers@).contains(name) <==> is_lost(*discovery, name) by {
            if text::texts(pending_servers@).contains(name) {
                let i = choose|i: int|
                    0 <= i < failed_servers@.len() && (
                    #[trigger] failed_servers@[i]).server_name@ == name;
                assert(lost_views(failed_servers@)[i].server_name == name);
                assert(lost[i].server_name == name);
            }
            if is_lost(*discovery, name) {
                let i = choose|i: int|
                    0 <= i < lost.len() && (#[trigger] lost[i]).server_name == name;
                assert(lost_views(failed_servers@)[i] == lost[i]);
                assert(failed_servers@[i].server_name@ == name);
            }
        }
    }
    let working_servers = list_working_servers(discovery, &pending_servers);
    let degraded_report = if failed_servers.len() > 0 {
        Some(
            DegradedReport {
                working_servers,
                failed_servers,
                available_tools: clone_strings(&discovery.tool_names),
                expected_tools: clone_strings(&discovery.tool_names),
            },
        )
    } else {
        None
    };
    Some(McpState { pending_servers, degraded_report })
}

/// Whether these are the servers that are waited for.
pub open spec fn are_waited_for(state: McpState, waited: Option<Vec<String>>) -> bool {
    match waited {
        Some(names) => names@.len() > 0 && text::texts(names@) == text::texts(
            state.pending_servers@,
        ),
        None => state.pending_servers@.len() == 0,
    }
}

/// The servers that are waited for; nothing where all are there.
pub fn pending_servers(state: &McpState) -> (r: Option<Vec<String>>)
    ensures
        are_waited_for(*state, r),
{
    if state.pending_servers.len() == 0 {
        None
    } else {
        let names = clone_strings(&state.pending_servers);
        assert(text::texts(names@).len() == names@.len());
        assert(text::texts(state.pending_servers@).len() == state.pending_servers@.len());
        Some(names)
    }
}

/// No server counts as working and as lost.
pub proof fn law_working_servers_are_not_lost(discovery: Discovery, names: Seq<Seq<char>>)
    ensures
        forall|i: int|
            0 <= i < working_names(discovery, names).len() ==> !is_lost(
                discovery,
                #[trigger] working_names(discovery, names)[i],
            ) && names.contains(working_names(discovery, names)[i]),
    decreases names.len(),
{
    if names.len() > 0 {
        let front = names.drop_last();
        law_working_servers_are_not_lost(discovery, front);
        let working = working_names(discovery, names);
        assert forall|i: int| 0 <= i < working.len() implies !is_lost(discovery, #[trigger] working[i])
            && names.contains(working[i]) by {
            if i < working_names(discovery, front).len() {
                let name = working_names(discovery, front)[i];
                assert(working[i] == name);
                assert(front.contains(name));
                let j = choose|j: int| 0 <= j < front.len() && front[j] == name;
                assert(names[j] == name);
            } else {
                assert(names[names.len() - 1] == working[i]);
            }
        }
    }
}

// ---------------------------------------------------------------------------
// Answers
// ---------------------------------------------------------------------------

/// What the answer to a tool call comes to, where `printed` is the result it
/// carries in indented form.
pub open spec fn tool_answer(
    tool: Seq<char>,
    error: Option<(Seq<char>, int)>,
    printed: Option<Seq<char>>,
) -> Result<Seq<char>, Seq<char>> {
    match error {
        Some((message, code)) => Err(
            "MCP tool `"@ + tool + "` returned JSON-RPC error: "@ + message + " ("@
                + text::signed_decimal(code) + ")"@,
        ),
        None => match printed {
            Some(printed) => Ok(printed),
            None => Err("MCP tool `"@ + tool + "` returned no result payload"@),
        },
    }
}

pub open spec fn rpc_error(error: Option<(String, i64)>) -> Option<(Seq<char>, int)> {
    match error {
        Some((message, code)) => Some((message@, code as int)),
        None => None,
    }
}

/// What the answer to a tool call comes to, from its printed result.
pub fn call_tool_answer(
    tool: &str,
    error: Option<(String, i64)>,
    printed: Option<String>,
) -> (r: Result<String, String>)
    ensures
        text::result_text(r) == tool_answer(tool@, rpc_error(error), text::opt_text(printed)),
{
    match error {
        Some((message, code)) => {
            let mut out = "MCP tool `".to_string();
            out.append(tool);
            out.append("` returned JSON-RPC error: ");
            out.append(message.as_str());
            out.append(" (");
            out.append(text::decimal_i64(code).as_str());
            out.append(")");
            Err(out)
        },
        None => match printed {
            Some(printed) => Ok(printed),
            None => {
                let mut out = "MCP tool `".to_string();
                out.append(tool);
                out.append("` returned no result payload");
                Err(out)
            },
        },
    }
}

pub open spec fn printed_value(result: Option<&serde_json::Value>) -> Option<Seq<char>> {
    match result {
        Some(value) => Some(json::json_indented(json::value_json(*value))),
        None => None,
    }
}

/// What the answer to a tool call comes to.
pub fn call_tool(
    tool: &str,
    error: Option<(String, i64)>,
    result: Option<&serde_json::Value>,
) -> (r: Result<String, String>)
    ensures
        text::result_text(r) == tool_answer(tool@, rpc_error(error), printed_value(result)),
{
    let printed = match result {
        Some(value) => Some(json::indented_text(value)),
        None => None,
    };
    call_tool_answer(tool, error, printed)
}

/// What one server says of its resources.
pub open spec fn server_resources(server: Seq<char>, resources: JsonView) -> JsonView {
    JsonView::Object(seq![("resources"@, resources), ("server"@, JsonView::Text(server))])
}

proof fn lemma_keys_in_order()
    ensures
        text::comes_before("resources"@, "server"@),
        text::comes_before("contents"@, "server"@),
        text::comes_before("error"@, "server"@),
        text::comes_before("failures"@, "resources"@),
{
    reveal_strlit("resources");
    reveal_strlit("server");
    reveal_strlit("contents");
    reveal_strlit("error");
    reveal_strlit("failures");
}

fn server_resources_value(server_name: &str, resources: serde_json::Value) -> (r: serde_json::Value)
    ensures
        json::value_json(r) == server_resources(server_name@, json::value_json(resources)),
{
    proof {
        lemma_keys_in_order();
    }
    json::pair_value("resources", resources, "server", json::string_value(server_name))
}

/// Whether this is told of the resources of one server.
pub open spec fn tells_resources(
    server: Seq<char>,
    answer: Result<serde_json::Value, String>,
    told: Result<String, String>,
) -> bool {
    match answer {
        Ok(resources) => told matches Ok(told) && told@ == json::json_indented(
            server_resources(server, json::value_json(resources)),
        ),
        Err(error) => told == Err::<String, String>(error),
    }
}

/// What is told of the resources of one server, from what it answered: the
/// indented text of a document.
pub fn list_resources_for_server(
    server_name: &str,
    answer: Result<serde_json::Value, String>,
) -> (r: Result<String, String>)
    ensures
        tells_resources(server_name@, answer, r),
{
    match answer {
        Ok(resources) => Ok(json::indented_text(&server_resources_value(server_name, resources))),
        Err(error) => Err(error),
    }
}

pub open spec fn server_failure(server: Seq<char>, error: Seq<char>) -> JsonView {
    JsonView::Object(
        seq![("error"@, JsonView::Text(error)), ("server"@, JsonView::Text(server))],
    )
}

/// What a server answered when it was asked for its resources.
#[derive(Debug)]
pub struct ResourceAnswer {
    pub server_name: String,
    pub answer: Result<serde_json::Value, String>,
}

/// The answers that list resources, in order.
pub open spec fn listed(answers: Seq<ResourceAnswer>) -> Seq<JsonView>
    decreases answers.len(),
{
    if answers.len() == 0 {
        Seq::empty()
    } else {
        let front = listed(answers.drop_last());
        match answers.last().answer {
            Ok(resources) => front.push(
                server_resources(answers.last().server_name@, json::value_json(resources)),
            ),
            Err(_) => front,
        }
    }
}

/// The answers that are errors, in order.
pub open spec fn refused(answers: Seq<ResourceAnswer>) -> Seq<JsonView>
    decreases answers.len(),
{
    if answers.len() == 0 {
        Seq::empty()
    } else {
        let front = refused(answers.drop_last());
        match answers.last().answer {
            Ok(_) => front,
            Err(error) => front.push(server_failure(answers.last().server_name@, error@)),
        }
    }
}

/// The errors among the answers, in order.
pub open spec fn refusals(answers: Seq<ResourceAnswer>) -> Seq<Seq<char>>
    decreases answers.len(),
{
    if answers.len() == 0 {
        Seq::empty()
    } else {
        let front = refusals(answers.drop_last());
        match answers.last().answer {
            Ok(_) => front,
            Err(error) => front.push(error@),
        }
    }
}

proof fn lemma_values_push(values: Seq<serde_json::Value>, value: serde_json::Value)
    ensures
        json::value_jsons(values.push(value)) == json::value_jsons(values).push(
            json::value_json(value),
        ),
{
    assert(json::value_jsons(values.push(value)) =~= json::value_jsons(values).push(
        json::value_json(value),
    ));
}

/// What all servers say of their resources.
pub open spec fn all_resources(answers: Seq<ResourceAnswer>) -> JsonView {
    JsonView::Object(
        seq![
            ("failures"@, JsonView::Array(refused(answers))),
            ("resources"@, JsonView::Array(listed(answers))),
        ],
    )
}

/// Whether this is told of the resources of all servers.
pub open spec fn tells_all_resources(
    answers: Seq<ResourceAnswer>,
    told: Result<String, String>,
) -> bool {
    match told {
        Ok(told) => {
            &&& listed(answers).len() > 0 || refusals(answers).len() == 0
            &&& told@ == json::json_indented(all_resources(answers))
        },
        Err(message) => {
            &&& listed(answers).len() == 0 && refusals(answers).len() > 0
            &&& message@ == text::joined(refusals(answers), "; "@)
        },
    }
}

/// What is told of the resources of all servers: the indented text of a
/// document, or an error where none could say anything and one failed.
pub fn list_resources_for_all_servers(answers: Vec<ResourceAnswer>) -> (r: Result<String, String>)
    ensures
        tells_all_resources(answers@, r),
{
    let ghost all = answers@;
    let mut resources: Vec<serde_json::Value> = Vec::new();
    let mut failures: Vec<serde_json::Value> = Vec::new();
    let mut errors: Vec<String> = Vec::new();
    proof {
        lemma_keys_in_order();
        assert(all.take(0) =~= Seq::empty());
        assert(json::value_jsons(resources@) =~= Seq::empty());
        assert(json::value_jsons(failures@) =~= Seq::empty());
        assert(text::texts(errors@) =~= Seq::empty());
    }
    for entry in it: answers
        invariant
            it.seq() == all,
            text::comes_before("error"@, "server"@),
            json::value_jsons(resources@) == listed(all.take(it.index())),
            json::value_jsons(failures@) == refused(all.take(it.index())),
            text::texts(errors@) == refusals(all.take(it.index())),
    {
        proof {
            assert(all.take(it.index() + 1).drop_last() =~= all.take(it.index()));
            assert(all.take(it.index() + 1).last() == entry);
        }
        match entry.answer {
            Ok(found) => {
                let item = server_resources_value(entry.server_name.as_str(), found);
                proof {
                    lemma_values_push(resources@, item);
                }
                resources.push(item);
            },
            Err(error) => {
                let item = json::pair_value(
                    "error",
                    json::string_value(error.as_str()),
                    "server",
                    json::string_value(entry.server_name.as_str()),
                );
                proof {
                    lemma_values_push(failures@, item);
                    text::lemma_texts_push(errors@, error);
                }
                failures.push(item);
                errors.push(error);
            },
        }
    }
    proof {
        assert(all.take(all.len() as int) =~= all);
        assert(json::value_jsons(resources@).len() == resources@.len());
        assert(text::texts(errors@).len() == errors@.len());
    }
    if resources.len() == 0 && errors.len() > 0 {
        return Err(text::join(&errors, "; "));
    }
    let told = json::pair_value(
        "failures",
        json::array_value(failures),
        "resources",
        json::array_value(resources),
    );
    Ok(json::indented_text(&told))
}

/// What one server says of one of its resources.
pub open spec fn resource_contents(server: Seq<char>, contents: JsonView) -> JsonView {
    JsonView::Object(seq![("contents"@, contents), ("server"@, JsonView::Text(server))])
}

/// Whether this is told of a resource of a server.
pub open spec fn tells_contents(
    server: Seq<char>,
    answer: Result<serde_json::Value, String>,
    told: Result<String, String>,
) -> bool {
    match answer {
        Ok(contents) => told matches Ok(told) && told@ == json::json_indented(
            resource_contents(server, json::value_json(contents)),
        ),
        Err(error) => told == Err::<String, String>(error),
    }
}

/// What is told of a resource of a server, from what it answered: the indented
/// text of a document.
pub fn read_resource(server_name: &str, answer: Result<serde_json::Value, String>) -> (r: Result<
    String,
    String,
>)
    ensures
        tells_contents(server_name@, answer, r),
{
    match answer {
        Ok(contents) => {
            proof {
                lemma_keys_in_order();
            }
            let told = json::pair_value(
                "contents",
                contents,
                "server",
                json::string_value(server_name),
            );
            Ok(json::indented_text(&told))
        },
        Err(error) => Err(error),
    }
}

// ---------------------------------------------------------------------------
// Tools
// ---------------------------------------------------------------------------

/// A tool of a server.
#[derive(Debug)]
pub struct McpTool {
    pub qualified_name: String,
    pub description: Option<String>,
    pub input_schema: Option<Json>,
    pub annotations: Option<Json>,
}

/// A tool that the configuration brings in.
#[derive(Debug)]
pub struct RuntimeToolDefinition {
    pub name: String,
    pub description: Option<String>,
    pub input_schema: Json,
    pub required_permission: PermissionMode,
}

pub struct RuntimeToolView {
    pub name: Seq<char>,
    pub description: Option<Seq<char>>,
    pub input_schema: JsonView,
    pub required_permission: PermissionMode,
}

impl RuntimeToolDefinition {
    pub open spec fn view(&self) -> RuntimeToolView {
        RuntimeToolView {
            name: self.name@,
            description: text::opt_text(self.description),
            input_schema: self.input_schema.view(),
            required_permission: self.required_permission,
        }
    }
}

pub open spec fn tool_views(tools: Seq<RuntimeToolDefinition>) -> Seq<RuntimeToolView> {
    tools.map_values(|t: RuntimeToolDefinition| t.view())
}

/// Whether a tool is annotated with a hint.
pub open spec fn hint(tool: McpTool, key: Seq<char>) -> bool {
    match tool.annotations {
        Some(annotations) => annotations.view().flag(key),
        None => false,
    }
}

pub fn mcp_annotation_flag(tool: &McpTool, key: &str) -> (r: bool)
    ensures
        r == hint(*tool, key@),
{
    match &tool.annotations {
        Some(annotations) => annotations.flag(key),
        None => false,
    }
}

/// What a tool must be allowed, by its hints.
pub open spec fn tool_permission(tool: McpTool) -> PermissionMode {
    if hint(tool, "destructiveHint"@) || hint(tool, "openWorldHint"@) {
        PermissionMode::DangerFullAccess
    } else if hint(tool, "readOnlyHint"@) {
        PermissionMode::ReadOnly
    } else {
        PermissionMode::WorkspaceWrite
    }
}

pub fn permission_mode_for_mcp_tool(tool: &McpTool) -> (r: PermissionMode)
    ensures
        r == tool_permission(*tool),
{
    let read_only = mcp_annotation_flag(tool, "readOnlyHint");
    let destructive = mcp_annotation_flag(tool, "destructiveHint");
    let open_world = mcp_annotation_flag(tool, "openWorldHint");
    if read_only && !destructive && !open_world {
        PermissionMode::ReadOnly
    } else if destructive || open_world {
        PermissionMode::DangerFullAccess
    } else {
        PermissionMode::WorkspaceWrite
    }
}

/// The schema of a tool that gives none: any object.
pub open spec fn any_object_schema() -> JsonView {
    JsonView::Object(
        seq![
            ("type"@, JsonView::Text("object"@)),
            ("additionalProperties"@, JsonView::Bool(true)),
        ],
    )
}

pub open spec fn runtime_tool(tool: McpTool) -> RuntimeToolView {
    RuntimeToolView {
        name: tool.qualified_name@,
        description: Some(
            match tool.description {
                Some(description) => description@,
                None => "Invoke MCP tool `"@ + tool.qualified_name@ + "`."@,
            },
        ),
        input_schema: match tool.input_schema {
            Some(schema) => schema.view(),
            None => any_object_schema(),
        },
        required_permission: tool_permission(tool),
    }
}

/// A tool of a server as a tool of the program.
pub fn mcp_runtime_tool_definition(tool: McpTool) -> (r: RuntimeToolDefinition)
    ensures
        r.view() == runtime_tool(tool),
{
    let required_permission = permission_mode_for_mcp_tool(&tool);
    let description = match tool.description {
        Some(description) => description,
        None => {
            let mut out = "Invoke MCP tool `".to_string();
            out.append(tool.qualified_name.as_str());
            out.append("`.");
            out
        },
    };
    let input_schema = match tool.input_schema {
        Some(schema) => schema,
        None => {
            let mut object = JsonObject::new();
            object.put("type", Json::of_str("object"));
            object.put("additionalProperties", Json::of_bool(true));
            assert(object.view() =~= any_object_schema()->Object_0);
            object.done()
        },
    };
    RuntimeToolDefinition {
        name: tool.qualified_name,
        description: Some(description),
        input_schema,
        required_permission,
    }
}

/// A schema property that is a string.
pub open spec fn string_property(name: Seq<char>) -> (Seq<char>, JsonView) {
    (name, JsonView::Object(seq![("type"@, JsonView::Text("string"@))]))
}

/// The schema of an object with these properties and no others.
pub open spec fn object_schema(
    properties: Seq<(Seq<char>, JsonView)>,
    required: Seq<Seq<char>>,
) -> JsonView {
    JsonView::Object(
        if required.len() == 0 {
            seq![
                ("type"@, JsonView::Text("object"@)),
                ("properties"@, JsonView::Object(properties)),
                ("additionalProperties"@, JsonView::Bool(false)),
            ]
        } else {
            seq![
                ("type"@, JsonView::Text("object"@)),
                ("properties"@, JsonView::Object(properties)),
                ("required"@, json::texts_json(required)),
                ("additionalProperties"@, JsonView::Bool(false)),
            ]
        },
    )
}

/// The tools through which every server can be reached.
pub open spec fn wrapper_tools() -> Seq<RuntimeToolView> {
    seq![
        RuntimeToolView {
            name: "MCPTool"@,
            description: Some(
                "Call a configured MCP tool by its qualified name and JSON arguments."@,
            ),
            input_schema: object_schema(
                seq![
                    string_property("qualifiedName"@),
                    ("arguments"@, JsonView::Object(Seq::empty())),
                ],
                seq!["qualifiedName"@],
            ),
            required_permission: PermissionMode::DangerFullAccess,
        },
        RuntimeToolView {
            name: "ListMcpResourcesTool"@,
            description: Some(
                "List MCP resources from one configured server or from every connected server."@,
            ),
            input_schema: object_schema(seq![string_property("server"@)], Seq::empty()),
            required_permission: PermissionMode::ReadOnly,
        },
        RuntimeToolView {
            name: "ReadMcpResourceTool"@,
            description: Some("Read a specific MCP resource from a configured server."@),
            input_schema: object_schema(
                seq![string_property("server"@), string_property("uri"@)],
                seq!["server"@, "uri"@],
            ),
            required_permission: PermissionMode::ReadOnly,
        },
    ]
}

fn put_string_property(object: &mut JsonObject, name: &str)
    ensures
        final(object).view() == old(object).view().push(string_property(name@)),
{
    let mut property = JsonObject::new();
    property.put("type", Json::of_str("string"));
    assert(property.view() =~= seq![("type"@, JsonView::Text("string"@))]);
    object.put(name, property.done());
}

fn schema_of(properties: JsonObject, required: Vec<String>) -> (r: Json)
    ensures
        r.view() == object_schema(properties.view(), text::texts(required@)),
{
    let mut object = JsonObject::new();
    object.put("type", Json::of_str("object"));
    let ghost listed = properties.view();
    object.put("properties", properties.done());
    if required.len() > 0 {
        object.put("required", Json::of_strings(&required));
    }
    object.put("additionalProperties", Json::of_bool(false));
    proof {
        assert(text::texts(required@).len() == required@.len());
        assert(object.view() =~= object_schema(listed, text::texts(required@))->Object_0);
    }
    object.done()
}

/// The tools through which every server can be reached.
pub fn mcp_wrapper_tool_definitions() -> (r: Vec<RuntimeToolDefinition>)
    ensures
        tool_views(r@) == wrapper_tools(),
{
    let mut out: Vec<RuntimeToolDefinition> = Vec::new();
    let mut call_properties = JsonObject::new();
    put_string_property(&mut call_properties, "qualifiedName");
    let any = JsonObject::new();
    call_properties.put("arguments", any.done());
    let mut call_required: Vec<String> = Vec::new();
    call_required.push("qualifiedName".to_string());
    proof {
        assert(call_properties.view() =~= seq![
            string_property("qualifiedName"@),
            ("arguments"@, JsonView::Object(Seq::empty())),
        ]);
        assert(text::texts(call_required@) =~= seq!["qualifiedName"@]);
    }
    out.push(
        RuntimeToolDefinition {
            name: "MCPTool".to_string(),
            description: Some(
                "Call a configured MCP tool by its qualified name and JSON arguments.".to_string(),
            ),
            input_schema: schema_of(call_properties, call_required),
            required_permission: PermissionMode::DangerFullAccess,
        },
    );
    let mut list_properties = JsonObject::new();
    put_string_property(&mut list_properties, "server");
    let list_required: Vec<String> = Vec::new();
    proof {
        assert(list_properties.view() =~= seq![string_property("server"@)]);
        assert(text::texts(list_required@) =~= Seq::empty());
    }
    out.push(
        RuntimeToolDefinition {
            name: "ListMcpResourcesTool".to_string(),
            description: Some(
                "List MCP resources from one configured server or from every connected server.".to_string(),
            ),
            input_schema: schema_of(list_properties, list_required),
            required_permission: PermissionMode::ReadOnly,
        },
    );
    let mut read_properties = JsonObject::new();
    put_string_property(&mut read_properties, "server");
    put_string_property(&mut read_properties, "uri");
    let mut read_required: Vec<String> = Vec::new();
    read_required.push("server".to_string());
    read_required.push("uri".to_string());
    proof {
        assert(read_properties.view() =~= seq![string_property("server"@), string_property("uri"@)]);
        assert(text::texts(read_required@) =~= seq!["server"@, "uri"@]);
    }
    out.push(
        RuntimeToolDefinition {
            name: "ReadMcpResourceTool".to_string(),
            description: Some(
                "Read a specific MCP resource from a configured server.".to_string(),
            ),
            input_schema: schema_of(read_properties, read_required),
            required_permission: PermissionMode::ReadOnly,
        },
    );
    assert(tool_views(out@) =~= wrapper_tools());
    out
}

pub open spec fn runtime_tool_views(tools: Seq<McpTool>) -> Seq<RuntimeToolView> {
    tools.map_values(|t: McpTool| runtime_tool(t))
}

/// The tools that the configured servers bring in: their own, and where there
/// is a server, those through which every server can be reached.
pub open spec fn tools_brought_in(tools: Seq<McpTool>, has_servers: bool) -> Seq<RuntimeToolView> {
    if has_servers {
        runtime_tool_views(tools) + wrapper_tools()
    } else {
        runtime_tool_views(tools)
    }
}

pub fn mcp_runtime_tools(tools: Vec<McpTool>, has_servers: bool) -> (r: Vec<RuntimeToolDefinition>)
    ensures
        tool_views(r@) == tools_brought_in(tools@, has_servers),
{
    let ghost all = runtime_tool_views(tools@);
    let ghost source = tools@;
    let mut out: Vec<RuntimeToolDefinition> = Vec::new();
    assert(tool_views(out@) =~= all.take(0));
    for tool in it: tools
        invariant
            it.seq() == source,
            all == runtime_tool_views(source),
            tool_views(out@) == all.take(it.index()),
    {
        let ghost before = out@;
        let definition = mcp_runtime_tool_definition(tool);
        out.push(definition);
        proof {
            assert(tool_views(out@) =~= tool_views(before).push(definition.view()));
            assert(all.take(it.index() + 1) =~= all.take(it.index()).push(all[it.index()]));
        }
    }
    assert(all.take(all.len() as int) =~= all);
    if has_servers {
        let ghost before = out@;
        let mut wrappers = mcp_wrapper_tool_definitions();
        let ghost added = wrappers@;
        out.append(&mut wrappers);
        assert(tool_views(out@) =~= tool_views(before) + tool_views(added));
    }
    out
}

} // verus!
