//! Requests to a provider: what they hold, how often they are made, and how
//! their failures are told.

use vstd::prelude::*;

use crate::json::Json;
use crate::messages::{CacheControl, InputMessage};
use crate::stream::AssistantEvent;
use crate::text;
use crate::tool_display;

verus! {

// ---------------------------------------------------------------------------
// Requests
// ---------------------------------------------------------------------------

/// The most tokens that a model may answer with.
pub open spec fn most_tokens() -> u32 {
    64_000
}

pub fn max_tokens_for_model(_model: &str) -> (r: u32)
    ensures
        r == most_tokens(),
{
    64_000
}

/// A tool as a provider is told of it.
#[derive(Debug)]
pub struct ToolDefinition {
    pub name: String,
    pub description: Option<String>,
    pub input_schema: Json,
    pub cache_control: Option<CacheControl>,
}

/// Tools with the last one marked as the end of a prefix that may be cached.
pub open spec fn last_marked(tools: Seq<ToolDefinition>) -> Seq<ToolDefinition> {
    if tools.len() == 0 {
        tools
    } else {
        tools.update(
            tools.len() - 1,
            ToolDefinition { cache_control: Some(CacheControl::Ephemeral), ..tools.last() },
        )
    }
}

/// Marks the last of the tools as the end of a prefix that may be cached.
pub fn apply_tool_cache_controls(tools: &mut Vec<ToolDefinition>)
    ensures
        final(tools)@ == last_marked(old(tools)@),
{
    match tools.pop() {
        Some(mut last) => {
            last.cache_control = Some(CacheControl::Ephemeral);
            tools.push(last);
            assert(tools@ =~= last_marked(old(tools)@));
        },
        None => {
            assert(tools@ =~= old(tools)@);
        },
    }
}

/// Marks the last of the tools where a request has tools at all.
pub fn apply_optional_tool_cache_controls(tools: &mut Option<Vec<ToolDefinition>>)
    ensures
        match *old(tools) {
            Some(list) => *final(tools) matches Some(marked) && marked@ == last_marked(list@),
            None => *final(tools) is None,
        },
{
    match tools.take() {
        Some(mut list) => {
            apply_tool_cache_controls(&mut list);
            *tools = Some(list);
        },
        None => {},
    }
}

/// A request to a provider. `system` holds the blocks of the system prompt.
#[derive(Debug)]
pub struct MessageRequest {
    pub model: String,
    pub max_tokens: u32,
    pub messages: Vec<InputMessage>,
    pub cache_control: Option<CacheControl>,
    pub system: Vec<String>,
    pub tools: Option<Vec<ToolDefinition>>,
    pub tool_choice_auto: bool,
    pub stream: bool,
    pub reasoning_effort: Option<String>,
    pub managed_context: bool,
    pub adaptive_thinking: bool,
    pub high_output: bool,
}

/// Whether this is the request of the interactive client.
pub open spec fn is_client_request(
    r: MessageRequest,
    model: String,
    messages: Vec<InputMessage>,
    system: Vec<String>,
    enable_tools: bool,
    tools: Vec<ToolDefinition>,
    reasoning_effort: Option<String>,
) -> bool {
    &&& r.model == model
    &&& r.max_tokens == most_tokens()
    &&& r.messages == messages
    &&& r.cache_control == Some(CacheControl::Ephemeral)
    &&& r.system == system
    &&& enable_tools ==> (r.tools matches Some(list) && list@ == last_marked(tools@))
    &&& !enable_tools ==> r.tools is None
    &&& r.tool_choice_auto == enable_tools
    &&& r.stream
    &&& r.reasoning_effort == reasoning_effort
    &&& r.managed_context && r.adaptive_thinking && r.high_output
}

/// Whether this is the request of a sub-agent.
pub open spec fn is_agent_request(
    r: MessageRequest,
    model: String,
    max_tokens: u32,
    messages: Vec<InputMessage>,
    system: Vec<String>,
    tools: Vec<ToolDefinition>,
    caches_prompts: bool,
) -> bool {
    &&& r.model == model
    &&& r.max_tokens == max_tokens
    &&& r.messages == messages
    &&& r.cache_control == (if caches_prompts {
        Some(CacheControl::Ephemeral)
    } else {
        None
    })
    &&& r.system == system
    &&& tools@.len() > 0 ==> (r.tools matches Some(list) && list@ == last_marked(tools@))
    &&& tools@.len() == 0 ==> r.tools is None
    &&& r.tool_choice_auto == (tools@.len() > 0)
    &&& r.stream
    &&& r.reasoning_effort is None
    &&& !r.managed_context && !r.adaptive_thinking && !r.high_output
}

/// The same request, to be answered in one piece.
pub open spec fn in_one_piece(request: MessageRequest) -> MessageRequest {
    MessageRequest { stream: false, ..request }
}

/// The request of the interactive client. Where tools are enabled they are
/// offered, the last one marked for caching.
pub fn client_request(
    model: String,
    messages: Vec<InputMessage>,
    system: Vec<String>,
    enable_tools: bool,
    tools: Vec<ToolDefinition>,
    reasoning_effort: Option<String>,
) -> (r: MessageRequest)
    ensures
        is_client_request(
            r,
            model,
            messages,
            system,
            enable_tools,
            tools,
            reasoning_effort,
        ),
{
    let max_tokens: u32 = max_tokens_for_model(model.as_str());
    let mut offered: Option<Vec<ToolDefinition>> = if enable_tools {
        Some(tools)
    } else {
        None
    };
    apply_optional_tool_cache_controls(&mut offered);
    MessageRequest {
        model,
        max_tokens,
        messages,
        cache_control: Some(CacheControl::Ephemeral),
        system,
        tools: offered,
        tool_choice_auto: enable_tools,
        stream: true,
        reasoning_effort,
        managed_context: true,
        adaptive_thinking: true,
        high_output: true,
    }
}

/// The request of a sub-agent. Tools are offered where there are any, and only
/// the provider that knows caching is asked for it.
pub fn agent_request(
    model: String,
    max_tokens: u32,
    messages: Vec<InputMessage>,
    system: Vec<String>,
    tools: Vec<ToolDefinition>,
    caches_prompts: bool,
) -> (r: MessageRequest)
    ensures
        is_agent_request(r, model, max_tokens, messages, system, tools, caches_prompts),
{
    let any = tools.len() > 0;
    let mut tools = tools;
    apply_tool_cache_controls(&mut tools);
    MessageRequest {
        model,
        max_tokens,
        messages,
        cache_control: if caches_prompts {
            Some(CacheControl::Ephemeral)
        } else {
            None
        },
        system,
        tools: if any {
            Some(tools)
        } else {
            None
        },
        tool_choice_auto: any,
        stream: true,
        reasoning_effort: None,
        managed_context: false,
        adaptive_thinking: false,
        high_output: false,
    }
}

/// The same request, to be answered in one piece.
pub fn without_streaming(request: MessageRequest) -> (r: MessageRequest)
    ensures
        r == in_one_piece(request),
{
    let mut request = request;
    request.stream = false;
    request
}

// ---------------------------------------------------------------------------
// Attempts
// ---------------------------------------------------------------------------

/// How often a request is made: one that follows tool outputs may be made again.
pub open spec fn attempts(is_post_tool: bool) -> nat {
    if is_post_tool {
        2
    } else {
        1
    }
}

pub fn max_attempts(is_post_tool: bool) -> (r: usize)
    ensures
        r == attempts(is_post_tool),
{
    if is_post_tool {
        2
    } else {
        1
    }
}

/// Whether the first event of an attempt is waited for with a deadline: only on
/// the first attempt behind tool outputs.
pub open spec fn may_stall(is_post_tool: bool, attempt: nat) -> bool {
    is_post_tool && attempt == 1
}

pub fn applies_stall_timeout(is_post_tool: bool, attempt: usize) -> (r: bool)
    ensures
        r == may_stall(is_post_tool, attempt as nat),
{
    is_post_tool && attempt == 1
}

/// Whether the wait for the next event has a deadline.
pub open spec fn has_deadline(apply_stall_timeout: bool, received_any_event: bool) -> bool {
    apply_stall_timeout && !received_any_event
}

pub fn waits_with_deadline(apply_stall_timeout: bool, received_any_event: bool) -> (r: bool)
    ensures
        r == has_deadline(apply_stall_timeout, received_any_event),
{
    apply_stall_timeout && !received_any_event
}

/// The error of an attempt whose first event did not come in time.
pub open spec fn stalled() -> Seq<char> {
    "post-tool stall: model did not respond within timeout"@
}

pub fn stall_error() -> (r: String)
    ensures
        r@ == stalled(),
{
    "post-tool stall: model did not respond within timeout".to_string()
}

/// The error of a request whose attempts are used up.
pub open spec fn attempts_used_up() -> Seq<char> {
    "post-tool continuation nudge exhausted"@
}

/// The error of a request whose attempts are used up.
pub fn nudge_exhausted_error() -> (r: String)
    ensures
        r@ == attempts_used_up(),
{
    "post-tool continuation nudge exhausted".to_string()
}

/// What follows an attempt.
#[derive(Debug, PartialEq, Eq)]
pub enum AttemptOutcome {
    Done(Vec<AssistantEvent>),
    Retry,
    Failed(String),
}

/// Whether an error says that the model stalled behind tool outputs.
pub open spec fn is_stall(error: Seq<char>) -> bool {
    text::contains_text(error, "post-tool stall"@)
}

/// Whether this is what follows an attempt.
pub open spec fn follows_attempt(
    next: AttemptOutcome,
    result: Result<Vec<AssistantEvent>, String>,
    attempt: nat,
    max_attempts: nat,
) -> bool {
    match result {
        Ok(events) => next == AttemptOutcome::Done(events),
        Err(error) => if is_stall(error@) && attempt < max_attempts {
            next == AttemptOutcome::Retry
        } else {
            next == AttemptOutcome::Failed(error)
        },
    }
}

/// What follows an attempt: a stall is tried again while attempts are left.
pub fn after_attempt(
    result: Result<Vec<AssistantEvent>, String>,
    attempt: usize,
    max_attempts: usize,
) -> (r: AttemptOutcome)
    ensures
        follows_attempt(r, result, attempt as nat, max_attempts as nat),
{
    match result {
        Ok(events) => AttemptOutcome::Done(events),
        Err(error) => if text::contains(error.as_str(), "post-tool stall") && attempt
            < max_attempts {
            AttemptOutcome::Retry
        } else {
            AttemptOutcome::Failed(error)
        },
    }
}

/// Whether an attempt that ended with `error` is followed by another one.
pub open spec fn is_retried(error: Seq<char>, is_post_tool: bool, attempt: nat) -> bool {
    is_stall(error) && attempt < attempts(is_post_tool)
}

/// A stalled request is made again once, and only behind tool outputs; so the
/// attempts are never used up without an answer or an error.
pub proof fn law_stalls_are_retried_once(error: Seq<char>, is_post_tool: bool, attempt: nat)
    requires
        1 <= attempt <= attempts(is_post_tool),
    ensures
        is_retried(error, is_post_tool, attempt) <==> (is_post_tool && attempt == 1 && is_stall(
            error,
        )),
{
}

// ---------------------------------------------------------------------------
// The provider chain
// ---------------------------------------------------------------------------

/// The models to try, in order.
pub open spec fn models_to_try(
    model: String,
    primary: Option<String>,
    fallbacks: Seq<String>,
) -> Seq<String> {
    seq![
        match primary {
            Some(primary) => primary,
            None => model,
        },
    ] + fallbacks
}

/// The models to try, in order: the configured primary model or else the given
/// one, then the fallbacks.
pub fn provider_chain_models(
    model: String,
    primary: Option<String>,
    fallbacks: Vec<String>,
) -> (r: Vec<String>)
    ensures
        r@ == models_to_try(model, primary, fallbacks@),
{
    let first = match primary {
        Some(primary) => primary,
        None => model,
    };
    let mut chain: Vec<String> = Vec::new();
    chain.push(first);
    let ghost rest = fallbacks@;
    let mut fallbacks = fallbacks;
    chain.append(&mut fallbacks);
    assert(chain@ =~= seq![first] + rest);
    chain
}

/// The warning about a fallback that cannot be used.
pub fn skipped_fallback_warning(model: &str, error: &str) -> (r: String)
    ensures
        r@ == skipped_warning(model@, error@),
{
    let mut out = "warning: skipping unavailable fallback provider ".to_string();
    out.append(model);
    out.append(": ");
    out.append(error);
    out
}

/// A provider that was asked for by the name of a model: the model that the name
/// stands for, or why no client could be made for it.
#[derive(Debug, PartialEq, Eq)]
pub struct ProviderEntry {
    pub requested: String,
    pub resolved: Result<String, String>,
}

/// The providers that are tried in turn, and what is said of those left out.
#[derive(Debug, PartialEq, Eq)]
pub struct ProviderChain {
    pub models: Vec<String>,
    pub warnings: Vec<String>,
}

/// The models of the entries that a client could be made for.
pub open spec fn usable_models(entries: Seq<ProviderEntry>) -> Seq<Seq<char>>
    decreases entries.len(),
{
    if entries.len() == 0 {
        Seq::empty()
    } else {
        match entries.last().resolved {
            Ok(model) => usable_models(entries.drop_last()).push(model@),
            Err(_) => usable_models(entries.drop_last()),
        }
    }
}

pub open spec fn skipped_warning(model: Seq<char>, error: Seq<char>) -> Seq<char> {
    "warning: skipping unavailable fallback provider "@ + model + ": "@ + error
}

/// The warnings about the entries that no client could be made for.
pub open spec fn skipped_warnings(entries: Seq<ProviderEntry>) -> Seq<Seq<char>>
    decreases entries.len(),
{
    if entries.len() == 0 {
        Seq::empty()
    } else {
        match entries.last().resolved {
            Ok(_) => skipped_warnings(entries.drop_last()),
            Err(error) => skipped_warnings(entries.drop_last()).push(
                skipped_warning(entries.last().requested@, error@),
            ),
        }
    }
}

/// Whether this is the chain of a primary provider and its fallbacks.
pub open spec fn is_chain(
    r: Result<ProviderChain, String>,
    primary: ProviderEntry,
    fallbacks: Seq<ProviderEntry>,
) -> bool {
    match primary.resolved {
        Ok(model) => {
            &&& r matches Ok(chain)
            &&& text::texts(chain.models@) == seq![model@] + usable_models(fallbacks)
            &&& text::texts(chain.warnings@) == skipped_warnings(fallbacks)
        },
        Err(error) => r == Err::<ProviderChain, String>(error),
    }
}

/// The chain of a primary provider and its fallbacks: the primary one has to be
/// usable, fallbacks that are not are left out with a warning.
pub fn build_provider_chain(primary: ProviderEntry, fallbacks: Vec<ProviderEntry>) -> (r: Result<
    ProviderChain,
    String,
>)
    ensures
        is_chain(r, primary, fallbacks@),
{
    let first = match primary.resolved {
        Ok(model) => model,
        Err(error) => {
            return Err(error);
        },
    };
    let mut models: Vec<String> = Vec::new();
    let mut warnings: Vec<String> = Vec::new();
    let ghost head = seq![first@];
    let ghost all = fallbacks@;
    models.push(first);
    assert(all.take(0) =~= Seq::empty());
    assert(text::texts(models@) =~= head + usable_models(all.take(0)));
    assert(text::texts(warnings@) =~= Seq::empty());
    for entry in it: fallbacks
        invariant
            it.seq() == all,
            text::texts(models@) == head + usable_models(all.take(it.index())),
            text::texts(warnings@) == skipped_warnings(all.take(it.index())),
    {
        proof {
            assert(all.take(it.index() + 1).drop_last() =~= all.take(it.index()));
            assert(all.take(it.index() + 1).last() == entry);
        }
        match entry.resolved {
            Ok(model) => {
                proof {
                    text::lemma_texts_push(models@, model);
                    assert((head + usable_models(all.take(it.index()))).push(model@) =~= head
                        + usable_models(all.take(it.index())).push(model@));
                }
                models.push(model);
            },
            Err(error) => {
                let warning = skipped_fallback_warning(entry.requested.as_str(), error.as_str());
                proof {
                    text::lemma_texts_push(warnings@, warning);
                }
                warnings.push(warning);
            },
        }
    }
    assert(all.take(all.len() as int) =~= all);
    Ok(ProviderChain { models, warnings })
}

/// What follows the failure of a provider.
#[derive(Debug, PartialEq, Eq)]
pub enum ChainStep {
    /// The next provider is tried; the notice says so.
    FallBack { notice: String },
    Fail(String),
}

/// Whether this is what follows the failure of the provider at `index`.
pub open spec fn follows_failure(
    next: ChainStep,
    model: Seq<char>,
    error: String,
    retryable: bool,
    index: nat,
    chain_len: nat,
) -> bool {
    if retryable && index + 1 < chain_len {
        next matches ChainStep::FallBack { notice } && notice@ == "provider "@ + model
            + " failed with retryable error, falling back: "@ + error@
    } else {
        next == ChainStep::Fail(error)
    }
}

/// What follows the failure of the provider at `index`: where the failure may
/// pass and another provider is left, that one is tried.
pub fn after_provider_failure(
    model: &str,
    error: String,
    retryable: bool,
    index: usize,
    chain_len: usize,
) -> (r: ChainStep)
    requires
        index < chain_len,
    ensures
        follows_failure(r, model@, error, retryable, index as nat, chain_len as nat),
{
    if retryable && index + 1 < chain_len {
        let mut notice = "provider ".to_string();
        notice.append(model);
        notice.append(" failed with retryable error, falling back: ");
        notice.append(error.as_str());
        ChainStep::FallBack { notice }
    } else {
        ChainStep::Fail(error)
    }
}

/// The error of a chain that no provider answered.
pub open spec fn unanswered(last_error: Option<Seq<char>>) -> Seq<char> {
    match last_error {
        Some(error) => error,
        None => "provider chain exhausted with no attempts"@,
    }
}

pub fn chain_exhausted_error(last_error: Option<String>) -> (r: String)
    ensures
        r@ == unanswered(text::opt_text(last_error)),
{
    match last_error {
        Some(error) => error,
        None => "provider chain exhausted with no attempts".to_string(),
    }
}

// ---------------------------------------------------------------------------
// Failures
// ---------------------------------------------------------------------------

/// A failure of a provider, with the request that it belongs to.
#[derive(Debug)]
pub struct ApiError {
    pub request_id: Option<String>,
    pub kind: ApiErrorKind,
}

#[derive(Debug)]
pub enum ApiErrorKind {
    ContextWindowExceeded {
        model: String,
        estimated_input_tokens: u32,
        requested_output_tokens: u32,
        estimated_total_tokens: u32,
        context_window_tokens: u32,
    },
    /// The provider answered with an error.
    Api { message: Option<String>, body: String },
    RetriesExhausted { last_error: Box<ApiError> },
    Other,
}

/// A failure together with what the provider's client says of it.
#[derive(Debug)]
pub struct ApiFailure {
    pub error: ApiError,
    /// The failure in words.
    pub message: String,
    /// A stable name of the kind of failure.
    pub failure_class: String,
    /// Whether the request did not fit into the context window.
    pub context_window: bool,
    /// Whether the words say no more than that something went wrong.
    pub generic: bool,
}

pub open spec fn trace_line(request_id: Option<String>) -> Seq<char> {
    match request_id {
        Some(id) => "\n  Trace            "@ + id@,
        None => Seq::empty(),
    }
}

/// The line with the provider's own words: its message, or else the body of its
/// answer.
pub open spec fn detail_line(message: Option<String>, body: Seq<char>) -> Seq<char> {
    let detail = text::trimmed(
        match message {
            Some(message) => message@,
            None => body,
        },
    );
    if detail.len() == 0 {
        Seq::empty()
    } else {
        "\n  Detail           "@ + tool_display::summary(detail, 120)
    }
}

/// The lines that say what did not fit.
pub open spec fn window_lines(kind: ApiErrorKind) -> Seq<char> {
    match kind {
        ApiErrorKind::ContextWindowExceeded {
            model,
            estimated_input_tokens,
            requested_output_tokens,
            estimated_total_tokens,
            context_window_tokens,
        } => "\n  Model            "@ + model@ + "\n  Input estimate   ~"@ + text::decimal(
            estimated_input_tokens as nat,
        ) + " tokens (heuristic)\n  Requested output "@ + text::decimal(
            requested_output_tokens as nat,
        ) + " tokens\n  Total estimate   ~"@ + text::decimal(estimated_total_tokens as nat)
            + " tokens (heuristic)\n  Context window   "@ + text::decimal(
            context_window_tokens as nat,
        ) + " tokens"@,
        ApiErrorKind::Api { message, body } => detail_line(message, body@),
        ApiErrorKind::RetriesExhausted { last_error } => match last_error.kind {
            ApiErrorKind::Api { message, body } => detail_line(message, body@),
            _ => Seq::empty(),
        },
        ApiErrorKind::Other => Seq::empty(),
    }
}

/// The failure that is told: retries that ended in something other than an
/// answer of the provider are told as that.
pub open spec fn told_error(error: ApiError) -> ApiError
    decreases error,
{
    match error.kind {
        ApiErrorKind::RetriesExhausted { last_error } => match last_error.kind {
            ApiErrorKind::Api { .. } => error,
            _ => told_error(*last_error),
        },
        _ => error,
    }
}

/// A request that did not fit, and what can be done about it.
pub open spec fn window_report(session_id: Seq<char>, error: ApiError) -> Seq<char> {
    let told = told_error(error);
    "Context window blocked\n  Failure class    context_window_blocked\n  Session          "@
        + session_id + trace_line(told.request_id) + window_lines(told.kind)
        + "\n\nRecovery\n  Compact          /compact\n  Resume compact   claw --resume "@ + session_id
        + " /compact\n  Fresh session    /clear --confirm\n  Reduce scope     remove large pasted context/files or ask for a smaller slice\n  Retry            rerun after compacting or reducing the request"@
}

fn write_detail_line(message: &Option<String>, body: &str) -> (r: String)
    ensures
        r@ == detail_line(*message, body@),
{
    let words = match message {
        Some(message) => message.as_str(),
        None => body,
    };
    let detail = text::trim(words);
    if detail.is_empty() {
        String::new()
    } else {
        let mut out = "\n  Detail           ".to_string();
        out.append(tool_display::truncate_for_summary(detail, 120).as_str());
        out
    }
}

fn write_trace_line(request_id: &Option<String>) -> (r: String)
    ensures
        r@ == trace_line(*request_id),
{
    match request_id {
        Some(id) => {
            let mut out = "\n  Trace            ".to_string();
            out.append(id.as_str());
            out
        },
        None => String::new(),
    }
}

fn write_window_lines(kind: &ApiErrorKind) -> (r: String)
    ensures
        r@ == window_lines(*kind),
{
    match kind {
        ApiErrorKind::ContextWindowExceeded {
            model,
            estimated_input_tokens,
            requested_output_tokens,
            estimated_total_tokens,
            context_window_tokens,
        } => {
            let mut out = "\n  Model            ".to_string();
            out.append(model.as_str());
            out.append("\n  Input estimate   ~");
            out.append(text::decimal_u32(*estimated_input_tokens).as_str());
            out.append(" tokens (heuristic)\n  Requested output ");
            out.append(text::decimal_u32(*requested_output_tokens).as_str());
            out.append(" tokens\n  Total estimate   ~");
            out.append(text::decimal_u32(*estimated_total_tokens).as_str());
            out.append(" tokens (heuristic)\n  Context window   ");
            out.append(text::decimal_u32(*context_window_tokens).as_str());
            out.append(" tokens");
            out
        },
        ApiErrorKind::Api { message, body } => write_detail_line(message, body.as_str()),
        ApiErrorKind::RetriesExhausted { last_error } => match &last_error.kind {
            ApiErrorKind::Api { message, body } => write_detail_line(message, body.as_str()),
            _ => String::new(),
        },
        ApiErrorKind::Other => String::new(),
    }
}

/// A request that did not fit, and what can be done about it.
pub fn format_context_window_blocked_error(session_id: &str, error: &ApiError) -> (r: String)
    ensures
        r@ == window_report(session_id@, *error),
    decreases error,
{
    match &error.kind {
        ApiErrorKind::RetriesExhausted { last_error } => match &last_error.kind {
            ApiErrorKind::Api { .. } => {},
            _ => {
                return format_context_window_blocked_error(session_id, last_error);
            },
        },
        _ => {},
    }
    let mut out =
        "Context window blocked\n  Failure class    context_window_blocked\n  Session          ".to_string();
    out.append(session_id);
    out.append(write_trace_line(&error.request_id).as_str());
    out.append(write_window_lines(&error.kind).as_str());
    out.append("\n\nRecovery\n  Compact          /compact\n  Resume compact   claw --resume ");
    out.append(session_id);
    out.append(
        " /compact\n  Fresh session    /clear --confirm\n  Reduce scope     remove large pasted context/files or ask for a smaller slice\n  Retry            rerun after compacting or reducing the request",
    );
    out
}

/// A failure as the user is told of it.
pub open spec fn visible_error(session_id: Seq<char>, failure: ApiFailure) -> Seq<char> {
    if failure.context_window {
        window_report(session_id, failure.error)
    } else if failure.generic {
        failure.failure_class@ + " (session "@ + session_id + (match failure.error.request_id {
            Some(id) => ", trace "@ + id@,
            None => Seq::empty(),
        }) + "): "@ + failure.message@
    } else {
        failure.message@
    }
}

pub fn format_user_visible_api_error(session_id: &str, failure: &ApiFailure) -> (r: String)
    ensures
        r@ == visible_error(session_id@, *failure),
{
    if failure.context_window {
        format_context_window_blocked_error(session_id, &failure.error)
    } else if failure.generic {
        let mut trace = String::new();
        match &failure.error.request_id {
            Some(id) => {
                trace = ", trace ".to_string();
                trace.append(id.as_str());
            },
            None => {},
        }
        let mut out = failure.failure_class.clone();
        out.append(" (session ");
        out.append(session_id);
        out.append(trace.as_str());
        out.append("): ");
        out.append(failure.message.as_str());
        out
    } else {
        failure.message.clone()
    }
}

} // verus!
