//! What holds of the requests to providers, of their repetition, and of what is
//! told of their failures.

use vstd::prelude::*;

use crate::messages::{CacheControl, InputMessage};
use crate::provider::{
    self,
    ApiError,
    ApiErrorKind,
    ApiFailure,
    AttemptOutcome,
    ChainStep,
    MessageRequest,
    ProviderChain,
    ProviderEntry,
    ToolDefinition,
};
use crate::stream::AssistantEvent;
use crate::text;
use crate::tool_display;

verus! {

/// Marking the tools changes the last one alone, and of that its mark alone.
pub proof fn law_only_the_last_tool_is_marked(tools: Seq<ToolDefinition>, at: int)
    requires
        0 <= at < tools.len(),
    ensures
        provider::last_marked(tools).len() == tools.len(),
        at < tools.len() - 1 ==> provider::last_marked(tools)[at] == tools[at],
        provider::last_marked(tools)[at].name == tools[at].name,
        provider::last_marked(tools)[at].description == tools[at].description,
        provider::last_marked(tools)[at].input_schema == tools[at].input_schema,
        provider::last_marked(tools).last().cache_control == Some(CacheControl::Ephemeral),
{
}

/// The client sends what it was given: the model, the messages, the system prompt
/// and the effort. It offers its tools, each by its name, exactly where they are
/// enabled, and asks for a stream of at most 64000 tokens.
pub proof fn law_clients_send_what_they_are_given(
    request: MessageRequest,
    model: String,
    messages: Vec<InputMessage>,
    system: Vec<String>,
    enable_tools: bool,
    tools: Vec<ToolDefinition>,
    reasoning_effort: Option<String>,
    at: int,
)
    requires
        provider::is_client_request(
            request,
            model,
            messages,
            system,
            enable_tools,
            tools,
            reasoning_effort,
        ),
    ensures
        request.model == model && request.messages == messages && request.system == system,
        request.reasoning_effort == reasoning_effort,
        request.max_tokens == 64_000,
        request.stream,
        request.managed_context && request.adaptive_thinking && request.high_output,
        request.cache_control == Some(CacheControl::Ephemeral),
        request.tools is Some <==> enable_tools,
        request.tool_choice_auto <==> enable_tools,
        enable_tools ==> request.tools->0@.len() == tools@.len(),
        enable_tools && 0 <= at < tools@.len() ==> request.tools->0@[at].name == tools@[at].name,
{
}

/// A sub-agent sends what it was given. It offers its tools where it has any, and
/// asks for caching only where the provider knows it; it never asks for effort.
pub proof fn law_agents_send_what_they_are_given(
    request: MessageRequest,
    model: String,
    max_tokens: u32,
    messages: Vec<InputMessage>,
    system: Vec<String>,
    tools: Vec<ToolDefinition>,
    caches_prompts: bool,
    at: int,
)
    requires
        provider::is_agent_request(
            request,
            model,
            max_tokens,
            messages,
            system,
            tools,
            caches_prompts,
        ),
    ensures
        request.model == model && request.messages == messages && request.system == system,
        request.max_tokens == max_tokens,
        request.reasoning_effort is None,
        request.stream,
        !request.managed_context && !request.adaptive_thinking && !request.high_output,
        request.cache_control is Some <==> caches_prompts,
        request.tools is Some <==> tools@.len() > 0,
        request.tool_choice_auto <==> tools@.len() > 0,
        request.tools is Some ==> request.tools->0@.len() == tools@.len(),
        0 <= at < tools@.len() ==> request.tools->0@[at].name == tools@[at].name,
{
}

/// A request that is answered in one piece differs from its stream in that alone.
pub proof fn law_whole_requests_ask_the_same(request: MessageRequest)
    ensures
        ({
            let whole = provider::in_one_piece(request);
            &&& !whole.stream
            &&& whole.model == request.model && whole.messages == request.messages
            &&& whole.system == request.system && whole.tools == request.tools
            &&& whole.max_tokens == request.max_tokens
            &&& whole.cache_control == request.cache_control
            &&& whole.tool_choice_auto == request.tool_choice_auto
            &&& whole.reasoning_effort == request.reasoning_effort
            &&& whole.managed_context == request.managed_context
            &&& whole.adaptive_thinking == request.adaptive_thinking
            &&& whole.high_output == request.high_output
            &&& request.stream ==> whole != request
        }),
{
}

/// A deadline is set only for the first event of the first attempt behind tool
/// outputs, where another attempt is left; missing it is told as a stall.
pub proof fn law_deadlines_leave_another_attempt(
    is_post_tool: bool,
    attempt: nat,
    received_any_event: bool,
)
    ensures
        provider::may_stall(is_post_tool, attempt) ==> attempt < provider::attempts(is_post_tool),
        provider::may_stall(is_post_tool, attempt) <==> is_post_tool && attempt == 1,
        provider::has_deadline(provider::may_stall(is_post_tool, attempt), received_any_event)
            <==> is_post_tool && attempt == 1 && !received_any_event,
        provider::attempts(true) == provider::attempts(false) + 1,
        provider::attempts(false) == 1,
        provider::is_stall(provider::stalled()),
{
    reveal_strlit("post-tool stall");
    reveal_strlit(": model did not respond within timeout");
    reveal_strlit("post-tool stall: model did not respond within timeout");
    let rest = ": model did not respond within timeout"@;
    assert(provider::stalled() =~= Seq::<char>::empty() + "post-tool stall"@ + rest);
    text::lemma_contains_part(Seq::empty(), "post-tool stall"@, rest);
}

/// What was answered is taken; a stall is tried again while attempts are left,
/// and every other error ends the request with just that error.
pub proof fn law_attempts_end_as_they_came_out(
    next: AttemptOutcome,
    result: Result<Vec<AssistantEvent>, String>,
    attempt: nat,
    max_attempts: nat,
)
    requires
        provider::follows_attempt(next, result, attempt, max_attempts),
    ensures
        next is Done <==> result is Ok,
        next is Done ==> next->Done_0 == result->Ok_0,
        next is Retry <==> result is Err && text::contains_text(
            result->Err_0@,
            "post-tool stall"@,
        ) && attempt < max_attempts,
        next is Failed ==> next->Failed_0 == result->Err_0,
{
}

/// The configured primary model is tried first, or the given one where none is
/// configured; the fallbacks follow in their order.
pub proof fn law_fallbacks_follow_the_first_model(
    model: String,
    primary: Option<String>,
    fallbacks: Seq<String>,
    at: int,
)
    ensures
        ({
            let models = provider::models_to_try(model, primary, fallbacks);
            &&& models.len() == fallbacks.len() + 1
            &&& primary is Some ==> models[0] == primary->0
            &&& primary is None ==> models[0] == model
            &&& 0 <= at < fallbacks.len() ==> models[at + 1] == fallbacks[at]
        }),
{
}

/// Of each further fallback either its model is tried or a warning is given: the
/// model that its name stands for where there is a client for it, else a warning
/// that tells its name and why there is none.
pub proof fn law_fallbacks_are_tried_or_warned_of(
    entries: Seq<ProviderEntry>,
    entry: ProviderEntry,
)
    ensures
        ({
            let more = entries.push(entry);
            let models = provider::usable_models(more);
            let warnings = provider::skipped_warnings(more);
            &&& models.len() + warnings.len() == more.len()
            &&& entry.resolved is Ok ==> models == provider::usable_models(entries).push(
                entry.resolved->Ok_0@,
            ) && warnings == provider::skipped_warnings(entries)
            &&& entry.resolved is Err ==> models == provider::usable_models(entries)
                && warnings.drop_last() == provider::skipped_warnings(entries)
                && text::has_suffix(
                warnings.last(),
                " "@ + entry.requested@ + ": "@ + entry.resolved->Err_0@,
            )
        }),
        provider::usable_models(Seq::empty()).len() == 0,
        provider::skipped_warnings(Seq::empty()).len() == 0,
    decreases entries.len(),
{
    let more = entries.push(entry);
    assert(more.drop_last() =~= entries);
    if entries.len() > 0 {
        law_fallbacks_are_tried_or_warned_of(entries.drop_last(), entries.last());
        assert(entries.drop_last().push(entries.last()) =~= entries);
    } else {
        assert(provider::usable_models(entries).len() == 0);
        assert(provider::skipped_warnings(entries).len() == 0);
    }
    if entry.resolved is Err {
        let warnings = provider::skipped_warnings(more);
        assert(warnings.drop_last() =~= provider::skipped_warnings(entries));
        let head = "warning: skipping unavailable fallback provider"@;
        let tail = " "@ + entry.requested@ + ": "@ + entry.resolved->Err_0@;
        reveal_strlit("warning: skipping unavailable fallback provider ");
        reveal_strlit("warning: skipping unavailable fallback provider");
        reveal_strlit(" ");
        assert("warning: skipping unavailable fallback provider "@ =~= head + " "@);
        assert(warnings.last() =~= head + tail);
        text::lemma_contains_part(head, tail, Seq::empty());
        assert(head + tail + Seq::<char>::empty() =~= head + tail);
    }
}

/// A chain starts with the primary model and goes on with the usable fallbacks;
/// without the primary model there is no chain, and the error says why.
pub proof fn law_chains_need_their_primary(
    chain: Result<ProviderChain, String>,
    primary: ProviderEntry,
    fallbacks: Seq<ProviderEntry>,
)
    requires
        provider::is_chain(chain, primary, fallbacks),
    ensures
        chain is Ok <==> primary.resolved is Ok,
        chain is Err ==> chain->Err_0 == primary.resolved->Err_0,
        chain is Ok ==> chain->Ok_0.models@.len() > 0 && chain->Ok_0.models@[0]@
            == primary.resolved->Ok_0@,
        chain is Ok ==> text::texts(chain->Ok_0.models@.skip(1)) == provider::usable_models(
            fallbacks,
        ),
        chain is Ok ==> text::texts(chain->Ok_0.warnings@) == provider::skipped_warnings(fallbacks),
{
    if chain is Ok {
        let models = chain->Ok_0.models@;
        let all = text::texts(models);
        assert(all.len() == models.len());
        assert(all[0] == models[0]@);
        assert(text::texts(models.skip(1)) =~= all.skip(1));
        assert(all.skip(1) =~= provider::usable_models(fallbacks));
    }
}

/// The next provider is tried where the failure may pass and one is left, and the
/// notice tells the model that failed and how; else the failure stands.
pub proof fn law_failures_fall_back_while_they_can(
    next: ChainStep,
    model: Seq<char>,
    error: String,
    retryable: bool,
    index: nat,
    chain_len: nat,
)
    requires
        provider::follows_failure(next, model, error, retryable, index, chain_len),
    ensures
        next is FallBack <==> retryable && index + 1 < chain_len,
        next is Fail ==> next->Fail_0 == error,
        next is FallBack ==> text::has_prefix(next->notice@, "provider "@ + model + " failed"@)
            && text::has_suffix(next->notice@, ": "@ + error@),
{
    if next is FallBack {
        let notice = next->notice@;
        reveal_strlit(" failed with retryable error, falling back: ");
        reveal_strlit(" failed");
        reveal_strlit(" with retryable error, falling back");
        reveal_strlit(": ");
        assert(" failed with retryable error, falling back: "@ =~= " failed"@
            + " with retryable error, falling back"@ + ": "@);
        let head = "provider "@ + model + " failed"@;
        let middle = " with retryable error, falling back"@;
        let tail = ": "@ + error@;
        assert(notice =~= head + middle + tail);
        text::lemma_contains_part(Seq::empty(), head, middle + tail);
        assert(Seq::<char>::empty() + head + (middle + tail) =~= notice);
        text::lemma_contains_part(head + middle, tail, Seq::empty());
        assert(head + middle + tail + Seq::<char>::empty() =~= notice);
    }
}

/// A chain that nothing answered ends with the last error that there was.
pub proof fn law_chains_end_with_their_last_error(error: Seq<char>)
    ensures
        provider::unanswered(Some(error)) == error,
        provider::unanswered(None) == "provider chain exhausted with no attempts"@,
{
}

proof fn lemma_window_is_told(report: Seq<char>, named: Seq<char>, asked: Seq<char>, wanted: Seq<char>, together: Seq<char>, room: Seq<char>)
    requires
        report == "\n  Model            "@ + named + "\n  Input estimate   ~"@ + asked + " tokens (heuristic)\n  Requested output "@ + wanted + " tokens\n  Total estimate   ~"@ + together + " tokens (heuristic)\n  Context window   "@ + room + " tokens"@,
    ensures
        text::contains_text(report, "  Model            "@ + named + "\n"@),
        text::contains_text(report, "  Input estimate   ~"@ + asked + " "@),
        text::contains_text(report, "  Requested output "@ + wanted + " "@),
        text::contains_text(report, "  Total estimate   ~"@ + together + " "@),
        text::contains_text(report, "  Context window   "@ + room + " "@),
{
    assert(text::contains_text(report, "  Model            "@ + named + "\n"@)) by {
        reveal_strlit("\n  Model            ");
        reveal_strlit("\n");
        reveal_strlit("  Model            ");
        reveal_strlit("\n  Input estimate   ~");
        reveal_strlit("  Input estimate   ~");
        assert("\n  Model            "@ =~= "\n"@ + "  Model            "@);
        assert("\n  Input estimate   ~"@ =~= "\n"@ + "  Input estimate   ~"@);
        let before = "\n"@;
        let part = "  Model            "@ + named + "\n"@;
        let after = "  Input estimate   ~"@ + asked + " tokens (heuristic)\n  Requested output "@ + wanted + " tokens\n  Total estimate   ~"@ + together + " tokens (heuristic)\n  Context window   "@ + room + " tokens"@;
        assert(report =~= before + part + after);
        text::lemma_contains_part(before, part, after);
    }
    assert(text::contains_text(report, "  Input estimate   ~"@ + asked + " "@)) by {
        reveal_strlit("\n  Input estimate   ~");
        reveal_strlit("\n");
        reveal_strlit("  Input estimate   ~");
        reveal_strlit(" tokens (heuristic)\n  Requested output ");
        reveal_strlit(" ");
        reveal_strlit("tokens (heuristic)\n  Requested output ");
        assert("\n  Input estimate   ~"@ =~= "\n"@ + "  Input estimate   ~"@);
        assert(" tokens (heuristic)\n  Requested output "@ =~= " "@ + "tokens (heuristic)\n  Requested output "@);
        let before = "\n  Model            "@ + named + "\n"@;
        let part = "  Input estimate   ~"@ + asked + " "@;
        let after = "tokens (heuristic)\n  Requested output "@ + wanted + " tokens\n  Total estimate   ~"@ + together + " tokens (heuristic)\n  Context window   "@ + room + " tokens"@;
        assert(report =~= before + part + after);
        text::lemma_contains_part(before, part, after);
    }
    assert(text::contains_text(report, "  Requested output "@ + wanted + " "@)) by {
        reveal_strlit(" tokens (heuristic)\n  Requested output ");
        reveal_strlit(" tokens (heuristic)\n");
        reveal_strlit("  Requested output ");
        reveal_strlit(" tokens\n  Total estimate   ~");
        reveal_strlit(" ");
        reveal_strlit("tokens\n  Total estimate   ~");
        assert(" tokens (heuristic)\n  Requested output "@ =~= " tokens (heuristic)\n"@ + "  Requested output "@);
        assert(" tokens\n  Total estimate   ~"@ =~= " "@ + "tokens\n  Total estimate   ~"@);
        let before = "\n  Model            "@ + named + "\n  Input estimate   ~"@ + asked + " tokens (heuristic)\n"@;
        let part = "  Requested output "@ + wanted + " "@;
        let after = "tokens\n  Total estimate   ~"@ + together + " tokens (heuristic)\n  Context window   "@ + room + " tokens"@;
        assert(report =~= before + part + after);
        text::lemma_contains_part(before, part, after);
    }
    assert(text::contains_text(report, "  Total estimate   ~"@ + together + " "@)) by {
        reveal_strlit(" tokens\n  Total estimate   ~");
        reveal_strlit(" tokens\n");
        reveal_strlit("  Total estimate   ~");
        reveal_strlit(" tokens (heuristic)\n  Context window   ");
        reveal_strlit(" ");
        reveal_strlit("tokens (heuristic)\n  Context window   ");
        assert(" tokens\n  Total estimate   ~"@ =~= " tokens\n"@ + "  Total estimate   ~"@);
        assert(" tokens (heuristic)\n  Context window   "@ =~= " "@ + "tokens (heuristic)\n  Context window   "@);
        let before = "\n  Model            "@ + named + "\n  Input estimate   ~"@ + asked + " tokens (heuristic)\n  Requested output "@ + wanted + " tokens\n"@;
        let part = "  Total estimate   ~"@ + together + " "@;
        let after = "tokens (heuristic)\n  Context window   "@ + room + " tokens"@;
        assert(report =~= before + part + after);
        text::lemma_contains_part(before, part, after);
    }
    assert(text::contains_text(report, "  Context window   "@ + room + " "@)) by {
        reveal_strlit(" tokens (heuristic)\n  Context window   ");
        reveal_strlit(" tokens (heuristic)\n");
        reveal_strlit("  Context window   ");
        reveal_strlit(" tokens");
        reveal_strlit(" ");
        reveal_strlit("tokens");
        assert(" tokens (heuristic)\n  Context window   "@ =~= " tokens (heuristic)\n"@ + "  Context window   "@);
        assert(" tokens"@ =~= " "@ + "tokens"@);
        let before = "\n  Model            "@ + named + "\n  Input estimate   ~"@ + asked + " tokens (heuristic)\n  Requested output "@ + wanted + " tokens\n  Total estimate   ~"@ + together + " tokens (heuristic)\n"@;
        let part = "  Context window   "@ + room + " "@;
        let after = "tokens"@;
        assert(report =~= before + part + after);
        text::lemma_contains_part(before, part, after);
    }
}

/// A request that did not fit is told by its model, the tokens that it was
/// estimated at, those that were to come, their sum, and the window.
pub proof fn law_windows_tell_their_sizes(
    model: String,
    input: u32,
    output: u32,
    total: u32,
    window: u32,
)
    ensures
        text::contains_text(provider::window_lines(ApiErrorKind::ContextWindowExceeded { model, estimated_input_tokens: input, requested_output_tokens: output, estimated_total_tokens: total, context_window_tokens: window }), "  Model            "@ + model@ + "\n"@),
        text::contains_text(provider::window_lines(ApiErrorKind::ContextWindowExceeded { model, estimated_input_tokens: input, requested_output_tokens: output, estimated_total_tokens: total, context_window_tokens: window }), "  Input estimate   ~"@ + text::decimal(input as nat) + " "@),
        text::contains_text(provider::window_lines(ApiErrorKind::ContextWindowExceeded { model, estimated_input_tokens: input, requested_output_tokens: output, estimated_total_tokens: total, context_window_tokens: window }), "  Requested output "@ + text::decimal(output as nat) + " "@),
        text::contains_text(provider::window_lines(ApiErrorKind::ContextWindowExceeded { model, estimated_input_tokens: input, requested_output_tokens: output, estimated_total_tokens: total, context_window_tokens: window }), "  Total estimate   ~"@ + text::decimal(total as nat) + " "@),
        text::contains_text(provider::window_lines(ApiErrorKind::ContextWindowExceeded { model, estimated_input_tokens: input, requested_output_tokens: output, estimated_total_tokens: total, context_window_tokens: window }), "  Context window   "@ + text::decimal(window as nat) + " "@),
{
    lemma_window_is_told(provider::window_lines(ApiErrorKind::ContextWindowExceeded { model, estimated_input_tokens: input, requested_output_tokens: output, estimated_total_tokens: total, context_window_tokens: window }), model@, text::decimal(input as nat), text::decimal(output as nat), text::decimal(total as nat), text::decimal(window as nat));
}

/// The provider's own words are told: its message, or else the body of its answer
/// where there is no message; nothing is told where those words are blank.
pub proof fn law_words_of_the_provider_are_told(message: String, body: Seq<char>)
    ensures
        provider::detail_line(None, body) == provider::detail_line(Some(message), body)
            || message@ != body,
        !text::is_blank(message@) ==> text::has_suffix(
            provider::detail_line(Some(message), body),
            "Detail           "@ + tool_display::summary(text::trimmed(message@), 120),
        ),
        !text::is_blank(body) ==> text::has_suffix(
            provider::detail_line(None, body),
            "Detail           "@ + tool_display::summary(text::trimmed(body), 120),
        ),
        text::is_blank(message@) ==> provider::detail_line(Some(message), body).len() == 0,
        text::is_blank(body) ==> provider::detail_line(None, body).len() == 0,
{
    text::lemma_trimmed_empty_iff_blank(message@);
    text::lemma_trimmed_empty_iff_blank(body);
    reveal_strlit("\n  Detail           ");
    reveal_strlit("\n  ");
    reveal_strlit("Detail           ");
    assert("\n  Detail           "@ =~= "\n  "@ + "Detail           "@);
    lemma_detail_ends(tool_display::summary(text::trimmed(message@), 120));
    lemma_detail_ends(tool_display::summary(text::trimmed(body), 120));
}

proof fn lemma_behind(first: Seq<char>, second: Seq<char>, words: Seq<char>)
    ensures
        text::has_suffix((first + second) + words, second + words),
{
    let tail = second + words;
    assert(first + tail + Seq::<char>::empty() =~= (first + second) + words);
    text::lemma_contains_part(first, tail, Seq::empty());
}

proof fn lemma_detail_ends(words: Seq<char>)
    requires
        "\n  Detail           "@ == "\n  "@ + "Detail           "@,
    ensures
        text::has_suffix("\n  Detail           "@ + words, "Detail           "@ + words),
{
    lemma_behind("\n  "@, "Detail           "@, words);
}

/// Retries that ended in something other than an answer of the provider are told
/// as what they ended in; everything else is told as it is.
pub proof fn law_retries_are_told_as_what_they_ended_in(error: ApiError)
    ensures
        error.kind !is RetriesExhausted ==> provider::told_error(error) == error,
        error.kind is RetriesExhausted && error.kind->last_error.kind is Api
            ==> provider::told_error(error) == error,
        error.kind is RetriesExhausted && error.kind->last_error.kind is ContextWindowExceeded
            ==> provider::told_error(error) == *error.kind->last_error,
        error.kind is RetriesExhausted && error.kind->last_error.kind is Api
            ==> provider::window_lines(error.kind) == provider::window_lines(
            error.kind->last_error.kind,
        ),
        error.kind is Other ==> provider::window_lines(error.kind).len() == 0,
{
    reveal_with_fuel(provider::told_error, 2);
}

proof fn lemma_report_is_told(
    report: Seq<char>,
    session: Seq<char>,
    trace: Seq<char>,
    lines: Seq<char>,
)
    requires
        report == "Context window blocked\n  Failure class    context_window_blocked\n  Session          "@ + session + trace + lines + "\n\nRecovery\n  Compact          /compact\n  Resume compact   claw --resume "@ + session + " /compact\n  Fresh session    /clear --confirm\n  Reduce scope     remove large pasted context/files or ask for a smaller slice\n  Retry            rerun after compacting or reducing the request"@,
    ensures
        text::contains_text(report, "Session          "@ + session + trace + lines + "\n"@),
        text::contains_text(report, "claw --resume "@ + session + " /compact\n"@),
{
    assert(text::contains_text(report, "Session          "@ + session + trace + lines + "\n"@)) by {
        reveal_strlit("Context window blocked\n  Failure class    context_window_blocked\n  Session          ");
        reveal_strlit("Context window blocked\n  Failure class    context_window_blocked\n  ");
        reveal_strlit("Session          ");
        reveal_strlit("\n");
        reveal_strlit("\n\nRecovery\n  Compact          /compact\n  Resume compact   claw --resume ");
        reveal_strlit("\nRecovery\n  Compact          /compact\n  Resume compact   claw --resume ");
        let head = "Context window blocked\n  Failure class    context_window_blocked\n  "@;
        let part = "Session          "@ + session + trace + lines + "\n"@;
        let tail = "\nRecovery\n  Compact          /compact\n  Resume compact   claw --resume "@;
        assert("Context window blocked\n  Failure class    context_window_blocked\n  Session          "@ =~= head + "Session          "@);
        assert("\n\nRecovery\n  Compact          /compact\n  Resume compact   claw --resume "@ =~= "\n"@ + tail);
        let after = tail + session + " /compact\n  Fresh session    /clear --confirm\n  Reduce scope     remove large pasted context/files or ask for a smaller slice\n  Retry            rerun after compacting or reducing the request"@;
        assert(report =~= head + part + after);
        text::lemma_contains_part(head, part, after);
    }
    assert(text::contains_text(report, "claw --resume "@ + session + " /compact\n"@)) by {
        reveal_strlit("\n\nRecovery\n  Compact          /compact\n  Resume compact   claw --resume ");
        reveal_strlit("claw --resume ");
        reveal_strlit("\n\nRecovery\n  Compact          /compact\n  Resume compact   ");
        reveal_strlit(" /compact\n");
        reveal_strlit(" /compact\n  Fresh session    /clear --confirm\n  Reduce scope     remove large pasted context/files or ask for a smaller slice\n  Retry            rerun after compacting or reducing the request");
        reveal_strlit("  Fresh session    /clear --confirm\n  Reduce scope     remove large pasted context/files or ask for a smaller slice\n  Retry            rerun after compacting or reducing the request");
        let middle = "\n\nRecovery\n  Compact          /compact\n  Resume compact   "@;
        let rest = "  Fresh session    /clear --confirm\n  Reduce scope     remove large pasted context/files or ask for a smaller slice\n  Retry            rerun after compacting or reducing the request"@;
        assert("\n\nRecovery\n  Compact          /compact\n  Resume compact   claw --resume "@ =~= middle + "claw --resume "@);
        assert(" /compact\n  Fresh session    /clear --confirm\n  Reduce scope     remove large pasted context/files or ask for a smaller slice\n  Retry            rerun after compacting or reducing the request"@ =~= " /compact\n"@ + rest);
        let before = "Context window blocked\n  Failure class    context_window_blocked\n  Session          "@ + session + trace + lines + middle;
        let part = "claw --resume "@ + session + " /compact\n"@;
        assert(report =~= before + part + rest);
        text::lemma_contains_part(before, part, rest);
    }
}

/// A request that did not fit is told by its session, its trace where it has one
/// and what did not fit, and by how to go on with the same session.
pub proof fn law_blocked_requests_tell_their_session(session: Seq<char>, error: ApiError)
    ensures
        ({
            let told = provider::told_error(error);
            let report = provider::window_report(session, error);
            &&& text::contains_text(
                report,
                "Session          "@ + session + (if told.request_id is Some {
                    "\n  Trace            "@ + told.request_id->0@
                } else {
                    Seq::empty()
                }) + provider::window_lines(told.kind) + "\n"@,
            )
            &&& text::contains_text(report, "claw --resume "@ + session + " /compact\n"@)
        }),
{
    let told = provider::told_error(error);
    lemma_report_is_told(
        provider::window_report(session, error),
        session,
        provider::trace_line(told.request_id),
        provider::window_lines(told.kind),
    );
}

/// A failure is told in the words of the client; a request that did not fit is
/// told as such, and words that say nothing get the class, the session and the
/// trace in front of them.
pub proof fn law_failures_are_told(session: Seq<char>, failure: ApiFailure)
    ensures
        ({
            let told = provider::visible_error(session, failure);
            &&& failure.context_window ==> told == provider::window_report(session, failure.error)
            &&& !failure.context_window && !failure.generic ==> told == failure.message@
            &&& !failure.context_window && failure.generic ==> text::has_prefix(
                told,
                failure.failure_class@ + " (session "@ + session,
            ) && text::has_suffix(told, "): "@ + failure.message@)
            &&& !failure.context_window && failure.generic && failure.error.request_id is Some
                ==> text::contains_text(
                told,
                session + ", trace "@ + failure.error.request_id->0@ + ")"@,
            )
        }),
{
    let told = provider::visible_error(session, failure);
    if !failure.context_window && failure.generic {
        let trace = if failure.error.request_id is Some {
            ", trace "@ + failure.error.request_id->0@
        } else {
            Seq::empty()
        };
        lemma_failure_is_told(told, failure.failure_class@, session, trace, failure.message@);
        assert(session + ", trace "@ + failure.error.request_id->0@ + ")"@ =~= session + (
        ", trace "@ + failure.error.request_id->0@) + ")"@);
    }
}

proof fn lemma_failure_is_told(
    told: Seq<char>,
    class: Seq<char>,
    session: Seq<char>,
    trace: Seq<char>,
    message: Seq<char>,
)
    requires
        told == class + " (session "@ + session + trace + "): "@ + message,
    ensures
        text::has_prefix(told, class + " (session "@ + session),
        text::has_suffix(told, "): "@ + message),
        text::contains_text(told, session + trace + ")"@),
{
    assert(text::has_prefix(told, class + " (session "@ + session)) by {
        let head = class + " (session "@ + session;
        let rest = trace + "): "@ + message;
        assert(Seq::<char>::empty() + head + rest =~= told);
        text::lemma_contains_part(Seq::empty(), head, rest);
    }
    assert(text::has_suffix(told, "): "@ + message)) by {
        let head = class + " (session "@ + session + trace;
        let tail = "): "@ + message;
        assert(head + tail + Seq::<char>::empty() =~= told);
        text::lemma_contains_part(head, tail, Seq::empty());
    }
    assert(text::contains_text(told, session + trace + ")"@)) by {
        reveal_strlit("): ");
        reveal_strlit(")");
        reveal_strlit(": ");
        assert("): "@ =~= ")"@ + ": "@);
        let before = class + " (session "@;
        let part = session + trace + ")"@;
        let after = ": "@ + message;
        assert(told =~= before + part + after);
        text::lemma_contains_part(before, part, after);
    }
}

/// Attempts that are used up are told as such, and not as another stall.
pub proof fn law_used_up_attempts_are_no_stall()
    ensures
        text::has_suffix(provider::attempts_used_up(), "exhausted"@),
        !provider::is_stall(provider::attempts_used_up()),
{
    let told = provider::attempts_used_up();
    assert(text::has_suffix(told, "exhausted"@)) by {
        reveal_strlit("post-tool continuation nudge exhausted");
        reveal_strlit("post-tool continuation nudge ");
        reveal_strlit("exhausted");
        let head = "post-tool continuation nudge "@;
        assert(head + "exhausted"@ + Seq::<char>::empty() =~= told);
        text::lemma_contains_part(head, "exhausted"@, Seq::empty());
    }
    reveal_strlit("post-tool continuation nudge exhausted");
    reveal_strlit("post-tool stall");
    assert("post-tool stall"@.len() == 15);
    assert("post-tool stall"@[0] == 'p' && "post-tool stall"@[1] == 'o');
    assert("post-tool stall"@[10] == 's');
    if provider::is_stall(told) {
        let at = choose|at: int| text::occurs_at(told, "post-tool stall"@, at);
        assert(told.subrange(at, at + 15)[0] == told[at]);
        assert(told.subrange(at, at + 15)[1] == told[at + 1]);
        assert(told.subrange(at, at + 15)[10] == told[at + 10]);
    }
}

} // verus!
