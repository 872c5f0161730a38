use claw::json::Json;
use claw::messages::CacheControl;
use claw::provider::{
    after_attempt, after_provider_failure, agent_request, apply_tool_cache_controls,
    applies_stall_timeout, build_provider_chain, chain_exhausted_error, client_request,
    format_context_window_blocked_error, format_user_visible_api_error, max_attempts,
    nudge_exhausted_error, provider_chain_models, skipped_fallback_warning, stall_error,
    waits_with_deadline, without_streaming, ApiError, ApiErrorKind, ApiFailure, AttemptOutcome,
    ChainStep, ProviderEntry, ToolDefinition,
};
use claw::stream::AssistantEvent;

const GENERIC: &str = "Something went wrong while processing your request. Please try again, or use /new to start a fresh session.";

fn api_error(message: &str, request_id: &str) -> ApiError {
    ApiError {
        request_id: Some(request_id.to_string()),
        kind: ApiErrorKind::Api {
            message: Some(message.to_string()),
            body: String::new(),
        },
    }
}

fn retried(last_error: ApiError) -> ApiError {
    ApiError {
        request_id: last_error.request_id.clone(),
        kind: ApiErrorKind::RetriesExhausted {
            last_error: Box::new(last_error),
        },
    }
}

fn failure(error: ApiError, class: &str, context_window: bool, generic: bool) -> ApiFailure {
    ApiFailure {
        error,
        message: format!("api failed: {GENERIC}"),
        failure_class: class.to_string(),
        context_window,
        generic,
    }
}

#[test]
fn opaque_provider_wrapper_surfaces_failure_class_session_and_trace() {
    let error = api_error(GENERIC, "req_jobdori_789");
    let rendered = format_user_visible_api_error(
        "session-issue-22",
        &failure(error, "provider_internal", false, true),
    );
    assert!(rendered.contains("provider_internal"));
    assert!(rendered.contains("session session-issue-22"));
    assert!(rendered.contains("trace req_jobdori_789"));
}

#[test]
fn retry_exhaustion_uses_retry_failure_class_for_generic_provider_wrapper() {
    let error = retried(api_error(GENERIC, "req_jobdori_790"));
    let rendered = format_user_visible_api_error(
        "session-issue-22",
        &failure(error, "provider_retry_exhausted", false, true),
    );
    assert!(rendered.contains("provider_retry_exhausted"), "{rendered}");
    assert!(rendered.contains("session session-issue-22"));
    assert!(rendered.contains("trace req_jobdori_790"));
}

#[test]
fn context_window_preflight_errors_render_recovery_steps() {
    let error = ApiError {
        request_id: None,
        kind: ApiErrorKind::ContextWindowExceeded {
            model: "sonnet-4-6".to_string(),
            estimated_input_tokens: 182_000,
            requested_output_tokens: 64_000,
            estimated_total_tokens: 246_000,
            context_window_tokens: 200_000,
        },
    };
    let rendered = format_user_visible_api_error(
        "session-issue-32",
        &failure(error, "context_window", true, false),
    );
    for part in [
        "Context window blocked",
        "context_window_blocked",
        "Session          session-issue-32",
        "Model            sonnet-4-6",
        "Input estimate   ~182000 tokens (heuristic)",
        "Requested output 64000 tokens",
        "Total estimate   ~246000 tokens (heuristic)",
        "Context window   200000 tokens",
        "Compact          /compact",
        "Resume compact   claw --resume session-issue-32 /compact",
        "Fresh session    /clear --confirm",
        "Reduce scope",
        "Retry            rerun",
    ] {
        assert!(rendered.contains(part), "{rendered}");
    }
}

#[test]
fn provider_context_window_errors_are_reframed_with_same_guidance() {
    let error = api_error(
        "This model's maximum context length is 200000 tokens, but your request used 230000 tokens.",
        "req_ctx_456",
    );
    let rendered = format_user_visible_api_error(
        "session-issue-32",
        &failure(error, "context_window", true, false),
    );
    assert!(rendered.contains("context_window_blocked"), "{rendered}");
    assert!(rendered.contains("Trace            req_ctx_456"), "{rendered}");
    assert!(
        rendered.contains("Detail           This model's maximum context length is 200000 tokens"),
        "{rendered}"
    );
    assert!(rendered.contains("Compact          /compact"), "{rendered}");
    assert!(rendered.contains("Fresh session    /clear --confirm"), "{rendered}");
}

#[test]
fn retry_wrapped_context_window_errors_keep_recovery_guidance() {
    let error = retried(api_error(
        "Request is too large for this model's context window.",
        "req_ctx_retry_789",
    ));
    let rendered = format_user_visible_api_error(
        "session-issue-32",
        &failure(error, "context_window", true, false),
    );
    assert!(rendered.contains("Context window blocked"), "{rendered}");
    assert!(rendered.contains("context_window_blocked"), "{rendered}");
    assert!(rendered.contains("Trace            req_ctx_retry_789"), "{rendered}");
    assert!(
        rendered.contains("Detail           Request is too large for this model's context window."),
        "{rendered}"
    );
    assert!(rendered.contains("Compact          /compact"), "{rendered}");
    assert!(
        rendered.contains("Resume compact   claw --resume session-issue-32 /compact"),
        "{rendered}"
    );
}

#[test]
fn plain_failures_are_told_in_their_own_words() {
    let error = ApiError {
        request_id: None,
        kind: ApiErrorKind::Other,
    };
    assert_eq!(
        format_user_visible_api_error("s", &failure(error, "c", false, false)),
        format!("api failed: {GENERIC}")
    );
    let nested = retried(ApiError {
        request_id: Some("inner".to_string()),
        kind: ApiErrorKind::Other,
    });
    assert!(format_context_window_blocked_error("s", &nested).contains("Trace            inner"));
}

fn tool(name: &str) -> ToolDefinition {
    ToolDefinition {
        name: name.to_string(),
        description: None,
        input_schema: Json::Null,
        cache_control: None,
    }
}

#[test]
fn only_the_last_tool_is_marked() {
    let mut tools = vec![tool("a"), tool("b")];
    apply_tool_cache_controls(&mut tools);
    assert_eq!(tools[0].cache_control, None);
    assert_eq!(tools[1].cache_control, Some(CacheControl::Ephemeral));
    let mut none: Vec<ToolDefinition> = vec![];
    apply_tool_cache_controls(&mut none);
    assert!(none.is_empty());
}

#[test]
fn requests_offer_tools_where_they_may() {
    let request = client_request(
        "opus".to_string(),
        vec![],
        vec!["system".to_string()],
        true,
        vec![tool("a")],
        Some("high".to_string()),
    );
    assert_eq!(request.max_tokens, 64_000);
    assert!(request.stream && request.tool_choice_auto && request.managed_context);
    assert_eq!(request.cache_control, Some(CacheControl::Ephemeral));
    assert_eq!(request.tools.as_ref().map(Vec::len), Some(1));
    assert!(!without_streaming(request).stream);
    let request = client_request("opus".to_string(), vec![], vec![], false, vec![tool("a")], None);
    assert!(request.tools.is_none() && !request.tool_choice_auto);
    let request = agent_request("opus".to_string(), 9, vec![], vec![], vec![], false);
    assert!(request.tools.is_none() && request.cache_control.is_none());
    let request = agent_request("opus".to_string(), 9, vec![], vec![], vec![tool("a")], true);
    assert!(request.tools.is_some() && request.cache_control.is_some());
}

#[test]
fn stalls_are_retried_once_behind_tool_outputs() {
    assert_eq!((max_attempts(true), max_attempts(false)), (2, 1));
    assert!(applies_stall_timeout(true, 1));
    assert!(!applies_stall_timeout(true, 2));
    assert!(!applies_stall_timeout(false, 1));
    assert!(waits_with_deadline(true, false));
    assert!(!waits_with_deadline(true, true));
    assert_eq!(
        after_attempt(Err(stall_error()), 1, 2),
        AttemptOutcome::Retry
    );
    assert_eq!(
        after_attempt(Err(stall_error()), 2, 2),
        AttemptOutcome::Failed(stall_error())
    );
    assert_eq!(
        after_attempt(Err("other".to_string()), 1, 2),
        AttemptOutcome::Failed("other".to_string())
    );
    assert_eq!(
        after_attempt(Ok(vec![AssistantEvent::MessageStop]), 1, 2),
        AttemptOutcome::Done(vec![AssistantEvent::MessageStop])
    );
    assert_eq!(nudge_exhausted_error(), "post-tool continuation nudge exhausted");
}

#[test]
fn provider_chains_fall_back_on_passing_failures() {
    assert_eq!(
        provider_chain_models(
            "m".to_string(),
            Some("p".to_string()),
            vec!["f".to_string()]
        ),
        vec!["p", "f"]
    );
    assert_eq!(provider_chain_models("m".to_string(), None, vec![]), vec!["m"]);
    assert_eq!(
        after_provider_failure("m", "busy".to_string(), true, 0, 2),
        ChainStep::FallBack {
            notice: "provider m failed with retryable error, falling back: busy".to_string()
        }
    );
    assert_eq!(
        after_provider_failure("m", "busy".to_string(), true, 1, 2),
        ChainStep::Fail("busy".to_string())
    );
    assert_eq!(
        after_provider_failure("m", "bad".to_string(), false, 0, 2),
        ChainStep::Fail("bad".to_string())
    );
    assert_eq!(
        chain_exhausted_error(None),
        "provider chain exhausted with no attempts"
    );
    assert_eq!(
        skipped_fallback_warning("f", "no key"),
        "warning: skipping unavailable fallback provider f: no key"
    );
}

#[test]
fn unusable_fallbacks_are_left_out_with_a_warning() {
    let entry = |requested: &str, resolved: Result<&str, &str>| ProviderEntry {
        requested: requested.to_string(),
        resolved: resolved.map(str::to_string).map_err(str::to_string),
    };
    let chain = build_provider_chain(
        entry("main", Ok("main-1")),
        vec![
            entry("second", Ok("second-1")),
            entry("third", Err("no key")),
            entry("fourth", Ok("fourth-1")),
        ],
    )
    .expect("the primary provider is usable");
    assert_eq!(chain.models, ["main-1", "second-1", "fourth-1"]);
    assert_eq!(
        chain.warnings,
        ["warning: skipping unavailable fallback provider third: no key"]
    );
    assert_eq!(
        build_provider_chain(entry("main", Err("no key")), vec![entry("x", Ok("x"))]),
        Err("no key".to_string())
    );
}
