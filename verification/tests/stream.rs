use std::collections::{BTreeMap, BTreeSet};

use claw::stream::{
    non_streaming_fallback, normalize_tool_input_json, normalize_tool_input_string,
    push_output_block, response_to_events, should_log_tool_stop_without_start,
    track_tool_block_index, validate_tool_input_json, Advance, AssistantEvent, ContentBlockDelta,
    MessageResponse, OutputContentBlock, PendingTool, PromptCacheEvent, PromptCacheRecord, Show,
    StreamEnd, StreamEvent, StreamState, TokenUsage,
};
use claw::stream_debug::{
    debug_json_input_summary, debug_json_value_summary, pending_tools_debug_summary,
    should_log_agent_stream_event, should_log_stream_event_for_tool_diagnostics,
    should_log_streamed_tool_input_delta, stream_event_debug_summary,
};

fn value(text: &str) -> serde_json::Value {
    serde_json::from_str(text).expect("valid json")
}

fn tool(id: &str, name: &str, input: &str) -> OutputContentBlock {
    OutputContentBlock::tool_use(id.to_string(), name.to_string(), &value(input))
}

fn text(text: &str) -> OutputContentBlock {
    OutputContentBlock::Text {
        text: text.to_string(),
    }
}

fn usage() -> TokenUsage {
    TokenUsage {
        input_tokens: 1,
        output_tokens: 1,
        cache_creation_input_tokens: 0,
        cache_read_input_tokens: 0,
    }
}

fn text_delta(index: u32, piece: &str) -> StreamEvent {
    StreamEvent::ContentBlockDelta {
        index,
        delta: ContentBlockDelta::TextDelta {
            text: piece.to_string(),
        },
    }
}

fn input_delta(index: u32, piece: &str) -> StreamEvent {
    StreamEvent::ContentBlockDelta {
        index,
        delta: ContentBlockDelta::InputJsonDelta {
            partial_json: piece.to_string(),
        },
    }
}

fn cache_break() -> PromptCacheEvent {
    PromptCacheEvent {
        unexpected: true,
        reason: "dropped".to_string(),
        reason_code: "drop".to_string(),
        diagnostic_scope: "system".to_string(),
        changed_components: vec!["tools".to_string()],
        previous_cache_read_input_tokens: 10,
        current_cache_read_input_tokens: 4,
        token_drop: 6,
        elapsed_seconds: 3,
    }
}

#[test]
fn push_output_block_renders_markdown_text() {
    let mut events = Vec::new();
    let mut pending_tools = BTreeMap::new();
    let mut block_has_thinking_summary = false;

    let show = push_output_block(
        text("# Heading"),
        0,
        &mut events,
        &mut pending_tools,
        false,
        &mut block_has_thinking_summary,
    );

    assert_eq!(show, Some(Show::MarkdownBlock("# Heading".to_string())));
    assert_eq!(events, vec![AssistantEvent::TextDelta("# Heading".to_string())]);
}

#[test]
fn push_output_block_skips_empty_object_prefix_for_tool_streams() {
    let mut events = Vec::new();
    let mut pending_tools = BTreeMap::new();
    let mut block_has_thinking_summary = false;

    push_output_block(
        tool("tool-1", "read_file", "{}"),
        7,
        &mut events,
        &mut pending_tools,
        true,
        &mut block_has_thinking_summary,
    );

    assert!(events.is_empty());
    assert_eq!(
        pending_tools.remove(&7),
        Some(PendingTool {
            id: "tool-1".to_string(),
            name: "read_file".to_string(),
            input: String::new(),
        })
    );
}

#[test]
fn pending_tools_preserve_multiple_streaming_tool_calls_by_index() {
    let mut events = Vec::new();
    let mut pending_tools = BTreeMap::new();
    let mut block_has_thinking_summary = false;

    push_output_block(
        tool("tool-1", "read_file", "{}"),
        1,
        &mut events,
        &mut pending_tools,
        true,
        &mut block_has_thinking_summary,
    );
    push_output_block(
        tool("tool-2", "grep_search", "{}"),
        2,
        &mut events,
        &mut pending_tools,
        true,
        &mut block_has_thinking_summary,
    );

    pending_tools
        .get_mut(&1)
        .expect("first tool pending")
        .input
        .push_str(r#"{"path":"src/main.rs"}"#);
    pending_tools
        .get_mut(&2)
        .expect("second tool pending")
        .input
        .push_str(r#"{"pattern":"TODO"}"#);

    assert_eq!(
        pending_tools.remove(&1),
        Some(PendingTool {
            id: "tool-1".to_string(),
            name: "read_file".to_string(),
            input: r#"{"path":"src/main.rs"}"#.to_string(),
        })
    );
    assert_eq!(
        pending_tools.remove(&2),
        Some(PendingTool {
            id: "tool-2".to_string(),
            name: "grep_search".to_string(),
            input: r#"{"pattern":"TODO"}"#.to_string(),
        })
    );
}

#[test]
fn tool_stop_without_start_diagnostic_ignores_text_block_stop() {
    let mut tool_block_indices = BTreeSet::new();
    track_tool_block_index(&text(""), 0, &mut tool_block_indices);
    assert!(!should_log_tool_stop_without_start(&mut tool_block_indices, 0));
}

#[test]
fn tool_stop_without_start_diagnostic_flags_tracked_tool_block_stop_once() {
    let mut tool_block_indices = BTreeSet::new();
    track_tool_block_index(&tool("tool-1", "read_file", "{}"), 1, &mut tool_block_indices);
    assert!(should_log_tool_stop_without_start(&mut tool_block_indices, 1));
    assert!(!should_log_tool_stop_without_start(&mut tool_block_indices, 1));
}

#[test]
fn stream_event_diagnostics_skip_high_volume_tool_input_deltas() {
    let input_delta = input_delta(0, r#"{"path":"#);
    let text_delta = text_delta(0, "hello");
    let block_stop = StreamEvent::ContentBlockStop { index: 0 };

    assert!(!should_log_stream_event_for_tool_diagnostics(&input_delta));
    assert!(!should_log_stream_event_for_tool_diagnostics(&text_delta));
    assert!(should_log_stream_event_for_tool_diagnostics(&block_stop));
    assert!(should_log_agent_stream_event(&input_delta));
    assert!(!should_log_agent_stream_event(&text_delta));
}

#[test]
fn streamed_tool_input_delta_diagnostics_are_sampled() {
    assert!(!should_log_streamed_tool_input_delta(0));
    assert!(should_log_streamed_tool_input_delta(1));
    assert!(!should_log_streamed_tool_input_delta(2));
    assert!(!should_log_streamed_tool_input_delta(31));
    assert!(should_log_streamed_tool_input_delta(32));
    assert!(!should_log_streamed_tool_input_delta(33));
    assert!(should_log_streamed_tool_input_delta(64));
}

#[test]
fn streamed_empty_tool_input_normalizes_to_empty_object_on_stop() {
    assert_eq!(normalize_tool_input_string(String::new()), "{}");
    assert_eq!(normalize_tool_input_string("  ".to_string()), "{}");
    assert_eq!(
        normalize_tool_input_string(r#"{"path":"src/main.rs"}"#.to_string()),
        r#"{"path":"src/main.rs"}"#
    );
}

#[test]
fn normalizing_twice_changes_nothing() {
    for input in ["", " \n", "{}", " {\"a\":1} "] {
        let once = normalize_tool_input_json(input);
        assert_eq!(normalize_tool_input_json(once), once);
    }
}

#[test]
fn streamed_tool_input_validation_rejects_truncated_json() {
    let error = validate_tool_input_json(r#"{"path": "/mnt/d/ginobili/code/cpp_uti"#)
        .expect_err("truncated input should be invalid");
    assert!(error.contains("EOF") || error.contains("unterminated"));
}

#[test]
fn streamed_tool_input_validation_accepts_empty_after_normalization() {
    validate_tool_input_json("").expect("empty streamed tool input normalizes to object");
    validate_tool_input_json("  ").expect("blank streamed tool input normalizes to object");
    validate_tool_input_json(r#"{"path":"src/main.rs"}"#).expect("valid JSON");
}

#[test]
fn debug_json_input_summary_includes_lengths_prefix_and_suffix() {
    let summary = debug_json_input_summary(r#"{"description":"abc","name":"Review""#, 12);

    assert!(summary.contains("input_bytes=36"));
    assert!(summary.contains("input_chars=36"));
    assert!(summary.contains("input_prefix="));
    assert!(summary.contains("descript"));
    assert!(summary.contains("input_suffix="));
    assert!(summary.contains("Review"));
}

#[test]
fn debug_summaries_quote_what_they_show() {
    assert_eq!(
        debug_json_input_summary("a\"é", 2),
        "input_bytes=4\ninput_chars=3\ninput_trimmed_empty=false\ninput_full_available=false\ninput_prefix=\"a\\\"\"\ninput_suffix=\"\\\"é\""
    );
    assert!(debug_json_value_summary(&value(r#"{ "a" : 1 }"#), 20).contains(r#"input_prefix="{\"a\":1}""#));
}

#[test]
fn response_to_events_preserves_empty_object_json_input_outside_streaming() {
    let (events, _) = response_to_events(MessageResponse {
        content: vec![tool("tool-1", "read_file", "{}")],
        usage: usage(),
    });

    assert!(matches!(
        &events[0],
        AssistantEvent::ToolUse { name, input, .. }
            if name == "read_file" && input == "{}"
    ));
}

#[test]
fn response_to_events_preserves_non_empty_json_input_outside_streaming() {
    let (events, _) = response_to_events(MessageResponse {
        content: vec![tool("tool-2", "read_file", r#"{ "path": "rust/Cargo.toml" }"#)],
        usage: usage(),
    });

    assert!(matches!(
        &events[0],
        AssistantEvent::ToolUse { name, input, .. }
            if name == "read_file" && input == "{\"path\":\"rust/Cargo.toml\"}"
    ));
}

#[test]
fn response_to_events_renders_collapsed_thinking_summary() {
    let (events, shows) = response_to_events(MessageResponse {
        content: vec![
            OutputContentBlock::Thinking {
                thinking: "step 1".to_string(),
                signature: Some("sig_123".to_string()),
            },
            text("Final answer"),
        ],
        usage: usage(),
    });

    assert!(matches!(
        &events[0],
        AssistantEvent::TextDelta(text) if text == "Final answer"
    ));
    let rendered = format!("{shows:?}");
    assert!(rendered.contains("▶ Thinking (6 chars hidden)"));
    assert!(!rendered.contains("step 1"));
}

#[test]
fn fallback_tells_of_the_prompt_cache_last() {
    let (events, _) = non_streaming_fallback(
        MessageResponse {
            content: vec![text("again")],
            usage: usage(),
        },
        Some(PromptCacheRecord {
            cache_break: Some(cache_break()),
        }),
    );
    assert_eq!(
        events,
        vec![
            AssistantEvent::TextDelta("again".to_string()),
            AssistantEvent::Usage(usage()),
            AssistantEvent::MessageStop,
            AssistantEvent::PromptCache(cache_break()),
        ]
    );
}

#[test]
fn streamed_tool_call_is_put_together_from_its_pieces() {
    let mut state = StreamState::new();
    for event in [
        StreamEvent::MessageStart { content: vec![] },
        StreamEvent::ContentBlockStart {
            index: 1,
            content_block: tool("tool-1", "read_file", "{}"),
        },
        StreamEvent::ContentBlockStart {
            index: 2,
            content_block: tool("tool-2", "bash", "{}"),
        },
        input_delta(1, r#"{"path":"#),
        input_delta(2, r#"{"command":"pwd"}"#),
        input_delta(1, r#""a.rs"}"#),
        input_delta(9, "lost"),
    ] {
        assert_eq!(state.on_event(event), Advance::Continue(vec![]));
    }
    assert_eq!(
        state.on_event(StreamEvent::ContentBlockStop { index: 1 }),
        Advance::Continue(vec![
            Show::MarkdownEnd,
            Show::ToolCall {
                name: "read_file".to_string(),
                input: r#"{"path":"a.rs"}"#.to_string(),
            },
        ])
    );
    state.on_event(StreamEvent::ContentBlockStop { index: 2 });
    state.on_event(StreamEvent::MessageStop);
    match state.finish(None) {
        StreamEnd::Complete(events) => assert_eq!(
            events,
            vec![
                AssistantEvent::ToolUse {
                    id: "tool-1".to_string(),
                    name: "read_file".to_string(),
                    input: r#"{"path":"a.rs"}"#.to_string(),
                },
                AssistantEvent::ToolUse {
                    id: "tool-2".to_string(),
                    name: "bash".to_string(),
                    input: r#"{"command":"pwd"}"#.to_string(),
                },
                AssistantEvent::MessageStop,
            ]
        ),
        other => panic!("unexpected end: {other:?}"),
    }
}

#[test]
fn invalid_streamed_input_asks_for_the_response_again() {
    let mut state = StreamState::new();
    state.on_event(StreamEvent::ContentBlockStart {
        index: 0,
        content_block: tool("tool-1", "bash", "{}"),
    });
    state.on_event(input_delta(0, r#"{"command":"#));
    match state.on_event(StreamEvent::ContentBlockStop { index: 0 }) {
        Advance::Fallback { shows, reason } => {
            assert_eq!(shows, vec![Show::MarkdownEnd]);
            assert!(reason.starts_with(
                "invalid_streamed_tool_input_json tool_id=tool-1 tool_name=bash error="
            ));
        }
        other => panic!("unexpected step: {other:?}"),
    }
    let mut agent = StreamState::new();
    agent.on_agent_event(StreamEvent::ContentBlockStart {
        index: 0,
        content_block: tool("tool-1", "bash", "{}"),
    });
    agent.on_agent_event(input_delta(0, r#"{"command":"#));
    agent.on_agent_event(StreamEvent::ContentBlockStop { index: 0 });
    assert!(matches!(
        &agent.events[0],
        AssistantEvent::ToolUse { input, .. } if input == r#"{"command":"#
    ));
}

#[test]
fn thinking_is_shown_once_per_block() {
    let thinking = || StreamEvent::ContentBlockDelta {
        index: 0,
        delta: ContentBlockDelta::ThinkingDelta {
            thinking: "hm".to_string(),
        },
    };
    let mut state = StreamState::new();
    assert_eq!(
        state.on_event(thinking()),
        Advance::Continue(vec![Show::Plain("\n▶ Thinking hidden\n".to_string())])
    );
    assert_eq!(state.on_event(thinking()), Advance::Continue(vec![]));
    state.on_event(StreamEvent::ContentBlockStop { index: 0 });
    assert!(matches!(state.on_event(thinking()), Advance::Continue(shows) if shows.len() == 1));
    assert_eq!(
        state.on_event(StreamEvent::ContentBlockStart {
            index: 1,
            content_block: OutputContentBlock::RedactedThinking {
                data: "x".to_string()
            },
        }),
        Advance::Continue(vec![Show::Plain(
            "\n▶ Thinking block hidden by provider\n".to_string()
        )])
    );
}

#[test]
fn streams_end_with_a_stop_where_they_brought_content() {
    let mut state = StreamState::new();
    state.on_event(text_delta(0, ""));
    state.on_event(text_delta(0, "hi"));
    assert_eq!(
        state.finish(Some(PromptCacheRecord { cache_break: None })),
        StreamEnd::Complete(vec![
            AssistantEvent::TextDelta("hi".to_string()),
            AssistantEvent::MessageStop,
        ])
    );
    let mut empty = StreamState::new();
    empty.on_event(StreamEvent::MessageDelta {
        stop_reason: None,
        stop_sequence: None,
        usage: usage(),
    });
    assert_eq!(
        empty.finish(None),
        StreamEnd::Fallback {
            reason: "stream_ended_without_message_stop".to_string()
        }
    );
}

#[test]
fn stream_events_are_summarized() {
    assert_eq!(
        stream_event_debug_summary(
            &StreamEvent::MessageDelta {
                stop_reason: Some("end_turn".to_string()),
                stop_sequence: None,
                usage: usage(),
            },
            10
        ),
        "event=message_delta\nstop_reason=end_turn\nstop_sequence=none\ninput_tokens=1\noutput_tokens=1\ncache_creation_input_tokens=0\ncache_read_input_tokens=0"
    );
    assert_eq!(
        stream_event_debug_summary(&text_delta(3, "é"), 10),
        "event=content_block_delta\nindex=3\ndelta_type=text_delta\ntext_bytes=2\ntext_chars=1"
    );
    assert_eq!(
        stream_event_debug_summary(&StreamEvent::MessageStop, 10),
        "event=message_stop"
    );
}

#[test]
fn pending_tools_are_summarized_in_order() {
    let mut pending = BTreeMap::new();
    for (index, id) in [(10_u32, "b"), (2, "a")] {
        pending.insert(
            index,
            PendingTool {
                id: id.to_string(),
                name: "bash".to_string(),
                input: "{}".to_string(),
            },
        );
    }
    assert_eq!(
        pending_tools_debug_summary(&pending, 100),
        "pending_tool_count=2\npending_tool_indices=\"2,10\"\npending_tool_entries=\"index=2 id=a name=bash bytes=2 chars=2 suffix=\\\"{}\\\" | index=10 id=b name=bash bytes=2 chars=2 suffix=\\\"{}\\\"\""
    );
}

#[test]
fn streamed_pieces_follow_the_opening_input() {
    let mut client = StreamState::new();
    let mut agent = StreamState::new();
    let events = |input: &str| {
        vec![
            StreamEvent::ContentBlockStart {
                index: 0,
                content_block: OutputContentBlock::ToolUse {
                    id: "t".to_string(),
                    name: "bash".to_string(),
                    input: input.to_string(),
                },
            },
            input_delta(0, "1"),
            input_delta(0, "]"),
            StreamEvent::ContentBlockStop { index: 0 },
            text_delta(1, ""),
        ]
    };
    for event in events("[") {
        assert!(matches!(client.on_event(event), Advance::Continue(_)));
    }
    for event in events("[") {
        agent.on_agent_event(event);
    }
    let call = vec![AssistantEvent::ToolUse {
        id: "t".to_string(),
        name: "bash".to_string(),
        input: "[1]".to_string(),
    }];
    assert_eq!(client.events, call);
    assert_eq!(agent.events, call);
    let mut broken = StreamState::new();
    let last = events("(").into_iter().take(4).map(|event| broken.on_event(event)).last();
    assert!(matches!(last, Some(Advance::Fallback { .. })));
    assert!(broken.events.is_empty());
}
