use claw::json::Json;
use claw::messages::{
    convert_messages, convert_messages_apart, final_assistant_text, request_ends_with_tool_result,
    ContentBlock, ConversationMessage, InputContentBlock, MessageRole,
};
use claw::stream::{PromptCacheEvent, TokenUsage};
use claw::turn_report::{
    collect_prompt_cache_events, collect_tool_results, collect_tool_uses, turn_document,
    TurnSummary,
};

fn tool_use(id: &str, name: &str, input: &str) -> ContentBlock {
    ContentBlock::ToolUse {
        id: id.to_string(),
        name: name.to_string(),
        input: input.to_string(),
    }
}

#[test]
fn converts_tool_roundtrip_messages() {
    let messages = vec![
        ConversationMessage::user_text("hello"),
        ConversationMessage::assistant(vec![tool_use("tool-1", "bash", "{\"command\":\"pwd\"}")]),
        ConversationMessage::tool_result("tool-1", "bash", "ok", false),
    ];

    let converted = convert_messages(&messages);
    assert_eq!(converted.len(), 3);
    assert_eq!(converted[1].role, "assistant");
    assert_eq!(converted[2].role, "user");
}

#[test]
fn convert_messages_groups_consecutive_tool_results() {
    let messages = vec![
        ConversationMessage::user_text("launch reviews"),
        ConversationMessage::assistant(vec![
            tool_use("tool-1", "Agent", r#"{"prompt":"reuse"}"#),
            tool_use("tool-2", "Agent", r#"{"prompt":"quality"}"#),
            tool_use("tool-3", "Agent", r#"{"prompt":"efficiency"}"#),
        ]),
        ConversationMessage::tool_result("tool-1", "Agent", "reuse result", false),
        ConversationMessage::tool_result("tool-2", "Agent", "quality result", false),
        ConversationMessage::tool_result("tool-3", "Agent", "efficiency result", false),
    ];

    let converted = convert_messages(&messages);

    assert_eq!(converted.len(), 3);
    assert_eq!(converted[2].role, "user");
    assert_eq!(converted[2].content.len(), 3);
    let tool_result_ids = converted[2]
        .content
        .iter()
        .map(|block| match block {
            InputContentBlock::ToolResult { tool_use_id, .. } => tool_use_id.as_str(),
            other => panic!("expected only tool_result blocks, got {other:?}"),
        })
        .collect::<Vec<_>>();
    assert_eq!(tool_result_ids, vec!["tool-1", "tool-2", "tool-3"]);
    assert_eq!(convert_messages_apart(&messages).len(), 5);
}

#[test]
fn conversion_keeps_every_block_and_drops_empty_messages() {
    let messages = vec![
        ConversationMessage::tool_result("a", "bash", "1", false),
        ConversationMessage {
            role: MessageRole::Assistant,
            blocks: vec![],
        },
        ConversationMessage::tool_result("b", "bash", "2", true),
        ConversationMessage::user_text("next"),
        ConversationMessage::tool_result("c", "bash", "3", false),
    ];
    let converted = convert_messages(&messages);
    let sizes: Vec<usize> = converted.iter().map(|m| m.content.len()).collect();
    assert_eq!(sizes, vec![2, 1, 1]);
    let total: usize = messages.iter().map(|m| m.blocks.len()).sum();
    assert_eq!(sizes.iter().sum::<usize>(), total);
}

#[test]
fn tool_inputs_are_sent_as_documents() {
    let converted = convert_messages(&vec![ConversationMessage::assistant(vec![
        tool_use("a", "bash", r#"{"command":"pwd"}"#),
        tool_use("b", "bash", "not json"),
    ])]);
    match &converted[0].content[0] {
        InputContentBlock::ToolUse { input, .. } => {
            assert_eq!(input.str_field("command"), Some("pwd"));
        }
        other => panic!("unexpected block: {other:?}"),
    }
    match &converted[0].content[1] {
        InputContentBlock::ToolUse { input, .. } => {
            assert_eq!(input.str_field("raw"), Some("not json"));
        }
        other => panic!("unexpected block: {other:?}"),
    }
}

#[test]
fn requests_behind_tool_outputs_are_known() {
    let tool = ConversationMessage::tool_result("a", "bash", "1", false);
    assert!(!request_ends_with_tool_result(&vec![]));
    assert!(request_ends_with_tool_result(&vec![
        ConversationMessage::user_text("x"),
        tool
    ]));
    assert!(!request_ends_with_tool_result(&vec![ConversationMessage::user_text("x")]));
}

fn summary() -> TurnSummary {
    TurnSummary {
        assistant_messages: vec![
            ConversationMessage::assistant(vec![
                ContentBlock::Text {
                    text: "looking".to_string(),
                },
                tool_use("a", "bash", "{}"),
            ]),
            ConversationMessage::assistant(vec![
                ContentBlock::Text {
                    text: "do".to_string(),
                },
                ContentBlock::Text {
                    text: "ne".to_string(),
                },
            ]),
        ],
        tool_results: vec![ConversationMessage::tool_result("a", "bash", "ok", true)],
        prompt_cache_events: vec![PromptCacheEvent {
            unexpected: false,
            reason: "r".to_string(),
            reason_code: "c".to_string(),
            diagnostic_scope: "s".to_string(),
            changed_components: vec!["tools".to_string()],
            previous_cache_read_input_tokens: 9,
            current_cache_read_input_tokens: 5,
            token_drop: 4,
            elapsed_seconds: 2,
        }],
        iterations: 2,
        usage: TokenUsage {
            input_tokens: 7,
            output_tokens: 3,
            cache_creation_input_tokens: 2,
            cache_read_input_tokens: 1,
        },
        auto_compaction: Some(6),
    }
}

#[test]
fn last_message_gives_the_final_text() {
    assert_eq!(final_assistant_text(&summary().assistant_messages), "done");
    assert_eq!(final_assistant_text(&vec![]), "");
}

#[test]
fn tool_calls_and_outputs_are_collected() {
    let summary = summary();
    let uses = collect_tool_uses(&summary.assistant_messages);
    assert_eq!(uses.len(), 1);
    assert_eq!(uses[0].str_field("id"), Some("a"));
    assert_eq!(uses[0].str_field("input"), Some("{}"));
    let results = collect_tool_results(&summary.tool_results);
    assert_eq!(results.len(), 1);
    assert_eq!(results[0].str_field("tool_use_id"), Some("a"));
    assert!(results[0].flag("is_error"));
    let events = collect_prompt_cache_events(&summary.prompt_cache_events);
    assert_eq!(events[0].u64_or("token_drop", 0), 4);
    assert_eq!(events[0].str_field("reason_code"), Some("c"));
}

#[test]
fn turn_document_tells_of_the_whole_turn() {
    let document = turn_document(&summary(), "opus", "$0.01");
    assert_eq!(document.str_field("message"), Some("done"));
    assert_eq!(document.str_field("model"), Some("opus"));
    assert_eq!(document.u64_or("iterations", 0), 2);
    let compaction = document.get("auto_compaction").expect("compaction");
    assert_eq!(compaction.u64_or("removed_messages", 0), 6);
    assert_eq!(
        compaction.str_field("notice"),
        Some("[auto-compacted: removed 6 messages]")
    );
    let usage = document.get("usage").expect("usage");
    assert_eq!(usage.u64_or("cache_read_input_tokens", 0), 1);
    assert_eq!(document.str_field("estimated_cost"), Some("$0.01"));
    let mut plain = summary();
    plain.auto_compaction = None;
    assert_eq!(
        turn_document(&plain, "opus", "").get("auto_compaction"),
        Some(&Json::Null)
    );
}

#[test]
fn parts_of_a_conversation_are_sent_apart() {
    let front = || {
        vec![
            ConversationMessage::user_text("hello"),
            ConversationMessage::assistant(vec![tool_use("1", "bash", "{}")]),
            ConversationMessage::tool_result("1", "bash", "ok", false),
        ]
    };
    let sent = |messages: Vec<ConversationMessage>| {
        convert_messages(&messages)
            .iter()
            .map(|message| format!("{message:?}"))
            .collect::<Vec<_>>()
    };
    let back = || vec![ConversationMessage::user_text("go on")];
    let mut all = front();
    all.extend(back());
    let mut apart = sent(front());
    apart.extend(sent(back()));
    assert_eq!(sent(all), apart);
    let mut seam = front();
    seam.push(ConversationMessage::assistant(vec![]));
    seam.push(ConversationMessage::tool_result("2", "bash", "more", false));
    assert_eq!(convert_messages(&seam).len(), 3);
}
