use claw::json::{parse_json, Json};
use claw::messages::{ContentBlock, ConversationMessage, MessageRole};
use claw::permissions::PermissionMode;
use claw::prompt::{
    build_prompt_slash_command_initial_messages, format_prompt_slash_command_input,
    format_prompt_slash_command_metadata, format_prompt_slash_skill_listing,
    merge_prompt_with_stdin, read_piped_stdin, reads_stdin,
};

#[test]
fn merge_prompt_with_stdin_returns_prompt_unchanged_when_no_pipe() {
    let prompt = "Review this";
    let merged = merge_prompt_with_stdin(prompt, None);
    assert_eq!(merged, "Review this");
}

#[test]
fn merge_prompt_with_stdin_ignores_whitespace_only_pipe() {
    let prompt = "Review this";
    let piped = "   \n\t\n  ";
    let merged = merge_prompt_with_stdin(prompt, Some(piped));
    assert_eq!(merged, "Review this");
}

#[test]
fn merge_prompt_with_stdin_appends_piped_content_as_context() {
    let prompt = "Review this";
    let piped = "fn main() { println!(\"hi\"); }\n";
    let merged = merge_prompt_with_stdin(prompt, Some(piped));
    assert_eq!(merged, "Review this\n\nfn main() { println!(\"hi\"); }");
}

#[test]
fn merge_prompt_with_stdin_trims_surrounding_whitespace_on_pipe() {
    let prompt = "Summarize";
    let piped = "\n\n  some notes  \n\n";
    let merged = merge_prompt_with_stdin(prompt, Some(piped));
    assert_eq!(merged, "Summarize\n\nsome notes");
}

#[test]
fn merge_prompt_with_stdin_returns_pipe_when_prompt_is_empty() {
    let prompt = "";
    let piped = "standalone body";
    let merged = merge_prompt_with_stdin(prompt, Some(piped));
    assert_eq!(merged, "standalone body");
}

#[test]
fn merged_prompt_starts_with_the_prompt_and_ends_with_the_pipe() {
    let merged = merge_prompt_with_stdin("look at", Some(" \u{a0}caf\u{e9}\u{3000}"));
    assert!(merged.starts_with("look at"));
    assert!(merged.ends_with("caf\u{e9}"));
}

#[test]
fn stdin_is_read_only_where_nothing_is_asked() {
    assert!(reads_stdin(PermissionMode::DangerFullAccess));
    assert!(!reads_stdin(PermissionMode::WorkspaceWrite));
    assert!(!reads_stdin(PermissionMode::ReadOnly));
}

#[test]
fn piped_content_is_kept_raw() {
    assert_eq!(
        read_piped_stdin(false, Some(" body \n".to_string())),
        Some(" body \n".to_string())
    );
    assert_eq!(read_piped_stdin(true, Some("body".to_string())), None);
    assert_eq!(read_piped_stdin(false, Some(" \n".to_string())), None);
    assert_eq!(read_piped_stdin(false, None), None);
}

#[test]
fn formats_prompt_slash_command_metadata_like_upstream() {
    assert_eq!(
        format_prompt_slash_command_metadata("simplify", None),
        "<command-message>simplify</command-message>\n<command-name>/simplify</command-name>"
    );
    assert_eq!(
        format_prompt_slash_command_metadata("simplify", Some("focus on duplication")),
        "<command-message>simplify</command-message>\n<command-name>/simplify</command-name>\n<command-args>focus on duplication</command-args>"
    );
}

#[test]
fn formats_prompt_slash_command_input_like_user_invocation() {
    assert_eq!(format_prompt_slash_command_input("simplify", None), "/simplify");
    assert_eq!(
        format_prompt_slash_command_input("simplify", Some("focus on duplication")),
        "/simplify focus on duplication"
    );
}

fn skill_listing() -> Json {
    parse_json(
        r#"{
            "skills": [
                {
                    "name": "update-config",
                    "description": "Configure the harness via settings.json",
                    "active": true
                },
                {
                    "name": "shadowed-skill",
                    "description": "Should not be surfaced",
                    "active": false
                },
                {
                    "name": "simplify",
                    "description": "Review changed code for reuse, quality, and efficiency",
                    "active": true
                }
            ]
        }"#,
    )
    .expect("listing should parse")
}

#[test]
fn formats_prompt_slash_skill_listing_like_claude_attachment_normalization() {
    assert_eq!(
        format_prompt_slash_skill_listing(&skill_listing()),
        Some(
            "<system-reminder>\nThe following skills are available for use with the Skill tool:\n\n- update-config: Configure the harness via settings.json\n- simplify: Review changed code for reuse, quality, and efficiency\n</system-reminder>"
                .to_string()
        )
    );
}

#[test]
fn builds_prompt_slash_initial_messages_without_skill_listing_when_none_are_available() {
    let empty = parse_json(r#"{"skills":[]}"#).expect("listing should parse");
    for listing in [None, Some(&empty)] {
        let messages =
            build_prompt_slash_command_initial_messages("simplify", None, "# Simplify", listing);
        assert_eq!(messages.len(), 2);
        assert_eq!(messages[0].role, MessageRole::User);
        assert_eq!(
            messages[0].blocks,
            ConversationMessage::user_text(
                "<command-message>simplify</command-message>\n<command-name>/simplify</command-name>"
            )
            .blocks
        );
        assert_eq!(messages[1].role, MessageRole::User);
        assert_eq!(
            messages[1].blocks,
            ConversationMessage::user_text("# Simplify").blocks
        );
    }
}

#[test]
fn initial_messages_end_with_the_skills() {
    let listing = skill_listing();
    let messages = build_prompt_slash_command_initial_messages(
        "simplify",
        Some("now"),
        "# Simplify",
        Some(&listing),
    );
    assert_eq!(messages.len(), 3);
    assert!(matches!(
        &messages[2].blocks[0],
        ContentBlock::Text { text } if text.starts_with("<system-reminder>")
    ));
}
