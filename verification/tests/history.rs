use claw::calendar::{civil_date, format_history_timestamp};
use claw::history::{
    choose_prompt_history, collect_session_prompt_history, parse_history_count,
    prompt_history_document, record_prompt_history, render_prompt_history_report,
    PromptHistoryEntry,
};
use claw::messages::{ContentBlock, ConversationMessage};
use claw::repl::print_prompt_history;

fn entry(timestamp_ms: u64, text: &str) -> PromptHistoryEntry {
    PromptHistoryEntry {
        timestamp_ms,
        text: text.to_string(),
    }
}

#[test]
fn parse_history_count_defaults_to_twenty_when_missing() {
    let raw: Option<&str> = None;
    let parsed = parse_history_count(raw);
    assert_eq!(parsed, Ok(20));
}

#[test]
fn parse_history_count_accepts_positive_integers() {
    let raw = Some("25");
    let parsed = parse_history_count(raw);
    assert_eq!(parsed, Ok(25));
}

#[test]
fn parse_history_count_rejects_zero() {
    let raw = Some("0");
    let parsed = parse_history_count(raw);
    assert!(parsed.is_err());
    assert!(parsed.unwrap_err().contains("greater than 0"));
}

#[test]
fn parse_history_count_rejects_non_numeric() {
    let raw = Some("abc");
    let parsed = parse_history_count(raw);
    assert!(parsed.is_err());
    assert!(parsed.unwrap_err().contains("invalid count 'abc'"));
}

#[test]
fn format_history_timestamp_renders_iso8601_utc() {
    // 2023-01-15T12:34:56.789Z -> 1673786096789 ms
    let timestamp_ms: u64 = 1_673_786_096_789;
    let formatted = format_history_timestamp(timestamp_ms);
    assert_eq!(formatted, "2023-01-15T12:34:56.789Z");
}

#[test]
fn format_history_timestamp_renders_unix_epoch_origin() {
    let timestamp_ms: u64 = 0;
    let formatted = format_history_timestamp(timestamp_ms);
    assert_eq!(formatted, "1970-01-01T00:00:00.000Z");
}

#[test]
fn dates_follow_leap_years() {
    assert_eq!(
        format_history_timestamp(951_782_400_000),
        "2000-02-29T00:00:00.000Z"
    );
    assert_eq!(
        format_history_timestamp(4_107_542_399_999),
        "2100-02-28T23:59:59.999Z"
    );
    assert_eq!(
        format_history_timestamp(4_107_542_400_000),
        "2100-03-01T00:00:00.000Z"
    );
    assert_eq!(
        format_history_timestamp(1_735_689_599_000),
        "2024-12-31T23:59:59.000Z"
    );
    let last = civil_date(u64::MAX / 86_400_000);
    assert_eq!((last.year, last.month, last.day), (584_556_019, 4, 3));
}

#[test]
fn render_prompt_history_report_lists_entries_with_timestamps() {
    let entries = vec![
        entry(1_673_786_096_000, "first prompt"),
        entry(1_673_786_100_000, "second prompt"),
    ];
    let rendered = render_prompt_history_report(&entries, 10);
    assert!(rendered.contains("Prompt history"));
    assert!(rendered.contains("Total            2"));
    assert!(rendered.contains("Showing          2 most recent"));
    assert!(rendered.contains("Reverse search   Ctrl-R in the REPL"));
    assert!(rendered.contains("2023-01-15T12:34:56.000Z"));
    assert!(rendered.contains("first prompt"));
    assert!(rendered.contains("second prompt"));
}

#[test]
fn render_prompt_history_report_truncates_to_limit_from_the_tail() {
    let entries = vec![entry(1_000, "older"), entry(2_000, "middle"), entry(3_000, "latest")];
    let rendered = render_prompt_history_report(&entries, 2);
    assert!(rendered.contains("Total            3"));
    assert!(rendered.contains("Showing          2 most recent"));
    assert!(!rendered.contains("older"));
    assert!(rendered.contains("middle"));
    assert!(rendered.contains("latest"));
}

#[test]
fn render_prompt_history_report_handles_empty_history() {
    let entries: Vec<PromptHistoryEntry> = Vec::new();
    let rendered = render_prompt_history_report(&entries, 10);
    assert!(rendered.contains("no prompts recorded yet"));
}

#[test]
fn history_lines_are_numbered_and_cut() {
    let entries = vec![entry(0, "one"), entry(0, &format!("  {}\nrest", "x".repeat(90)))];
    let rendered = render_prompt_history_report(&entries, 1);
    assert!(rendered.ends_with(&format!(
        "\n    2. [1970-01-01T00:00:00.000Z] {}...",
        "x".repeat(77)
    )));
}

#[test]
fn collect_session_prompt_history_extracts_user_text_blocks() {
    let messages = vec![
        ConversationMessage::user_text("hello"),
        ConversationMessage::user_text("world"),
    ];
    let entries = collect_session_prompt_history(&vec![], &messages, 7);
    assert_eq!(entries.len(), 2);
    assert_eq!(entries[0].text, "hello");
    assert_eq!(entries[1].text, "world");
}

#[test]
fn prompts_are_taken_from_the_best_record() {
    let messages = vec![
        ConversationMessage::user_text("asked"),
        ConversationMessage::assistant(vec![ContentBlock::Text {
            text: "answered".to_string(),
        }]),
        ConversationMessage::tool_result("t", "bash", "ok", false),
    ];
    let recorded = vec![entry(1, "recorded")];
    let live = vec![entry(2, "live")];
    assert_eq!(
        choose_prompt_history(&recorded, &live, &messages, 9),
        recorded
    );
    assert_eq!(choose_prompt_history(&vec![], &live, &messages, 9), live);
    assert_eq!(
        choose_prompt_history(&vec![], &vec![], &messages, 9),
        vec![entry(9, "asked")]
    );
}

#[test]
fn prompts_are_recorded_with_the_time() {
    let mut live = Vec::new();
    record_prompt_history(&mut live, "a", Some(5), 1);
    record_prompt_history(&mut live, "b", None, 1);
    record_prompt_history(&mut live, "c", Some(u128::MAX), 1);
    assert_eq!(live, vec![entry(5, "a"), entry(1, "b"), entry(u64::MAX, "c")]);
}

#[test]
fn history_document_lists_the_shown_entries() {
    let entries = vec![entry(1, "a"), entry(2, "b")];
    let document = prompt_history_document(&entries, 1);
    assert_eq!(document.u64_or("total", 0), 2);
    assert_eq!(document.u64_or("showing", 0), 1);
    let shown = document.get("entries").and_then(|e| e.as_array()).expect("entries");
    assert_eq!(shown.len(), 1);
    assert_eq!(shown[0].str_field("text"), Some("b"));
    assert_eq!(shown[0].u64_or("timestamp_ms", 0), 2);
}

#[test]
fn history_command_reports_bad_counts() {
    let live = vec![entry(2, "live")];
    assert!(print_prompt_history(Some("3"), &vec![], &live, &vec![], 0)
        .expect("history should render")
        .contains("live"));
    assert_eq!(
        print_prompt_history(Some("-1"), &vec![], &live, &vec![], 0),
        Err("history: invalid count '-1'. Expected a positive integer.".to_string())
    );
}
