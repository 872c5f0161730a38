use claw::progress::{
    describe_tool_progress, format_internal_prompt_progress_line, InternalPromptProgressEvent,
    InternalPromptProgressReporter, InternalPromptProgressState,
};

#[test]
fn ultraplan_progress_lines_include_phase_step_and_elapsed_status() {
    let snapshot = InternalPromptProgressState {
        command_label: "Ultraplan",
        task_label: "ship plugin progress".to_string(),
        step: 3,
        phase: "running read_file".to_string(),
        detail: Some("reading rust/crates/rusty-cli/src/main.rs".to_string()),
        saw_final_text: false,
    };

    let started = format_internal_prompt_progress_line(
        InternalPromptProgressEvent::Started,
        &snapshot,
        0,
        None,
    );
    let heartbeat = format_internal_prompt_progress_line(
        InternalPromptProgressEvent::Heartbeat,
        &snapshot,
        9,
        None,
    );
    let completed = format_internal_prompt_progress_line(
        InternalPromptProgressEvent::Complete,
        &snapshot,
        12,
        None,
    );
    let failed = format_internal_prompt_progress_line(
        InternalPromptProgressEvent::Failed,
        &snapshot,
        12,
        Some("network timeout"),
    );

    assert!(started.contains("planning started"));
    assert!(started.contains("current step 3"));
    assert!(heartbeat.contains("heartbeat"));
    assert!(heartbeat.contains("9s elapsed"));
    assert!(heartbeat.contains("phase running read_file"));
    assert!(completed.contains("completed"));
    assert!(completed.contains("3 steps total"));
    assert!(failed.contains("failed"));
    assert!(failed.contains("network timeout"));
}

#[test]
fn describe_tool_progress_summarizes_known_tools() {
    assert_eq!(
        describe_tool_progress("read_file", r#"{"path":"src/main.rs"}"#),
        "reading src/main.rs"
    );
    assert!(
        describe_tool_progress("bash", r#"{"command":"cargo test -p rusty-cli"}"#)
            .contains("cargo test -p rusty-cli")
    );
    assert_eq!(
        describe_tool_progress("grep_search", r#"{"pattern":"ultraplan","path":"rust"}"#),
        "grep `ultraplan` in rust"
    );
}

#[test]
fn other_tools_are_described_too() {
    assert_eq!(describe_tool_progress("bash", "{}"), "running shell command");
    assert_eq!(describe_tool_progress("glob_search", "{}"), "glob `?` in .");
    assert_eq!(describe_tool_progress("WebSearch", "{}"), "running web search");
    assert_eq!(
        describe_tool_progress("WebSearch", r#"{"query":"rust"}"#),
        "query rust"
    );
    assert_eq!(describe_tool_progress("other", ""), "running other");
    assert_eq!(
        describe_tool_progress("other", r#"{ "a": 1 }"#),
        r#"other: {"a":1}"#
    );
}

#[test]
fn progress_moves_from_planning_to_drafting() {
    let mut reporter = InternalPromptProgressReporter::ultraplan("ship");
    assert_eq!(
        reporter.emit(InternalPromptProgressEvent::Started, 0, None),
        "🧭 Ultraplan status · planning started · current step pending · phase planning started · task: ship"
    );
    assert_eq!(
        reporter.mark_model_phase(1),
        "… Ultraplan status · current step 1 · phase analyzing request · task: ship"
    );
    assert_eq!(
        reporter.mark_tool_phase("read_file", r#"{"path":"a.rs"}"#, 1),
        "… Ultraplan status · current step 2 · phase running read_file · reading a.rs"
    );
    assert_eq!(
        reporter.mark_model_phase(2),
        "… Ultraplan status · current step 3 · phase reviewing findings · task: ship"
    );
    assert_eq!(reporter.mark_text_phase("  ", 2), None);
    assert_eq!(
        reporter.mark_text_phase("\n# Plan\nrest", 2),
        Some(
            "… Ultraplan status · current step 4 · phase drafting final plan · # Plan".to_string()
        )
    );
    assert_eq!(reporter.mark_text_phase("more", 2), None);
    assert_eq!(
        reporter.emit_heartbeat(6),
        "… Ultraplan heartbeat · 6s elapsed · current step 4 · phase drafting final plan · # Plan"
    );
    assert_eq!(
        reporter.emit(InternalPromptProgressEvent::Failed, 7, None),
        "✘ Ultraplan status · failed · 7s elapsed · unknown error"
    );
}
