use claw::tool_display::{
    format_tool_call_start, format_tool_result, short_tool_id, summarize_tool_payload_for_markdown,
    truncate_for_summary, truncate_output_for_display,
};

#[test]
fn summarize_tool_payload_for_markdown_compacts_json_and_truncates_overflow() {
    let json_payload = r#"{
            "command":   "ls -la",
            "cwd": "/tmp"
        }"#;
    let long_payload = "a".repeat(600);

    let compacted = summarize_tool_payload_for_markdown(json_payload);
    let truncated = summarize_tool_payload_for_markdown(&long_payload);

    assert_eq!(compacted, r#"{"command":"ls -la","cwd":"/tmp"}"#);
    assert!(truncated.ends_with('…'));
    assert!(truncated.chars().count() <= 281);
}

#[test]
fn short_tool_id_truncates_long_identifiers_with_ellipsis() {
    let long = "toolu_01ABCDEFGHIJKLMN";
    let short = "tool_1";

    let trimmed_long = short_tool_id(long);
    let trimmed_short = short_tool_id(short);

    assert_eq!(trimmed_long, "toolu_01ABCD…");
    assert_eq!(trimmed_short, "tool_1");
}

#[test]
fn tool_rendering_helpers_compact_output() {
    let start = format_tool_call_start("read_file", r#"{"path":"src/main.rs"}"#);
    assert!(start.contains("read_file"));
    assert!(start.contains("src/main.rs"));

    let done = format_tool_result(
        "read_file",
        r#"{"file":{"filePath":"src/main.rs","content":"hello","numLines":1,"startLine":1,"totalLines":1}}"#,
        false,
    );
    assert!(done.contains("📄 Read src/main.rs"));
    assert!(done.contains("hello"));
}

#[test]
fn tool_rendering_truncates_large_read_output_for_display_only() {
    let content = (0..200)
        .map(|index| format!("line {index:03}"))
        .collect::<Vec<_>>()
        .join("\\n");
    let output = format!(
        r#"{{"file":{{"filePath":"src/main.rs","content":"{content}","numLines":200,"startLine":1,"totalLines":200}}}}"#
    );

    let rendered = format_tool_result("read_file", &output, false);

    assert!(rendered.contains("line 000"));
    assert!(rendered.contains("line 079"));
    assert!(!rendered.contains("line 199"));
    assert!(rendered.contains("full result preserved in session"));
    assert!(output.contains("line 199"));
}

#[test]
fn tool_rendering_truncates_large_bash_output_for_display_only() {
    let stdout = (0..120)
        .map(|index| format!("stdout {index:03}"))
        .collect::<Vec<_>>()
        .join("\\n");
    let output = format!(
        r#"{{"stdout":"{stdout}","stderr":"","returnCodeInterpretation":"completed successfully"}}"#
    );

    let rendered = format_tool_result("bash", &output, false);

    assert!(rendered.contains("stdout 000"));
    assert!(rendered.contains("stdout 059"));
    assert!(!rendered.contains("stdout 119"));
    assert!(rendered.contains("full result preserved in session"));
    assert!(output.contains("stdout 119"));
}

#[test]
fn tool_rendering_truncates_generic_long_output_for_display_only() {
    let items = (0..120)
        .map(|index| format!("\"payload {index:03}\""))
        .collect::<Vec<_>>()
        .join(",");
    let output = format!(r#"{{"summary":"plugin payload","items":[{items}]}}"#);

    let rendered = format_tool_result("plugin_echo", &output, false);

    assert!(rendered.contains("plugin_echo"));
    assert!(rendered.contains("payload 000"));
    assert!(rendered.contains("payload 040"));
    assert!(!rendered.contains("payload 080"));
    assert!(!rendered.contains("payload 119"));
    assert!(rendered.contains("full result preserved in session"));
    assert!(output.contains("payload 119"));
}

#[test]
fn tool_rendering_truncates_raw_generic_output_for_display_only() {
    let output = (0..120)
        .map(|index| format!("raw {index:03}"))
        .collect::<Vec<_>>()
        .join("\n");

    let rendered = format_tool_result("plugin_echo", &output, false);

    assert!(rendered.contains("plugin_echo"));
    assert!(rendered.contains("raw 000"));
    assert!(rendered.contains("raw 059"));
    assert!(!rendered.contains("raw 119"));
    assert!(rendered.contains("full result preserved in session"));
    assert!(output.contains("raw 119"));
}

#[test]
fn summaries_and_displays_are_bounded() {
    assert_eq!(truncate_for_summary("abcdef", 3), "abc…");
    assert_eq!(truncate_for_summary("abc", 3), "abc");
    let displayed = truncate_output_for_display("a\nb\nc\n", 2, 100);
    assert!(displayed.starts_with("a\nb\n"));
    assert!(!displayed.contains('c') || displayed.contains("preserved"));
    assert_eq!(truncate_output_for_display("a\nb", 2, 100), "a\nb");
}
