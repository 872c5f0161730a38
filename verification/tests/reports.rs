use claw::permissions::normalize_permission_mode;
use claw::reports::{
    format_auto_compaction_notice, format_bughunter_report, format_compact_report,
    format_cost_report, format_export_report, format_issue_report, format_model_report,
    format_model_switch_report, format_permissions_report, format_permissions_switch_report,
    format_pr_report, format_resume_report, format_ultraplan_report, format_unknown_slash_command,
    format_unknown_slash_command_message, render_resume_usage, run_pr, total_tokens,
    validate_no_args,
};
use claw::stream::TokenUsage;

#[test]
fn resume_report_uses_sectioned_layout() {
    let report = format_resume_report("session.jsonl", 14, 6);
    assert!(report.contains("Session resumed"));
    assert!(report.contains("Session file     session.jsonl"));
    assert!(report.contains("Messages         14"));
    assert!(report.contains("Turns            6"));
}

#[test]
fn compact_report_uses_structured_output() {
    let compacted = format_compact_report(8, 5, false);
    assert!(compacted.contains("Compact"));
    assert!(compacted.contains("Result           compacted"));
    assert!(compacted.contains("Messages removed 8"));
    let skipped = format_compact_report(0, 3, true);
    assert!(skipped.contains("Result           skipped"));
}

#[test]
fn cost_report_uses_sectioned_layout() {
    let report = format_cost_report(&TokenUsage {
        input_tokens: 20,
        output_tokens: 8,
        cache_creation_input_tokens: 3,
        cache_read_input_tokens: 1,
    });
    assert!(report.contains("Cost"));
    assert!(report.contains("Input tokens     20"));
    assert!(report.contains("Output tokens    8"));
    assert!(report.contains("Cache create     3"));
    assert!(report.contains("Cache read       1"));
    assert!(report.contains("Total tokens     32"));
}

#[test]
fn token_totals_do_not_wrap() {
    let usage = TokenUsage {
        input_tokens: u32::MAX,
        output_tokens: u32::MAX,
        cache_creation_input_tokens: u32::MAX,
        cache_read_input_tokens: u32::MAX,
    };
    assert_eq!(total_tokens(&usage), 4 * u64::from(u32::MAX));
}

#[test]
fn permissions_report_uses_sectioned_layout() {
    let report = format_permissions_report("workspace-write");
    assert!(report.contains("Permissions"));
    assert!(report.contains("Active mode      workspace-write"));
    assert!(report.contains("Modes"));
    assert!(report.contains("read-only          ○ available Read/search tools only"));
    assert!(report.contains("workspace-write    ● current   Edit files inside the workspace"));
    assert!(report.contains("danger-full-access ○ available Unrestricted tool access"));
}

#[test]
fn permissions_switch_report_is_structured() {
    let report = format_permissions_switch_report("read-only", "workspace-write");
    assert!(report.contains("Permissions updated"));
    assert!(report.contains("Result           mode switched"));
    assert!(report.contains("Previous mode    read-only"));
    assert!(report.contains("Active mode      workspace-write"));
    assert!(report.contains("Applies to       subsequent tool calls"));
}

#[test]
fn model_report_uses_sectioned_layout() {
    let report = format_model_report("sonnet", 12, 4);
    assert!(report.contains("Model"));
    assert!(report.contains("Current model    sonnet"));
    assert!(report.contains("Session messages 12"));
    assert!(report.contains("Switch models with /model <name>"));
}

#[test]
fn model_switch_report_preserves_context_summary() {
    let report = format_model_switch_report("sonnet", "opus", 9);
    assert!(report.contains("Model updated"));
    assert!(report.contains("Previous         sonnet"));
    assert!(report.contains("Current          opus"));
    assert!(report.contains("Preserved msgs   9"));
}

#[test]
fn runtime_slash_reports_describe_command_behavior() {
    let bughunter = format_bughunter_report(Some("runtime"));
    assert!(bughunter.contains("Scope            runtime"));
    assert!(bughunter.contains("inspect the selected code for likely bugs"));

    let ultraplan = format_ultraplan_report(Some("ship the release"));
    assert!(ultraplan.contains("Task             ship the release"));
    assert!(ultraplan.contains("break work into a multi-step execution plan"));

    let pr = format_pr_report("feature/ux", Some("ready for review"));
    assert!(pr.contains("Branch           feature/ux"));
    assert!(pr.contains("draft or create a pull request"));

    let issue = format_issue_report(Some("flaky test"));
    assert!(issue.contains("Context          flaky test"));
    assert!(issue.contains("draft or create a GitHub issue"));
}

#[test]
fn reports_have_defaults() {
    assert!(format_bughunter_report(None).contains("Scope            the current repository"));
    assert!(format_ultraplan_report(None).contains("Task             the current repo work"));
    assert!(format_issue_report(None).contains("Context          none"));
    assert!(run_pr(None, None).contains("Branch           unknown\n  Context          none"));
    assert!(run_pr(Some("main"), None).contains("Branch           main"));
    assert_eq!(
        format_auto_compaction_notice(3),
        "[auto-compacted: removed 3 messages]"
    );
    assert_eq!(
        format_export_report("a.md", 2),
        "Export\n  Result           wrote transcript\n  File             a.md\n  Messages         2"
    );
}

#[test]
fn no_arg_commands_reject_unexpected_arguments() {
    assert!(validate_no_args("/commit", None).is_ok());

    let error = validate_no_args("/commit", Some("now"))
        .expect_err("unexpected arguments should fail")
        .to_string();
    assert!(error.contains("/commit does not accept arguments"));
    assert!(error.contains("Received: now"));
    assert!(validate_no_args("/commit", Some("  ")).is_ok());
}

#[test]
fn normalizes_supported_permission_modes() {
    assert_eq!(normalize_permission_mode("read-only"), Some("read-only"));
    assert_eq!(
        normalize_permission_mode("workspace-write"),
        Some("workspace-write")
    );
    assert_eq!(
        normalize_permission_mode("danger-full-access"),
        Some("danger-full-access")
    );
    assert_eq!(normalize_permission_mode("unknown"), None);
}

#[test]
fn resume_usage_mentions_latest_shortcut() {
    let usage = render_resume_usage();
    assert!(usage.contains("/resume <session-path|session-id|latest>"));
    assert!(usage.contains(".claw/sessions/<session-id>.jsonl"));
    assert!(usage.contains("/session list"));
}

#[test]
fn formats_unknown_slash_command_with_suggestions() {
    let report = format_unknown_slash_command_message("statsu", &vec!["/status".to_string()], None);
    assert!(report.contains("unknown slash command: /statsu"));
    assert!(report.contains("Did you mean"));
    assert!(report.contains("Use /help"));
}

#[test]
fn unknown_slash_command_guidance_suggests_nearby_commands() {
    let message = format_unknown_slash_command("stats", &vec!["/status".to_string()], None);
    assert!(message.contains("Unknown slash command: /stats"));
    assert!(message.contains("/status"));
    assert!(message.contains("/help"));
}

#[test]
fn unknown_commands_without_suggestions_point_at_the_help() {
    assert_eq!(
        format_unknown_slash_command_message("zzz", &vec![], None),
        "unknown slash command: /zzz. Use /help to list available commands."
    );
    assert_eq!(
        format_unknown_slash_command_message(
            "stat",
            &vec!["/status".to_string(), "/stats".to_string()],
            None
        ),
        "unknown slash command: /stat. Did you mean /status, /stats? Use /help to list available commands."
    );
}

#[test]
fn unknown_commands_of_plugins_come_with_a_note() {
    let note = "it belongs to a plugin";
    assert_eq!(
        format_unknown_slash_command_message("plugin:hud", &vec![], Some(note)),
        "unknown slash command: /plugin:hud. it belongs to a plugin Use /help to list available commands."
    );
    assert_eq!(
        format_unknown_slash_command("plugin:hud", &vec!["/help".to_string()], Some(note)),
        "Unknown slash command: /plugin:hud\n  Did you mean     /help\n  it belongs to a plugin\n  Help             /help lists available slash commands"
    );
}

#[test]
fn model_report_names_the_model() {
    assert_eq!(
        format_model_report("sonnet", 12, 4),
        "Model\n  Current model    sonnet\n  Session messages 12\n  Session turns    4\n\nUsage\n  Inspect current model with /model\n  Switch models with /model <name>"
    );
}

#[test]
fn model_switch_report_names_both_models() {
    assert_eq!(
        format_model_switch_report("sonnet", "opus", 9),
        "Model updated\n  Previous         sonnet\n  Current          opus\n  Preserved msgs   9"
    );
}

const PLUGIN_NOTE: &str = "Compatibility note: `/oh-my-claudecode:*` is an OMC plugin command. `claw` does not yet load plugin slash commands, statusline stdin, or session hooks.";

#[test]
fn formats_namespaced_omc_slash_command_with_contract_guidance() {
    let report =
        format_unknown_slash_command_message("oh-my-claudecode:hud", &vec![], Some(PLUGIN_NOTE));
    assert!(report.contains("unknown slash command: /oh-my-claudecode:hud"));
    assert!(report.contains("OMC plugin command"));
    assert!(report.contains("plugin slash commands"));
    assert!(report.contains("statusline"));
    assert!(report.contains("session hooks"));
}

#[test]
fn unknown_omc_slash_command_guidance_explains_runtime_gap() {
    let message = format_unknown_slash_command("oh-my-claudecode:hud", &vec![], Some(PLUGIN_NOTE));
    assert!(message.contains("Unknown slash command: /oh-my-claudecode:hud"));
    assert!(message.contains("OMC plugin command"));
    assert!(message.contains("does not yet load plugin slash commands"));
}
