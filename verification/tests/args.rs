use claw::args::{
    default_model, emit_login_browser_open_failure, format_connected_line, known_model_aliases,
    parse_export_args, resolve_model_alias,
    resolve_repl_model, ExportRequest, ModelAlias,
};
use claw::output::CliOutputFormat;
use claw::sessions::LATEST_SESSION_REFERENCE;

fn strings(args: &[&str]) -> Vec<String> {
    args.iter().map(|arg| arg.to_string()).collect()
}

#[test]
fn parses_export_subcommand_with_positional_output_path() {
    let parsed = parse_export_args(&strings(&["conversation.md"]), CliOutputFormat::Text)
        .expect("export with path should parse");
    assert_eq!(
        parsed,
        ExportRequest {
            session_reference: LATEST_SESSION_REFERENCE.to_string(),
            output_path: Some("conversation.md".to_string()),
            output_format: CliOutputFormat::Text,
        }
    );
}

#[test]
fn parses_export_subcommand_with_session_and_output_flags() {
    let parsed = parse_export_args(
        &strings(&["--session", "session-alpha", "--output", "/tmp/share.md"]),
        CliOutputFormat::Text,
    )
    .expect("export flags should parse");
    assert_eq!(
        parsed,
        ExportRequest {
            session_reference: "session-alpha".to_string(),
            output_path: Some("/tmp/share.md".to_string()),
            output_format: CliOutputFormat::Text,
        }
    );
}

#[test]
fn parses_export_subcommand_with_inline_flag_values() {
    let parsed = parse_export_args(
        &strings(&["--session=session-beta", "--output=/tmp/beta.md"]),
        CliOutputFormat::Text,
    )
    .expect("export inline flags should parse");
    assert_eq!(
        parsed,
        ExportRequest {
            session_reference: "session-beta".to_string(),
            output_path: Some("/tmp/beta.md".to_string()),
            output_format: CliOutputFormat::Text,
        }
    );
}

#[test]
fn parses_export_subcommand_with_json_output_format() {
    let parsed = parse_export_args(&strings(&["/tmp/notes.md"]), CliOutputFormat::Json)
        .expect("json export should parse");
    assert_eq!(
        parsed,
        ExportRequest {
            session_reference: LATEST_SESSION_REFERENCE.to_string(),
            output_path: Some("/tmp/notes.md".to_string()),
            output_format: CliOutputFormat::Json,
        }
    );
}

#[test]
fn rejects_unknown_export_options_with_helpful_message() {
    let error = parse_export_args(&strings(&["--bogus"]), CliOutputFormat::Text)
        .expect_err("unknown export option should fail");
    assert!(error.contains("unknown export option: --bogus"));
}

#[test]
fn rejects_export_with_extra_positional_after_path() {
    let error = parse_export_args(&strings(&["first.md", "second.md"]), CliOutputFormat::Text)
        .expect_err("multiple positionals should fail");
    assert!(error.contains("unexpected export argument: second.md"));
}

#[test]
fn parse_export_args_helper_defaults_to_latest_reference_and_no_output() {
    let args: Vec<String> = vec![];
    let parsed =
        parse_export_args(&args, CliOutputFormat::Text).expect("empty export args should parse");
    assert_eq!(
        parsed,
        ExportRequest {
            session_reference: LATEST_SESSION_REFERENCE.to_string(),
            output_path: None,
            output_format: CliOutputFormat::Text,
        }
    );
}

#[test]
fn export_flags_need_their_values() {
    for flag in ["--session", "--output", "-o"] {
        let error = parse_export_args(&strings(&[flag]), CliOutputFormat::Text)
            .expect_err("a flag without its value should fail");
        assert_eq!(error, format!("missing value for {flag}"));
    }
}

#[test]
fn format_connected_line_renders_anthropic_provider_for_claude_model() {
    let line = format_connected_line("sonnet-4-6");
    assert_eq!(line, "Connected: sonnet-4-6 via anthropic");
}

#[test]
fn resolve_repl_model_returns_user_supplied_model_unchanged_when_explicit() {
    let user_model = "acme-sonnet-4-6".to_string();
    let resolved = resolve_repl_model(
        user_model,
        &default_model(VENDOR),
        None,
        None,
        &known_model_aliases(VENDOR),
    );
    assert_eq!(resolved, "acme-sonnet-4-6");
}

#[test]
fn format_connected_line_renders_xai_provider_for_grok_model() {
    let line = format_connected_line("grok-3");
    assert_eq!(line, "Connected: grok-3 via xai");
}

#[test]
fn login_browser_failure_keeps_json_stdout_clean() {
    let (stdout, stderr) = emit_login_browser_open_failure(
        CliOutputFormat::Json,
        "https://example.test/oauth/authorize",
        "no supported browser opener command found",
    );
    assert!(stdout.is_empty());
    assert!(stderr.contains("failed to open browser automatically"));
    assert!(stderr.contains("Open this URL manually:"));
    assert!(stderr.contains("https://example.test/oauth/authorize"));
}

#[test]
fn login_browser_failure_shows_the_url_on_stdout() {
    let (stdout, stderr) =
        emit_login_browser_open_failure(CliOutputFormat::Text, "https://example.test", "none");
    assert_eq!(stdout, "Open this URL manually:\nhttps://example.test\n");
    assert_eq!(stderr, "warning: failed to open browser automatically: none\n");
}

fn aliases() -> Vec<ModelAlias> {
    [("fast", "haiku-4"), ("smart", "opus-4"), ("fast", "other")]
        .iter()
        .map(|(name, model)| ModelAlias {
            name: name.to_string(),
            model: model.to_string(),
        })
        .collect()
}

#[test]
fn first_alias_wins() {
    let aliases = aliases();
    assert_eq!(resolve_model_alias("fast", &aliases), "haiku-4");
    assert_eq!(resolve_model_alias("smart", &aliases), "opus-4");
    assert_eq!(resolve_model_alias("grok-3", &aliases), "grok-3");
}

#[test]
fn resolving_twice_changes_nothing() {
    let aliases = aliases();
    for name in ["fast", "smart", "grok-3", ""] {
        let once = resolve_model_alias(name, &aliases);
        assert_eq!(resolve_model_alias(once, &aliases), once);
    }
}

#[test]
fn other_models_are_connected_by_their_names() {
    assert_eq!(format_connected_line("gpt-4o"), "Connected: gpt-4o via openai");
    assert_eq!(format_connected_line("qwen/max"), "Connected: qwen/max via openai");
    assert_eq!(format_connected_line("opus-4"), "Connected: opus-4 via anthropic");
}

#[test]
fn repl_models_come_from_the_user_then_the_environment_then_the_settings() {
    let aliases = aliases();
    let model = |asked: &str, environment: Option<&str>, settings: Option<&str>| {
        resolve_repl_model(asked.to_string(), "opus-4", environment, settings, &aliases)
    };
    assert_eq!(model("sonnet-4", Some("fast"), Some("smart")), "sonnet-4");
    assert_eq!(model("opus-4", Some(" fast "), Some("smart")), "haiku-4");
    assert_eq!(model("opus-4", Some("  "), Some("fast")), "haiku-4");
    assert_eq!(model("opus-4", None, None), "opus-4");
}

const VENDOR: &str = "acme";

#[test]
fn resolves_known_model_aliases() {
    let aliases = known_model_aliases(VENDOR);
    assert_eq!(resolve_model_alias("opus", &aliases), "acme-opus-4-6");
    assert_eq!(resolve_model_alias("sonnet", &aliases), "acme-sonnet-4-6");
    assert_eq!(resolve_model_alias("haiku", &aliases), "acme-haiku-4-5-20251213");
    assert_eq!(resolve_model_alias("acme-opus", &aliases), "acme-opus");
}

#[test]
fn known_models_stand_for_themselves() {
    let aliases = known_model_aliases(VENDOR);
    for name in ["opus", "sonnet", "haiku", "grok-3", ""] {
        let model = resolve_model_alias(name, &aliases);
        assert_eq!(resolve_model_alias(model, &aliases), model);
    }
}

#[test]
fn the_default_model_is_the_one_called_opus() {
    let aliases = known_model_aliases(VENDOR);
    assert_eq!(default_model(VENDOR), "acme-opus-4-6");
    assert_eq!(default_model(VENDOR), resolve_model_alias("opus", &aliases));
}

#[test]
fn resolve_repl_model_falls_back_to_anthropic_model_env_when_default() {
    let default = default_model(VENDOR);
    let resolved = resolve_repl_model(
        default.clone(),
        &default,
        Some("sonnet"),
        None,
        &known_model_aliases(VENDOR),
    );
    assert_eq!(resolved, "acme-sonnet-4-6");
}

#[test]
fn resolve_repl_model_returns_default_when_env_unset_and_no_config() {
    let default = default_model(VENDOR);
    let resolved = resolve_repl_model(
        default.clone(),
        &default,
        None,
        None,
        &known_model_aliases(VENDOR),
    );
    assert_eq!(resolved, default);
}
