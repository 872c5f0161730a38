use claw::history::PromptHistoryEntry;
use claw::json::Json;
use claw::output::{failure_output, json_requested, CliOutputFormat, Output};
use claw::resume::{
    after_resume_command, after_resume_parse, agents_outcome, cleared_outcome, compact_outcome,
    compaction_switched_off, cost_outcome, export_outcome, help_outcome, history_outcome,
    next_resume_step, restore_failure, restored_output, resume_outcome, resumed_model,
    run_resume_command, session_list_outcome, stats_outcome, NextSession, ResumeAction,
    ResumeCommandOutcome, ResumeFacts, ResumeFailure, ResumeStep,
};
use claw::slash::{command_root, serves_mcp, SlashCommand, UnknownCommandGuidance};
use claw::stream::TokenUsage;

fn guidance() -> UnknownCommandGuidance {
    UnknownCommandGuidance {
        suggestions: vec!["/status".to_string()],
        compatibility_note: None,
    }
}

fn run(command: SlashCommand) -> ResumeAction {
    run_resume_command(command, None, false, &guidance())
}

fn usage() -> TokenUsage {
    TokenUsage {
        input_tokens: 20,
        output_tokens: 8,
        cache_creation_input_tokens: 3,
        cache_read_input_tokens: 1,
    }
}

fn json(outcome: &ResumeCommandOutcome) -> &Json {
    outcome.json.as_ref().expect("document")
}

#[test]
fn plain_commands_ask_for_their_reports() {
    assert_eq!(run(SlashCommand::Help), ResumeAction::Help);
    assert_eq!(run(SlashCommand::Diff), ResumeAction::Diff);
    assert_eq!(
        run(SlashCommand::Config {
            section: Some("env".to_string())
        }),
        ResumeAction::Config {
            section: Some("env".to_string())
        }
    );
    assert_eq!(
        run(SlashCommand::Mcp {
            action: Some("show".to_string()),
            target: Some("alpha".to_string())
        }),
        ResumeAction::Mcp {
            args: Some("show alpha".to_string())
        }
    );
    assert_eq!(
        run(SlashCommand::Session {
            action: Some("list".to_string()),
            target: None
        }),
        ResumeAction::ListSessions
    );
}

#[test]
fn commands_that_cannot_be_resumed_are_refused() {
    for command in [
        SlashCommand::Commit,
        SlashCommand::Model { model: None },
        SlashCommand::Session {
            action: None,
            target: None,
        },
        SlashCommand::Session {
            action: Some("switch".to_string()),
            target: None,
        },
        SlashCommand::Unimplemented {
            slash_name: "/vim".to_string(),
        },
        SlashCommand::Effort { level: None },
    ] {
        assert_eq!(
            run(command),
            ResumeAction::Refuse("unsupported resumed slash command".to_string())
        );
    }
    assert!(matches!(
        run(SlashCommand::Unknown("statsu".to_string())),
        ResumeAction::Refuse(error) if error.contains("/statsu") && error.contains("/status")
    ));
    assert!(matches!(
        run_resume_command(
            SlashCommand::Skills {
                args: Some("simplify".to_string())
            },
            None,
            true,
            &guidance()
        ),
        ResumeAction::Refuse(error) if error.contains("interactive-only")
    ));
    assert!(matches!(
        run(SlashCommand::History {
            count: Some("0".to_string())
        }),
        ResumeAction::Refuse(error) if error.contains("greater than 0")
    ));
}

#[test]
fn compaction_can_be_switched_off() {
    assert!(compaction_switched_off(Some("FALSE")));
    assert!(compaction_switched_off(Some("0")));
    assert!(!compaction_switched_off(Some("no")));
    assert!(!compaction_switched_off(None));
    let off = run_resume_command(
        SlashCommand::Compact { mode: None },
        Some("false"),
        false,
        &guidance(),
    );
    assert_eq!(
        off,
        ResumeAction::Report(ResumeCommandOutcome {
            session: NextSession::Kept,
            message: Some("Compaction is disabled.".to_string()),
            json: None,
        })
    );
    assert_eq!(
        run(SlashCommand::Compact { mode: None }),
        ResumeAction::Compact { mode: None }
    );
}

#[test]
fn clearing_needs_a_confirmation() {
    assert_eq!(run(SlashCommand::Clear { confirm: true }), ResumeAction::Clear);
    match run(SlashCommand::Clear { confirm: false }) {
        ResumeAction::Report(outcome) => {
            assert_eq!(outcome.session, NextSession::Kept);
            assert_eq!(
                json(&outcome).str_field("hint"),
                Some("rerun with /clear --confirm")
            );
        }
        other => panic!("unexpected action: {other:?}"),
    }
}

#[test]
fn outcomes_tell_what_happened() {
    let help = help_outcome("help text".to_string());
    assert_eq!(help.message.as_deref(), Some("help text"));
    assert_eq!(json(&help).str_field("kind"), Some("help"));
    let compacted = compact_outcome(0, 3);
    assert_eq!(compacted.session, NextSession::Compacted);
    assert!(json(&compacted).flag("skipped"));
    assert!(!json(&compact_outcome(2, 3)).flag("skipped"));
    let cleared = cleared_outcome("old", "/b", "new", "/f");
    assert_eq!(cleared.session, NextSession::Cleared);
    assert_eq!(
        cleared.message.as_deref(),
        Some("Session cleared\n  Mode             resumed session reset\n  Previous session old\n  Backup           /b\n  Resume previous  claw --resume /b\n  New session      new\n  Session file     /f")
    );
    assert_eq!(json(&cost_outcome(&usage())).u64_or("total_tokens", 0), 32);
    assert_eq!(json(&stats_outcome(&usage())).str_field("kind"), Some("stats"));
    assert_eq!(json(&export_outcome("a.md", 4)).u64_or("message_count", 0), 4);
    assert_eq!(
        json(&agents_outcome("none".to_string())).str_field("text"),
        Some("none")
    );
    let entries = vec![PromptHistoryEntry {
        timestamp_ms: 1,
        text: "a".to_string(),
    }];
    assert_eq!(json(&history_outcome(&entries, 5)).u64_or("showing", 9), 1);
    let listed = session_list_outcome(&vec!["a".to_string()], "a", Err("gone".to_string()));
    assert_eq!(listed.message.as_deref(), Some("error: gone"));
    assert_eq!(json(&listed).str_field("active"), Some("a"));
    assert_eq!(resumed_model(None), "restored-session");
    assert_eq!(resumed_model(Some("m")), "m");
}

#[test]
fn commands_run_one_after_the_other() {
    let commands = vec!["/status now".to_string(), "//vim x".to_string()];
    let stubs = vec!["vim".to_string()];
    let step = |at: usize, format: CliOutputFormat| next_resume_step(format, &commands, at, &stubs);
    assert_eq!(
        step(0, CliOutputFormat::Text),
        ResumeStep::Parse("/status now".to_string())
    );
    assert_eq!(
        step(1, CliOutputFormat::Text),
        ResumeStep::Fail(ResumeFailure {
            code: 2,
            output: Output::Text("/vim is not yet implemented in this build".to_string()),
        })
    );
    match step(1, CliOutputFormat::Json) {
        ResumeStep::Fail(ResumeFailure {
            code: 2,
            output: Output::Compact(document),
        }) => {
            assert_eq!(document.str_field("type"), Some("error"));
            assert_eq!(document.str_field("command"), Some("//vim x"));
        }
        other => panic!("unexpected step: {other:?}"),
    }
    assert_eq!(step(2, CliOutputFormat::Text), ResumeStep::Finished);
    assert_eq!(command_root("  /x y"), "/x");
    assert_eq!(command_root("/x y"), "x");
    assert_eq!(command_root("///"), "");
}

#[test]
fn parsed_commands_run_and_others_fail() {
    assert_eq!(
        after_resume_parse(CliOutputFormat::Text, "/help", Ok(Some(SlashCommand::Help))),
        Ok(SlashCommand::Help)
    );
    assert_eq!(
        after_resume_parse(CliOutputFormat::Text, "hello", Ok(None)),
        Err(ResumeFailure {
            code: 2,
            output: Output::Text("unsupported resumed command: hello".to_string()),
        })
    );
    assert_eq!(
        after_resume_parse(CliOutputFormat::Text, "/x", Err("bad".to_string())),
        Err(ResumeFailure {
            code: 2,
            output: Output::Text("bad".to_string()),
        })
    );
}

#[test]
fn the_first_failure_ends_a_run() {
    let commands: Vec<String> = ["/help", "/compact", "/bad", "/help"]
        .iter()
        .map(|command| command.to_string())
        .collect();
    let mut sessions = vec!["first"];
    let mut written = Vec::new();
    let mut at = 0;
    let failure = loop {
        let raw = match next_resume_step(CliOutputFormat::Text, &commands, at, &vec![]) {
            ResumeStep::Parse(raw) => raw,
            other => panic!("unexpected step: {other:?}"),
        };
        let outcome = match raw.as_str() {
            "/help" => Ok(help_outcome("help".to_string())),
            "/compact" => Ok(ResumeCommandOutcome {
                session: NextSession::Compacted,
                message: Some("compacted".to_string()),
                json: None,
            }),
            _ => Err("bad".to_string()),
        };
        match after_resume_command(CliOutputFormat::Text, &raw, outcome) {
            Ok((session, output)) => {
                if session == NextSession::Compacted {
                    sessions.push("second");
                }
                written.push(output);
            }
            Err(failure) => break failure,
        }
        at += 1;
    };
    assert_eq!(at, 2);
    assert_eq!(failure.output, Output::Text("bad".to_string()));
    assert_eq!(sessions, vec!["first", "second"]);
    assert_eq!(
        written,
        vec![
            Some(Output::Text("help".to_string())),
            Some(Output::Text("compacted".to_string())),
        ]
    );
}

#[test]
fn outcomes_are_written_in_the_asked_form() {
    let outcome = || Ok(help_outcome("help".to_string()));
    assert_eq!(
        after_resume_command(CliOutputFormat::Text, "/help", outcome()),
        Ok((NextSession::Kept, Some(Output::Text("help".to_string()))))
    );
    assert!(matches!(
        after_resume_command(CliOutputFormat::Json, "/help", outcome()),
        Ok((NextSession::Kept, Some(Output::Indented(_))))
    ));
    let bare = ResumeCommandOutcome {
        session: NextSession::Kept,
        message: Some("m".to_string()),
        json: None,
    };
    assert_eq!(
        after_resume_command(CliOutputFormat::Json, "/x", Ok(bare)),
        Ok((NextSession::Kept, Some(Output::Text("m".to_string()))))
    );
    assert!(matches!(
        after_resume_command(CliOutputFormat::Text, "/x", Err("e".to_string())),
        Err(failure) if failure.code == 2
    ));
}

#[test]
fn restored_sessions_are_told_of() {
    assert_eq!(
        restored_output(CliOutputFormat::Text, "id", "/p", 3),
        Output::Text("Restored session from /p (3 messages).".to_string())
    );
    match restored_output(CliOutputFormat::Json, "id", "/p", 3) {
        Output::Compact(document) => {
            assert_eq!(document.str_field("kind"), Some("restored"));
            assert_eq!(document.u64_or("message_count", 0), 3);
        }
        other => panic!("unexpected output: {other:?}"),
    }
    assert_eq!(
        restore_failure(CliOutputFormat::Text, "gone"),
        ResumeFailure {
            code: 1,
            output: Output::Text("failed to restore session: gone".to_string()),
        }
    );
}

#[test]
fn failures_follow_the_output_format() {
    let argv = |args: &[&str]| args.iter().map(|a| a.to_string()).collect::<Vec<_>>();
    assert!(json_requested(&argv(&["claw", "--output-format", "json"])));
    assert!(json_requested(&argv(&["claw", "--output-format=json"])));
    assert!(!json_requested(&argv(&["claw", "json", "--output-format"])));
    match failure_output(&argv(&["--output-format=json"]), "boom") {
        Output::Compact(document) => assert_eq!(document.str_field("error"), Some("boom")),
        other => panic!("unexpected output: {other:?}"),
    }
    assert_eq!(
        failure_output(&argv(&["claw"]), "boom"),
        Output::Text("error: boom\n\nRun `claw --help` for usage.".to_string())
    );
    assert_eq!(
        failure_output(&argv(&["claw"]), "see `claw --help`"),
        Output::Text("error: see `claw --help`".to_string())
    );
}

#[test]
fn only_serve_serves() {
    assert!(serves_mcp(Some(" serve ")));
    assert!(!serves_mcp(Some("server")));
    assert!(!serves_mcp(None));
}

#[test]
fn actions_and_facts_come_to_outcomes() {
    let listing = |text: &str| ResumeFacts::Listing(text.to_string());
    let kind = |outcome: Result<ResumeCommandOutcome, String>| {
        let outcome = outcome.expect("outcome");
        json(&outcome).str_field("kind").map(str::to_string)
    };
    assert_eq!(
        resume_outcome(ResumeAction::Help, listing("h")),
        Ok(help_outcome("h".to_string()))
    );
    assert_eq!(
        resume_outcome(ResumeAction::Agents { args: None }, listing("a")),
        Ok(agents_outcome("a".to_string()))
    );
    assert_eq!(
        kind(resume_outcome(ResumeAction::Cost, ResumeFacts::Used(usage()))),
        Some("cost".to_string())
    );
    assert_eq!(
        kind(resume_outcome(ResumeAction::Stats, ResumeFacts::Used(usage()))),
        Some("stats".to_string())
    );
    assert_eq!(
        resume_outcome(
            ResumeAction::Compact { mode: None },
            ResumeFacts::Compacted { removed: 1, kept: 2 }
        ),
        Ok(compact_outcome(1, 2))
    );
    assert_eq!(
        resume_outcome(
            ResumeAction::Export { path: None },
            ResumeFacts::Failed("full".to_string())
        ),
        Err("full".to_string())
    );
    assert_eq!(
        resume_outcome(
            ResumeAction::Refuse("no".to_string()),
            ResumeFacts::Nothing
        ),
        Err("no".to_string())
    );
    assert_eq!(
        kind(resume_outcome(
            ResumeAction::History { limit: 3 },
            ResumeFacts::Prompts(vec![])
        )),
        Some("history".to_string())
    );
    let cleared = resume_outcome(
        ResumeAction::Clear,
        ResumeFacts::Cleared {
            previous: "old".to_string(),
            backup: "/b".to_string(),
            new_id: "new".to_string(),
            file: "/f".to_string(),
        },
    );
    assert_eq!(cleared, Ok(cleared_outcome("old", "/b", "new", "/f")));
    let listed = resume_outcome(
        ResumeAction::ListSessions,
        ResumeFacts::Sessions {
            ids: vec![],
            active: "a".to_string(),
            listing: Ok("none".to_string()),
        },
    );
    assert_eq!(
        listed,
        Ok(session_list_outcome(&vec![], "a", Ok("none".to_string())))
    );
}
