use claw::live::{
    after_turn, clear_refusal, compacted_report, compaction_refusal, deletion_answered,
    format_deleted_report, handle_session_command, plugin_document, resolve_plugin_path,
    resume_reference, session_step_changes, turn_style, LiveCli, ModelStep, PermissionStep,
    RuntimeShutdown, SessionEnd, SessionFound, SessionPurpose, SessionStep, TurnStyle,
};
use claw::output::CliOutputFormat;
use claw::permissions::PermissionMode;
use claw::repl::{
    command_changed, handle_repl_command, looks_like_skill_name, repl_next, startup_banner, BannerFacts,
    CommandAction, ReplAction, ReplEvent,
};
use claw::sessions::SessionHandle;
use claw::slash::{SlashCommand, UnknownCommandGuidance};

fn guidance() -> UnknownCommandGuidance {
    UnknownCommandGuidance {
        suggestions: vec![],
        compatibility_note: Some("from a plugin".to_string()),
    }
}

fn handle(id: &str) -> SessionHandle {
    SessionHandle {
        id: id.to_string(),
        path: format!("/s/{id}.jsonl"),
    }
}

fn live() -> LiveCli {
    LiveCli {
        model: "opus".to_string(),
        permission_mode: PermissionMode::ReadOnly,
        session: handle("one"),
    }
}

fn submit(line: &str) -> ReplAction {
    repl_next(ReplEvent::Submit {
        line: line.to_string(),
    })
}

fn command(command: SlashCommand) -> CommandAction {
    handle_repl_command(command, None, &guidance())
}

#[test]
fn lines_are_read_until_the_user_leaves() {
    assert_eq!(submit("  "), ReplAction::ReadLine);
    assert_eq!(submit(" /exit\n"), ReplAction::PersistAndStop);
    assert_eq!(submit("/quit"), ReplAction::PersistAndStop);
    assert_eq!(repl_next(ReplEvent::Cancel), ReplAction::ReadLine);
    assert_eq!(repl_next(ReplEvent::Exit), ReplAction::PersistAndStop);
    assert_eq!(
        submit(" hello "),
        ReplAction::Parse {
            line: " hello ".to_string(),
            trimmed: "hello".to_string()
        }
    );
}

#[test]
fn lines_become_commands_skills_or_turns() {
    let parsed = |trimmed: &str, command| {
        repl_next(ReplEvent::Parsed {
            line: format!(" {trimmed}"),
            trimmed: trimmed.to_string(),
            command,
        })
    };
    assert_eq!(
        parsed("/help", Ok(Some(SlashCommand::Help))),
        ReplAction::RunCommand(SlashCommand::Help)
    );
    assert_eq!(
        parsed("/x", Err("bad".to_string())),
        ReplAction::ShowError("bad".to_string())
    );
    assert!(matches!(
        parsed("simplify now", Ok(None)),
        ReplAction::ResolveSkill { .. }
    ));
    assert_eq!(
        parsed("what? now", Ok(None)),
        ReplAction::RunTurn {
            line: " what? now".to_string(),
            recorded: "what? now".to_string(),
            prompt: "what? now".to_string()
        }
    );
    let resolved = |prompt: Option<&str>| {
        repl_next(ReplEvent::SkillResolved {
            line: "l".to_string(),
            trimmed: "t".to_string(),
            prompt: prompt.map(str::to_string),
        })
    };
    assert_eq!(
        resolved(Some("skill")),
        ReplAction::RunTurn {
            line: "l".to_string(),
            recorded: "t".to_string(),
            prompt: "skill".to_string()
        }
    );
    assert!(matches!(
        resolved(None),
        ReplAction::RunTurn { prompt, .. } if prompt == "t"
    ));
    assert_eq!(
        repl_next(ReplEvent::CommandRan {
            action: CommandAction::SetModel { model: None },
            done: true
        }),
        ReplAction::Persist
    );
    assert_eq!(
        repl_next(ReplEvent::CommandRan {
            action: CommandAction::SetModel { model: None },
            done: false
        }),
        ReplAction::ReadLine
    );
}

#[test]
fn skill_names_are_words_of_letters_and_digits() {
    assert!(looks_like_skill_name("my-skill_2 rest"));
    assert!(looks_like_skill_name("caf\u{e9}"));
    assert!(looks_like_skill_name("\u{6570}\u{5b57} x"));
    assert!(!looks_like_skill_name("what?"));
    assert!(!looks_like_skill_name("/x"));
    assert!(!looks_like_skill_name(""));
}

#[test]
fn commands_are_carried_out() {
    assert_eq!(command(SlashCommand::Stats), CommandAction::ShowCost);
    assert_eq!(
        command(SlashCommand::Effort {
            level: Some("high".to_string())
        }),
        CommandAction::SetEffort {
            level: "high".to_string(),
            notice: "Reasoning effort set to: high".to_string()
        }
    );
    assert_eq!(
        command(SlashCommand::Effort {
            level: Some("max".to_string())
        }),
        CommandAction::Say("Invalid effort level 'max'. Must be: low, medium, or high".to_string())
    );
    assert_eq!(
        command(SlashCommand::Effort { level: None }),
        CommandAction::Say("Usage: /effort <low|medium|high>".to_string())
    );
    assert_eq!(
        command(SlashCommand::Teleport {
            target: Some(" main ".to_string())
        }),
        CommandAction::Teleport {
            place: "main".to_string()
        }
    );
    assert_eq!(
        command(SlashCommand::Teleport {
            target: Some(" ".to_string())
        }),
        CommandAction::Say("Usage: /teleport <symbol-or-path>".to_string())
    );
    assert_eq!(
        command(SlashCommand::Unimplemented {
            slash_name: "/vim".to_string()
        }),
        CommandAction::Warn("/vim is not yet implemented in this build.".to_string())
    );
    assert!(matches!(
        command(SlashCommand::Unknown("p:x".to_string())),
        CommandAction::Warn(said) if said.contains("from a plugin")
    ));
    assert_eq!(
        handle_repl_command(
            SlashCommand::Skills { args: None },
            Some("run it".to_string()),
            &guidance()
        ),
        CommandAction::RunTurn {
            prompt: "run it".to_string()
        }
    );
    assert_eq!(
        command(SlashCommand::Simplify { args: None }),
        CommandAction::RunPromptCommand {
            name: "simplify",
            args: None
        }
    );
    assert!(matches!(
        command(SlashCommand::Bughunter { scope: None }),
        CommandAction::Say(said) if said.contains("the current repository")
    ));
}

#[test]
fn models_are_switched_where_they_differ() {
    let mut cli = live();
    assert!(matches!(cli.set_model(None, 2, 1), ModelStep::Report(_)));
    assert!(matches!(
        cli.set_model(Some("opus".to_string()), 2, 1),
        ModelStep::Report(_)
    ));
    assert_eq!(
        cli.set_model(Some("sonnet".to_string()), 2, 1),
        ModelStep::Rebuild {
            model: "sonnet".to_string()
        }
    );
    let report = cli.model_switched("sonnet".to_string(), 2);
    assert!(report.contains("Previous         opus"));
    assert_eq!(cli.model, "sonnet");
    assert_eq!(cli.session, handle("one"));
}

#[test]
fn permissions_are_switched_where_they_differ() {
    let mut cli = live();
    assert!(matches!(cli.set_permissions(None), Ok(PermissionStep::Report(_))));
    assert!(cli.set_permissions(Some("all")).is_err());
    assert_eq!(cli.permission_mode, PermissionMode::ReadOnly);
    assert!(matches!(
        cli.set_permissions(Some("workspace-write")),
        Ok(PermissionStep::Rebuild { report }) if report.contains("Previous mode    read-only")
    ));
    assert_eq!(cli.permission_mode, PermissionMode::WorkspaceWrite);
}

#[test]
fn sessions_are_cleared_resumed_and_switched() {
    let mut cli = live();
    assert!(clear_refusal(true).is_none());
    assert!(clear_refusal(false).is_some());
    assert_eq!(
        cli.clear_session(handle("two")),
        "Session cleared\n  Mode             fresh session\n  Previous session one\n  Resume previous  /resume one\n  Preserved model  opus\n  Permission mode  read-only\n  New session      two\n  Session file     /s/two.jsonl"
    );
    assert_eq!(resume_reference(Some("x".to_string())), Ok("x".to_string()));
    assert!(resume_reference(None).is_err());
    cli.resume_session("three".to_string(), "/s/three.jsonl".to_string(), 1, 1);
    assert_eq!(cli.session, handle("three"));
    cli.session_switched("four".to_string(), "/s/four.jsonl".to_string(), 1);
    cli.session_switched("three".to_string(), "/s/three.jsonl".to_string(), 1);
    assert_eq!(cli.session, handle("three"));
    let report = cli.session_forked(handle("five"), None, 2);
    assert!(report.contains("Parent session   three"));
    assert!(report.contains("Branch           (unnamed)"));
    assert_eq!(cli.session, handle("five"));
}

#[test]
fn session_commands_name_their_session() {
    assert_eq!(handle_session_command(None, None), SessionStep::List);
    assert_eq!(handle_session_command(Some("list"), None), SessionStep::List);
    assert_eq!(
        handle_session_command(Some("switch"), None),
        SessionStep::Say("Usage: /session switch <session-id>".to_string())
    );
    assert_eq!(
        handle_session_command(Some("switch"), Some("x")),
        SessionStep::Resolve {
            purpose: SessionPurpose::Switch,
            target: "x".to_string()
        }
    );
    assert_eq!(
        handle_session_command(Some("delete-force"), Some("x")),
        SessionStep::Resolve {
            purpose: SessionPurpose::DeleteForce,
            target: "x".to_string()
        }
    );
    assert_eq!(
        handle_session_command(Some("delete"), None),
        SessionStep::Say("Usage: /session delete <session-id> [--force]".to_string())
    );
    assert_eq!(
        handle_session_command(Some("fork"), Some("try")),
        SessionStep::Fork {
            branch: Some("try".to_string())
        }
    );
    assert!(matches!(
        handle_session_command(Some("burn"), None),
        SessionStep::Say(said) if said.starts_with("Unknown /session action 'burn'.")
    ));
}

#[test]
fn active_session_is_not_deleted() {
    let cli = live();
    for purpose in [SessionPurpose::Delete, SessionPurpose::DeleteForce] {
        assert!(matches!(
            cli.session_found(purpose, handle("one")),
            SessionFound::Say(said) if said.contains("refusing to delete the active session 'one'")
        ));
    }
    assert_eq!(
        cli.session_found(SessionPurpose::Delete, handle("two")),
        SessionFound::Confirm(handle("two"))
    );
    assert_eq!(
        cli.session_found(SessionPurpose::DeleteForce, handle("two")),
        SessionFound::Delete(handle("two"))
    );
    assert_eq!(
        cli.session_found(SessionPurpose::Switch, handle("one")),
        SessionFound::Load(handle("one"))
    );
    assert_eq!(
        deletion_answered(true, handle("two")),
        SessionFound::Delete(handle("two"))
    );
    assert_eq!(
        deletion_answered(false, handle("two")),
        SessionFound::Say("delete: cancelled.".to_string())
    );
    assert_eq!(
        format_deleted_report(&handle("two")),
        "Session deleted\n  Deleted session  two\n  File             /s/two.jsonl"
    );
}

#[test]
fn turns_are_told_of_in_their_style() {
    assert_eq!(turn_style(CliOutputFormat::Json, true), TurnStyle::Document);
    assert_eq!(turn_style(CliOutputFormat::Text, true), TurnStyle::FinalText);
    assert_eq!(turn_style(CliOutputFormat::Text, false), TurnStyle::Live);
    let done = after_turn(Ok(Some(2)));
    assert!(done.keep && done.label == "✨ Done");
    assert_eq!(
        done.notice.as_deref(),
        Some("[auto-compacted: removed 2 messages]")
    );
    assert_eq!(after_turn(Ok(None)).notice, None);
    let failed = after_turn(Err(()));
    assert!(!failed.keep && failed.label == "❌ Request failed");
    assert_eq!(
        compaction_refusal(false).as_deref(),
        Some("Compaction is disabled.")
    );
    assert_eq!(compaction_refusal(true), None);
    assert!(compacted_report(0, 3).contains("skipped"));
    assert!(compacted_report(1, 3).contains("compacted"));
}

#[test]
fn plugins_are_found_and_told_of() {
    assert_eq!(resolve_plugin_path(true, "/c", "/h", "/p"), "/p");
    assert_eq!(resolve_plugin_path(false, "/c", "/h", "./p"), "/c/./p");
    assert_eq!(resolve_plugin_path(false, "/c", "/h/", "p"), "/h/p");
    assert_eq!(resolve_plugin_path(false, "", "/h", ".p"), ".p");
    let document = plugin_document(None, Some("x"), "done", true);
    assert_eq!(document.str_field("action"), Some("list"));
    assert_eq!(document.str_field("target"), Some("x"));
    assert!(document.flag("reload_runtime"));
}

#[test]
fn runtimes_are_shut_down_once() {
    let mut shutdown = RuntimeShutdown {
        plugins_active: true,
        mcp_active: true,
    };
    shutdown.plugins_shut_down(true);
    assert!(shutdown.plugins_active);
    shutdown.plugins_shut_down(false);
    assert!(!shutdown.plugins_active && shutdown.mcp_active);
    shutdown.mcp_shut_down(false);
    shutdown.mcp_shut_down(true);
    assert!(!shutdown.mcp_active);
}

#[test]
fn startup_banner_mentions_workflow_completions() {
    let banner = startup_banner(&BannerFacts {
        model: "sonnet",
        permissions: "danger-full-access",
        branch: None,
        workspace: Some("clean"),
        directory: Some("/w"),
        session_id: "s",
        session_path: "/w/.claw/sessions/s.jsonl",
        session_path_below: Some(".claw/sessions/s.jsonl"),
    });
    assert!(banner.contains("Tab"));
    assert!(banner.contains("workflow completions"));
    assert!(banner.contains("\x1b[2mBranch\x1b[0m           unknown"));
    assert!(banner.contains("\x1b[2mAuto-save\x1b[0m        .claw/sessions/s.jsonl"));
}

#[test]
fn only_five_commands_change_the_session() {
    let changing = [
        SlashCommand::Model { model: None },
        SlashCommand::Permissions { mode: None },
        SlashCommand::Clear { confirm: true },
        SlashCommand::Resume { session_path: None },
        SlashCommand::Session {
            action: None,
            target: None,
        },
    ];
    for changing in changing {
        let action = command(changing);
        assert!(command_changed(&action, true));
        assert!(!command_changed(&action, false));
    }
    let others = [
        SlashCommand::Help,
        SlashCommand::Compact { mode: None },
        SlashCommand::Plugins {
            action: None,
            target: None,
        },
        SlashCommand::Skills { args: None },
        SlashCommand::Effort {
            level: Some("low".to_string()),
        },
        SlashCommand::Unknown("x".to_string()),
        SlashCommand::Unimplemented {
            slash_name: "/vim".to_string(),
        },
    ];
    for other in others {
        let action = command(other);
        assert!(!command_changed(&action, true));
        assert_eq!(
            repl_next(ReplEvent::CommandRan { action, done: true }),
            ReplAction::ReadLine
        );
    }
}

#[test]
fn steps_say_whether_they_change_anything() {
    let mut cli = live();
    assert!(!cli.set_model(None, 0, 0).changes());
    assert!(cli.set_model(Some("sonnet".to_string()), 0, 0).changes());
    assert!(!cli.set_permissions(None).expect("report").changes());
    assert!(cli
        .set_permissions(Some("workspace-write"))
        .expect("switch")
        .changes());
}

#[test]
fn session_command_changes_for_switch_and_fork() {
    for (action, target, changes) in [
        (None, None, false),
        (Some("list"), Some("x"), false),
        (Some("switch"), None, false),
        (Some("switch"), Some("x"), true),
        (Some("fork"), None, true),
        (Some("fork"), Some("x"), true),
        (Some("delete"), Some("x"), false),
        (Some("delete-force"), Some("x"), false),
        (Some("burn"), Some("x"), false),
    ] {
        let step = handle_session_command(action, target);
        assert_eq!(session_step_changes(&step), changes);
    }
}

#[test]
fn session_ends_keep_or_change_the_session() {
    let mut cli = live();
    assert_eq!(
        cli.session_command_ended(SessionEnd::Told("listing".to_string())),
        ("listing".to_string(), false)
    );
    let (report, changed) = cli.session_command_ended(SessionEnd::Deleted(handle("two")));
    assert!(report.starts_with("Session deleted") && !changed);
    assert_eq!(cli, live());
    let (report, changed) = cli.session_command_ended(SessionEnd::Switched {
        id: "two".to_string(),
        path: "/s/two.jsonl".to_string(),
        message_count: 3,
    });
    assert!(report.starts_with("Session switched") && changed);
    assert_eq!(cli.session, handle("two"));
    let (report, changed) = cli.session_command_ended(SessionEnd::Forked {
        handle: handle("three"),
        branch: Some("try".to_string()),
        message_count: 3,
    });
    assert!(report.contains("Branch           try") && changed);
    assert_eq!(cli.session, handle("three"));
}
