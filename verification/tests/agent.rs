use claw::agent::{
    allowed_tools_for_subagent, choose_agent_name, classify_lane_blocker, classify_lane_failure,
    current_git_branch, default_agent_model, default_subagent_oauth_config, derive_agent_state,
    extract_commit_sha,
    load_subagent_oauth_config_for, make_agent_id, maybe_commit_provenance,
    normalize_subagent_type, platform_host, resolve_agent_model, slugify_agent_name, timestamp_text,
    tool_definitions_for_request_tools, tool_specs_for_allowed_tools, validate_agent_input,
    AgentInput, LaneFailureClass, SubagentToolExecutor, ToolSpec,
};
use claw::agent_lifecycle::{
    agent_store_dir, agent_system_date, agent_task_document, agent_tool_output,
    background_agent_notification, build_agent_system_prompt, completed_job, final_manifest,
    finish_agent, format_agent_terminal_output, settle_background_job, spawn_error, start_agent,
    AgentOutput, AgentSetting, AgentToolOutput, EndSetting, JobOutcome, LaneEvent,
};
use claw::json::Json;

fn input() -> AgentInput {
    AgentInput {
        description: "Review the Code!".to_string(),
        prompt: "look".to_string(),
        subagent_type: Some("explorer".to_string()),
        name: None,
        model: None,
        run_in_background: None,
    }
}

fn setting() -> AgentSetting {
    AgentSetting {
        agent_id: "agent-1".to_string(),
        default_model: "opus".to_string(),
        output_dir: "/store".to_string(),
        type_token: "explorer".to_string(),
        created_at: "10".to_string(),
        started_at: "11".to_string(),
    }
}

fn end() -> EndSetting {
    EndSetting {
        now: "20".to_string(),
        branch: Some("main".to_string()),
        worktree: Some("/w".to_string()),
        compressed_result: "short".to_string(),
    }
}

fn started() -> AgentOutput {
    start_agent(&input(), &setting()).expect("agent should start")
}

#[test]
fn agents_start_at_work() {
    let manifest = started();
    assert_eq!(manifest.name, "review-the-code");
    assert_eq!(manifest.subagent_type.as_deref(), Some("Explore"));
    assert_eq!(manifest.model.as_deref(), Some("opus"));
    assert_eq!(manifest.output_file, "/store/agent-1.md");
    assert_eq!(manifest.manifest_file, "/store/agent-1.json");
    assert_eq!(manifest.status, "running");
    assert_eq!(manifest.derived_state, "working");
    assert_eq!(
        manifest.lane_events,
        vec![LaneEvent::Started {
            at: "11".to_string()
        }]
    );
    let document = agent_task_document(&manifest, "look");
    assert_eq!(
        document,
        "# Agent Task\n\n- id: agent-1\n- name: review-the-code\n- description: Review the Code!\n- subagent_type: Explore\n- created_at: 10\n\n## Prompt\n\nlook\n"
    );
}

#[test]
fn agents_need_a_description_and_a_prompt() {
    let mut blank = input();
    blank.description = "  ".to_string();
    assert_eq!(
        validate_agent_input(&blank),
        Err("description must not be empty".to_string())
    );
    let mut silent = input();
    silent.prompt = "\n".to_string();
    assert_eq!(
        start_agent(&silent, &setting()),
        Err("prompt must not be empty".to_string())
    );
    assert_eq!(spawn_error("no thread"), "failed to spawn sub-agent: no thread");
}

#[test]
fn ended_agents_keep_their_history() {
    let done = finish_agent(
        started(),
        "completed",
        Some("fixed in 0123abcd and more"),
        None,
        &end(),
    );
    assert_eq!(done.status, "completed");
    assert_eq!(done.derived_state, "finished_cleanable");
    assert_eq!(done.completed_at.as_deref(), Some("20"));
    assert_eq!(done.lane_events.len(), 3);
    assert!(matches!(&done.lane_events[0], LaneEvent::Started { .. }));
    assert!(matches!(
        &done.lane_events[1],
        LaneEvent::Finished { detail: Some(detail), .. } if detail == "short"
    ));
    assert!(matches!(
        &done.lane_events[2],
        LaneEvent::CommitCreated { provenance, .. } if provenance.commit == "0123abcd"
    ));
    let failed = finish_agent(started(), "failed", None, Some("MCP handshake lost"), &end());
    assert_eq!(failed.derived_state, "degraded_mcp");
    assert!(failed.current_blocker.is_some());
    assert!(matches!(&failed.lane_events[1], LaneEvent::Blocked { .. }));
    assert!(matches!(&failed.lane_events[2], LaneEvent::Failed { .. }));
}

#[test]
fn terminal_output_has_a_section_for_each_part() {
    assert_eq!(
        format_agent_terminal_output("completed", Some(" all good "), None, None),
        "\n## Result\n\n- status: completed\n\n### Final response\n\nall good\n"
    );
    assert_eq!(
        format_agent_terminal_output("failed", Some(" "), Some(("infra", " d ")), Some("e")),
        "\n## Result\n\n- status: failed\n\n### Blocker\n\n- failure_class: infra\n- detail: d\n\n### Error\n\ne\n"
    );
}

#[test]
fn background_jobs_are_settled() {
    let done = settle_background_job(JobOutcome::Completed { result: None });
    assert!(done.completed && done.output.is_empty() && done.persist_error.is_none());
    assert_eq!(done.status(), "completed");
    let failed = settle_background_job(JobOutcome::Failed {
        error: "e".to_string(),
    });
    assert_eq!(failed.persist_error.as_deref(), Some("e"));
    assert_eq!(failed.status(), "failed");
    let panicked = settle_background_job(JobOutcome::Panicked);
    assert_eq!(panicked.output, "sub-agent thread panicked");
    assert_eq!(
        background_agent_notification(&started(), Some("s"), "failed", " e "),
        Some((
            "s".to_string(),
            "Background agent finished.\nagentId: agent-1\ndescription: Review the Code!\nstatus: failed\noutput_file: /store/agent-1.md\nerror:\ne"
                .to_string()
        ))
    );
    assert_eq!(background_agent_notification(&started(), None, "failed", "e"), None);
}

#[test]
fn background_agents_are_only_announced() {
    let mut background = input();
    background.run_in_background = Some(true);
    assert!(matches!(
        agent_tool_output(&background, started()),
        AgentToolOutput::AsyncLaunched(launch)
            if launch.status == "async_launched" && launch.prompt == "look"
    ));
    assert!(matches!(
        agent_tool_output(&input(), started()),
        AgentToolOutput::Completed(_)
    ));
}

#[test]
fn instructions_stand_before_the_boundary() {
    let prompt = |parts: &[&str]| {
        build_agent_system_prompt(
            parts.iter().map(|part| part.to_string()).collect(),
            "BOUNDARY",
            "Plan",
        )
    };
    let with = prompt(&["a", "BOUNDARY", "b"]);
    assert_eq!(with.len(), 4);
    assert!(with[1].contains("`Plan`"));
    assert_eq!(with[2], "BOUNDARY");
    let without = prompt(&["a", "b"]);
    assert!(without[2].contains("delegated sub-agent"));
}

#[test]
fn settings_of_agents_have_defaults() {
    assert_eq!(agent_system_date(Some(" 2030-01-01 "), None), "2030-01-01");
    assert_eq!(agent_system_date(Some(" "), Some("2031-01-01\n")), "2031-01-01");
    assert_eq!(agent_system_date(None, None), "2026-03-31");
    assert_eq!(agent_store_dir(Some("/s"), Some("/r"), "/c"), "/s");
    assert_eq!(agent_store_dir(None, Some("/r"), "/c"), "/r/.clawd-agents");
    assert_eq!(agent_store_dir(None, None, "/c"), "/c/.clawd-agents");
    assert_eq!(agent_store_dir(None, Some("/"), "/c"), "/.clawd-agents");
    assert_eq!(agent_store_dir(None, Some(""), "/c"), ".clawd-agents");
    assert_eq!(resolve_agent_model(Some(" m "), "d"), "m");
    assert_eq!(resolve_agent_model(Some(" "), "d"), "d");
    assert_eq!(make_agent_id(42), "agent-42");
    assert_eq!(timestamp_text(7), "7");
    assert_eq!(default_agent_model("acme"), "acme-opus-4-6");
    assert_eq!(
        resolve_agent_model(None, &default_agent_model("acme")),
        "acme-opus-4-6"
    );
    assert_eq!(platform_host("acme"), "platform.acme.com");
    let oauth = default_subagent_oauth_config(&platform_host("acme"));
    assert_eq!(oauth.token_url, "https://platform.acme.com/v1/oauth/token");
    assert_eq!(oauth.scopes.len(), 3);
}

#[test]
fn agent_types_are_normalized() {
    assert_eq!(normalize_subagent_type(None, ""), "general-purpose");
    assert_eq!(normalize_subagent_type(Some(" "), ""), "general-purpose");
    assert_eq!(normalize_subagent_type(Some("Verify"), "verify"), "Verification");
    assert_eq!(normalize_subagent_type(Some("guide"), "guide"), "claw-guide");
    assert_eq!(
        normalize_subagent_type(Some("statusline"), "statusline"),
        "statusline-setup"
    );
    assert_eq!(normalize_subagent_type(Some(" my own "), "myown"), "my own");
}

#[test]
fn agent_names_are_slugs() {
    assert_eq!(slugify_agent_name("  Hello,  World! "), "hello-world");
    assert_eq!(slugify_agent_name("é"), "");
    assert_eq!(slugify_agent_name(&"ab ".repeat(20)).chars().count(), 32);
    assert_eq!(choose_agent_name(Some("My Agent"), "other"), "my-agent");
    assert_eq!(choose_agent_name(Some("!!"), "Fall Back"), "fall-back");
}

#[test]
fn agents_use_only_their_tools() {
    assert_eq!(allowed_tools_for_subagent("Explore").len(), 8);
    assert_eq!(allowed_tools_for_subagent("Plan").len(), 10);
    assert_eq!(allowed_tools_for_subagent("Verification").len(), 11);
    assert_eq!(allowed_tools_for_subagent("claw-guide").len(), 9);
    assert_eq!(allowed_tools_for_subagent("statusline-setup").len(), 7);
    assert_eq!(allowed_tools_for_subagent("anything").len(), 18);
    let executor = SubagentToolExecutor::new(allowed_tools_for_subagent("Explore"));
    assert_eq!(
        executor.execute("bash", "{}"),
        Err("tool `bash` is not enabled for this sub-agent".to_string())
    );
    let broken = executor.execute("read_file", "{").expect_err("not JSON");
    assert!(broken.starts_with("invalid tool input JSON: "));
    let parsed = executor
        .execute("read_file", r#"{"path":"a"}"#)
        .expect("valid call");
    assert_eq!(parsed.str_field("path"), Some("a"));
    assert!(executor.execute("read_file", " ").is_ok());
}

#[test]
fn tool_definitions_follow_the_allowed_tools() {
    let specs = || {
        ["bash", "TaskList", "Skill"]
            .iter()
            .map(|name| ToolSpec {
                name: name.to_string(),
                description: format!("{name} tool"),
                input_schema: Json::Null,
                background_task: *name == "TaskList",
            })
            .collect::<Vec<_>>()
    };
    let allowed = vec!["bash".to_string(), "TaskList".to_string()];
    let names = |suppress: bool| {
        tool_definitions_for_request_tools(specs(), &allowed, suppress)
            .into_iter()
            .map(|tool| tool.name)
            .collect::<Vec<_>>()
    };
    assert_eq!(names(false), vec!["bash", "TaskList"]);
    assert_eq!(names(true), vec!["bash"]);
}

#[test]
fn failures_are_classified_by_their_words() {
    for (error, class) in [
        ("Prompt was not delivered", LaneFailureClass::PromptDelivery),
        ("trust gate", LaneFailureClass::TrustGate),
        ("branch is stale", LaneFailureClass::BranchDivergence),
        ("gateway timeout", LaneFailureClass::GatewayRouting),
        ("cargo check broke", LaneFailureClass::Compile),
        ("test failed", LaneFailureClass::Test),
        ("runtime tool gone", LaneFailureClass::ToolRuntime),
        ("plugin crashed", LaneFailureClass::PluginStartup),
        ("MCP handshake", LaneFailureClass::McpHandshake),
        ("mcp gone", LaneFailureClass::McpStartup),
        ("disk full", LaneFailureClass::Infra),
    ] {
        assert_eq!(classify_lane_failure(error), class);
    }
    assert_eq!(classify_lane_blocker("  disk full ").detail, "disk full");
}

#[test]
fn states_are_derived_from_the_end() {
    assert_eq!(derive_agent_state(" Running ", None, None, None), "working");
    assert_eq!(
        derive_agent_state("completed", Some(" "), None, None),
        "finished_pending_report"
    );
    for (error, state) in [
        ("Background job", "blocked_background_job"),
        ("merge conflict", "blocked_merge_conflict"),
        ("connection reset", "interrupted_transport"),
        ("other", "truly_idle"),
    ] {
        assert_eq!(derive_agent_state("failed", None, Some(error), None), state);
    }
}

#[test]
fn commits_are_found_in_results() {
    assert_eq!(extract_commit_sha("see abc1234."), Some("abc1234".to_string()));
    assert_eq!(extract_commit_sha("abc123 only"), None);
    assert_eq!(extract_commit_sha(&"a".repeat(41)), None);
    let provenance = maybe_commit_provenance(Some("abc1234"), None, Some("/w")).expect("commit");
    assert_eq!(provenance.branch, "unknown");
    assert_eq!(provenance.lineage, vec!["abc1234"]);
    assert_eq!(maybe_commit_provenance(None, None, None), None);
}

#[test]
fn surroundings_are_read_from_their_tools() {
    assert_eq!(
        current_git_branch(true, " main\n"),
        Some("main".to_string())
    );
    assert_eq!(current_git_branch(true, "\n"), Some(String::new()));
    assert_eq!(current_git_branch(false, "main"), None);
    assert_eq!(load_subagent_oauth_config_for(Ok(None)), Ok(None));
    assert_eq!(
        load_subagent_oauth_config_for(Err("gone".to_string())),
        Err("failed to load runtime OAuth config: gone".to_string())
    );
}

fn builtin_specs() -> Vec<ToolSpec> {
    [
        ("bash", false),
        ("read_file", false),
        ("write_file", false),
        ("edit_file", false),
        ("glob_search", false),
        ("grep_search", false),
        ("Agent", false),
        ("TaskCreate", true),
        ("RunTaskPacket", true),
        ("TaskList", true),
        ("TaskOutput", true),
    ]
    .into_iter()
    .map(|(name, background_task)| ToolSpec {
        name: name.to_string(),
        description: String::new(),
        input_schema: Json::Null,
        background_task,
    })
    .collect()
}

fn names(specs: Vec<ToolSpec>) -> Vec<String> {
    specs.into_iter().map(|spec| spec.name).collect()
}

#[test]
fn filtered_tool_specs_respect_allowlist() {
    let allowed: Vec<String> = ["read_file", "grep_search"]
        .into_iter()
        .map(str::to_string)
        .collect();
    let filtered = tool_specs_for_allowed_tools(builtin_specs(), Some(&allowed), false);
    assert_eq!(names(filtered), vec!["read_file", "grep_search"]);
}

#[test]
fn filtered_tool_specs_include_plugin_tools() {
    let mut specs = builtin_specs();
    specs.push(ToolSpec {
        name: "plugin_echo".to_string(),
        description: String::new(),
        input_schema: Json::Null,
        background_task: false,
    });
    let names = names(tool_specs_for_allowed_tools(specs, None, false));
    assert!(names.contains(&"bash".to_string()));
    assert!(names.contains(&"plugin_echo".to_string()));
}

#[test]
fn filtered_tool_specs_can_hide_background_task_tools() {
    let names = names(tool_specs_for_allowed_tools(builtin_specs(), None, true));
    assert!(names.contains(&"Agent".to_string()));
    assert!(!names.contains(&"TaskList".to_string()));
    assert!(!names.contains(&"TaskOutput".to_string()));
    assert!(!names.contains(&"TaskCreate".to_string()));
    assert!(!names.contains(&"RunTaskPacket".to_string()));
}

#[test]
fn manifests_are_read_back_where_they_can_be() {
    let done = || finish_agent(started(), "completed", Some("ok"), None, &end());
    assert_eq!(final_manifest(Ok(done()), started()), done());
    assert_eq!(final_manifest(Err("gone".to_string()), started()), started());
    assert_eq!(
        completed_job(Ok(done())),
        JobOutcome::Completed {
            result: Some("ok".to_string())
        }
    );
    assert_eq!(
        completed_job(Err("gone".to_string())),
        JobOutcome::Completed { result: None }
    );
}

#[test]
fn files_lie_below_the_store() {
    for (directory, file) in [
        ("/", "/agent-1.md"),
        ("", "agent-1.md"),
        ("/store/", "/store/agent-1.md"),
        ("store", "store/agent-1.md"),
    ] {
        let mut setting = setting();
        setting.output_dir = directory.to_string();
        let manifest = start_agent(&input(), &setting).expect("agent should start");
        assert_eq!(manifest.output_file, file);
    }
}

#[test]
fn names_end_in_a_dash_only_where_they_are_cut_off() {
    assert_eq!(slugify_agent_name("  Fix it!  "), "fix-it");
    assert_eq!(slugify_agent_name("-- !! --"), "");
    let cut = slugify_agent_name("abcdefghijklmnopqrstuvwxyz01234 and more");
    assert_eq!(cut.len(), 32);
    assert!(cut.ends_with('-'));
}

#[test]
fn more_words_never_lower_a_class() {
    assert_eq!(
        classify_lane_failure("plugin crashed"),
        LaneFailureClass::PluginStartup
    );
    assert_eq!(
        classify_lane_failure("Trust: plugin crashed"),
        LaneFailureClass::TrustGate
    );
    assert_eq!(
        classify_lane_failure("PLUGIN CRASHED, oh well"),
        LaneFailureClass::PluginStartup
    );
}
