use claw::json::{parse_json, Json};
use claw::permissions::{
    decide, hook_progress_line, parse_permission_mode, permission_prompt, set_permissions,
    HookPhase, PermissionChange, PermissionMode, PermissionPromptDecision, PermissionRequest,
};
use claw::tool_executor::{
    describe_parallel_invocation, describe_parsed_invocation, execute_many, execute_raw,
    execute_runtime_tool, join_group, join_groups, named_mcp_tool, parallel_agent_limit,
    render_failure, search_result_limit, shown_result, supports_parallel_execution,
    with_render_failure, ExecutionPlan, RuntimeToolKind, ToolInvocation, ToolRoute,
};

fn agent(description: &str) -> ToolInvocation {
    ToolInvocation {
        tool_name: "Agent".to_string(),
        input: format!(r#"{{"description":"{description}","prompt":"{description} prompt"}}"#),
    }
}

fn bash() -> ToolInvocation {
    ToolInvocation {
        tool_name: "bash".to_string(),
        input: "{}".to_string(),
    }
}

#[test]
fn parallel_agent_limit_uses_env_override() {
    assert_eq!(parallel_agent_limit(Some("2")), 2);
}

#[test]
fn bad_limits_are_ignored() {
    for configured in [None, Some(""), Some("0"), Some("-1"), Some("many")] {
        assert_eq!(parallel_agent_limit(configured), 4);
    }
    assert_eq!(parallel_agent_limit(Some(" 3 ")), 3);
}

#[test]
fn parallel_agent_limit_chunks_agent_invocations_and_preserves_result_order() {
    let invocations = vec![agent("first"), agent("second"), agent("third")];
    let plan = execute_many(invocations, parallel_agent_limit(Some("2")));
    let groups = match plan {
        ExecutionPlan::Groups(groups) => groups,
        other => panic!("agents should run side by side: {other:?}"),
    };
    assert_eq!(
        groups,
        vec![vec![agent("first"), agent("second")], vec![agent("third")]]
    );
    let mut results = Vec::new();
    for group in groups {
        let outcomes = group
            .iter()
            .map(|invocation| {
                let value = parse_json(&invocation.input).expect("valid JSON");
                let description = value.str_field("description").expect("description");
                Some(Ok(format!("result:{description}")))
            })
            .collect();
        results.extend(join_group(outcomes));
    }
    assert_eq!(
        results
            .into_iter()
            .map(|result| result.expect("test executor should succeed"))
            .collect::<Vec<_>>(),
        vec!["result:first", "result:second", "result:third"]
    );
}

#[test]
fn other_calls_run_one_by_one() {
    assert!(supports_parallel_execution("Agent"));
    assert!(!supports_parallel_execution("bash"));
    assert_eq!(
        execute_many(vec![agent("a"), bash()], 2),
        ExecutionPlan::OneByOne(vec![agent("a"), bash()])
    );
    assert_eq!(
        execute_many(vec![agent("a")], 2),
        ExecutionPlan::OneByOne(vec![agent("a")])
    );
}

#[test]
fn lost_results_become_errors() {
    let joined = join_group(vec![Some(Ok("a".to_string())), None]);
    assert_eq!(joined[0], Ok("a".to_string()));
    assert!(joined[1].is_err());
    let replaced = with_render_failure(
        vec![Ok("a".to_string()), Ok("b".to_string())],
        1,
        "broken".to_string(),
    );
    assert_eq!(replaced[0], Ok("a".to_string()));
    assert!(replaced[1].is_err());
}

#[test]
fn calls_are_routed_by_their_tools() {
    let allowed = vec!["bash".to_string(), "ToolSearch".to_string()];
    assert!(matches!(
        execute_raw(Some(&allowed), "bash", "", false),
        Ok(ToolRoute::Registry(_))
    ));
    assert!(matches!(
        execute_raw(Some(&allowed), "ToolSearch", "{}", false),
        Ok(ToolRoute::Search(_))
    ));
    assert!(matches!(
        execute_raw(None, "mcp__x__y", "{}", true),
        Ok(ToolRoute::Runtime(_))
    ));
    let refused = execute_raw(Some(&allowed), "write_file", "{}", false).expect_err("not allowed");
    assert!(refused.contains("write_file"));
    let broken = execute_raw(None, "bash", "{", false).expect_err("not JSON");
    assert!(broken.contains("JSON"));
}

#[test]
fn runtime_tools_need_servers() {
    assert_eq!(
        execute_runtime_tool("MCPTool", true),
        Ok(RuntimeToolKind::CallNamedTool)
    );
    assert_eq!(
        execute_runtime_tool("ListMcpResourcesTool", true),
        Ok(RuntimeToolKind::ListResources)
    );
    assert_eq!(
        execute_runtime_tool("ReadMcpResourceTool", true),
        Ok(RuntimeToolKind::ReadResource)
    );
    assert_eq!(
        execute_runtime_tool("mcp__x__y", true),
        Ok(RuntimeToolKind::CallTool)
    );
    assert!(execute_runtime_tool("MCPTool", false).is_err());
    assert_eq!(
        named_mcp_tool(Some("q".to_string()), Some("t".to_string())),
        Ok("q".to_string())
    );
    assert_eq!(named_mcp_tool(None, Some("t".to_string())), Ok("t".to_string()));
    assert!(named_mcp_tool(None, None).is_err());
    assert_eq!(search_result_limit(None), 5);
    assert_eq!(search_result_limit(Some(2)), 2);
}

#[test]
fn results_that_cannot_be_shown_are_errors() {
    assert_eq!(
        shown_result(Ok("a".to_string()), Ok(())),
        Ok("a".to_string())
    );
    assert!(shown_result(Ok("a".to_string()), Err("closed".to_string())).is_err());
}

fn request() -> PermissionRequest {
    PermissionRequest {
        tool_name: "bash".to_string(),
        input: "{\"command\":\"ls\"}".to_string(),
        required_mode: PermissionMode::DangerFullAccess,
        reason: Some("it writes".to_string()),
    }
}

#[test]
fn permissions_are_asked_for_and_given() {
    let prompt = permission_prompt(&request(), PermissionMode::ReadOnly);
    for part in ["bash", "read-only", "danger-full-access", "it writes", "ls"] {
        assert!(prompt.contains(part), "{prompt}");
    }
    for answer in ["y", "YES\n", " yes "] {
        assert_eq!(
            decide(&request(), Ok(answer.to_string())),
            PermissionPromptDecision::Allow
        );
    }
    for answer in [Ok("n".to_string()), Ok(String::new()), Err("closed".to_string())] {
        assert!(matches!(
            decide(&request(), answer),
            PermissionPromptDecision::Deny { .. }
        ));
    }
}

#[test]
fn permission_modes_change_only_to_known_ones() {
    assert_eq!(
        set_permissions(PermissionMode::ReadOnly, None),
        PermissionChange::Report
    );
    assert_eq!(
        set_permissions(PermissionMode::ReadOnly, Some("read-only")),
        PermissionChange::Unchanged(PermissionMode::ReadOnly)
    );
    assert_eq!(
        set_permissions(PermissionMode::ReadOnly, Some("workspace-write")),
        PermissionChange::Switch {
            from: PermissionMode::ReadOnly,
            to: PermissionMode::WorkspaceWrite
        }
    );
    assert_eq!(
        set_permissions(PermissionMode::ReadOnly, Some("all")),
        PermissionChange::Unsupported(
            "unsupported permission mode 'all'. Use read-only, workspace-write, or danger-full-access."
                .to_string()
        )
    );
    for mode in [
        PermissionMode::ReadOnly,
        PermissionMode::WorkspaceWrite,
        PermissionMode::DangerFullAccess,
    ] {
        assert_eq!(parse_permission_mode(mode.as_str()), Some(mode));
    }
}

#[test]
fn hooks_report_their_progress() {
    let lines: Vec<String> = [HookPhase::Started, HookPhase::Completed, HookPhase::Cancelled]
        .iter()
        .map(|phase| hook_progress_line(*phase, "PreToolUse", "bash", "lint.sh"))
        .collect();
    for line in &lines {
        assert!(line.contains("PreToolUse") && line.contains("bash") && line.contains("lint.sh"));
    }
    assert!(lines[0] != lines[1] && lines[1] != lines[2] && lines[0] != lines[2]);
}

#[test]
fn results_that_cannot_be_shown_are_told_apart() {
    assert_eq!(
        render_failure(true, "closed"),
        "failed to render tool error: closed"
    );
    assert_eq!(
        render_failure(false, "closed"),
        "failed to render tool result: closed"
    );
}

#[test]
fn cli_tool_executor_accepts_empty_input_for_empty_object_tools() {
    match execute_raw(None, "TaskList", "", false).expect("empty input should be normalized") {
        ToolRoute::Registry(input) => assert_eq!(input, Json::Object(vec![])),
        other => panic!("unexpected route: {other:?}"),
    }
}

#[test]
fn batch_results_stand_in_the_order_of_the_calls() {
    let calls = vec![agent("first"), agent("second"), agent("third")];
    let groups = match execute_many(calls, 2) {
        ExecutionPlan::Groups(groups) => groups,
        other => panic!("unexpected plan: {other:?}"),
    };
    let results = groups
        .iter()
        .map(|group| group.iter().map(|call| Ok(call.input.clone())).collect())
        .collect();
    let inputs: Vec<Result<String, String>> = ["first", "second", "third"]
        .into_iter()
        .map(|name| Ok(agent(name).input))
        .collect();
    assert_eq!(join_groups(results), inputs);
    assert!(join_groups(vec![]).is_empty());
}

#[test]
fn calls_are_described_in_a_line() {
    let described = |tool_name: &str, input: &str| {
        describe_parallel_invocation(&ToolInvocation {
            tool_name: tool_name.to_string(),
            input: input.to_string(),
        })
    };
    assert_eq!(described("bash", "{"), "tool=bash");
    assert_eq!(described("Agent", "{"), "tool=Agent input_parse_error");
    assert_eq!(
        described(
            "Agent",
            r#"{"description":"a \"b\"","prompt":"caf\u00e9","run_in_background":true}"#
        ),
        "tool=Agent description=Some(\"a \\\"b\\\"\") name=None background=true prompt_len=5"
    );
    assert_eq!(
        describe_parsed_invocation("Agent", Some(&Json::Null)),
        "tool=Agent description=None name=None background=false prompt_len=0"
    );
}
