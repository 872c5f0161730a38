use claw::json::parse_json;
use claw::mcp::{
    call_tool, list_resources_for_all_servers, list_resources_for_server, mcp_annotation_flag,
    mcp_runtime_tool_definition, mcp_runtime_tools, mcp_state, mcp_wrapper_tool_definitions,
    pending_servers, permission_mode_for_mcp_tool, read_resource, Discovery, FailedServer,
    LifecyclePhase, McpTool, ResourceAnswer, UnsupportedServer,
};
use claw::permissions::PermissionMode;

fn strings(names: &[&str]) -> Vec<String> {
    names.iter().map(|name| name.to_string()).collect()
}

fn tool(annotations: Option<&str>) -> McpTool {
    McpTool {
        qualified_name: "mcp__alpha__echo".to_string(),
        description: None,
        input_schema: None,
        annotations: annotations.map(|text| parse_json(text).expect("valid JSON")),
    }
}

#[test]
fn lost_servers_are_reported_and_working_ones_kept() {
    let discovery = Discovery {
        server_names: strings(&["alpha", "broken", "remote"]),
        failed: vec![FailedServer {
            server_name: "broken".to_string(),
            error: "no answer".to_string(),
        }],
        unsupported: vec![UnsupportedServer {
            server_name: "remote".to_string(),
            transport: "WebSocket".to_string(),
            reason: "not supported".to_string(),
        }],
        tool_names: strings(&["mcp__alpha__echo"]),
    };
    let state = mcp_state(&discovery).expect("servers are configured");
    assert_eq!(
        pending_servers(&state),
        Some(strings(&["broken", "remote"]))
    );
    let report = state.degraded_report.expect("servers are lost");
    assert_eq!(report.working_servers, strings(&["alpha"]));
    assert_eq!(report.available_tools, strings(&["mcp__alpha__echo"]));
    assert_eq!(report.failed_servers.len(), 2);
    assert_eq!(report.failed_servers[0].phase, LifecyclePhase::ToolDiscovery);
    assert!(report.failed_servers[0].recoverable);
    assert_eq!(
        report.failed_servers[1].transport.as_deref(),
        Some("websocket")
    );
    assert!(!report.failed_servers[1].recoverable);
}

#[test]
fn no_servers_need_no_state() {
    let none = Discovery {
        server_names: vec![],
        failed: vec![],
        unsupported: vec![],
        tool_names: vec![],
    };
    assert_eq!(mcp_state(&none), None);
    let fine = Discovery {
        server_names: strings(&["alpha"]),
        failed: vec![],
        unsupported: vec![],
        tool_names: vec![],
    };
    let state = mcp_state(&fine).expect("a server is configured");
    assert_eq!(state.degraded_report, None);
    assert_eq!(pending_servers(&state), None);
}

#[test]
fn tool_answers_are_printed_or_refused() {
    let value: serde_json::Value = serde_json::from_str(r#"{"b":1,"a":[true]}"#).expect("json");
    assert_eq!(
        call_tool("t", None, Some(&value)),
        Ok(serde_json::to_string_pretty(&value).expect("pretty"))
    );
    let refused = call_tool("t", Some(("bad".to_string(), -32000)), Some(&value))
        .expect_err("the server refused");
    assert!(refused.contains("bad") && refused.contains("-32000"));
    assert!(call_tool("t", None, None).is_err());
}

fn value(text: &str) -> serde_json::Value {
    serde_json::from_str(text).expect("valid JSON")
}

fn printed(text: &str) -> String {
    serde_json::to_string_pretty(&value(text)).expect("printable")
}

#[test]
fn resources_are_listed_per_server() {
    let items = || value(r#"[{"uri":"a","size":[1,2.5]}]"#);
    assert_eq!(
        list_resources_for_server("alpha", Ok(items())),
        Ok(printed(
            r#"{"server":"alpha","resources":[{"uri":"a","size":[1,2.5]}]}"#
        ))
    );
    assert_eq!(
        list_resources_for_server("alpha", Err("down".to_string())),
        Err("down".to_string())
    );
    assert_eq!(
        read_resource("alpha", Ok(items())),
        Ok(printed(
            r#"{"server":"alpha","contents":[{"uri":"a","size":[1,2.5]}]}"#
        ))
    );
    assert_eq!(
        read_resource("alpha", Err("down".to_string())),
        Err("down".to_string())
    );
}

#[test]
fn resources_of_all_servers_are_listed_with_the_failures() {
    let answers = |second: Result<serde_json::Value, String>| {
        vec![
            ResourceAnswer {
                server_name: "alpha".to_string(),
                answer: Err("down".to_string()),
            },
            ResourceAnswer {
                server_name: "beta".to_string(),
                answer: second,
            },
        ]
    };
    assert_eq!(
        list_resources_for_all_servers(answers(Ok(value("[]")))),
        Ok(printed(
            r#"{"resources":[{"server":"beta","resources":[]}],"failures":[{"server":"alpha","error":"down"}]}"#
        ))
    );
    let none = list_resources_for_all_servers(answers(Err("gone".to_string())))
        .expect_err("none answered");
    assert!(none.contains("down") && none.contains("gone"));
    assert_eq!(
        list_resources_for_all_servers(vec![]),
        Ok(printed(r#"{"resources":[],"failures":[]}"#))
    );
}

#[test]
fn annotations_set_the_permission() {
    for (annotations, mode) in [
        (None, PermissionMode::WorkspaceWrite),
        (Some(r#"{"readOnlyHint":true}"#), PermissionMode::ReadOnly),
        (
            Some(r#"{"destructiveHint":true}"#),
            PermissionMode::DangerFullAccess,
        ),
        (
            Some(r#"{"openWorldHint":true}"#),
            PermissionMode::DangerFullAccess,
        ),
    ] {
        assert_eq!(permission_mode_for_mcp_tool(&tool(annotations)), mode);
    }
    assert!(mcp_annotation_flag(&tool(Some(r#"{"readOnlyHint":true}"#)), "readOnlyHint"));
    assert!(!mcp_annotation_flag(&tool(None), "readOnlyHint"));
}

#[test]
fn tools_of_servers_are_defined() {
    let definition = mcp_runtime_tool_definition(tool(None));
    assert_eq!(definition.name, "mcp__alpha__echo");
    assert!(definition
        .description
        .as_deref()
        .is_some_and(|text| text.contains("mcp__alpha__echo")));
    assert_eq!(mcp_wrapper_tool_definitions().len(), 3);
    assert_eq!(mcp_runtime_tools(vec![tool(None)], true).len(), 4);
    assert_eq!(mcp_runtime_tools(vec![], false).len(), 0);
}
