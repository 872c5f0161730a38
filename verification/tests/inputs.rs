use claw::file_ops::{self, default_limit, default_offset};
use claw::file_requests::{
    run_edit_file, run_glob_search, run_read_file, run_write_file, EditFileInput, FileCall,
    GlobSearchInputValue, ReadFileInput, WriteFileInput,
};
use claw::json::{compact_json, indented_json, parse_json, quote, Json};
use claw::tool_inputs::{
    default_auto_recover_prompt_misdelivery, default_task_output_block,
    default_task_output_timeout_ms, SkillInput, TodoItem, TodoStatus, TodoWriteInput,
};
use claw::web_ops::{
    run_web_fetch, run_web_search, SearchHit, WebFetchOutput, WebSearchOutput, WebSearchResultItem,
};

#[test]
fn reads_start_at_the_first_line() {
    let call = run_read_file(ReadFileInput {
        path: "a".to_string(),
        offset: None,
        limit: None,
    });
    assert_eq!(
        call,
        FileCall::Read {
            path: "a".to_string(),
            offset: 1,
            limit: 500
        }
    );
    assert_eq!((default_offset(), default_limit()), (1, 500));
    let filled = file_ops::ReadFileInput::with_defaults("a".to_string(), Some(7), None);
    assert_eq!(
        file_ops::run_read_file(filled),
        FileCall::Read {
            path: "a".to_string(),
            offset: 7,
            limit: 500
        }
    );
}

#[test]
fn edits_replace_once_unless_told_otherwise() {
    for (asked, replace_all) in [(None, false), (Some(false), false), (Some(true), true)] {
        let call = run_edit_file(EditFileInput {
            path: "a".to_string(),
            old_string: "x".to_string(),
            new_string: "y".to_string(),
            replace_all: asked,
        });
        assert_eq!(
            call,
            FileCall::Edit {
                path: "a".to_string(),
                old_string: "x".to_string(),
                new_string: "y".to_string(),
                replace_all
            }
        );
    }
    assert_eq!(
        run_write_file(WriteFileInput {
            path: "a".to_string(),
            content: "c".to_string()
        }),
        FileCall::Write {
            path: "a".to_string(),
            content: "c".to_string()
        }
    );
    assert_eq!(
        run_glob_search(GlobSearchInputValue {
            pattern: "*.rs".to_string(),
            path: None
        }),
        FileCall::Glob {
            pattern: "*.rs".to_string(),
            root: None
        }
    );
}

#[test]
fn statuses_are_known_by_name() {
    for status in [
        TodoStatus::Pending,
        TodoStatus::InProgress,
        TodoStatus::Completed,
    ] {
        assert_eq!(TodoStatus::from_name(status.as_str()), Some(status));
    }
    assert_eq!(TodoStatus::InProgress.as_str(), "in_progress");
    assert_eq!(TodoStatus::from_name("done"), None);
    let todos = TodoWriteInput {
        todos: vec![TodoItem {
            content: "c".to_string(),
            active_form: "a".to_string(),
            status: TodoStatus::Pending,
        }],
    };
    assert_eq!(todos.todos.len(), 1);
    let skill = SkillInput {
        skill: "simplify".to_string(),
        args: None,
    };
    assert_eq!(skill.skill, "simplify");
    assert!(default_auto_recover_prompt_misdelivery() && default_task_output_block());
    assert_eq!(default_task_output_timeout_ms(), 30_000);
}

#[test]
fn fetched_pages_are_printed() {
    let printed = run_web_fetch(Ok(WebFetchOutput {
        bytes: 3,
        code: 200,
        code_text: "OK".to_string(),
        result: "a \"b\"\n".to_string(),
        duration_ms: 12,
        url: "https://x.test".to_string(),
    }))
    .expect("fetch should print");
    assert_eq!(
        printed,
        "{\n  \"bytes\": 3,\n  \"code\": 200,\n  \"codeText\": \"OK\",\n  \"result\": \"a \\\"b\\\"\\n\",\n  \"durationMs\": 12,\n  \"url\": \"https://x.test\"\n}"
    );
    let value: serde_json::Value = serde_json::from_str(&printed).expect("valid JSON");
    assert_eq!(value["result"], "a \"b\"\n");
    assert_eq!(run_web_fetch(Err("down".to_string())), Err("down".to_string()));
}

#[test]
fn found_pages_are_printed() {
    let hit = |title: &str| SearchHit {
        title: title.to_string(),
        url: "https://x.test".to_string(),
    };
    let printed = run_web_search(Ok(WebSearchOutput {
        query: "rust".to_string(),
        results: vec![
            WebSearchResultItem::Commentary("two found".to_string()),
            WebSearchResultItem::SearchResult {
                tool_use_id: "t".to_string(),
                content: vec![hit("one"), hit("two")],
            },
            WebSearchResultItem::SearchResult {
                tool_use_id: "u".to_string(),
                content: vec![],
            },
        ],
        duration_seconds: "0.5".to_string(),
    }))
    .expect("search should print");
    assert_eq!(
        printed,
        "{\n  \"query\": \"rust\",\n  \"results\": [\n    \"two found\",\n    {\n      \"tool_use_id\": \"t\",\n      \"content\": [\n        {\n          \"title\": \"one\",\n          \"url\": \"https://x.test\"\n        },\n        {\n          \"title\": \"two\",\n          \"url\": \"https://x.test\"\n        }\n      ]\n    },\n    {\n      \"tool_use_id\": \"u\",\n      \"content\": []\n    }\n  ],\n  \"durationSeconds\": 0.5\n}"
    );
    assert_eq!(run_web_search(Err("down".to_string())), Err("down".to_string()));
}

#[test]
fn printed_lists_look_like_those_of_serde_json() {
    let printed = run_web_search(Ok(WebSearchOutput {
        query: "q".to_string(),
        results: vec![],
        duration_seconds: "1".to_string(),
    }))
    .expect("search should print");
    let value: serde_json::Value = serde_json::from_str(&printed).expect("valid JSON");
    assert!(value["results"].as_array().is_some_and(Vec::is_empty));
    let sorted = |text: &str| {
        let mut lines: Vec<String> = text
            .lines()
            .map(|line| line.trim_end_matches(',').to_string())
            .collect();
        lines.sort();
        lines
    };
    assert_eq!(
        sorted(&printed),
        sorted(&serde_json::to_string_pretty(&value).expect("pretty"))
    );
}

#[test]
fn documents_are_parsed_and_printed() {
    let parsed = parse_json(r#" {"b": [1, -2, 1.5, null, true], "a": "x\u00e9"} "#).expect("json");
    assert_eq!(parsed.str_field("a"), Some("xé"));
    let items = parsed.get("b").and_then(|b| b.as_array()).expect("items");
    assert_eq!(items[0].as_u64(), Some(1));
    assert_eq!(items[1].as_u64(), None);
    assert_eq!(items[3], Json::Null);
    assert_eq!(items[4].as_bool(), Some(true));
    assert_eq!(
        compact_json(r#"{ "a" : [ 1 , 2 ] }"#),
        Ok(r#"{"a":[1,2]}"#.to_string())
    );
    assert_eq!(
        indented_json(r#"{"a":[1]}"#),
        Ok("{\n  \"a\": [\n    1\n  ]\n}".to_string())
    );
    let nested = r#"{"a":[],"b":{},"c":[[1,"x"],{"d":null,"e":-1.5}],"f":true}"#;
    assert_eq!(compact_json(nested), Ok(nested.to_string()));
    assert_eq!(
        indented_json(nested),
        Ok([
            "{",
            "  \"a\": [],",
            "  \"b\": {},",
            "  \"c\": [",
            "    [",
            "      1,",
            "      \"x\"",
            "    ],",
            "    {",
            "      \"d\": null,",
            "      \"e\": -1.5",
            "    }",
            "  ],",
            "  \"f\": true",
            "}",
        ]
        .join("\n"))
    );
    assert!(compact_json("{").is_err());
    assert!(parse_json("").is_err());
    assert_eq!(quote("a\"\n"), "\"a\\\"\\n\"");
    assert_eq!(
        quote("\u{8}\t\u{c}\r\u{1}\u{1f}\u{7f}\\é"),
        "\"\\b\\t\\f\\r\\u0001\\u001f\u{7f}\\\\é\""
    );
}
