use claw::sessions::{
    collect_sessions_from_dir, create_managed_session_handle, deletion_confirmed, file_extension,
    format_missing_session_reference, format_no_managed_sessions, format_session_modified_age,
    has_legacy_root, is_managed_session_file, latest_managed_session, list_managed_sessions,
    managed_session_candidates,
    parse_session_id_components, refers_to_latest, render_session_list,
    resolve_managed_session_path, resolve_session_reference, session_clear_backup_name,
    session_counter_from_id, session_created_at_from_id, session_id_of_file,
    sort_managed_session_summaries, summarize_loaded_session, summarize_unreadable_session,
    LoadedSession, ManagedSessionSummary, SessionCandidate, SessionEntry,
    SessionLookup,
};

fn session(id: &str, modified: u128, created: u64) -> ManagedSessionSummary {
    ManagedSessionSummary {
        id: id.to_string(),
        path: format!("/s/{id}.jsonl"),
        modified_epoch_millis: modified,
        message_count: 1,
        parent_session_id: None,
        branch_name: None,
        created_at_ms: created,
        session_counter: session_counter_from_id(id),
    }
}

#[test]
fn managed_sessions_default_to_jsonl_and_resolve_legacy_json() {
    let handle = create_managed_session_handle("session-alpha", "/work/.claw/sessions");
    assert!(handle.path.ends_with("session-alpha.jsonl"));
    let below_slash = create_managed_session_handle("a", "/s/");
    assert_eq!(below_slash.path, "/s/a.jsonl");

    assert_eq!(
        resolve_session_reference("legacy", false, false, 1),
        SessionLookup::Managed
    );
    let candidates = managed_session_candidates("legacy", true);
    assert_eq!(
        candidates[1],
        SessionCandidate {
            in_legacy_root: false,
            file_name: "legacy.json".to_string()
        }
    );
    assert_eq!(candidates.len(), 4);
    assert_eq!(
        resolve_managed_session_path("legacy", &vec![false, true, false, false]),
        Ok(1)
    );
    assert_eq!(
        resolve_managed_session_path("legacy", &vec![false, false]),
        Err(format_missing_session_reference("legacy"))
    );
}

#[test]
fn latest_session_alias_resolves_most_recent_managed_session() {
    assert_eq!(
        resolve_session_reference("latest", false, false, 1),
        SessionLookup::Latest
    );
    let latest = latest_managed_session(vec![
        session("session-newer", 40, 1),
        session("session-older", 20, 9),
    ])
    .expect("latest session should resolve");
    assert_eq!(latest.id, "session-newer");
}

#[test]
fn latest_session_alias_uses_numeric_counter_when_updated_at_ties() {
    let mut sessions = vec![
        session("session-1000-9", 5_000, 1_000),
        session("session-1000-10", 5_000, 1_000),
    ];
    sort_managed_session_summaries(&mut sessions);
    let latest = latest_managed_session(sessions).expect("latest session should load");
    assert_eq!(latest.id, "session-1000-10");
}

#[test]
fn no_session_is_the_latest_of_none() {
    assert_eq!(
        latest_managed_session(vec![]),
        Err(format_no_managed_sessions())
    );
}

#[test]
fn listings_are_ordered_by_change_creation_counter_and_name() {
    let mut sessions = vec![
        session("b", 1, 1),
        session("c", 1, 1),
        session("old", 0, 9),
        session("young", 1, 2),
        session("session-1-1", 1, 1),
        session("new", 2, 0),
    ];
    sort_managed_session_summaries(&mut sessions);
    let ids: Vec<&str> = sessions.iter().map(|s| s.id.as_str()).collect();
    assert_eq!(ids, vec!["new", "young", "session-1-1", "c", "b", "old"]);
}

#[test]
fn session_ids_hold_their_creation_and_counter() {
    assert_eq!(parse_session_id_components("session-1000-10"), Some((1000, 10)));
    assert_eq!(parse_session_id_components("session-1000"), None);
    assert_eq!(parse_session_id_components("other-1-2"), None);
    assert_eq!(parse_session_id_components("session-x-2"), None);
    assert_eq!(
        parse_session_id_components("session-18446744073709551616-1"),
        None
    );
    for (created, counter) in [(0, 0), (1, 10), (907, 3), (u64::MAX, u64::MAX)] {
        assert_eq!(
            parse_session_id_components(&format!("session-{created}-{counter}")),
            Some((created, counter))
        );
    }
    assert_eq!(session_created_at_from_id("session-7-8"), Some(7));
    assert_eq!(session_counter_from_id("session-7-8"), Some(8));
}

#[test]
fn session_files_are_known_by_their_extension() {
    assert!(is_managed_session_file("a.jsonl"));
    assert!(is_managed_session_file("a.b.json"));
    assert!(!is_managed_session_file("a.txt"));
    assert!(!is_managed_session_file(".json"));
    assert!(!is_managed_session_file("json"));
    assert_eq!(file_extension("a.tar.gz"), Some("gz"));
    assert_eq!(file_extension("a."), Some(""));
    assert_eq!(session_id_of_file(Some("a.jsonl"), "r"), "a");
    assert_eq!(session_id_of_file(Some("a.json"), "r"), "a");
    assert_eq!(session_id_of_file(Some("a.txt"), "r"), "r");
    assert_eq!(session_id_of_file(None, "r"), "r");
}

#[test]
fn references_name_aliases_files_or_sessions() {
    assert!(refers_to_latest("LAST"));
    assert!(refers_to_latest("recent"));
    assert!(!refers_to_latest("latest "));
    assert_eq!(
        resolve_session_reference("./a.jsonl", true, true, 2),
        SessionLookup::File
    );
    assert_eq!(
        resolve_session_reference("a.jsonl", false, true, 1),
        SessionLookup::Missing(format_missing_session_reference("a.jsonl"))
    );
    assert_eq!(
        resolve_session_reference("dir/a", false, false, 2),
        SessionLookup::Missing(format_missing_session_reference("dir/a"))
    );
    assert!(has_legacy_root(Some("sessions")));
    assert!(!has_legacy_root(Some("other")));
    assert!(!has_legacy_root(None));
}

#[test]
fn cleared_sessions_are_saved_beside_themselves() {
    assert_eq!(
        session_clear_backup_name(Some("a.jsonl"), 12),
        "a.jsonl.before-clear-12.bak"
    );
    assert_eq!(
        session_clear_backup_name(None, 0),
        "session.jsonl.before-clear-0.bak"
    );
}

#[test]
fn deletions_need_a_clear_answer() {
    assert!(deletion_confirmed(" Y\n"));
    assert!(deletion_confirmed("yes"));
    assert!(!deletion_confirmed(""));
    assert!(!deletion_confirmed("sure"));
}

#[test]
fn summaries_tell_of_readable_and_unreadable_sessions() {
    let summary = summarize_loaded_session(
        LoadedSession {
            session_id: "session-5-6".to_string(),
            message_count: 3,
            parent_session_id: Some("p".to_string()),
            branch_name: None,
            updated_at_ms: 9,
            created_at_ms: 5,
        },
        "/s/x.jsonl".to_string(),
    );
    assert_eq!(summary.modified_epoch_millis, 9);
    assert_eq!(summary.session_counter, Some(6));
    let broken = summarize_unreadable_session(Some("session-3-4"), "/s/y".to_string(), 100);
    assert_eq!(broken.created_at_ms, 3);
    assert_eq!(broken.message_count, 0);
    let nameless = summarize_unreadable_session(None, "/s/z".to_string(), u128::MAX);
    assert_eq!(nameless.id, "unknown");
    assert_eq!(nameless.created_at_ms, u64::MAX);
}

#[test]
fn ages_are_rounded_down() {
    let now = 1_000_000_000;
    for (seconds, expected) in [
        (0, "just-now"),
        (4, "just-now"),
        (5, "5s-ago"),
        (59, "59s-ago"),
        (60, "1m-ago"),
        (3_599, "59m-ago"),
        (3_600, "1h-ago"),
        (86_399, "23h-ago"),
        (86_400, "1d-ago"),
    ] {
        assert_eq!(
            format_session_modified_age(now - seconds * 1_000, now),
            expected
        );
    }
    assert_eq!(format_session_modified_age(now + 1, now), "just-now");
}

#[test]
fn listings_mark_the_active_session() {
    let mut fork = session("fork", 0, 0);
    fork.parent_session_id = Some("root".to_string());
    fork.branch_name = Some("try".to_string());
    let listing = render_session_list("fork", &vec![fork, session("root", 0, 0)], "/s", 0);
    assert_eq!(
        listing,
        "Sessions\n  Directory         /s\n  fork                 ● current  msgs=1    modified=just-now branch=try from=root path=/s/fork.jsonl\n  root                 ○ saved    msgs=1    modified=just-now path=/s/root.jsonl"
    );
    assert_eq!(
        render_session_list("x", &vec![], "/s", 0),
        "Sessions\n  Directory         /s\n  No managed sessions saved yet."
    );
}

fn entry(file_name: &str, stem: Option<&str>, modified: u128, loaded: bool) -> SessionEntry {
    SessionEntry {
        file_name: file_name.to_string(),
        file_stem: stem.map(str::to_string),
        path: format!("/s/{file_name}"),
        modified_epoch_millis: modified,
        loaded: loaded.then(|| LoadedSession {
            session_id: format!("loaded-{file_name}"),
            message_count: 2,
            parent_session_id: None,
            branch_name: None,
            updated_at_ms: 7,
            created_at_ms: 3,
        }),
    }
}

#[test]
fn session_files_are_collected_and_others_passed_over() {
    let mut sessions = vec![session("first", 1, 1)];
    collect_sessions_from_dir(
        vec![
            entry("notes.txt", Some("notes"), 9, false),
            entry("a.jsonl", Some("a"), 9, true),
            entry("b.json", None, 5, false),
        ],
        &mut sessions,
    );
    let ids: Vec<&str> = sessions.iter().map(|s| s.id.as_str()).collect();
    assert_eq!(ids, ["first", "loaded-a.jsonl", "unknown"]);
    assert_eq!(sessions[1].modified_epoch_millis, 7);
    assert_eq!(sessions[2].modified_epoch_millis, 5);
    assert_eq!(sessions[2].created_at_ms, 5);
}

#[test]
fn both_directories_are_listed_in_one_order() {
    let listed = list_managed_sessions(
        vec![
            entry("old.jsonl", Some("old"), 2, false),
            entry("session-9-1.jsonl", Some("session-9-1"), 8, false),
        ],
        Some(vec![entry("legacy.json", Some("legacy"), 6, false)]),
    );
    let ids: Vec<&str> = listed.iter().map(|s| s.id.as_str()).collect();
    assert_eq!(ids, ["session-9-1", "legacy", "old"]);
    assert_eq!(listed[0].created_at_ms, 9);
    assert!(list_managed_sessions(vec![], None).is_empty());
}
