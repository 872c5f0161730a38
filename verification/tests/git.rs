use claw::git::{
    format_commit_preflight_report, format_commit_skipped_report, parse_git_status_branch,
    parse_git_workspace_summary, run_commit, GitWorkspaceSummary,
};

#[test]
fn commit_reports_surface_workspace_context() {
    let summary = GitWorkspaceSummary {
        changed_files: 2,
        staged_files: 1,
        unstaged_files: 1,
        untracked_files: 0,
        conflicted_files: 0,
    };

    let preflight = format_commit_preflight_report(Some("feature/ux"), summary);
    assert!(preflight.contains("Result           ready"));
    assert!(preflight.contains("Branch           feature/ux"));
    assert!(preflight.contains("Workspace        dirty · 2 files · 1 staged, 1 unstaged"));
    assert!(preflight
        .contains("Action           create a git commit from the current workspace changes"));
}

#[test]
fn commit_skipped_report_points_to_next_steps() {
    let report = format_commit_skipped_report();
    assert!(report.contains("Reason           no workspace changes"));
    assert!(
        report.contains("Action           create a git commit from the current workspace changes")
    );
    assert!(report.contains("/status to inspect context"));
    assert!(report.contains("/diff to inspect repo changes"));
}

#[test]
fn parses_detached_head_from_status_snapshot() {
    assert_eq!(
        parse_git_status_branch(Some(
            "## HEAD (no branch)
 M src/main.rs"
        )),
        Some("detached HEAD".to_string())
    );
}

#[test]
fn parses_git_status_metadata() {
    let branch = parse_git_status_branch(Some(
        "## rcc/cli...origin/rcc/cli
 M src/main.rs",
    ));
    assert_eq!(branch.as_deref(), Some("rcc/cli"));
}

#[test]
fn branches_are_read_up_to_their_upstream() {
    assert_eq!(
        parse_git_status_branch(Some("## main [ahead 1]")),
        Some("main".to_string())
    );
    assert_eq!(
        parse_git_status_branch(Some("## release/1.2...origin/release/1.2")),
        Some("release/1.2".to_string())
    );
    assert_eq!(parse_git_status_branch(Some("## ")), None);
    assert_eq!(parse_git_status_branch(Some(" M src/main.rs")), None);
    assert_eq!(parse_git_status_branch(Some("")), None);
    assert_eq!(parse_git_status_branch(None), None);
}

#[test]
fn parses_git_workspace_summary_counts() {
    let summary = parse_git_workspace_summary(Some(
        "## feature/ux
M  src/main.rs
 M README.md
?? notes.md
UU conflicted.rs",
    ));

    assert_eq!(
        summary,
        GitWorkspaceSummary {
            changed_files: 4,
            staged_files: 2,
            unstaged_files: 2,
            untracked_files: 1,
            conflicted_files: 1,
        }
    );
    assert_eq!(
        summary.headline(),
        "dirty · 4 files · 2 staged, 2 unstaged, 1 untracked, 1 conflicted"
    );
}

#[test]
fn clean_workspaces_have_no_changes() {
    for status in [None, Some(""), Some("## main\n\n")] {
        let summary = parse_git_workspace_summary(status);
        assert!(summary.is_clean());
        assert_eq!(summary.headline(), "clean");
        assert_eq!(
            summary.staged_files
                + summary.unstaged_files
                + summary.untracked_files
                + summary.conflicted_files,
            0
        );
    }
}

#[test]
fn both_added_files_conflict() {
    let summary = parse_git_workspace_summary(Some("AA both.rs\nA  one.rs\n M"));
    assert_eq!(summary.changed_files, 3);
    assert_eq!(summary.staged_files, 2);
    assert_eq!(summary.unstaged_files, 2);
    assert_eq!(summary.conflicted_files, 1);
}

#[test]
fn commits_are_skipped_in_a_clean_workspace() {
    assert_eq!(run_commit("## main\n"), format_commit_skipped_report());
    let report = run_commit("## main\n M src/main.rs\n");
    assert!(report.contains("Branch           main"));
    assert!(report.contains("Workspace        dirty · 1 files · 1 unstaged"));
    assert!(run_commit(" M a.rs").contains("Branch           unknown"));
}
