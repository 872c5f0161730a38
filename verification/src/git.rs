//! What `git status --short --branch` says of a workspace.

use vstd::prelude::*;

use crate::text;

verus! {

// ---------------------------------------------------------------------------
// The branch
// ---------------------------------------------------------------------------

/// Whether the name of a branch ends in front of position `at`: at the dots
/// before its upstream, or at a space.
pub open spec fn branch_ends(line: Seq<char>, at: int) -> bool {
    line[at] == ' ' || text::occurs_at(line, "..."@, at)
}

/// The name of the branch that a line starts with.
pub open spec fn branch_name(line: Seq<char>, from: int) -> Seq<char>
    decreases line.len() - from,
{
    if from < 0 || from >= line.len() {
        line
    } else if branch_ends(line, from) {
        line.take(from)
    } else {
        branch_name(line, from + 1)
    }
}

/// The branch that is checked out.
pub open spec fn checked_out_branch(status: Seq<char>) -> Option<Seq<char>> {
    let lines = text::lines_of(status);
    if lines.len() == 0 || !text::has_prefix(lines[0], "## "@) {
        None
    } else {
        let line = lines[0].skip(3);
        if text::has_prefix(line, "HEAD"@) {
            Some("detached HEAD"@)
        } else {
            let branch = text::trimmed(branch_name(line, 0));
            if branch.len() == 0 {
                None
            } else {
                Some(branch)
            }
        }
    }
}

fn cut_branch_name(line: &str) -> (r: &str)
    ensures
        r@ == branch_name(line@, 0),
{
    proof {
        reveal_strlit("...");
    }
    let n: usize = line.unicode_len();
    let mut i: usize = 0;
    while i < n
        invariant
            i <= n,
            n == line@.len(),
            "..."@.len() == 3,
            branch_name(line@, 0) == branch_name(line@, i as int),
        decreases n - i,
    {
        let ends = line.get_char(i) == ' ' || (n - i >= 3 && text::str_eq(
            line.substring_char(i, i + 3),
            "...",
        ));
        assert(ends == branch_ends(line@, i as int));
        if ends {
            assert(line@.subrange(0, i as int) =~= line@.take(i as int));
            return line.substring_char(0, i);
        }
        i += 1;
    }
    line
}

/// The branch that is checked out, where the output of `git status` is there.
pub open spec fn branch_told(status: Option<Seq<char>>) -> Option<Seq<char>> {
    match status {
        Some(status) => checked_out_branch(status),
        None => None,
    }
}

/// The branch that is checked out, from the output of `git status`.
pub fn parse_git_status_branch(status: Option<&str>) -> (r: Option<String>)
    ensures
        text::opt_text(r) == branch_told(text::opt_str(status)),
{
    match status {
        None => None,
        Some(status) => {
            let lines = text::lines(status);
            let ghost all = text::lines_of(status@);
            assert(text::texts(lines@) == all);
            if lines.is_empty() {
                return None;
            }
            assert(all[0] == lines@[0]@);
            proof {
                reveal_strlit("## ");
            }
            match text::strip_prefix(lines[0].as_str(), "## ") {
                None => None,
                Some(line) => {
                    if text::starts_with(line, "HEAD") {
                        return Some("detached HEAD".to_string());
                    }
                    let branch = text::trim(cut_branch_name(line));
                    if branch.is_empty() {
                        None
                    } else {
                        Some(branch.to_string())
                    }
                },
            }
        },
    }
}

// ---------------------------------------------------------------------------
// The changes
// ---------------------------------------------------------------------------

/// How many files are changed, and how.
#[derive(Debug, Clone, Copy, PartialEq, Eq, Structural)]
pub struct GitWorkspaceSummary {
    pub changed_files: usize,
    pub staged_files: usize,
    pub unstaged_files: usize,
    pub untracked_files: usize,
    pub conflicted_files: usize,
}

/// Whether a line of the status tells of a changed file.
pub open spec fn is_change(line: Seq<char>) -> bool {
    !text::has_prefix(line, "## "@) && !text::is_blank(line)
}

/// The character of a line at a position, a space where the line is shorter.
pub open spec fn status_char(line: Seq<char>, at: int) -> char {
    if at < line.len() {
        line[at]
    } else {
        ' '
    }
}

pub open spec fn is_untracked(line: Seq<char>) -> bool {
    status_char(line, 0) == '?' && status_char(line, 1) == '?'
}

pub open spec fn is_staged(line: Seq<char>) -> bool {
    !is_untracked(line) && status_char(line, 0) != ' '
}

pub open spec fn is_unstaged(line: Seq<char>) -> bool {
    !is_untracked(line) && status_char(line, 1) != ' '
}

/// Whether both sides of a merge changed the file: one side is unmerged, or
/// both added it.
pub open spec fn is_conflicted(line: Seq<char>) -> bool {
    !is_untracked(line) && (status_char(line, 0) == 'U' || status_char(line, 1) == 'U' || (
    status_char(line, 0) == 'A' && status_char(line, 1) == 'A'))
}

/// How many of the lines tell of a change of some kind.
pub open spec fn changes(lines: Seq<Seq<char>>, kind: spec_fn(Seq<char>) -> bool) -> nat
    decreases lines.len(),
{
    if lines.len() == 0 {
        0
    } else {
        changes(lines.drop_last(), kind) + if is_change(lines.last()) && kind(lines.last()) {
            1nat
        } else {
            0nat
        }
    }
}

/// Whether `summary` counts the changes that the lines tell of.
pub open spec fn summarizes(summary: GitWorkspaceSummary, lines: Seq<Seq<char>>) -> bool {
    &&& summary.changed_files == changes(lines, |line: Seq<char>| true)
    &&& summary.staged_files == changes(lines, |line: Seq<char>| is_staged(line))
    &&& summary.unstaged_files == changes(lines, |line: Seq<char>| is_unstaged(line))
    &&& summary.untracked_files == changes(lines, |line: Seq<char>| is_untracked(line))
    &&& summary.conflicted_files == changes(lines, |line: Seq<char>| is_conflicted(line))
}

proof fn lemma_changes_are_lines(lines: Seq<Seq<char>>, kind: spec_fn(Seq<char>) -> bool)
    ensures
        changes(lines, kind) <= lines.len(),
    decreases lines.len(),
{
    if lines.len() > 0 {
        lemma_changes_are_lines(lines.drop_last(), kind);
    }
}

fn status_char_at(line: &str, at: usize) -> (r: char)
    ensures
        r == status_char(line@, at as int),
{
    if at < line.unicode_len() {
        line.get_char(at)
    } else {
        ' '
    }
}

/// The lines of the output of `git status`, none where it is not there.
pub open spec fn status_lines(status: Option<Seq<char>>) -> Seq<Seq<char>> {
    match status {
        Some(status) => text::lines_of(status),
        None => Seq::empty(),
    }
}

/// The changes that the output of `git status` tells of.
pub fn parse_git_workspace_summary(status: Option<&str>) -> (r: GitWorkspaceSummary)
    ensures
        summarizes(r, status_lines(text::opt_str(status))),
{
    let mut summary = GitWorkspaceSummary {
        changed_files: 0,
        staged_files: 0,
        unstaged_files: 0,
        untracked_files: 0,
        conflicted_files: 0,
    };
    match status {
        None => {},
        Some(status) => {
            let lines = text::lines(status);
            let ghost all = text::texts(lines@);
            let mut i: usize = 0;
            assert(all.take(0) =~= Seq::empty());
            while i < lines.len()
                invariant
                    i <= lines@.len(),
                    all == text::texts(lines@),
                    summarizes(summary, all.take(i as int)),
                decreases lines.len() - i,
            {
                let ghost now = all.take(i + 1);
                assert(now.drop_last() =~= all.take(i as int));
                assert(now.last() == lines@[i as int]@);
                proof {
                    lemma_changes_are_lines(all.take(i as int), |line: Seq<char>| true);
                    lemma_changes_are_lines(all.take(i as int), |line: Seq<char>| is_staged(line));
                    lemma_changes_are_lines(
                        all.take(i as int),
                        |line: Seq<char>| is_unstaged(line),
                    );
                    lemma_changes_are_lines(
                        all.take(i as int),
                        |line: Seq<char>| is_untracked(line),
                    );
                    lemma_changes_are_lines(
                        all.take(i as int),
                        |line: Seq<char>| is_conflicted(line),
                    );
                    text::lemma_trimmed_empty_iff_blank(lines@[i as int]@);
                }
                let line = lines[i].as_str();
                i += 1;
                if text::starts_with(line, "## ") || text::trim(line).is_empty() {
                    assert(!is_change(line@));
                    continue ;
                }
                summary.changed_files = summary.changed_files + 1;
                let index = status_char_at(line, 0);
                let tree = status_char_at(line, 1);
                if index == '?' && tree == '?' {
                    summary.untracked_files = summary.untracked_files + 1;
                    continue ;
                }
                if index != ' ' {
                    summary.staged_files = summary.staged_files + 1;
                }
                if tree != ' ' {
                    summary.unstaged_files = summary.unstaged_files + 1;
                }
                if index == 'U' || tree == 'U' || (index == 'A' && tree == 'A') {
                    summary.conflicted_files = summary.conflicted_files + 1;
                }
            }
            assert(all.take(i as int) =~= all);
        },
    }
    summary
}

/// `parts` with a count and its name behind them, where the count is not zero.
pub open spec fn with_count(parts: Seq<Seq<char>>, count: usize, name: Seq<char>) -> Seq<Seq<char>> {
    if count > 0 {
        parts.push(text::decimal(count as nat) + name)
    } else {
        parts
    }
}

fn push_count(parts: &mut Vec<String>, count: usize, name: &str)
    ensures
        text::texts(final(parts)@) == with_count(text::texts(old(parts)@), count, name@),
{
    if count > 0 {
        let mut part = text::decimal_usize(count);
        part.append(name);
        proof {
            text::lemma_texts_push(parts@, part);
        }
        parts.push(part);
    }
}

impl GitWorkspaceSummary {
    pub open spec fn clean(self) -> bool {
        self.changed_files == 0
    }

    pub open spec fn parts(self) -> Seq<Seq<char>> {
        let staged = with_count(Seq::empty(), self.staged_files, " staged"@);
        let unstaged = with_count(staged, self.unstaged_files, " unstaged"@);
        let untracked = with_count(unstaged, self.untracked_files, " untracked"@);
        with_count(untracked, self.conflicted_files, " conflicted"@)
    }

    /// The state of the workspace in one line.
    pub open spec fn headline_text(self) -> Seq<char> {
        if self.clean() {
            "clean"@
        } else {
            "dirty · "@ + text::decimal(self.changed_files as nat) + " files · "@ + text::joined(
                self.parts(),
                ", "@,
            )
        }
    }

    pub fn is_clean(&self) -> (r: bool)
        ensures
            r == self.clean(),
    {
        self.changed_files == 0
    }

    pub fn headline(&self) -> (r: String)
        ensures
            r@ == self.headline_text(),
    {
        if self.is_clean() {
            return "clean".to_string();
        }
        let mut parts: Vec<String> = Vec::new();
        assert(text::texts(parts@) =~= Seq::empty());
        push_count(&mut parts, self.staged_files, " staged");
        push_count(&mut parts, self.unstaged_files, " unstaged");
        push_count(&mut parts, self.untracked_files, " untracked");
        push_count(&mut parts, self.conflicted_files, " conflicted");
        let mut out = "dirty · ".to_string();
        out.append(text::decimal_usize(self.changed_files).as_str());
        out.append(" files · ");
        out.append(text::join(&parts, ", ").as_str());
        out
    }
}

// ---------------------------------------------------------------------------
// Committing
// ---------------------------------------------------------------------------

pub open spec fn commit_preflight(branch: Option<Seq<char>>, summary: GitWorkspaceSummary) -> Seq<
    char,
> {
    "Commit\n  Result           ready\n  Branch           "@ + (match branch {
        Some(branch) => branch,
        None => "unknown"@,
    }) + "\n  Workspace        "@ + summary.headline_text() + "\n  Changed files    "@
        + text::decimal(summary.changed_files as nat)
        + "\n  Action           create a git commit from the current workspace changes"@
}

pub open spec fn commit_skipped() -> Seq<char> {
    "Commit\n  Result           skipped\n  Reason           no workspace changes\n  Action           create a git commit from the current workspace changes\n  Next             /status to inspect context · /diff to inspect repo changes"@
}

pub fn format_commit_preflight_report(branch: Option<&str>, summary: GitWorkspaceSummary) -> (r:
    String)
    ensures
        r@ == commit_preflight(text::opt_str(branch), summary),
{
    let mut out = "Commit\n  Result           ready\n  Branch           ".to_string();
    match branch {
        Some(branch) => {
            out.append(branch);
        },
        None => {
            out.append("unknown");
        },
    }
    out.append("\n  Workspace        ");
    out.append(summary.headline().as_str());
    out.append("\n  Changed files    ");
    out.append(text::decimal_usize(summary.changed_files).as_str());
    out.append("\n  Action           create a git commit from the current workspace changes");
    out
}

pub fn format_commit_skipped_report() -> (r: String)
    ensures
        r@ == commit_skipped(),
{
    "Commit\n  Result           skipped\n  Reason           no workspace changes\n  Action           create a git commit from the current workspace changes\n  Next             /status to inspect context · /diff to inspect repo changes".to_string()
}

/// What is reported of a commit: it is skipped where nothing is changed.
pub open spec fn commit_report(branch: Option<Seq<char>>, summary: GitWorkspaceSummary) -> Seq<
    char,
> {
    if summary.clean() {
        commit_skipped()
    } else {
        commit_preflight(branch, summary)
    }
}

/// What is reported of a commit, from the output of `git status`: it is skipped
/// where nothing is changed.
pub fn run_commit(status: &str) -> (r: String)
    ensures
        exists|summary: GitWorkspaceSummary| #[trigger]
            summarizes(summary, text::lines_of(status@)) && r@ == commit_report(
                checked_out_branch(status@),
                summary,
            ),
{
    let summary = parse_git_workspace_summary(Some(status));
    let branch = parse_git_status_branch(Some(status));
    assert(summarizes(summary, text::lines_of(status@)));
    if summary.is_clean() {
        return format_commit_skipped_report();
    }
    match &branch {
        Some(name) => format_commit_preflight_report(Some(name.as_str()), summary),
        None => format_commit_preflight_report(None, summary),
    }
}

proof fn lemma_kinds_are_counted_in_changes(lines: Seq<Seq<char>>)
    ensures
        changes(lines, |line: Seq<char>| is_staged(line)) + changes(
            lines,
            |line: Seq<char>| is_untracked(line),
        ) <= changes(lines, |line: Seq<char>| true),
        changes(lines, |line: Seq<char>| is_unstaged(line)) + changes(
            lines,
            |line: Seq<char>| is_untracked(line),
        ) <= changes(lines, |line: Seq<char>| true),
        changes(lines, |line: Seq<char>| is_conflicted(line)) + changes(
            lines,
            |line: Seq<char>| is_untracked(line),
        ) <= changes(lines, |line: Seq<char>| true),
    decreases lines.len(),
{
    if lines.len() > 0 {
        lemma_kinds_are_counted_in_changes(lines.drop_last());
    }
}

/// A file counts as staged, unstaged, untracked or conflicted only where it
/// counts as changed, so a clean workspace has none of them.
pub proof fn law_clean_workspaces_have_no_changes(
    summary: GitWorkspaceSummary,
    lines: Seq<Seq<char>>,
)
    requires
        summarizes(summary, lines),
    ensures
        summary.staged_files + summary.untracked_files <= summary.changed_files,
        summary.unstaged_files + summary.untracked_files <= summary.changed_files,
        summary.conflicted_files + summary.untracked_files <= summary.changed_files,
        summary.clean() ==> summary.parts() == Seq::<Seq<char>>::empty(),
{
    lemma_kinds_are_counted_in_changes(lines);
}

} // verus!
