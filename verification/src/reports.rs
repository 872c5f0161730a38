//! Reports of slash commands.

use vstd::prelude::*;

use crate::permissions::PermissionMode;
use crate::stream::TokenUsage;
use crate::text;

verus! {

// ---------------------------------------------------------------------------
// Model
// ---------------------------------------------------------------------------

pub open spec fn model_report(model: Seq<char>, messages: nat, turns: nat) -> Seq<char> {
    "Model\n  Current model    "@ + model + "\n  Session messages "@ + text::decimal(messages)
        + "\n  Session turns    "@ + text::decimal(turns)
        + "\n\nUsage\n  Inspect current model with /model\n  Switch models with /model <name>"@
}

pub fn format_model_report(model: &str, message_count: usize, turns: u32) -> (r: String)
    ensures
        r@ == model_report(model@, message_count as nat, turns as nat),
{
    let mut out = "Model\n  Current model    ".to_string();
    out.append(model);
    out.append("\n  Session messages ");
    out.append(text::decimal_usize(message_count).as_str());
    out.append("\n  Session turns    ");
    out.append(text::decimal_u32(turns).as_str());
    out.append(
        "\n\nUsage\n  Inspect current model with /model\n  Switch models with /model <name>",
    );
    out
}

pub open spec fn model_switch_report(previous: Seq<char>, next: Seq<char>, messages: nat) -> Seq<
    char,
> {
    "Model updated\n  Previous         "@ + previous + "\n  Current          "@ + next
        + "\n  Preserved msgs   "@ + text::decimal(messages)
}

pub fn format_model_switch_report(previous: &str, next: &str, message_count: usize) -> (r: String)
    ensures
        r@ == model_switch_report(previous@, next@, message_count as nat),
{
    let mut out = "Model updated\n  Previous         ".to_string();
    out.append(previous);
    out.append("\n  Current          ");
    out.append(next);
    out.append("\n  Preserved msgs   ");
    out.append(text::decimal_usize(message_count).as_str());
    out
}

// ---------------------------------------------------------------------------
// Permissions
// ---------------------------------------------------------------------------

pub open spec fn mode_description(mode: PermissionMode) -> Seq<char> {
    match mode {
        PermissionMode::ReadOnly => "Read/search tools only"@,
        PermissionMode::WorkspaceWrite => "Edit files inside the workspace"@,
        PermissionMode::DangerFullAccess => "Unrestricted tool access"@,
    }
}

/// The line of a mode; `active` is the name of the mode in use.
pub open spec fn mode_line(mode: PermissionMode, active: Seq<char>) -> Seq<char> {
    "\n  "@ + text::padded(mode.name(), 18) + " "@ + text::padded(
        if mode.name() == active {
            "● current"@
        } else {
            "○ available"@
        },
        11,
    ) + " "@ + mode_description(mode)
}

pub open spec fn permissions_report(mode: Seq<char>) -> Seq<char> {
    "Permissions\n  Active mode      "@ + mode
        + "\n  Mode status      live session default\n\nModes"@ + mode_line(
        PermissionMode::ReadOnly,
        mode,
    ) + mode_line(PermissionMode::WorkspaceWrite, mode) + mode_line(
        PermissionMode::DangerFullAccess,
        mode,
    )
        + "\n\nUsage\n  Inspect current mode with /permissions\n  Switch modes with /permissions <mode>"@
}

fn format_mode_line(mode: PermissionMode, active: &str) -> (r: String)
    ensures
        r@ == mode_line(mode, active@),
{
    let mut out = "\n  ".to_string();
    out.append(text::pad_right(mode.as_str(), 18).as_str());
    out.append(" ");
    let marker = if text::str_eq(mode.as_str(), active) {
        "● current"
    } else {
        "○ available"
    };
    out.append(text::pad_right(marker, 11).as_str());
    out.append(" ");
    let description = match mode {
        PermissionMode::ReadOnly => "Read/search tools only",
        PermissionMode::WorkspaceWrite => "Edit files inside the workspace",
        PermissionMode::DangerFullAccess => "Unrestricted tool access",
    };
    out.append(description);
    out
}

pub fn format_permissions_report(mode: &str) -> (r: String)
    ensures
        r@ == permissions_report(mode@),
{
    let mut out = "Permissions\n  Active mode      ".to_string();
    out.append(mode);
    out.append("\n  Mode status      live session default\n\nModes");
    out.append(format_mode_line(PermissionMode::ReadOnly, mode).as_str());
    out.append(format_mode_line(PermissionMode::WorkspaceWrite, mode).as_str());
    out.append(format_mode_line(PermissionMode::DangerFullAccess, mode).as_str());
    out.append(
        "\n\nUsage\n  Inspect current mode with /permissions\n  Switch modes with /permissions <mode>",
    );
    out
}

pub open spec fn permissions_switch_report(previous: Seq<char>, next: Seq<char>) -> Seq<char> {
    "Permissions updated\n  Result           mode switched\n  Previous mode    "@ + previous
        + "\n  Active mode      "@ + next
        + "\n  Applies to       subsequent tool calls\n  Usage            /permissions to inspect current mode"@
}

pub fn format_permissions_switch_report(previous: &str, next: &str) -> (r: String)
    ensures
        r@ == permissions_switch_report(previous@, next@),
{
    let mut out =
        "Permissions updated\n  Result           mode switched\n  Previous mode    ".to_string();
    out.append(previous);
    out.append("\n  Active mode      ");
    out.append(next);
    out.append(
        "\n  Applies to       subsequent tool calls\n  Usage            /permissions to inspect current mode",
    );
    out
}

// ---------------------------------------------------------------------------
// Sessions
// ---------------------------------------------------------------------------

pub open spec fn resume_report(path: Seq<char>, messages: nat, turns: nat) -> Seq<char> {
    "Session resumed\n  Session file     "@ + path + "\n  Messages         "@ + text::decimal(
        messages,
    ) + "\n  Turns            "@ + text::decimal(turns)
}

pub fn format_resume_report(session_path: &str, message_count: usize, turns: u32) -> (r: String)
    ensures
        r@ == resume_report(session_path@, message_count as nat, turns as nat),
{
    let mut out = "Session resumed\n  Session file     ".to_string();
    out.append(session_path);
    out.append("\n  Messages         ");
    out.append(text::decimal_usize(message_count).as_str());
    out.append("\n  Turns            ");
    out.append(text::decimal_u32(turns).as_str());
    out
}

pub open spec fn resume_usage() -> Seq<char> {
    "Resume\n  Usage            /resume <session-path|session-id|latest>\n  Auto-save        .claw/sessions/<session-id>.jsonl\n  Tip              use /session list to inspect saved sessions"@
}

pub fn render_resume_usage() -> (r: String)
    ensures
        r@ == resume_usage(),
{
    "Resume\n  Usage            /resume <session-path|session-id|latest>\n  Auto-save        .claw/sessions/<session-id>.jsonl\n  Tip              use /session list to inspect saved sessions".to_string()
}

pub open spec fn compact_report(removed: nat, kept: nat, skipped: bool) -> Seq<char> {
    if skipped {
        "Compact\n  Result           skipped\n  Reason           session below compaction threshold\n  Messages kept    "@
            + text::decimal(kept)
    } else {
        "Compact\n  Result           compacted\n  Messages removed "@ + text::decimal(removed)
            + "\n  Messages kept    "@ + text::decimal(kept)
    }
}

pub fn format_compact_report(removed: usize, resulting_messages: usize, skipped: bool) -> (r:
    String)
    ensures
        r@ == compact_report(removed as nat, resulting_messages as nat, skipped),
{
    if skipped {
        let mut out =
            "Compact\n  Result           skipped\n  Reason           session below compaction threshold\n  Messages kept    ".to_string();
        out.append(text::decimal_usize(resulting_messages).as_str());
        out
    } else {
        let mut out = "Compact\n  Result           compacted\n  Messages removed ".to_string();
        out.append(text::decimal_usize(removed).as_str());
        out.append("\n  Messages kept    ");
        out.append(text::decimal_usize(resulting_messages).as_str());
        out
    }
}

pub open spec fn auto_compaction_notice(removed: nat) -> Seq<char> {
    "[auto-compacted: removed "@ + text::decimal(removed) + " messages]"@
}

pub fn format_auto_compaction_notice(removed: usize) -> (r: String)
    ensures
        r@ == auto_compaction_notice(removed as nat),
{
    let mut out = "[auto-compacted: removed ".to_string();
    out.append(text::decimal_usize(removed).as_str());
    out.append(" messages]");
    out
}

pub open spec fn export_report(file: Seq<char>, messages: nat) -> Seq<char> {
    "Export\n  Result           wrote transcript\n  File             "@ + file
        + "\n  Messages         "@ + text::decimal(messages)
}

pub fn format_export_report(file: &str, message_count: usize) -> (r: String)
    ensures
        r@ == export_report(file@, message_count as nat),
{
    let mut out =
        "Export\n  Result           wrote transcript\n  File             ".to_string();
    out.append(file);
    out.append("\n  Messages         ");
    out.append(text::decimal_usize(message_count).as_str());
    out
}

// ---------------------------------------------------------------------------
// Cost
// ---------------------------------------------------------------------------

/// All tokens of a usage.
pub open spec fn all_tokens(usage: TokenUsage) -> nat {
    (usage.input_tokens + usage.output_tokens + usage.cache_creation_input_tokens
        + usage.cache_read_input_tokens) as nat
}

pub fn total_tokens(usage: &TokenUsage) -> (r: u64)
    ensures
        r == all_tokens(*usage),
{
    usage.input_tokens as u64 + usage.output_tokens as u64 + usage.cache_creation_input_tokens as u64
        + usage.cache_read_input_tokens as u64
}

pub open spec fn cost_report(usage: TokenUsage) -> Seq<char> {
    "Cost\n  Input tokens     "@ + text::decimal(usage.input_tokens as nat)
        + "\n  Output tokens    "@ + text::decimal(usage.output_tokens as nat)
        + "\n  Cache create     "@ + text::decimal(usage.cache_creation_input_tokens as nat)
        + "\n  Cache read       "@ + text::decimal(usage.cache_read_input_tokens as nat)
        + "\n  Total tokens     "@ + text::decimal(all_tokens(usage))
}

pub fn format_cost_report(usage: &TokenUsage) -> (r: String)
    ensures
        r@ == cost_report(*usage),
{
    let mut out = "Cost\n  Input tokens     ".to_string();
    out.append(text::decimal_u32(usage.input_tokens).as_str());
    out.append("\n  Output tokens    ");
    out.append(text::decimal_u32(usage.output_tokens).as_str());
    out.append("\n  Cache create     ");
    out.append(text::decimal_u32(usage.cache_creation_input_tokens).as_str());
    out.append("\n  Cache read       ");
    out.append(text::decimal_u32(usage.cache_read_input_tokens).as_str());
    out.append("\n  Total tokens     ");
    out.append(text::decimal_u64(total_tokens(usage)).as_str());
    out
}

// ---------------------------------------------------------------------------
// Workflows
// ---------------------------------------------------------------------------

pub open spec fn or_default(o: Option<Seq<char>>, default: Seq<char>) -> Seq<char> {
    match o {
        Some(s) => s,
        None => default,
    }
}

pub fn str_or<'a>(o: Option<&'a str>, default: &'a str) -> (r: &'a str)
    ensures
        r@ == or_default(text::opt_str(o), default@),
{
    match o {
        Some(s) => s,
        None => default,
    }
}

pub open spec fn bughunter_report(scope: Option<Seq<char>>) -> Seq<char> {
    "Bughunter\n  Scope            "@ + or_default(scope, "the current repository"@)
        + "\n  Action           inspect the selected code for likely bugs and correctness issues\n  Output           findings should include file paths, severity, and suggested fixes"@
}

pub fn format_bughunter_report(scope: Option<&str>) -> (r: String)
    ensures
        r@ == bughunter_report(text::opt_str(scope)),
{
    let mut out = "Bughunter\n  Scope            ".to_string();
    out.append(str_or(scope, "the current repository"));
    out.append(
        "\n  Action           inspect the selected code for likely bugs and correctness issues\n  Output           findings should include file paths, severity, and suggested fixes",
    );
    out
}

pub open spec fn ultraplan_report(task: Option<Seq<char>>) -> Seq<char> {
    "Ultraplan\n  Task             "@ + or_default(task, "the current repo work"@)
        + "\n  Action           break work into a multi-step execution plan\n  Output           plan should cover goals, risks, sequencing, verification, and rollback"@
}

pub fn format_ultraplan_report(task: Option<&str>) -> (r: String)
    ensures
        r@ == ultraplan_report(text::opt_str(task)),
{
    let mut out = "Ultraplan\n  Task             ".to_string();
    out.append(str_or(task, "the current repo work"));
    out.append(
        "\n  Action           break work into a multi-step execution plan\n  Output           plan should cover goals, risks, sequencing, verification, and rollback",
    );
    out
}

pub open spec fn pr_report(branch: Seq<char>, context: Option<Seq<char>>) -> Seq<char> {
    "PR\n  Branch           "@ + branch + "\n  Context          "@ + or_default(context, "none"@)
        + "\n  Action           draft or create a pull request for the current branch\n  Output           title and markdown body suitable for GitHub"@
}

pub fn format_pr_report(branch: &str, context: Option<&str>) -> (r: String)
    ensures
        r@ == pr_report(branch@, text::opt_str(context)),
{
    let mut out = "PR\n  Branch           ".to_string();
    out.append(branch);
    out.append("\n  Context          ");
    out.append(str_or(context, "none"));
    out.append(
        "\n  Action           draft or create a pull request for the current branch\n  Output           title and markdown body suitable for GitHub",
    );
    out
}

/// What `/pr` tells.
pub open spec fn pr_told(branch: Option<Seq<char>>, context: Option<Seq<char>>) -> Seq<char> {
    pr_report(or_default(branch, "unknown"@), context)
}

/// The report of a pull request, the branch being unknown where none is checked
/// out.
pub fn run_pr(branch: Option<&str>, context: Option<&str>) -> (r: String)
    ensures
        r@ == pr_told(text::opt_str(branch), text::opt_str(context)),
{
    format_pr_report(str_or(branch, "unknown"), context)
}

pub open spec fn issue_report(context: Option<Seq<char>>) -> Seq<char> {
    "Issue\n  Context          "@ + or_default(context, "none"@)
        + "\n  Action           draft or create a GitHub issue from the current context\n  Output           title and markdown body suitable for GitHub"@
}

pub fn format_issue_report(context: Option<&str>) -> (r: String)
    ensures
        r@ == issue_report(text::opt_str(context)),
{
    let mut out = "Issue\n  Context          ".to_string();
    out.append(str_or(context, "none"));
    out.append(
        "\n  Action           draft or create a GitHub issue from the current context\n  Output           title and markdown body suitable for GitHub",
    );
    out
}

/// What a command that takes no arguments makes of some.
pub open spec fn no_args(command: Seq<char>, args: Option<Seq<char>>) -> Result<(), Seq<char>> {
    match args {
        Some(args) => if text::is_blank(args) {
            Ok(())
        } else {
            Err(command + " does not accept arguments. Received: "@ + text::trimmed(args))
        },
        None => Ok(()),
    }
}

pub open spec fn unit_view(r: Result<(), String>) -> Result<(), Seq<char>> {
    match r {
        Ok(()) => Ok(()),
        Err(message) => Err(message@),
    }
}

pub fn validate_no_args(command: &str, args: Option<&str>) -> (r: Result<(), String>)
    ensures
        unit_view(r) == no_args(command@, text::opt_str(args)),
{
    match args {
        Some(args) => {
            proof {
                text::lemma_trimmed_empty_iff_blank(args@);
            }
            let trimmed = text::trim(args);
            if trimmed.is_empty() {
                return Ok(());
            }
            let mut message = command.to_string();
            message.append(" does not accept arguments. Received: ");
            message.append(trimmed);
            Err(message)
        },
        None => Ok(()),
    }
}

// ---------------------------------------------------------------------------
// Unknown commands
// ---------------------------------------------------------------------------

/// What is said of an unknown command, in one line; `suggestions` are known
/// commands with names like it, and `note` says what else is known of it.
pub open spec fn unknown_command_message(
    name: Seq<char>,
    suggestions: Seq<Seq<char>>,
    note: Option<Seq<char>>,
) -> Seq<char> {
    let head = "unknown slash command: /"@ + name + "."@;
    let suggested = if suggestions.len() == 0 {
        head
    } else {
        head + " Did you mean "@ + text::joined(suggestions, ", "@) + "?"@
    };
    let noted = match note {
        Some(note) => suggested + " "@ + note,
        None => suggested,
    };
    noted + " Use /help to list available commands."@
}

pub fn format_unknown_slash_command_message(
    name: &str,
    suggestions: &Vec<String>,
    note: Option<&str>,
) -> (r: String)
    ensures
        r@ == unknown_command_message(name@, text::texts(suggestions@), text::opt_str(note)),
{
    let mut message = "unknown slash command: /".to_string();
    message.append(name);
    message.append(".");
    assert(text::texts(suggestions@).len() == suggestions@.len());
    if !suggestions.is_empty() {
        message.append(" Did you mean ");
        message.append(text::join(suggestions, ", ").as_str());
        message.append("?");
    }
    match note {
        Some(note) => {
            message.append(" ");
            message.append(note);
        },
        None => {},
    }
    message.append(" Use /help to list available commands.");
    message
}

/// What is said of an unknown command, one fact to a line.
pub open spec fn unknown_command_report(
    name: Seq<char>,
    suggestions: Seq<Seq<char>>,
    note: Option<Seq<char>>,
) -> Seq<char> {
    let head = "Unknown slash command: /"@ + name;
    let suggested = if suggestions.len() == 0 {
        head
    } else {
        head + "\n  Did you mean     "@ + text::joined(suggestions, ", "@)
    };
    let noted = match note {
        Some(note) => suggested + "\n  "@ + note,
        None => suggested,
    };
    noted + "\n  Help             /help lists available slash commands"@
}

pub fn format_unknown_slash_command(name: &str, suggestions: &Vec<String>, note: Option<&str>) -> (r:
    String)
    ensures
        r@ == unknown_command_report(name@, text::texts(suggestions@), text::opt_str(note)),
{
    let mut message = "Unknown slash command: /".to_string();
    message.append(name);
    assert(text::texts(suggestions@).len() == suggestions@.len());
    if !suggestions.is_empty() {
        message.append("\n  Did you mean     ");
        message.append(text::join(suggestions, ", ").as_str());
    }
    match note {
        Some(note) => {
            message.append("\n  ");
            message.append(note);
        },
        None => {},
    }
    message.append("\n  Help             /help lists available slash commands");
    message
}

} // verus!
