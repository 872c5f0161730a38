//! What tools may do, and what is asked before they do it.

use vstd::prelude::*;

use crate::text;

verus! {

/// What tools may do without being asked about, from least to most.
#[derive(Debug, Clone, Copy, PartialEq, Eq, Structural)]
pub enum PermissionMode {
    ReadOnly,
    WorkspaceWrite,
    DangerFullAccess,
}

impl PermissionMode {
    pub open spec fn name(self) -> Seq<char> {
        match self {
            PermissionMode::ReadOnly => "read-only"@,
            PermissionMode::WorkspaceWrite => "workspace-write"@,
            PermissionMode::DangerFullAccess => "danger-full-access"@,
        }
    }

    pub fn as_str(&self) -> (r: &'static str)
        ensures
            r@ == self.name(),
    {
        match self {
            PermissionMode::ReadOnly => "read-only",
            PermissionMode::WorkspaceWrite => "workspace-write",
            PermissionMode::DangerFullAccess => "danger-full-access",
        }
    }
}

/// The mode of this name.
pub open spec fn mode_named(name: Seq<char>) -> Option<PermissionMode> {
    if name == "read-only"@ {
        Some(PermissionMode::ReadOnly)
    } else if name == "workspace-write"@ {
        Some(PermissionMode::WorkspaceWrite)
    } else if name == "danger-full-access"@ {
        Some(PermissionMode::DangerFullAccess)
    } else {
        None
    }
}

/// The mode that is asked for: white space around its name does not matter.
pub open spec fn mode_asked(asked: Seq<char>) -> Option<PermissionMode> {
    mode_named(text::trimmed(asked))
}

pub fn parse_permission_mode(mode: &str) -> (r: Option<PermissionMode>)
    ensures
        r == mode_asked(mode@),
{
    let mode = text::trim(mode);
    if text::str_eq(mode, "read-only") {
        Some(PermissionMode::ReadOnly)
    } else if text::str_eq(mode, "workspace-write") {
        Some(PermissionMode::WorkspaceWrite)
    } else if text::str_eq(mode, "danger-full-access") {
        Some(PermissionMode::DangerFullAccess)
    } else {
        None
    }
}

/// The name of a mode, where there is one of that name.
pub fn normalize_permission_mode(mode: &str) -> (r: Option<&'static str>)
    ensures
        text::opt_str(r) == (match mode_asked(mode@) {
            Some(mode) => Some(mode.name()),
            None => None,
        }),
{
    match parse_permission_mode(mode) {
        Some(mode) => Some(mode.as_str()),
        None => None,
    }
}

/// The outcome of a wish to change the mode.
#[derive(Debug, PartialEq, Eq)]
pub enum PermissionChange {
    /// No mode was named: the current one is reported.
    Report,
    /// The named mode is the current one.
    Unchanged(PermissionMode),
    Switch { from: PermissionMode, to: PermissionMode },
    Unsupported(String),
}

pub open spec fn unsupported_mode(mode: Seq<char>) -> Seq<char> {
    "unsupported permission mode '"@ + mode
        + "'. Use read-only, workspace-write, or danger-full-access."@
}

/// Whether a wish to change the mode comes to `change`.
pub open spec fn wish_comes_to(
    current: PermissionMode,
    asked: Option<Seq<char>>,
    change: PermissionChange,
) -> bool {
    match asked {
        None => change == PermissionChange::Report,
        Some(name) => match mode_asked(name) {
            None => change matches PermissionChange::Unsupported(message) && message@
                == unsupported_mode(name),
            Some(mode) => if mode == current {
                change == PermissionChange::Unchanged(mode)
            } else {
                change == (PermissionChange::Switch { from: current, to: mode })
            },
        },
    }
}

/// What a wish to change the mode comes to.
pub fn set_permissions(current: PermissionMode, mode: Option<&str>) -> (r: PermissionChange)
    ensures
        wish_comes_to(current, text::opt_str(mode), r),
{
    match mode {
        None => PermissionChange::Report,
        Some(name) => match parse_permission_mode(name) {
            None => {
                let mut message = "unsupported permission mode '".to_string();
                message.append(name);
                message.append("'. Use read-only, workspace-write, or danger-full-access.");
                PermissionChange::Unsupported(message)
            },
            Some(mode) => if mode == current {
                PermissionChange::Unchanged(mode)
            } else {
                PermissionChange::Switch { from: current, to: mode }
            },
        },
    }
}

// ---------------------------------------------------------------------------
// Approval
// ---------------------------------------------------------------------------

/// A tool call that needs approval.
#[derive(Debug, PartialEq, Eq)]
pub struct PermissionRequest {
    pub tool_name: String,
    pub input: String,
    pub required_mode: PermissionMode,
    pub reason: Option<String>,
}

/// The question that is put to the user.
pub open spec fn approval_question(request: PermissionRequest, current: PermissionMode) -> Seq<char> {
    "\nPermission approval required\n  Tool             "@ + request.tool_name@
        + "\n  Current mode     "@ + current.name() + "\n  Required mode    "@
        + request.required_mode.name() + (match text::opt_text(request.reason) {
        Some(reason) => "\n  Reason           "@ + reason,
        None => Seq::empty(),
    }) + "\n  Input            "@ + request.input@ + "\nApprove this tool call? [y/N]: "@
}

pub fn permission_prompt(request: &PermissionRequest, current: PermissionMode) -> (r: String)
    ensures
        r@ == approval_question(*request, current),
{
    let mut reason_line = String::new();
    match &request.reason {
        Some(reason) => {
            reason_line = "\n  Reason           ".to_string();
            reason_line.append(reason.as_str());
        },
        None => {},
    }
    let mut out = "\nPermission approval required\n  Tool             ".to_string();
    out.append(request.tool_name.as_str());
    out.append("\n  Current mode     ");
    out.append(current.as_str());
    out.append("\n  Required mode    ");
    out.append(request.required_mode.as_str());
    out.append(reason_line.as_str());
    out.append("\n  Input            ");
    out.append(request.input.as_str());
    out.append("\nApprove this tool call? [y/N]: ");
    out
}

#[derive(Debug, PartialEq, Eq)]
pub enum PermissionPromptDecision {
    Allow,
    Deny { reason: String },
}

/// Whether an answer approves.
pub open spec fn approves(answer: Seq<char>) -> bool {
    let answer = text::lowered(text::trimmed(answer));
    answer == "y"@ || answer == "yes"@
}

/// Whether an answer to a request decides for `decision`; an answer that could
/// not be read denies.
pub open spec fn decides_for(
    tool_name: Seq<char>,
    answer: Result<Seq<char>, Seq<char>>,
    decision: PermissionPromptDecision,
) -> bool {
    match answer {
        Ok(answer) => if approves(answer) {
            decision == PermissionPromptDecision::Allow
        } else {
            decision matches PermissionPromptDecision::Deny { reason } && reason@ == "tool '"@
                + tool_name + "' denied by user approval prompt"@
        },
        Err(error) => decision matches PermissionPromptDecision::Deny { reason } && reason@
            == "permission approval failed: "@ + error,
    }
}

/// What the user's answer decides; an answer that could not be read denies.
pub fn decide(request: &PermissionRequest, answer: Result<String, String>) -> (r:
    PermissionPromptDecision)
    ensures
        decides_for(request.tool_name@, text::result_text(answer), r),
{
    match answer {
        Ok(answer) => {
            let normalized = text::to_lower(text::trim(answer.as_str()));
            if text::str_eq(normalized.as_str(), "y") || text::str_eq(normalized.as_str(), "yes") {
                PermissionPromptDecision::Allow
            } else {
                let mut reason = "tool '".to_string();
                reason.append(request.tool_name.as_str());
                reason.append("' denied by user approval prompt");
                PermissionPromptDecision::Deny { reason }
            }
        },
        Err(error) => {
            let mut reason = "permission approval failed: ".to_string();
            reason.append(error.as_str());
            PermissionPromptDecision::Deny { reason }
        },
    }
}

// ---------------------------------------------------------------------------
// Hooks
// ---------------------------------------------------------------------------

#[derive(Debug, Clone, Copy, PartialEq, Eq, Structural)]
pub enum HookPhase {
    Started,
    Completed,
    Cancelled,
}

/// The line that reports on a hook.
pub open spec fn hook_report(
    phase: HookPhase,
    event_name: Seq<char>,
    tool_name: Seq<char>,
    command: Seq<char>,
) -> Seq<char> {
    (match phase {
        HookPhase::Started => "[hook "@,
        HookPhase::Completed => "[hook done "@,
        HookPhase::Cancelled => "[hook cancelled "@,
    }) + event_name + "] "@ + tool_name + ": "@ + command
}

pub fn hook_progress_line(phase: HookPhase, event_name: &str, tool_name: &str, command: &str) -> (r:
    String)
    ensures
        r@ == hook_report(phase, event_name@, tool_name@, command@),
{
    let mut out = match phase {
        HookPhase::Started => "[hook ".to_string(),
        HookPhase::Completed => "[hook done ".to_string(),
        HookPhase::Cancelled => "[hook cancelled ".to_string(),
    };
    out.append(event_name);
    out.append("] ");
    out.append(tool_name);
    out.append(": ");
    out.append(command);
    out
}

// ---------------------------------------------------------------------------
// Laws
// ---------------------------------------------------------------------------

proof fn lemma_mode_names()
    ensures
        "read-only"@ != "workspace-write"@,
        "read-only"@ != "danger-full-access"@,
        "workspace-write"@ != "danger-full-access"@,
{
    reveal_strlit("read-only");
    reveal_strlit("workspace-write");
    reveal_strlit("danger-full-access");
    assert("read-only"@.len() == 9);
    assert("workspace-write"@.len() == 15);
    assert("danger-full-access"@.len() == 18);
}

/// A mode is known by its name.
pub proof fn law_modes_are_known_by_name(mode: PermissionMode)
    ensures
        mode_named(mode.name()) == Some(mode),
{
    lemma_mode_names();
}

} // verus!
