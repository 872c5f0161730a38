//! A running program: the model, the permissions and the session in use, and
//! the commands that change them.

use vstd::prelude::*;

use crate::json::{self, Json, JsonObject, JsonView};
use crate::output::CliOutputFormat;
use crate::permissions::{self, PermissionChange, PermissionMode};
use crate::reports;
use crate::sessions::SessionHandle;
use crate::text;

verus! {

/// What the commands of a running program change.
#[derive(Debug, PartialEq, Eq)]
pub struct LiveCli {
    pub model: String,
    pub permission_mode: PermissionMode,
    pub session: SessionHandle,
}

pub struct LiveView {
    pub model: Seq<char>,
    pub permission_mode: PermissionMode,
    pub session_id: Seq<char>,
    pub session_path: Seq<char>,
}

impl LiveCli {
    pub open spec fn view(&self) -> LiveView {
        LiveView {
            model: self.model@,
            permission_mode: self.permission_mode,
            session_id: self.session.id@,
            session_path: self.session.path@,
        }
    }
}

// ---------------------------------------------------------------------------
// The model
// ---------------------------------------------------------------------------

/// What `/model` asks for.
#[derive(Debug, PartialEq, Eq)]
pub enum ModelStep {
    Report(String),
    /// The runtime has to be built anew for the model.
    Rebuild { model: String },
}

impl ModelStep {
    /// Whether the step, once carried out, changes the model in use.
    pub fn changes(&self) -> (r: bool)
        ensures
            r == (self is Rebuild),
    {
        match self {
            ModelStep::Rebuild { .. } => true,
            ModelStep::Report(_) => false,
        }
    }
}

/// Whether this is what `/model` comes to.
pub open spec fn model_step(
    live: LiveView,
    requested: Option<Seq<char>>,
    message_count: nat,
    turns: nat,
    step: ModelStep,
) -> bool {
    match requested {
        Some(model) if model != live.model => step matches ModelStep::Rebuild { model: next }
            && next@ == model,
        _ => step matches ModelStep::Report(report) && report@ == reports::model_report(
            live.model,
            message_count,
            turns,
        ),
    }
}

/// A live program with another model.
pub open spec fn with_model(live: LiveView, model: Seq<char>) -> LiveView {
    LiveView { model, ..live }
}

impl LiveCli {
    /// What `/model` asks for; `requested` is the model that was named, with its
    /// alias resolved.
    pub fn set_model(&self, requested: Option<String>, message_count: usize, turns: u32) -> (r:
        ModelStep)
        ensures
            model_step(
                self.view(),
                text::opt_text(requested),
                message_count as nat,
                turns as nat,
                r,
            ),
    {
        match requested {
            Some(model) => {
                if !text::str_eq(model.as_str(), self.model.as_str()) {
                    return ModelStep::Rebuild { model };
                }
            },
            None => {},
        }
        ModelStep::Report(reports::format_model_report(self.model.as_str(), message_count, turns))
    }

    /// The runtime was built for another model.
    pub fn model_switched(&mut self, model: String, message_count: usize) -> (r: String)
        ensures
            final(self).view() == with_model(old(self).view(), model@),
            r@ == reports::model_switch_report(
                old(self).view().model,
                model@,
                message_count as nat,
            ),
    {
        let report = reports::format_model_switch_report(
            self.model.as_str(),
            model.as_str(),
            message_count,
        );
        self.model = model;
        report
    }
}

// ---------------------------------------------------------------------------
// The permissions
// ---------------------------------------------------------------------------

/// What `/permissions` asks for.
#[derive(Debug, PartialEq, Eq)]
pub enum PermissionStep {
    Report(String),
    /// The runtime has to be built anew; then this is reported.
    Rebuild { report: String },
}

impl PermissionStep {
    /// Whether the step, once carried out, changes the permissions in use.
    pub fn changes(&self) -> (r: bool)
        ensures
            r == (self is Rebuild),
    {
        match self {
            PermissionStep::Rebuild { .. } => true,
            PermissionStep::Report(_) => false,
        }
    }
}

/// What `/permissions` comes to: the mode that is left, and what is asked for.
pub open spec fn permission_step(
    current: PermissionMode,
    requested: Option<Seq<char>>,
    left: PermissionMode,
    step: Result<PermissionStep, String>,
) -> bool {
    match requested {
        None => {
            &&& left == current
            &&& step matches Ok(PermissionStep::Report(report))
            &&& report@ == reports::permissions_report(current.name())
        },
        Some(name) => match permissions::mode_named(text::trimmed(name)) {
            None => {
                &&& left == current
                &&& step matches Err(message)
                &&& message@ == permissions::unsupported_mode(name)
            },
            Some(mode) => if mode == current {
                &&& left == current
                &&& step matches Ok(PermissionStep::Report(report))
                &&& report@ == reports::permissions_report(mode.name())
            } else {
                &&& left == mode
                &&& step matches Ok(PermissionStep::Rebuild { report })
                &&& report@ == reports::permissions_switch_report(current.name(), mode.name())
            },
        },
    }
}

impl LiveCli {
    /// Sets the permission mode that `/permissions` names.
    pub fn set_permissions(&mut self, mode: Option<&str>) -> (r: Result<PermissionStep, String>)
        ensures
            permission_step(
                old(self).view().permission_mode,
                text::opt_str(mode),
                final(self).view().permission_mode,
                r,
            ),
            final(self).view() == (LiveView {
                permission_mode: final(self).view().permission_mode,
                ..old(self).view()
            }),
    {
        let current = self.permission_mode;
        match permissions::set_permissions(current, mode) {
            PermissionChange::Report => Ok(
                PermissionStep::Report(reports::format_permissions_report(current.as_str())),
            ),
            PermissionChange::Unchanged(mode) => Ok(
                PermissionStep::Report(reports::format_permissions_report(mode.as_str())),
            ),
            PermissionChange::Switch { from, to } => {
                self.permission_mode = to;
                Ok(
                    PermissionStep::Rebuild {
                        report: reports::format_permissions_switch_report(
                            from.as_str(),
                            to.as_str(),
                        ),
                    },
                )
            },
            PermissionChange::Unsupported(message) => Err(message),
        }
    }
}

// ---------------------------------------------------------------------------
// The session
// ---------------------------------------------------------------------------

/// What is said where `/clear` is not confirmed.
pub open spec fn unconfirmed_clear() -> Seq<char> {
    "clear: confirmation required; run /clear --confirm to start a fresh session."@
}

/// What is missing before the session is cleared.
pub open spec fn missing_to_clear(confirm: bool) -> Option<Seq<char>> {
    if confirm {
        None
    } else {
        Some(unconfirmed_clear())
    }
}

pub fn clear_refusal(confirm: bool) -> (r: Option<String>)
    ensures
        text::opt_text(r) == missing_to_clear(confirm),
{
    if confirm {
        None
    } else {
        Some(
            "clear: confirmation required; run /clear --confirm to start a fresh session.".to_string(),
        )
    }
}

pub open spec fn cleared_report(before: LiveView, after: LiveView) -> Seq<char> {
    "Session cleared\n  Mode             fresh session\n  Previous session "@ + before.session_id
        + "\n  Resume previous  /resume "@ + before.session_id + "\n  Preserved model  "@
        + after.model + "\n  Permission mode  "@ + after.permission_mode.name()
        + "\n  New session      "@ + after.session_id + "\n  Session file     "@
        + after.session_path
}

impl LiveCli {
    /// Goes on with a fresh session.
    pub fn clear_session(&mut self, fresh: SessionHandle) -> (r: String)
        ensures
            final(self).view() == with_session(old(self).view(), fresh.id@, fresh.path@),
            r@ == cleared_report(old(self).view(), final(self).view()),
    {
        let mut out =
            "Session cleared\n  Mode             fresh session\n  Previous session ".to_string();
        out.append(self.session.id.as_str());
        out.append("\n  Resume previous  /resume ");
        out.append(self.session.id.as_str());
        self.session = fresh;
        out.append("\n  Preserved model  ");
        out.append(self.model.as_str());
        out.append("\n  Permission mode  ");
        out.append(self.permission_mode.as_str());
        out.append("\n  New session      ");
        out.append(self.session.id.as_str());
        out.append("\n  Session file     ");
        out.append(self.session.path.as_str());
        out
    }
}

/// What `/resume` asks for: a session to load, or to be told how it is used.
pub open spec fn resumed_reference(session_path: Option<Seq<char>>) -> Result<
    Seq<char>,
    Seq<char>,
> {
    match session_path {
        Some(reference) => Ok(reference),
        None => Err(reports::resume_usage()),
    }
}

pub fn resume_reference(session_path: Option<String>) -> (r: Result<String, String>)
    ensures
        text::result_text(r) == resumed_reference(text::opt_text(session_path)),
        session_path is Some ==> r == Ok::<String, String>(session_path->0),
{
    match session_path {
        Some(reference) => Ok(reference),
        None => Err(reports::render_resume_usage()),
    }
}

/// A live program with another session.
pub open spec fn with_session(live: LiveView, id: Seq<char>, path: Seq<char>) -> LiveView {
    LiveView { session_id: id, session_path: path, ..live }
}

impl LiveCli {
    /// Goes on with a session that was loaded from `path`.
    pub fn resume_session(&mut self, id: String, path: String, message_count: usize, turns: u32) -> (r:
        String)
        ensures
            final(self).view() == with_session(old(self).view(), id@, path@),
            r@ == reports::resume_report(path@, message_count as nat, turns as nat),
    {
        self.session = SessionHandle { id, path };
        reports::format_resume_report(self.session.path.as_str(), message_count, turns)
    }
}

/// Why a session is looked for.
#[derive(Debug, Clone, Copy, PartialEq, Eq, Structural)]
pub enum SessionPurpose {
    Switch,
    Delete,
    /// Deletes without asking.
    DeleteForce,
}

/// What `/session` asks for.
#[derive(Debug, PartialEq, Eq)]
pub enum SessionStep {
    List,
    Say(String),
    /// The session called `target` is looked for.
    Resolve { purpose: SessionPurpose, target: String },
    Fork { branch: Option<String> },
}

pub open spec fn switch_usage() -> Seq<char> {
    "Usage: /session switch <session-id>"@
}

pub open spec fn delete_usage() -> Seq<char> {
    "Usage: /session delete <session-id> [--force]"@
}

pub open spec fn unknown_session_action(action: Seq<char>) -> Seq<char> {
    "Unknown /session action '"@ + action
        + "'. Use /session list, /session switch <session-id>, /session fork [branch-name], or /session delete <session-id> [--force]."@
}

/// What a subcommand that needs a session asks for.
pub open spec fn resolves(
    purpose: SessionPurpose,
    target: Option<Seq<char>>,
    usage: Seq<char>,
    step: SessionStep,
) -> bool {
    match target {
        Some(target) => step matches SessionStep::Resolve { purpose: found, target: reference }
            && found == purpose && reference@ == target,
        None => step matches SessionStep::Say(said) && said@ == usage,
    }
}

/// What `/session` asks for.
pub open spec fn session_step(
    action: Option<Seq<char>>,
    target: Option<Seq<char>>,
    step: SessionStep,
) -> bool {
    match action {
        None => step == SessionStep::List,
        Some(action) => if action == "list"@ {
            step == SessionStep::List
        } else if action == "switch"@ {
            resolves(SessionPurpose::Switch, target, switch_usage(), step)
        } else if action == "fork"@ {
            step matches SessionStep::Fork { branch } && text::opt_text(branch) == target
        } else if action == "delete"@ {
            resolves(SessionPurpose::Delete, target, delete_usage(), step)
        } else if action == "delete-force"@ {
            resolves(SessionPurpose::DeleteForce, target, delete_usage(), step)
        } else {
            step matches SessionStep::Say(said) && said@ == unknown_session_action(action)
        },
    }
}

fn resolve_target(purpose: SessionPurpose, target: Option<&str>, usage: &str) -> (r: SessionStep)
    ensures
        resolves(purpose, text::opt_str(target), usage@, r),
{
    match target {
        Some(target) => SessionStep::Resolve { purpose, target: target.to_string() },
        None => SessionStep::Say(usage.to_string()),
    }
}

/// Whether a step goes on with another session.
pub open spec fn step_changes(step: SessionStep) -> bool {
    step is Fork || (step matches SessionStep::Resolve { purpose, .. } && purpose
        == SessionPurpose::Switch)
}

/// Whether `/session` with these words goes on with another session.
pub open spec fn words_change_session(
    action: Option<Seq<char>>,
    target: Option<Seq<char>>,
) -> bool {
    (action == Some("switch"@) && target is Some) || action == Some("fork"@)
}

proof fn lemma_session_words_differ()
    ensures
        "switch"@ != "list"@,
        "fork"@ != "list"@,
        "fork"@ != "switch"@,
        "delete"@ != "switch"@,
        "delete"@ != "fork"@,
        "delete-force"@ != "switch"@,
        "delete-force"@ != "fork"@,
{
    reveal_strlit("list");
    reveal_strlit("switch");
    reveal_strlit("fork");
    reveal_strlit("delete");
    reveal_strlit("delete-force");
    assert("fork"@[0] != "list"@[0]);
    assert("delete"@[0] != "switch"@[0]);
}

/// Whether `/session` goes on with another session.
pub fn session_step_changes(step: &SessionStep) -> (r: bool)
    ensures
        r == (step is Fork || (step matches SessionStep::Resolve { purpose, .. } && purpose
            == SessionPurpose::Switch)),
        r == step_changes(*step),
{
    match step {
        SessionStep::Fork { .. } => true,
        SessionStep::Resolve { purpose, .. } => match purpose {
            SessionPurpose::Switch => true,
            _ => false,
        },
        _ => false,
    }
}

/// What `/session` asks for: another session exactly for `switch` with a target
/// and for `fork`.
pub fn handle_session_command(action: Option<&str>, target: Option<&str>) -> (r: SessionStep)
    ensures
        session_step(text::opt_str(action), text::opt_str(target), r),
        step_changes(r) == words_change_session(text::opt_str(action), text::opt_str(target)),
{
    proof {
        lemma_session_words_differ();
    }
    match action {
        None => SessionStep::List,
        Some(action) => {
            if text::str_eq(action, "list") {
                return SessionStep::List;
            }
            if text::str_eq(action, "switch") {
                return resolve_target(
                    SessionPurpose::Switch,
                    target,
                    "Usage: /session switch <session-id>",
                );
            }
            if text::str_eq(action, "fork") {
                return SessionStep::Fork { branch: text::opt_to_string(target) };
            }
            if text::str_eq(action, "delete") {
                return resolve_target(
                    SessionPurpose::Delete,
                    target,
                    "Usage: /session delete <session-id> [--force]",
                );
            }
            if text::str_eq(action, "delete-force") {
                return resolve_target(
                    SessionPurpose::DeleteForce,
                    target,
                    "Usage: /session delete <session-id> [--force]",
                );
            }
            let mut message = "Unknown /session action '".to_string();
            message.append(action);
            message.append(
                "'. Use /session list, /session switch <session-id>, /session fork [branch-name], or /session delete <session-id> [--force].",
            );
            SessionStep::Say(message)
        },
    }
}

/// What is done with a session that was found.
#[derive(Debug, PartialEq, Eq)]
pub enum SessionFound {
    Say(String),
    /// The session is loaded.
    Load(SessionHandle),
    /// The user is asked before the session is deleted.
    Confirm(SessionHandle),
    Delete(SessionHandle),
}

pub open spec fn refused_deletion(id: Seq<char>) -> Seq<char> {
    "delete: refusing to delete the active session '"@ + id
        + "'.\nSwitch to another session first with /session switch <session-id>."@
}

/// What is done with the session `handle`, `active` being the id of the session
/// in use.
pub open spec fn found_step(
    purpose: SessionPurpose,
    handle: SessionHandle,
    active: Seq<char>,
    step: SessionFound,
) -> bool {
    match purpose {
        SessionPurpose::Switch => step == SessionFound::Load(handle),
        _ => if handle.id@ == active {
            step matches SessionFound::Say(said) && said@ == refused_deletion(handle.id@)
        } else if purpose == SessionPurpose::Delete {
            step == SessionFound::Confirm(handle)
        } else {
            step == SessionFound::Delete(handle)
        },
    }
}

pub open spec fn deleted_report(id: Seq<char>, path: Seq<char>) -> Seq<char> {
    "Session deleted\n  Deleted session  "@ + id + "\n  File             "@ + path
}

pub open spec fn switched_report(id: Seq<char>, path: Seq<char>, messages: nat) -> Seq<char> {
    "Session switched\n  Active session   "@ + id + "\n  File             "@ + path
        + "\n  Messages         "@ + text::decimal(messages)
}

pub open spec fn forked_report(
    parent: Seq<char>,
    id: Seq<char>,
    branch: Option<Seq<char>>,
    path: Seq<char>,
    messages: nat,
) -> Seq<char> {
    "Session forked\n  Parent session   "@ + parent + "\n  Active session   "@ + id
        + "\n  Branch           "@ + reports::or_default(branch, "(unnamed)"@)
        + "\n  File             "@ + path + "\n  Messages         "@ + text::decimal(messages)
}

impl LiveCli {
    /// What is done with a session that was found.
    pub fn session_found(&self, purpose: SessionPurpose, handle: SessionHandle) -> (r: SessionFound)
        ensures
            found_step(purpose, handle, self.view().session_id, r),
    {
        match purpose {
            SessionPurpose::Switch => SessionFound::Load(handle),
            _ => {
                if text::str_eq(handle.id.as_str(), self.session.id.as_str()) {
                    let mut message =
                        "delete: refusing to delete the active session '".to_string();
                    message.append(handle.id.as_str());
                    message.append(
                        "'.\nSwitch to another session first with /session switch <session-id>.",
                    );
                    return SessionFound::Say(message);
                }
                match purpose {
                    SessionPurpose::Delete => SessionFound::Confirm(handle),
                    _ => SessionFound::Delete(handle),
                }
            },
        }
    }

    /// Goes on with a session that was switched to.
    pub fn session_switched(&mut self, id: String, path: String, message_count: usize) -> (r: String)
        ensures
            final(self).view() == with_session(old(self).view(), id@, path@),
            r@ == switched_report(id@, path@, message_count as nat),
    {
        self.session = SessionHandle { id, path };
        let mut out = "Session switched\n  Active session   ".to_string();
        out.append(self.session.id.as_str());
        out.append("\n  File             ");
        out.append(self.session.path.as_str());
        out.append("\n  Messages         ");
        out.append(text::decimal_usize(message_count).as_str());
        out
    }

    /// Goes on with a fork of the session.
    pub fn session_forked(
        &mut self,
        handle: SessionHandle,
        branch: Option<&str>,
        message_count: usize,
    ) -> (r: String)
        ensures
            final(self).view() == with_session(old(self).view(), handle.id@, handle.path@),
            r@ == forked_report(
                old(self).view().session_id,
                handle.id@,
                text::opt_str(branch),
                handle.path@,
                message_count as nat,
            ),
    {
        let mut out = "Session forked\n  Parent session   ".to_string();
        out.append(self.session.id.as_str());
        self.session = handle;
        out.append("\n  Active session   ");
        out.append(self.session.id.as_str());
        out.append("\n  Branch           ");
        out.append(reports::str_or(branch, "(unnamed)"));
        out.append("\n  File             ");
        out.append(self.session.path.as_str());
        out.append("\n  Messages         ");
        out.append(text::decimal_usize(message_count).as_str());
        out
    }
}

/// Whether this is done once the user was asked about a deletion.
pub open spec fn follows_question(
    confirmed: bool,
    handle: SessionHandle,
    step: SessionFound,
) -> bool {
    if confirmed {
        step == SessionFound::Delete(handle)
    } else {
        step matches SessionFound::Say(said) && said@ == "delete: cancelled."@
    }
}

/// What is done once the user was asked about a deletion.
pub fn deletion_answered(confirmed: bool, handle: SessionHandle) -> (r: SessionFound)
    ensures
        follows_question(confirmed, handle, r),
{
    if confirmed {
        SessionFound::Delete(handle)
    } else {
        SessionFound::Say("delete: cancelled.".to_string())
    }
}

/// How `/session` ended.
#[derive(Debug, PartialEq, Eq)]
pub enum SessionEnd {
    /// Something was told: the sessions, how the command is used, or why nothing
    /// was done.
    Told(String),
    /// The session was loaded from its file.
    Switched { id: String, path: String, message_count: usize },
    /// The file of the session was removed.
    Deleted(SessionHandle),
    /// A copy of the session in use was saved under `handle`; `branch` is the
    /// name that the copy carries.
    Forked { handle: SessionHandle, branch: Option<String>, message_count: usize },
}

/// Whether an end leaves another session in use.
pub open spec fn end_changes(end: SessionEnd) -> bool {
    end is Switched || end is Forked
}

/// Whether a step can end so, `active` being the id of the session in use.
pub open spec fn may_end(step: SessionStep, active: Seq<char>, end: SessionEnd) -> bool {
    match step {
        SessionStep::List => end is Told,
        SessionStep::Say(said) => end == SessionEnd::Told(said),
        SessionStep::Resolve { purpose, .. } => match purpose {
            SessionPurpose::Switch => end is Switched,
            _ => end is Told || (end matches SessionEnd::Deleted(handle) && handle.id@ != active),
        },
        SessionStep::Fork { .. } => end is Forked,
    }
}

/// Whether what is done with a session that was found ends so.
pub open spec fn found_ends(found: SessionFound, end: SessionEnd) -> bool {
    match found {
        SessionFound::Say(said) => end == SessionEnd::Told(said),
        SessionFound::Load(_) => end is Switched,
        SessionFound::Confirm(handle) => end is Told || end == SessionEnd::Deleted(handle),
        SessionFound::Delete(handle) => end == SessionEnd::Deleted(handle),
    }
}

/// What is told of an end.
pub open spec fn end_report(live: LiveView, end: SessionEnd) -> Seq<char> {
    match end {
        SessionEnd::Told(said) => said@,
        SessionEnd::Switched { id, path, message_count } => switched_report(
            id@,
            path@,
            message_count as nat,
        ),
        SessionEnd::Deleted(handle) => deleted_report(handle.id@, handle.path@),
        SessionEnd::Forked { handle, branch, message_count } => forked_report(
            live.session_id,
            handle.id@,
            text::opt_text(branch),
            handle.path@,
            message_count as nat,
        ),
    }
}

/// The program after an end.
pub open spec fn after_end(live: LiveView, end: SessionEnd) -> LiveView {
    match end {
        SessionEnd::Switched { id, path, .. } => with_session(live, id@, path@),
        SessionEnd::Forked { handle, .. } => with_session(live, handle.id@, handle.path@),
        _ => live,
    }
}

impl LiveCli {
    /// Ends `/session`: what is told, and whether another session is in use now.
    /// Without one nothing has changed.
    pub fn session_command_ended(&mut self, end: SessionEnd) -> (r: (String, bool))
        ensures
            r.0@ == end_report(old(self).view(), end),
            r.1 == end_changes(end),
            final(self).view() == after_end(old(self).view(), end),
            !r.1 ==> *final(self) == *old(self),
    {
        match end {
            SessionEnd::Told(said) => (said, false),
            SessionEnd::Switched { id, path, message_count } => {
                (self.session_switched(id, path, message_count), true)
            },
            SessionEnd::Deleted(handle) => (format_deleted_report(&handle), false),
            SessionEnd::Forked { handle, branch, message_count } => {
                let branch = match &branch {
                    Some(branch) => Some(branch.as_str()),
                    None => None,
                };
                (self.session_forked(handle, branch, message_count), true)
            },
        }
    }
}

/// What `/session` asks for goes on with another session exactly for `switch`
/// with a target and for `fork`.
pub proof fn law_session_steps_change_exactly(
    action: Option<Seq<char>>,
    target: Option<Seq<char>>,
    step: SessionStep,
)
    requires
        session_step(action, target, step),
    ensures
        step_changes(step) == words_change_session(action, target),
{
    lemma_session_words_differ();
}

/// `/session` leaves another session in use exactly for `switch` with a target
/// and for `fork`; otherwise the program stays as it is, and the session in use
/// is not deleted.
pub proof fn law_session_changes_exactly(
    action: Option<Seq<char>>,
    target: Option<Seq<char>>,
    step: SessionStep,
    live: LiveView,
    end: SessionEnd,
)
    requires
        session_step(action, target, step),
        may_end(step, live.session_id, end),
    ensures
        end_changes(end) == words_change_session(action, target),
        end_changes(end) == step_changes(step),
        !words_change_session(action, target) ==> after_end(live, end) == live,
        end matches SessionEnd::Deleted(handle) ==> handle.id@ != live.session_id,
{
    law_session_steps_change_exactly(action, target, step);
}

/// What is done with a session that was found ends as its step can end.
pub proof fn law_found_sessions_end_as_they_may(
    purpose: SessionPurpose,
    target: String,
    handle: SessionHandle,
    active: Seq<char>,
    found: SessionFound,
    end: SessionEnd,
)
    requires
        found_step(purpose, handle, active, found),
        found_ends(found, end),
    ensures
        may_end(SessionStep::Resolve { purpose, target }, active, end),
{
}

/// What is said of a session that was deleted.
pub fn format_deleted_report(handle: &SessionHandle) -> (r: String)
    ensures
        r@ == deleted_report(handle.id@, handle.path@),
{
    let mut out = "Session deleted\n  Deleted session  ".to_string();
    out.append(handle.id.as_str());
    out.append("\n  File             ");
    out.append(handle.path.as_str());
    out
}

/// The session in use is neither deleted nor asked about.
pub proof fn law_active_session_is_not_deleted(
    purpose: SessionPurpose,
    handle: SessionHandle,
    active: Seq<char>,
    step: SessionFound,
)
    requires
        found_step(purpose, handle, active, step),
    ensures
        step matches SessionFound::Delete(deleted) ==> deleted.id@ != active,
        step matches SessionFound::Confirm(asked) ==> asked.id@ != active,
{
}

/// To switch to another session and back leaves everything as it was.
pub proof fn law_switching_back_restores(live: LiveView, id: Seq<char>, path: Seq<char>)
    ensures
        with_session(with_session(live, id, path), live.session_id, live.session_path) == live,
{
}

// ---------------------------------------------------------------------------
// Compaction
// ---------------------------------------------------------------------------

/// What is said where compaction is disabled.
pub open spec fn missing_to_compact(enabled: bool) -> Option<Seq<char>> {
    if enabled {
        None
    } else {
        Some("Compaction is disabled."@)
    }
}

pub fn compaction_refusal(enabled: bool) -> (r: Option<String>)
    ensures
        text::opt_text(r) == missing_to_compact(enabled),
{
    if enabled {
        None
    } else {
        Some("Compaction is disabled.".to_string())
    }
}

/// What is said of a session that was compacted: where nothing was removed, it
/// was skipped.
pub open spec fn compaction_told(removed: nat, kept: nat) -> Seq<char> {
    reports::compact_report(removed, kept, removed == 0)
}

pub fn compacted_report(removed: usize, kept: usize) -> (r: String)
    ensures
        r@ == compaction_told(removed as nat, kept as nat),
{
    reports::format_compact_report(removed, kept, removed == 0)
}

// ---------------------------------------------------------------------------
// Turns
// ---------------------------------------------------------------------------

/// How a turn is run and told of.
#[derive(Debug, Clone, Copy, PartialEq, Eq, Structural)]
pub enum TurnStyle {
    /// As it goes on.
    Live,
    /// Its last text alone.
    FinalText,
    /// As one document.
    Document,
}

/// How a turn is run.
pub open spec fn style_of(format: CliOutputFormat, compact: bool) -> TurnStyle {
    match (format, compact) {
        (CliOutputFormat::Json, _) => TurnStyle::Document,
        (CliOutputFormat::Text, true) => TurnStyle::FinalText,
        (CliOutputFormat::Text, false) => TurnStyle::Live,
    }
}

pub fn turn_style(format: CliOutputFormat, compact: bool) -> (r: TurnStyle)
    ensures
        r == style_of(format, compact),
{
    match format {
        CliOutputFormat::Json => TurnStyle::Document,
        CliOutputFormat::Text => if compact {
            TurnStyle::FinalText
        } else {
            TurnStyle::Live
        },
    }
}

/// What is left to do after a turn.
#[derive(Debug, PartialEq, Eq)]
pub struct TurnEnd {
    /// Whether the runtime of the turn is kept and the session saved; else the
    /// plugins of the runtime are shut down.
    pub keep: bool,
    pub label: &'static str,
    pub notice: Option<String>,
}

/// Whether this is left to do after a live turn.
pub open spec fn is_left_to_do(result: Result<Option<usize>, ()>, end: TurnEnd) -> bool {
    match result {
        Ok(removed) => {
            &&& end.keep
            &&& end.label@ == "✨ Done"@
            &&& text::opt_text(end.notice) == (match removed {
                Some(removed) => Some(reports::auto_compaction_notice(removed as nat)),
                None => None,
            })
        },
        Err(_) => {
            &&& !end.keep
            &&& end.label@ == "❌ Request failed"@
            &&& end.notice is None
        },
    }
}

/// What is left to do after a live turn; `removed` is how many messages were
/// compacted away in a turn that succeeded.
pub fn after_turn(result: Result<Option<usize>, ()>) -> (r: TurnEnd)
    ensures
        is_left_to_do(result, r),
{
    match result {
        Ok(Some(removed)) => TurnEnd {
            keep: true,
            label: "✨ Done",
            notice: Some(reports::format_auto_compaction_notice(removed)),
        },
        Ok(None) => TurnEnd { keep: true, label: "✨ Done", notice: None },
        Err(_) => TurnEnd { keep: false, label: "❌ Request failed", notice: None },
    }
}

// ---------------------------------------------------------------------------
// Plugins
// ---------------------------------------------------------------------------

pub open spec fn plugin_json(
    action: Option<Seq<char>>,
    target: Option<Seq<char>>,
    message: Seq<char>,
    reload_runtime: bool,
) -> JsonView {
    JsonView::Object(
        seq![
            ("kind"@, JsonView::Text("plugin"@)),
            ("action"@, JsonView::Text(reports::or_default(action, "list"@))),
            ("target"@, json::opt_text_json(target)),
            ("message"@, JsonView::Text(message)),
            ("reload_runtime"@, JsonView::Bool(reload_runtime)),
        ],
    )
}

/// The document of what `/plugins` did.
pub fn plugin_document(
    action: Option<&str>,
    target: Option<&str>,
    message: &str,
    reload_runtime: bool,
) -> (r: Json)
    ensures
        r.view() == plugin_json(
            text::opt_str(action),
            text::opt_str(target),
            message@,
            reload_runtime,
        ),
{
    let mut object = JsonObject::new();
    object.put("kind", Json::of_str("plugin"));
    object.put("action", Json::of_str(reports::str_or(action, "list")));
    object.put("target", Json::of_opt_str(target));
    object.put("message", Json::of_str(message));
    object.put("reload_runtime", Json::of_bool(reload_runtime));
    assert(object.view() =~= plugin_json(
        text::opt_str(action),
        text::opt_str(target),
        message@,
        reload_runtime,
    )->Object_0);
    object.done()
}

/// Where a path in the settings of plugins points.
pub open spec fn plugin_path(
    is_absolute: bool,
    cwd: Seq<char>,
    config_home: Seq<char>,
    value: Seq<char>,
) -> Seq<char> {
    if is_absolute {
        value
    } else if text::has_prefix(value, "."@) {
        text::joined_path(cwd, value)
    } else {
        text::joined_path(config_home, value)
    }
}

/// Where a path in the settings of plugins points: paths that start with a dot
/// lie below the working directory, others below the directory of the settings.
pub fn resolve_plugin_path(is_absolute: bool, cwd: &str, config_home: &str, value: &str) -> (r: String)
    ensures
        r@ == plugin_path(is_absolute, cwd@, config_home@, value@),
{
    if is_absolute {
        return value.to_string();
    }
    if text::starts_with(value, ".") {
        text::join_path(cwd, value)
    } else {
        text::join_path(config_home, value)
    }
}

/// What of a runtime is still to be shut down.
#[derive(Debug, Clone, Copy, PartialEq, Eq, Structural)]
pub struct RuntimeShutdown {
    pub plugins_active: bool,
    pub mcp_active: bool,
}

impl RuntimeShutdown {
    /// What is left once the plugins were shut down, or could not be.
    pub open spec fn after_plugins(self, failed: bool) -> RuntimeShutdown {
        RuntimeShutdown { plugins_active: self.plugins_active && failed, ..self }
    }

    /// What is left once the MCP servers were shut down, or could not be.
    pub open spec fn after_mcp(self, failed: bool) -> RuntimeShutdown {
        RuntimeShutdown { mcp_active: self.mcp_active && failed, ..self }
    }

    /// The plugins were shut down where they had to be, or could not be: they
    /// stay active only where that failed.
    pub fn plugins_shut_down(&mut self, failed: bool)
        ensures
            *final(self) == old(self).after_plugins(failed),
    {
        self.plugins_active = self.plugins_active && failed;
    }

    /// The MCP servers were shut down where there are any, or could not be: they
    /// stay active only where that failed.
    pub fn mcp_shut_down(&mut self, failed: bool)
        ensures
            *final(self) == old(self).after_mcp(failed),
    {
        self.mcp_active = self.mcp_active && failed;
    }
}

} // verus!
