//! Running slash commands on a saved session.

use vstd::prelude::*;

use crate::history::{self, PromptHistoryEntry};
use crate::json::{self, Json, JsonObject, JsonView};
use crate::output::{self, CliOutputFormat, Output, OutputView};
use crate::reports;
use crate::slash::{self, SlashCommand, UnknownCommandGuidance};
use crate::stream::TokenUsage;
use crate::text;

verus! {

// ---------------------------------------------------------------------------
// Outcomes
// ---------------------------------------------------------------------------

/// The session that the commands after a command run on.
#[derive(Debug, Clone, Copy, PartialEq, Eq, Structural)]
pub enum NextSession {
    /// The same session as before.
    Kept,
    /// The session as it was compacted.
    Compacted,
    /// A new session in place of the one that was cleared.
    Cleared,
}

/// What a command came to: the session that is left, and what is told of it.
#[derive(Debug, PartialEq, Eq)]
pub struct ResumeCommandOutcome {
    pub session: NextSession,
    pub message: Option<String>,
    pub json: Option<Json>,
}

pub struct OutcomeView {
    pub session: NextSession,
    pub message: Option<Seq<char>>,
    pub json: Option<JsonView>,
}

impl ResumeCommandOutcome {
    pub open spec fn view(&self) -> OutcomeView {
        OutcomeView {
            session: self.session,
            message: text::opt_text(self.message),
            json: match self.json {
                Some(json) => Some(json.view()),
                None => None,
            },
        }
    }
}

/// The outcome of a command that leaves the session as it is.
pub open spec fn reported(message: Seq<char>, json: JsonView) -> OutcomeView {
    OutcomeView { session: NextSession::Kept, message: Some(message), json: Some(json) }
}

/// The outcome of a command that tells of something and leaves the session as
/// it is.
pub fn report_outcome(message: String, json: Json) -> (r: ResumeCommandOutcome)
    ensures
        r.view() == reported(message@, json.view()),
{
    ResumeCommandOutcome { session: NextSession::Kept, message: Some(message), json: Some(json) }
}

/// A document that holds a text of some kind.
pub open spec fn text_json(kind: Seq<char>, text: Seq<char>) -> JsonView {
    JsonView::Object(seq![("kind"@, JsonView::Text(kind)), ("text"@, JsonView::Text(text))])
}

fn text_document(kind: &str, text: &str) -> (r: Json)
    ensures
        r.view() == text_json(kind@, text@),
{
    let mut object = JsonObject::new();
    object.put("kind", Json::of_str(kind));
    object.put("text", Json::of_str(text));
    assert(object.view() =~= text_json(kind@, text@)->Object_0);
    object.done()
}

/// The outcome of `/help`.
pub fn help_outcome(help: String) -> (r: ResumeCommandOutcome)
    ensures
        r.view() == reported(help@, text_json("help"@, help@)),
{
    let json = text_document("help", help.as_str());
    report_outcome(help, json)
}

/// The outcome of `/agents`.
pub fn agents_outcome(listing: String) -> (r: ResumeCommandOutcome)
    ensures
        r.view() == reported(listing@, text_json("agents"@, listing@)),
{
    let json = text_document("agents", listing.as_str());
    report_outcome(listing, json)
}

pub open spec fn compact_json(removed: usize, kept: usize) -> JsonView {
    JsonView::Object(
        seq![
            ("kind"@, JsonView::Text("compact"@)),
            ("skipped"@, JsonView::Bool(removed == 0)),
            ("removed_messages"@, json::number_json(removed as u64)),
            ("kept_messages"@, json::number_json(kept as u64)),
        ],
    )
}

/// The outcome of `/compact`: where nothing is removed, it was skipped.
pub fn compact_outcome(removed: usize, kept: usize) -> (r: ResumeCommandOutcome)
    ensures
        r.view() == (OutcomeView {
            session: NextSession::Compacted,
            message: Some(reports::compact_report(removed as nat, kept as nat, removed == 0)),
            json: Some(compact_json(removed, kept)),
        }),
{
    let skipped = removed == 0;
    let mut object = JsonObject::new();
    object.put("kind", Json::of_str("compact"));
    object.put("skipped", Json::of_bool(skipped));
    object.put("removed_messages", Json::of_u64(removed as u64));
    object.put("kept_messages", Json::of_u64(kept as u64));
    assert(object.view() =~= compact_json(removed, kept)->Object_0);
    ResumeCommandOutcome {
        session: NextSession::Compacted,
        message: Some(reports::format_compact_report(removed, kept, skipped)),
        json: Some(object.done()),
    }
}

pub open spec fn compaction_disabled_outcome() -> OutcomeView {
    OutcomeView {
        session: NextSession::Kept,
        message: Some("Compaction is disabled."@),
        json: None,
    }
}

pub open spec fn unconfirmed_clear_outcome() -> OutcomeView {
    reported(
        "clear: confirmation required; rerun with /clear --confirm"@,
        JsonView::Object(
            seq![
                ("kind"@, JsonView::Text("error"@)),
                ("error"@, JsonView::Text("confirmation required"@)),
                ("hint"@, JsonView::Text("rerun with /clear --confirm"@)),
            ],
        ),
    )
}

fn unconfirmed_clear() -> (r: ResumeCommandOutcome)
    ensures
        r.view() == unconfirmed_clear_outcome(),
{
    let mut object = JsonObject::new();
    object.put("kind", Json::of_str("error"));
    object.put("error", Json::of_str("confirmation required"));
    object.put("hint", Json::of_str("rerun with /clear --confirm"));
    assert(object.view() =~= unconfirmed_clear_outcome().json->0->Object_0);
    report_outcome(
        "clear: confirmation required; rerun with /clear --confirm".to_string(),
        object.done(),
    )
}

pub open spec fn cleared_report(
    previous: Seq<char>,
    backup: Seq<char>,
    new_id: Seq<char>,
    file: Seq<char>,
) -> Seq<char> {
    "Session cleared\n  Mode             resumed session reset\n  Previous session "@ + previous
        + "\n  Backup           "@ + backup + "\n  Resume previous  claw --resume "@ + backup
        + "\n  New session      "@ + new_id + "\n  Session file     "@ + file
}

pub open spec fn cleared_json(
    previous: Seq<char>,
    backup: Seq<char>,
    new_id: Seq<char>,
    file: Seq<char>,
) -> JsonView {
    JsonView::Object(
        seq![
            ("kind"@, JsonView::Text("clear"@)),
            ("previous_session_id"@, JsonView::Text(previous)),
            ("new_session_id"@, JsonView::Text(new_id)),
            ("backup"@, JsonView::Text(backup)),
            ("session_file"@, JsonView::Text(file)),
        ],
    )
}

/// The outcome of `/clear --confirm`: the session was saved to `backup`, and a
/// new one stands in `file`.
pub fn cleared_outcome(previous: &str, backup: &str, new_id: &str, file: &str) -> (r:
    ResumeCommandOutcome)
    ensures
        r.view() == (OutcomeView {
            session: NextSession::Cleared,
            message: Some(cleared_report(previous@, backup@, new_id@, file@)),
            json: Some(cleared_json(previous@, backup@, new_id@, file@)),
        }),
{
    let mut message =
        "Session cleared\n  Mode             resumed session reset\n  Previous session ".to_string();
    message.append(previous);
    message.append("\n  Backup           ");
    message.append(backup);
    message.append("\n  Resume previous  claw --resume ");
    message.append(backup);
    message.append("\n  New session      ");
    message.append(new_id);
    message.append("\n  Session file     ");
    message.append(file);
    let mut object = JsonObject::new();
    object.put("kind", Json::of_str("clear"));
    object.put("previous_session_id", Json::of_str(previous));
    object.put("new_session_id", Json::of_str(new_id));
    object.put("backup", Json::of_str(backup));
    object.put("session_file", Json::of_str(file));
    assert(object.view() =~= cleared_json(previous@, backup@, new_id@, file@)->Object_0);
    ResumeCommandOutcome {
        session: NextSession::Cleared,
        message: Some(message),
        json: Some(object.done()),
    }
}

pub open spec fn usage_json(kind: Seq<char>, usage: TokenUsage) -> JsonView {
    JsonView::Object(
        seq![
            ("kind"@, JsonView::Text(kind)),
            ("input_tokens"@, json::number_json(usage.input_tokens as u64)),
            ("output_tokens"@, json::number_json(usage.output_tokens as u64)),
            (
                "cache_creation_input_tokens"@,
                json::number_json(usage.cache_creation_input_tokens as u64),
            ),
            ("cache_read_input_tokens"@, json::number_json(usage.cache_read_input_tokens as u64)),
            ("total_tokens"@, json::number_json(reports::all_tokens(usage) as u64)),
        ],
    )
}

fn usage_outcome(kind: &str, usage: &TokenUsage) -> (r: ResumeCommandOutcome)
    ensures
        r.view() == reported(reports::cost_report(*usage), usage_json(kind@, *usage)),
{
    let mut object = JsonObject::new();
    object.put("kind", Json::of_str(kind));
    object.put("input_tokens", Json::of_u64(usage.input_tokens as u64));
    object.put("output_tokens", Json::of_u64(usage.output_tokens as u64));
    object.put(
        "cache_creation_input_tokens",
        Json::of_u64(usage.cache_creation_input_tokens as u64),
    );
    object.put("cache_read_input_tokens", Json::of_u64(usage.cache_read_input_tokens as u64));
    object.put("total_tokens", Json::of_u64(reports::total_tokens(usage)));
    assert(object.view() =~= usage_json(kind@, *usage)->Object_0);
    report_outcome(reports::format_cost_report(usage), object.done())
}

/// The outcome of `/cost`.
pub fn cost_outcome(usage: &TokenUsage) -> (r: ResumeCommandOutcome)
    ensures
        r.view() == reported(reports::cost_report(*usage), usage_json("cost"@, *usage)),
{
    usage_outcome("cost", usage)
}

/// The outcome of `/stats`.
pub fn stats_outcome(usage: &TokenUsage) -> (r: ResumeCommandOutcome)
    ensures
        r.view() == reported(reports::cost_report(*usage), usage_json("stats"@, *usage)),
{
    usage_outcome("stats", usage)
}

pub open spec fn export_json(file: Seq<char>, messages: usize) -> JsonView {
    JsonView::Object(
        seq![
            ("kind"@, JsonView::Text("export"@)),
            ("file"@, JsonView::Text(file)),
            ("message_count"@, json::number_json(messages as u64)),
        ],
    )
}

/// The outcome of `/export`.
pub fn export_outcome(file: &str, message_count: usize) -> (r: ResumeCommandOutcome)
    ensures
        r.view() == reported(
            reports::export_report(file@, message_count as nat),
            export_json(file@, message_count),
        ),
{
    let mut object = JsonObject::new();
    object.put("kind", Json::of_str("export"));
    object.put("file", Json::of_str(file));
    object.put("message_count", Json::of_u64(message_count as u64));
    assert(object.view() =~= export_json(file@, message_count)->Object_0);
    report_outcome(reports::format_export_report(file, message_count), object.done())
}

/// The outcome of `/history`.
pub fn history_outcome(entries: &Vec<PromptHistoryEntry>, limit: usize) -> (r: ResumeCommandOutcome)
    ensures
        r.view() == reported(
            history::history_report(history::entry_views(entries@), limit as nat),
            history::history_json(history::entry_views(entries@), limit as nat),
        ),
{
    report_outcome(
        history::render_prompt_history_report(entries, limit),
        history::prompt_history_document(entries, limit),
    )
}

pub open spec fn session_list_json(ids: Seq<Seq<char>>, active: Seq<char>) -> JsonView {
    JsonView::Object(
        seq![
            ("kind"@, JsonView::Text("session_list"@)),
            ("sessions"@, json::texts_json(ids)),
            ("active"@, JsonView::Text(active)),
        ],
    )
}

/// The outcome of `/session list`, where the sessions were listed or not.
pub fn session_list_outcome(ids: &Vec<String>, active: &str, listing: Result<String, String>) -> (r:
    ResumeCommandOutcome)
    ensures
        r.view() == reported(
            match listing {
                Ok(listing) => listing@,
                Err(error) => "error: "@ + error@,
            },
            session_list_json(text::texts(ids@), active@),
        ),
{
    let message = match listing {
        Ok(listing) => listing,
        Err(error) => {
            let mut message = "error: ".to_string();
            message.append(error.as_str());
            message
        },
    };
    let mut object = JsonObject::new();
    object.put("kind", Json::of_str("session_list"));
    object.put("sessions", Json::of_strings(ids));
    object.put("active", Json::of_str(active));
    assert(object.view() =~= session_list_json(text::texts(ids@), active@)->Object_0);
    report_outcome(message, object.done())
}

/// The model that is told of a session that was loaded.
pub open spec fn model_told(session_model: Option<Seq<char>>) -> Seq<char> {
    reports::or_default(session_model, "restored-session"@)
}

/// The model that `/status` tells of on a saved session.
pub fn resumed_model(session_model: Option<&str>) -> (r: &str)
    ensures
        r@ == model_told(text::opt_str(session_model)),
{
    reports::str_or(session_model, "restored-session")
}

// ---------------------------------------------------------------------------
// Commands
// ---------------------------------------------------------------------------

/// What has to be done for a command.
#[derive(Debug, PartialEq, Eq)]
pub enum ResumeAction {
    /// Nothing: this is the outcome.
    Report(ResumeCommandOutcome),
    /// Nothing: the command fails.
    Refuse(String),
    Help,
    Compact { mode: Option<String> },
    Clear,
    Status,
    Sandbox,
    Cost,
    Config { section: Option<String> },
    Mcp { args: Option<String> },
    Memory,
    Init,
    Diff,
    Version,
    Export { path: Option<String> },
    Agents { args: Option<String> },
    Skills { args: Option<String> },
    Doctor,
    Stats,
    History { limit: usize },
    ListSessions,
}

/// Whether the environment switches compaction off.
pub open spec fn switches_off(setting: Option<Seq<char>>) -> bool {
    match setting {
        Some(value) => text::lowered(value) == text::lowered("false"@) || value == "0"@,
        None => false,
    }
}

pub fn compaction_switched_off(setting: Option<&str>) -> (r: bool)
    ensures
        r == switches_off(text::opt_str(setting)),
{
    match setting {
        Some(value) => text::eq_ignore_case(value, "false") || text::str_eq(value, "0"),
        None => false,
    }
}

pub open spec fn interactive_skill_error() -> Seq<char> {
    "resumed /skills invocations are interactive-only; start `claw` and run `/skills <skill>` in the REPL"@
}

pub open spec fn unsupported_command_error() -> Seq<char> {
    "unsupported resumed slash command"@
}

/// Whether a command asks for the list of sessions.
pub open spec fn lists_sessions(command: SlashCommand) -> bool {
    command matches SlashCommand::Session { action: Some(action), .. } && action@ == "list"@
}

/// Whether a command can run on a saved session at all.
pub open spec fn resumable(command: SlashCommand) -> bool {
    match command {
        SlashCommand::Help
        | SlashCommand::Status
        | SlashCommand::Sandbox
        | SlashCommand::Cost
        | SlashCommand::Stats
        | SlashCommand::Memory
        | SlashCommand::Init
        | SlashCommand::Diff
        | SlashCommand::Version
        | SlashCommand::Doctor
        | SlashCommand::Compact { .. }
        | SlashCommand::Clear { .. }
        | SlashCommand::Config { .. }
        | SlashCommand::Mcp { .. }
        | SlashCommand::Export { .. }
        | SlashCommand::Agents { .. }
        | SlashCommand::Skills { .. }
        | SlashCommand::History { .. }
        | SlashCommand::Unknown(_) => true,
        _ => lists_sessions(command),
    }
}

/// What a command asks for: `setting` is the setting for compaction,
/// `invokes_skill` says whether the arguments of `/skills` call a skill, and
/// `guidance` is what is known of an unknown command.
pub open spec fn asks_for(
    command: SlashCommand,
    setting: Option<Seq<char>>,
    invokes_skill: bool,
    guidance: UnknownCommandGuidance,
    action: ResumeAction,
) -> bool {
    if !resumable(command) {
        action matches ResumeAction::Refuse(error) && error@ == unsupported_command_error()
    } else {
        match command {
            SlashCommand::Help => action == ResumeAction::Help,
            SlashCommand::Status => action == ResumeAction::Status,
            SlashCommand::Sandbox => action == ResumeAction::Sandbox,
            SlashCommand::Cost => action == ResumeAction::Cost,
            SlashCommand::Stats => action == ResumeAction::Stats,
            SlashCommand::Memory => action == ResumeAction::Memory,
            SlashCommand::Init => action == ResumeAction::Init,
            SlashCommand::Diff => action == ResumeAction::Diff,
            SlashCommand::Version => action == ResumeAction::Version,
            SlashCommand::Doctor => action == ResumeAction::Doctor,
            SlashCommand::Compact { mode } => if switches_off(setting) {
                action matches ResumeAction::Report(outcome) && outcome.view()
                    == compaction_disabled_outcome()
            } else {
                action == (ResumeAction::Compact { mode })
            },
            SlashCommand::Clear { confirm } => if confirm {
                action == ResumeAction::Clear
            } else {
                action matches ResumeAction::Report(outcome) && outcome.view()
                    == unconfirmed_clear_outcome()
            },
            SlashCommand::Config { section } => action == (ResumeAction::Config { section }),
            SlashCommand::Mcp { action: subcommand, target } => action matches ResumeAction::Mcp {
                args,
            } && text::opt_text(args) == slash::mcp_arguments(
                text::opt_text(subcommand),
                text::opt_text(target),
            ),
            SlashCommand::Export { path } => action == (ResumeAction::Export { path }),
            SlashCommand::Agents { args } => action == (ResumeAction::Agents { args }),
            SlashCommand::Skills { args } => if invokes_skill {
                action matches ResumeAction::Refuse(error) && error@ == interactive_skill_error()
            } else {
                action == (ResumeAction::Skills { args })
            },
            SlashCommand::History { count } => match history::history_count(text::opt_text(count)) {
                Ok(limit) => action matches ResumeAction::History { limit: asked } && asked == limit,
                Err(message) => action matches ResumeAction::Refuse(error) && error@ == message,
            },
            SlashCommand::Unknown(name) => action matches ResumeAction::Refuse(error) && error@
                == reports::unknown_command_report(name@, guidance.suggested(), guidance.noted()),
            _ => action == ResumeAction::ListSessions,
        }
    }
}

/// What has to be done for a command on a saved session.
pub fn run_resume_command(
    command: SlashCommand,
    setting: Option<&str>,
    invokes_skill: bool,
    guidance: &UnknownCommandGuidance,
) -> (r: ResumeAction)
    ensures
        asks_for(command, text::opt_str(setting), invokes_skill, *guidance, r),
{
    match command {
        SlashCommand::Help => ResumeAction::Help,
        SlashCommand::Status => ResumeAction::Status,
        SlashCommand::Sandbox => ResumeAction::Sandbox,
        SlashCommand::Cost => ResumeAction::Cost,
        SlashCommand::Stats => ResumeAction::Stats,
        SlashCommand::Memory => ResumeAction::Memory,
        SlashCommand::Init => ResumeAction::Init,
        SlashCommand::Diff => ResumeAction::Diff,
        SlashCommand::Version => ResumeAction::Version,
        SlashCommand::Doctor => ResumeAction::Doctor,
        SlashCommand::Compact { mode } => {
            if compaction_switched_off(setting) {
                return ResumeAction::Report(
                    ResumeCommandOutcome {
                        session: NextSession::Kept,
                        message: Some("Compaction is disabled.".to_string()),
                        json: None,
                    },
                );
            }
            ResumeAction::Compact { mode }
        },
        SlashCommand::Clear { confirm } => if confirm {
            ResumeAction::Clear
        } else {
            ResumeAction::Report(unconfirmed_clear())
        },
        SlashCommand::Config { section } => ResumeAction::Config { section },
        SlashCommand::Mcp { action, target } => ResumeAction::Mcp {
            args: slash::join_mcp_arguments(action, target),
        },
        SlashCommand::Export { path } => ResumeAction::Export { path },
        SlashCommand::Agents { args } => ResumeAction::Agents { args },
        SlashCommand::Skills { args } => if invokes_skill {
            ResumeAction::Refuse(
                "resumed /skills invocations are interactive-only; start `claw` and run `/skills <skill>` in the REPL".to_string(),
            )
        } else {
            ResumeAction::Skills { args }
        },
        SlashCommand::History { count } => {
            let limit = match &count {
                Some(count) => history::parse_history_count(Some(count.as_str())),
                None => history::parse_history_count(None),
            };
            match limit {
                Ok(limit) => ResumeAction::History { limit },
                Err(error) => ResumeAction::Refuse(error),
            }
        },
        SlashCommand::Unknown(name) => ResumeAction::Refuse(
            reports::format_unknown_slash_command(
                name.as_str(),
                &guidance.suggestions,
                guidance.note(),
            ),
        ),
        SlashCommand::Session { action: Some(action), target } => if text::str_eq(
            action.as_str(),
            "list",
        ) {
            ResumeAction::ListSessions
        } else {
            ResumeAction::Refuse("unsupported resumed slash command".to_string())
        },
        _ => ResumeAction::Refuse("unsupported resumed slash command".to_string()),
    }
}

/// What was found where a command had to be carried out.
#[derive(Debug, PartialEq, Eq)]
pub enum ResumeFacts {
    /// Nothing had to be done.
    Nothing,
    /// It could not be carried out.
    Failed(String),
    /// A text was made.
    Listing(String),
    /// A report was made, and its document.
    Report { message: String, json: Json },
    Compacted { removed: usize, kept: usize },
    Cleared { previous: String, backup: String, new_id: String, file: String },
    Used(TokenUsage),
    Exported { file: String, message_count: usize },
    Prompts(Vec<PromptHistoryEntry>),
    Sessions { ids: Vec<String>, active: String, listing: Result<String, String> },
}

/// Whether these are the facts that an action asks for.
pub open spec fn answers(action: ResumeAction, facts: ResumeFacts) -> bool {
    match action {
        ResumeAction::Report(_) | ResumeAction::Refuse(_) => facts is Nothing,
        ResumeAction::Cost | ResumeAction::Stats => facts is Used,
        ResumeAction::History { .. } => facts is Prompts,
        ResumeAction::ListSessions => facts is Sessions,
        ResumeAction::Help => facts is Listing,
        ResumeAction::Agents { .. } => facts is Listing || facts is Failed,
        ResumeAction::Compact { .. } => facts is Compacted || facts is Failed,
        ResumeAction::Clear => facts is Cleared || facts is Failed,
        ResumeAction::Export { .. } => facts is Exported || facts is Failed,
        ResumeAction::Version => facts is Report,
        _ => facts is Report || facts is Failed,
    }
}

/// What a command comes to, from what it asked for and what was found.
pub open spec fn comes_to(
    action: ResumeAction,
    facts: ResumeFacts,
) -> Result<OutcomeView, Seq<char>> {
    match facts {
        ResumeFacts::Failed(error) => Err(error@),
        ResumeFacts::Nothing => match action {
            ResumeAction::Refuse(error) => Err(error@),
            ResumeAction::Report(outcome) => Ok(outcome.view()),
            _ => arbitrary(),
        },
        ResumeFacts::Listing(listing) => Ok(
            reported(
                listing@,
                text_json(
                    if action is Help {
                        "help"@
                    } else {
                        "agents"@
                    },
                    listing@,
                ),
            ),
        ),
        ResumeFacts::Report { message, json } => Ok(reported(message@, json.view())),
        ResumeFacts::Compacted { removed, kept } => Ok(
            OutcomeView {
                session: NextSession::Compacted,
                message: Some(reports::compact_report(removed as nat, kept as nat, removed == 0)),
                json: Some(compact_json(removed, kept)),
            },
        ),
        ResumeFacts::Cleared { previous, backup, new_id, file } => Ok(
            OutcomeView {
                session: NextSession::Cleared,
                message: Some(cleared_report(previous@, backup@, new_id@, file@)),
                json: Some(cleared_json(previous@, backup@, new_id@, file@)),
            },
        ),
        ResumeFacts::Used(usage) => Ok(
            reported(
                reports::cost_report(usage),
                usage_json(
                    if action is Cost {
                        "cost"@
                    } else {
                        "stats"@
                    },
                    usage,
                ),
            ),
        ),
        ResumeFacts::Exported { file, message_count } => Ok(
            reported(
                reports::export_report(file@, message_count as nat),
                export_json(file@, message_count),
            ),
        ),
        ResumeFacts::Prompts(entries) => match action {
            ResumeAction::History { limit } => Ok(
                reported(
                    history::history_report(history::entry_views(entries@), limit as nat),
                    history::history_json(history::entry_views(entries@), limit as nat),
                ),
            ),
            _ => arbitrary(),
        },
        ResumeFacts::Sessions { ids, active, listing } => Ok(
            reported(
                match listing {
                    Ok(listing) => listing@,
                    Err(error) => "error: "@ + error@,
                },
                session_list_json(text::texts(ids@), active@),
            ),
        ),
    }
}

/// The outcome of an action with the facts that it asked for.
pub fn resume_outcome(action: ResumeAction, facts: ResumeFacts) -> (r: Result<
    ResumeCommandOutcome,
    String,
>)
    requires
        answers(action, facts),
    ensures
        match r {
            Ok(outcome) => comes_to(action, facts) == Ok::<OutcomeView, Seq<char>>(outcome.view()),
            Err(error) => comes_to(action, facts) == Err::<OutcomeView, Seq<char>>(error@),
        },
{
    match facts {
        ResumeFacts::Failed(error) => Err(error),
        ResumeFacts::Nothing => match action {
            ResumeAction::Refuse(error) => Err(error),
            ResumeAction::Report(outcome) => Ok(outcome),
            _ => Err(String::new()),
        },
        ResumeFacts::Listing(listing) => match action {
            ResumeAction::Help => Ok(help_outcome(listing)),
            _ => Ok(agents_outcome(listing)),
        },
        ResumeFacts::Report { message, json } => Ok(report_outcome(message, json)),
        ResumeFacts::Compacted { removed, kept } => Ok(compact_outcome(removed, kept)),
        ResumeFacts::Cleared { previous, backup, new_id, file } => Ok(
            cleared_outcome(previous.as_str(), backup.as_str(), new_id.as_str(), file.as_str()),
        ),
        ResumeFacts::Used(usage) => match action {
            ResumeAction::Cost => Ok(cost_outcome(&usage)),
            _ => Ok(stats_outcome(&usage)),
        },
        ResumeFacts::Exported { file, message_count } => Ok(
            export_outcome(file.as_str(), message_count),
        ),
        ResumeFacts::Prompts(entries) => match action {
            ResumeAction::History { limit } => Ok(history_outcome(&entries, limit)),
            _ => Err(String::new()),
        },
        ResumeFacts::Sessions { ids, active, listing } => Ok(
            session_list_outcome(&ids, active.as_str(), listing),
        ),
    }
}

/// Only a compaction and a confirmed clear go on with another session, and of
/// the actions only `Compact` and `Clear` come to that.
pub proof fn law_other_sessions_come_only_from_compact_and_clear(
    action: ResumeAction,
    facts: ResumeFacts,
)
    requires
        answers(action, facts),
        action matches ResumeAction::Report(outcome) ==> outcome.session == NextSession::Kept,
        comes_to(action, facts) is Ok,
    ensures
        ({
            let session = comes_to(action, facts)->Ok_0.session;
            &&& session == NextSession::Compacted <==> action is Compact
            &&& session == NextSession::Cleared <==> action is Clear
        }),
{
    match action {
        ResumeAction::Report(outcome) => {
            assert(outcome.view().session == outcome.session);
        },
        _ => {},
    }
}

/// A command fails without being tried exactly where it cannot run on a saved
/// session, calls a skill, counts badly, or is not known.
pub proof fn law_resume_refuses_exactly(
    command: SlashCommand,
    setting: Option<Seq<char>>,
    invokes_skill: bool,
    guidance: UnknownCommandGuidance,
    action: ResumeAction,
)
    requires
        asks_for(command, setting, invokes_skill, guidance, action),
    ensures
        action is Refuse <==> (!resumable(command) || (command is Skills && invokes_skill) || (
        command matches SlashCommand::History { count } && history::history_count(
            text::opt_text(count),
        ) is Err) || command is Unknown),
{
}

/// Without a confirmation, or with compaction switched off, the session is
/// left as it is.
pub proof fn law_immediate_outcomes_keep_the_session(
    command: SlashCommand,
    setting: Option<Seq<char>>,
    invokes_skill: bool,
    guidance: UnknownCommandGuidance,
    action: ResumeAction,
)
    requires
        asks_for(command, setting, invokes_skill, guidance, action),
    ensures
        action matches ResumeAction::Report(outcome) ==> outcome.session == NextSession::Kept,
{
    match action {
        ResumeAction::Report(outcome) => {
            assert(outcome.view().session == outcome.session);
        },
        _ => {},
    }
}

// ---------------------------------------------------------------------------
// The run over all commands
// ---------------------------------------------------------------------------

/// The end of a run that failed.
#[derive(Debug, PartialEq, Eq)]
pub struct ResumeFailure {
    pub code: i32,
    pub output: Output,
}

pub struct FailureView {
    pub code: i32,
    pub output: OutputView,
}

impl ResumeFailure {
    pub open spec fn view(&self) -> FailureView {
        FailureView { code: self.code, output: self.output.view() }
    }
}

/// A session that cannot be restored ends the run.
pub open spec fn restore_failed(format: CliOutputFormat, error: Seq<char>) -> FailureView {
    FailureView {
        code: 1,
        output: output::error_shown(format, "failed to restore session: "@ + error, None),
    }
}

pub fn restore_failure(format: CliOutputFormat, error: &str) -> (r: ResumeFailure)
    ensures
        r.view() == restore_failed(format, error@),
{
    let mut message = "failed to restore session: ".to_string();
    message.append(error);
    ResumeFailure { code: 1, output: output::error_output(format, message.as_str(), None) }
}

/// A command that fails ends the run.
pub open spec fn command_failed(
    format: CliOutputFormat,
    raw: Seq<char>,
    error: Seq<char>,
) -> FailureView {
    FailureView { code: 2, output: output::error_shown(format, error, Some(raw)) }
}

fn command_failure(format: CliOutputFormat, raw: &str, error: &str) -> (r: ResumeFailure)
    ensures
        r.view() == command_failed(format, raw@, error@),
{
    ResumeFailure { code: 2, output: output::error_output(format, error, Some(raw)) }
}

pub open spec fn restored_shown(
    format: CliOutputFormat,
    session_id: Seq<char>,
    path: Seq<char>,
    messages: usize,
) -> OutputView {
    match format {
        CliOutputFormat::Json => OutputView::Compact(
            JsonView::Object(
                seq![
                    ("kind"@, JsonView::Text("restored"@)),
                    ("session_id"@, JsonView::Text(session_id)),
                    ("path"@, JsonView::Text(path)),
                    ("message_count"@, json::number_json(messages as u64)),
                ],
            ),
        ),
        CliOutputFormat::Text => OutputView::Text(
            "Restored session from "@ + path + " ("@ + text::decimal(messages as nat)
                + " messages)."@,
        ),
    }
}

/// What is written of a session that was restored with no command to run.
pub fn restored_output(
    format: CliOutputFormat,
    session_id: &str,
    path: &str,
    message_count: usize,
) -> (r: Output)
    ensures
        r.view() == restored_shown(format, session_id@, path@, message_count),
{
    match format {
        CliOutputFormat::Json => {
            let mut object = JsonObject::new();
            object.put("kind", Json::of_str("restored"));
            object.put("session_id", Json::of_str(session_id));
            object.put("path", Json::of_str(path));
            object.put("message_count", Json::of_u64(message_count as u64));
            assert(object.view() =~= restored_shown(
                format,
                session_id@,
                path@,
                message_count,
            )->Compact_0->Object_0);
            Output::Compact(object.done())
        },
        CliOutputFormat::Text => {
            let mut out = "Restored session from ".to_string();
            out.append(path);
            out.append(" (");
            out.append(text::decimal_usize(message_count).as_str());
            out.append(" messages).");
            Output::Text(out)
        },
    }
}

/// What is next in a run.
#[derive(Debug, PartialEq, Eq)]
pub enum ResumeStep {
    /// A command has to be parsed.
    Parse(String),
    Fail(ResumeFailure),
    Finished,
}

/// The name of the command that a line starts with.
pub open spec fn root_of(raw: Seq<char>) -> Seq<char> {
    text::first_word(text::without_leading(raw, '/'))
}

/// Why a command that is only registered fails.
pub open spec fn stub_error(root: Seq<char>) -> Seq<char> {
    "/"@ + root + " is not yet implemented in this build"@
}

/// What is next in a run that has come to the command at position `at`: a
/// command that is only registered fails before it is parsed.
pub open spec fn next_step(
    format: CliOutputFormat,
    commands: Seq<Seq<char>>,
    at: int,
    stubs: Seq<Seq<char>>,
    step: ResumeStep,
) -> bool {
    if at >= commands.len() {
        step == ResumeStep::Finished
    } else if stubs.contains(root_of(commands[at])) {
        step matches ResumeStep::Fail(failure) && failure.view() == command_failed(
            format,
            commands[at],
            stub_error(root_of(commands[at])),
        )
    } else {
        step matches ResumeStep::Parse(raw) && raw@ == commands[at]
    }
}

pub fn next_resume_step(
    format: CliOutputFormat,
    commands: &Vec<String>,
    at: usize,
    stubs: &Vec<String>,
) -> (r: ResumeStep)
    ensures
        next_step(format, text::texts(commands@), at as int, text::texts(stubs@), r),
{
    if at >= commands.len() {
        return ResumeStep::Finished;
    }
    let raw = commands[at].as_str();
    assert(text::texts(commands@)[at as int] == raw@);
    let root = slash::command_root(raw);
    if text::lists(stubs, root) {
        let mut error = "/".to_string();
        error.append(root);
        error.append(" is not yet implemented in this build");
        return ResumeStep::Fail(command_failure(format, raw, error.as_str()));
    }
    ResumeStep::Parse(raw.to_string())
}

/// The command that a line was parsed to, or the failure of the run.
pub open spec fn parse_step(
    format: CliOutputFormat,
    raw: Seq<char>,
    parsed: Result<Option<SlashCommand>, Seq<char>>,
) -> Result<SlashCommand, FailureView> {
    match parsed {
        Ok(Some(command)) => Ok(command),
        Ok(None) => Err(command_failed(format, raw, "unsupported resumed command: "@ + raw)),
        Err(error) => Err(command_failed(format, raw, error)),
    }
}

pub open spec fn parsed_view(parsed: Result<Option<SlashCommand>, String>) -> Result<
    Option<SlashCommand>,
    Seq<char>,
> {
    match parsed {
        Ok(command) => Ok(command),
        Err(error) => Err(error@),
    }
}

/// The command that a line was parsed to, or the failure of the run.
pub fn after_resume_parse(
    format: CliOutputFormat,
    raw: &str,
    parsed: Result<Option<SlashCommand>, String>,
) -> (r: Result<SlashCommand, ResumeFailure>)
    ensures
        match parse_step(format, raw@, parsed_view(parsed)) {
            Ok(command) => r == Ok::<SlashCommand, ResumeFailure>(command),
            Err(failed) => r matches Err(failure) && failure.view() == failed,
        },
{
    match parsed {
        Ok(Some(command)) => Ok(command),
        Ok(None) => {
            let mut error = "unsupported resumed command: ".to_string();
            error.append(raw);
            Err(command_failure(format, raw, error.as_str()))
        },
        Err(error) => Err(command_failure(format, raw, error.as_str())),
    }
}

/// What is written of an outcome: its document where JSON is asked for and
/// there is one, else its message.
pub open spec fn outcome_shown(format: CliOutputFormat, outcome: OutcomeView) -> Option<OutputView> {
    match (format, outcome.json, outcome.message) {
        (CliOutputFormat::Json, Some(json), _) => Some(OutputView::Indented(json)),
        (_, _, Some(message)) => Some(OutputView::Text(message)),
        (_, _, None) => None,
    }
}

/// What is left of a command: the session to go on with and what is written, or
/// the failure of the run.
pub open spec fn command_step(
    format: CliOutputFormat,
    raw: Seq<char>,
    result: Result<OutcomeView, Seq<char>>,
) -> Result<(NextSession, Option<OutputView>), FailureView> {
    match result {
        Ok(outcome) => Ok((outcome.session, outcome_shown(format, outcome))),
        Err(error) => Err(command_failed(format, raw, error)),
    }
}

pub open spec fn ran_view(result: Result<ResumeCommandOutcome, String>) -> Result<
    OutcomeView,
    Seq<char>,
> {
    match result {
        Ok(outcome) => Ok(outcome.view()),
        Err(error) => Err(error@),
    }
}

/// What is left of a command: the session to go on with and what is written, or
/// the failure of the run.
pub fn after_resume_command(
    format: CliOutputFormat,
    raw: &str,
    result: Result<ResumeCommandOutcome, String>,
) -> (r: Result<(NextSession, Option<Output>), ResumeFailure>)
    ensures
        match command_step(format, raw@, ran_view(result)) {
            Ok((session, shown)) => r matches Ok(left) && left.0 == session && output::opt_output(
                left.1,
            ) == shown,
            Err(failed) => r matches Err(failure) && failure.view() == failed,
        },
{
    match result {
        Ok(outcome) => {
            let session = outcome.session;
            match format {
                CliOutputFormat::Json => match outcome.json {
                    Some(json) => {
                        return Ok((session, Some(Output::Indented(json))));
                    },
                    None => {},
                },
                CliOutputFormat::Text => {},
            }
            match outcome.message {
                Some(message) => Ok((session, Some(Output::Text(message)))),
                None => Ok((session, None)),
            }
        },
        Err(error) => Err(command_failure(format, raw, error.as_str())),
    }
}

// ---------------------------------------------------------------------------
// The whole run
// ---------------------------------------------------------------------------

/// What a run takes from its surroundings: what a line is parsed to, and what a
/// command comes to on a session. The latter gives the session that stands in
/// place of the old one where there is one.
#[verifier::reject_recursive_types(S)]
pub struct ResumeHost<S> {
    pub parse: spec_fn(Seq<char>) -> Result<Option<SlashCommand>, Seq<char>>,
    pub run: spec_fn(S, SlashCommand) -> (Result<OutcomeView, Seq<char>>, S),
}

/// What a run comes to: the session that is left, what was written, and why the
/// run failed where it did.
pub struct RunView<S> {
    pub session: S,
    pub written: Seq<OutputView>,
    pub failure: Option<FailureView>,
}

/// What one command, parsed, makes of a session, and what it writes.
pub open spec fn parsed_run<S>(
    format: CliOutputFormat,
    host: ResumeHost<S>,
    raw: Seq<char>,
    session: S,
) -> Result<(S, Option<OutputView>), FailureView> {
    match parse_step(format, raw, (host.parse)(raw)) {
        Err(failure) => Err(failure),
        Ok(command) => {
            let (result, other) = (host.run)(session, command);
            match command_step(format, raw, result) {
                Err(failure) => Err(failure),
                Ok((NextSession::Kept, shown)) => Ok((session, shown)),
                Ok((_, shown)) => Ok((other, shown)),
            }
        },
    }
}

/// What one command makes of a session, and what it writes.
pub open spec fn command_run<S>(
    format: CliOutputFormat,
    stubs: Seq<Seq<char>>,
    host: ResumeHost<S>,
    raw: Seq<char>,
    session: S,
) -> Result<(S, Option<OutputView>), FailureView> {
    if stubs.contains(root_of(raw)) {
        Err(command_failed(format, raw, stub_error(root_of(raw))))
    } else {
        parsed_run(format, host, raw, session)
    }
}

/// A run over commands.
pub open spec fn run_over<S>(
    format: CliOutputFormat,
    stubs: Seq<Seq<char>>,
    host: ResumeHost<S>,
    commands: Seq<Seq<char>>,
    session: S,
) -> RunView<S>
    decreases commands.len(),
{
    if commands.len() == 0 {
        RunView { session, written: Seq::empty(), failure: None }
    } else {
        match command_run(format, stubs, host, commands[0], session) {
            Err(failure) => RunView { session, written: Seq::empty(), failure: Some(failure) },
            Ok((next, shown)) => {
                let rest = run_over(format, stubs, host, commands.skip(1), next);
                RunView {
                    written: (match shown {
                        Some(output) => seq![output],
                        None => Seq::empty(),
                    }) + rest.written,
                    ..rest
                }
            },
        }
    }
}

/// Commands run in order, each on the session that the one before left. Once one
/// fails, the run is over, whatever commands are left.
pub proof fn law_commands_run_in_order<S>(
    format: CliOutputFormat,
    stubs: Seq<Seq<char>>,
    host: ResumeHost<S>,
    first: Seq<Seq<char>>,
    more: Seq<Seq<char>>,
    session: S,
)
    ensures
        ({
            let begun = run_over(format, stubs, host, first, session);
            let all = run_over(format, stubs, host, first + more, session);
            if begun.failure is Some {
                all == begun
            } else {
                let rest = run_over(format, stubs, host, more, begun.session);
                all == (RunView { written: begun.written + rest.written, ..rest })
            }
        }),
    decreases first.len(),
{
    let begun = run_over(format, stubs, host, first, session);
    if first.len() == 0 {
        assert(first + more =~= more);
        let rest = run_over(format, stubs, host, more, begun.session);
        assert(begun.written + rest.written =~= rest.written);
    } else {
        assert((first + more).skip(1) =~= first.skip(1) + more);
        match command_run(format, stubs, host, first[0], session) {
            Err(_) => {},
            Ok((next, shown)) => {
                law_commands_run_in_order(format, stubs, host, first.skip(1), more, next);
                let head = match shown {
                    Some(output) => seq![output],
                    None => Seq::empty(),
                };
                let middle = run_over(format, stubs, host, first.skip(1), next);
                let rest = run_over(format, stubs, host, more, middle.session);
                assert(head + (middle.written + rest.written) =~= head + middle.written
                    + rest.written);
            },
        }
    }
}

/// The steps of a run are those that its commands take: a command is parsed
/// where it is no stub, and fails the run where it is.
pub proof fn law_steps_follow_the_run<S>(
    format: CliOutputFormat,
    commands: Seq<Seq<char>>,
    at: int,
    stubs: Seq<Seq<char>>,
    step: ResumeStep,
    host: ResumeHost<S>,
    session: S,
)
    requires
        0 <= at <= commands.len(),
        next_step(format, commands, at, stubs, step),
    ensures
        ({
            let run = run_over(format, stubs, host, commands.skip(at), session);
            match step {
                ResumeStep::Finished => run == (RunView {
                    session,
                    written: Seq::<OutputView>::empty(),
                    failure: None,
                }),
                ResumeStep::Fail(failure) => run == (RunView {
                    session,
                    written: Seq::<OutputView>::empty(),
                    failure: Some(failure.view()),
                }),
                ResumeStep::Parse(raw) => raw@ == commands[at] && command_run(
                    format,
                    stubs,
                    host,
                    raw@,
                    session,
                ) == parsed_run(format, host, raw@, session),
            }
        }),
{
}

} // verus!
