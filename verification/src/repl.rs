//! The interactive loop: what is done with a line, and with a slash command.

use vstd::prelude::*;

use crate::history::{self, EntryView, PromptHistoryEntry};
use crate::live::{self, SessionStep};
use crate::messages::{self, ConversationMessage, MessageView};
use crate::reports;
use crate::slash::{self, SlashCommand, UnknownCommandGuidance};
use crate::text;

verus! {

// ---------------------------------------------------------------------------
// Lines
// ---------------------------------------------------------------------------

/// Whether `char::is_alphanumeric` holds of a character: whether Unicode counts
/// it as a letter or as a number.
pub uninterp spec fn unicode_alphanumeric(c: char) -> bool;

/// Calls `char::is_alphanumeric`, which depends on the character alone.
#[verifier::external_body]
fn is_unicode_alphanumeric(c: char) -> (r: bool)
    ensures
        r == unicode_alphanumeric(c),
{
    c.is_alphanumeric()
}

/// Whether a word can be the name of a skill.
pub open spec fn is_skill_word(word: Seq<char>) -> bool {
    &&& word.len() > 0
    &&& word[0] != '/'
    &&& forall|i: int|
        0 <= i < word.len() ==> unicode_alphanumeric(#[trigger] word[i]) || word[i] == '-'
            || word[i] == '_'
}

/// Whether a line can start with the name of a skill.
pub fn looks_like_skill_name(line: &str) -> (r: bool)
    ensures
        r == is_skill_word(text::first_word(line@)),
{
    let word = text::first_word_of(line);
    let n: usize = word.unicode_len();
    if n == 0 || word.get_char(0) == '/' {
        return false;
    }
    let mut i: usize = 0;
    while i < n
        invariant
            i <= n == word@.len(),
            word@ == text::first_word(line@),
            forall|j: int|
                0 <= j < i ==> unicode_alphanumeric(#[trigger] word@[j]) || word@[j] == '-'
                    || word@[j] == '_',
        decreases n - i,
    {
        let c = word.get_char(i);
        if !(is_unicode_alphanumeric(c) || c == '-' || c == '_') {
            return false;
        }
        i += 1;
    }
    true
}

/// What happened in the loop. `line` is a line as it was typed, `trimmed` the
/// same line without the white space around it.
#[derive(Debug, PartialEq, Eq)]
pub enum ReplEvent {
    /// The user gave a line.
    Submit { line: String },
    /// The user gave up a line.
    Cancel,
    /// The user ended the input.
    Exit,
    /// The line was parsed as a slash command.
    Parsed { line: String, trimmed: String, command: Result<Option<SlashCommand>, String> },
    /// A slash command ran; `done` says whether its step was carried out (see
    /// `command_changed`).
    CommandRan { action: CommandAction, done: bool },
    /// A skill was looked for: the prompt of the skill, where there is one.
    SkillResolved { line: String, trimmed: String, prompt: Option<String> },
}

/// What the loop does next.
#[derive(Debug, PartialEq, Eq)]
pub enum ReplAction {
    ReadLine,
    /// Saves the session and ends the loop.
    PersistAndStop,
    /// Parses the line as a slash command.
    Parse { line: String, trimmed: String },
    RunCommand(SlashCommand),
    /// Saves the session and reads the next line.
    Persist,
    ShowError(String),
    /// Looks for a skill that the line calls.
    ResolveSkill { line: String, trimmed: String },
    /// Keeps the line in the history of the editor, records `recorded` as a
    /// prompt, and runs a turn with `prompt`.
    RunTurn { line: String, recorded: String, prompt: String },
}

/// What the loop does after an event.
pub open spec fn follows(event: ReplEvent, action: ReplAction) -> bool {
    match event {
        ReplEvent::Submit { line } => {
            let word = text::trimmed(line@);
            if text::is_blank(line@) {
                action == ReplAction::ReadLine
            } else if word == "/exit"@ || word == "/quit"@ {
                action == ReplAction::PersistAndStop
            } else {
                action matches ReplAction::Parse { line: kept, trimmed } && kept == line && trimmed@
                    == word
            }
        },
        ReplEvent::Cancel => action == ReplAction::ReadLine,
        ReplEvent::Exit => action == ReplAction::PersistAndStop,
        ReplEvent::Parsed { line, trimmed, command } => match command {
            Ok(Some(command)) => action == ReplAction::RunCommand(command),
            Err(error) => action == ReplAction::ShowError(error),
            Ok(None) => if is_skill_word(text::first_word(trimmed@)) {
                action == (ReplAction::ResolveSkill { line, trimmed })
            } else {
                action matches ReplAction::RunTurn { line: kept, recorded, prompt } && kept == line
                    && recorded@ == trimmed@ && prompt@ == trimmed@
            },
        },
        ReplEvent::CommandRan { action: ran, done } => if changes_session(ran, done) {
            action == ReplAction::Persist
        } else {
            action == ReplAction::ReadLine
        },
        ReplEvent::SkillResolved { line, trimmed, prompt } => {
            action matches ReplAction::RunTurn { line: kept, recorded, prompt: run } && kept == line
                && recorded@ == trimmed@ && run@ == (match prompt {
                Some(prompt) => prompt@,
                None => trimmed@,
            })
        },
    }
}

/// What the loop does next.
pub fn repl_next(event: ReplEvent) -> (r: ReplAction)
    ensures
        follows(event, r),
{
    match event {
        ReplEvent::Submit { line } => {
            proof {
                text::lemma_trimmed_empty_iff_blank(line@);
            }
            let trimmed = text::trim(line.as_str()).to_string();
            if trimmed.as_str().is_empty() {
                return ReplAction::ReadLine;
            }
            if text::str_eq(trimmed.as_str(), "/exit") || text::str_eq(trimmed.as_str(), "/quit") {
                return ReplAction::PersistAndStop;
            }
            ReplAction::Parse { line, trimmed }
        },
        ReplEvent::Cancel => ReplAction::ReadLine,
        ReplEvent::Exit => ReplAction::PersistAndStop,
        ReplEvent::Parsed { line, trimmed, command } => match command {
            Ok(Some(command)) => ReplAction::RunCommand(command),
            Err(error) => ReplAction::ShowError(error),
            Ok(None) => {
                if looks_like_skill_name(trimmed.as_str()) {
                    return ReplAction::ResolveSkill { line, trimmed };
                }
                let prompt = trimmed.clone();
                ReplAction::RunTurn { line, recorded: trimmed, prompt }
            },
        },
        ReplEvent::CommandRan { action, done } => if command_changed(&action, done) {
            ReplAction::Persist
        } else {
            ReplAction::ReadLine
        },
        ReplEvent::SkillResolved { line, trimmed, prompt } => {
            let prompt = match prompt {
                Some(prompt) => prompt,
                None => trimmed.clone(),
            };
            ReplAction::RunTurn { line, recorded: trimmed, prompt }
        },
    }
}

/// The loop ends only where the user ends the input or asks for it, and the
/// session is saved then.
pub proof fn law_loop_ends_only_on_request(event: ReplEvent, action: ReplAction)
    requires
        follows(event, action),
    ensures
        action == ReplAction::PersistAndStop <==> (event is Exit || (event matches ReplEvent::Submit {
            line,
        } && (text::trimmed(line@) == "/exit"@ || text::trimmed(line@) == "/quit"@))),
{
    match event {
        ReplEvent::Submit { line } => {
            text::lemma_trimmed_empty_iff_blank(line@);
            reveal_strlit("/exit");
            reveal_strlit("/quit");
        },
        _ => {},
    }
}

// ---------------------------------------------------------------------------
// Commands
// ---------------------------------------------------------------------------

/// What is done for a slash command.
#[derive(Debug, PartialEq, Eq)]
pub enum CommandAction {
    /// Writes a text.
    Say(String),
    /// Writes a text for errors.
    Warn(String),
    ShowHelp,
    ShowStatus,
    ShowSandbox,
    ShowCost,
    ShowMemory,
    ShowDiff,
    ShowVersion,
    ShowDoctor,
    ShowLastToolCall,
    Init,
    Commit,
    PullRequest { context: Option<String> },
    Teleport { place: String },
    Compact { mode: Option<String> },
    SetModel { model: Option<String> },
    SetPermissions { mode: Option<String> },
    ClearSession { confirm: bool },
    ResumeSession { session_path: Option<String> },
    ShowConfig { section: Option<String> },
    ShowMcp { args: Option<String> },
    Export { path: Option<String> },
    Session { action: Option<String>, target: Option<String> },
    Plugins { action: Option<String>, target: Option<String> },
    ShowAgents { args: Option<String> },
    ShowSkills { args: Option<String> },
    /// Runs a turn with the prompt of a skill.
    RunTurn { prompt: String },
    /// Runs a turn with the prompt of the command `name`.
    RunPromptCommand { name: &'static str, args: Option<String> },
    ShowHistory { count: Option<String> },
    SetEffort { level: String, notice: String },
}

/// Whether a text says something, and not only white space.
pub open spec fn says_something(o: Option<Seq<char>>) -> bool {
    match o {
        Some(s) => !text::is_blank(s),
        None => false,
    }
}

/// What is done for a slash command. `skill_prompt` is the prompt of the skill
/// that the arguments of `/skills` call, where they do; `guidance` is what is
/// known of an unknown command.
pub open spec fn carries_out(
    command: SlashCommand,
    skill_prompt: Option<Seq<char>>,
    guidance: UnknownCommandGuidance,
    action: CommandAction,
) -> bool {
    match command {
        SlashCommand::Help => action == CommandAction::ShowHelp,
        SlashCommand::Status => action == CommandAction::ShowStatus,
        SlashCommand::Sandbox => action == CommandAction::ShowSandbox,
        SlashCommand::Cost | SlashCommand::Stats => action == CommandAction::ShowCost,
        SlashCommand::Memory => action == CommandAction::ShowMemory,
        SlashCommand::Init => action == CommandAction::Init,
        SlashCommand::Diff => action == CommandAction::ShowDiff,
        SlashCommand::Version => action == CommandAction::ShowVersion,
        SlashCommand::Doctor => action == CommandAction::ShowDoctor,
        SlashCommand::Commit => action == CommandAction::Commit,
        SlashCommand::DebugToolCall => action == CommandAction::ShowLastToolCall,
        SlashCommand::Compact { mode } => action == (CommandAction::Compact { mode }),
        SlashCommand::Model { model } => action == (CommandAction::SetModel { model }),
        SlashCommand::Permissions { mode } => action == (CommandAction::SetPermissions { mode }),
        SlashCommand::Clear { confirm } => action == (CommandAction::ClearSession { confirm }),
        SlashCommand::Resume { session_path } => action == (CommandAction::ResumeSession {
            session_path,
        }),
        SlashCommand::Config { section } => action == (CommandAction::ShowConfig { section }),
        SlashCommand::Mcp { action: subcommand, target } => action matches CommandAction::ShowMcp {
            args,
        } && text::opt_text(args) == slash::mcp_arguments(
            text::opt_text(subcommand),
            text::opt_text(target),
        ),
        SlashCommand::Export { path } => action == (CommandAction::Export { path }),
        SlashCommand::Session { action: subcommand, target } => action == (CommandAction::Session {
            action: subcommand,
            target,
        }),
        SlashCommand::Plugins { action: subcommand, target } => action == (CommandAction::Plugins {
            action: subcommand,
            target,
        }),
        SlashCommand::Agents { args } => action == (CommandAction::ShowAgents { args }),
        SlashCommand::Skills { args } => match skill_prompt {
            Some(called) => action matches CommandAction::RunTurn { prompt } && prompt@ == called,
            None => action == (CommandAction::ShowSkills { args }),
        },
        SlashCommand::Simplify { args } => action matches CommandAction::RunPromptCommand {
            name,
            args: passed,
        } && name@ == "simplify"@ && passed == args,
        SlashCommand::History { count } => action == (CommandAction::ShowHistory { count }),
        SlashCommand::Effort { level } => match text::opt_text(level) {
            Some(asked) => if asked == "low"@ || asked == "medium"@ || asked == "high"@ {
                action matches CommandAction::SetEffort { level: set, notice } && set@ == asked
                    && notice@ == "Reasoning effort set to: "@ + asked
            } else {
                action matches CommandAction::Say(said) && said@ == "Invalid effort level '"@
                    + asked + "'. Must be: low, medium, or high"@
            },
            None => action matches CommandAction::Say(said) && said@
                == "Usage: /effort <low|medium|high>"@,
        },
        SlashCommand::Bughunter { scope } => action matches CommandAction::Say(said) && said@
            == reports::bughunter_report(text::opt_text(scope)),
        SlashCommand::Pr { context } => action == (CommandAction::PullRequest { context }),
        SlashCommand::Issue { context } => action matches CommandAction::Say(said) && said@
            == reports::issue_report(text::opt_text(context)),
        SlashCommand::Ultraplan { task } => action matches CommandAction::Say(said) && said@
            == reports::ultraplan_report(text::opt_text(task)),
        SlashCommand::Teleport { target } => if says_something(text::opt_text(target)) {
            action matches CommandAction::Teleport { place: to } && Some(to@) == (match target {
                Some(target) => Some(text::trimmed(target@)),
                None => None,
            })
        } else {
            action matches CommandAction::Say(said) && said@
                == "Usage: /teleport <symbol-or-path>"@
        },
        SlashCommand::Unimplemented { slash_name } => action matches CommandAction::Warn(said)
            && said@ == slash_name@ + " is not yet implemented in this build."@,
        SlashCommand::Unknown(name) => action matches CommandAction::Warn(said) && said@
            == reports::unknown_command_report(name@, guidance.suggested(), guidance.noted()),
    }
}

/// Whether a command changed the session that is in use, or how it runs.
pub open spec fn changes_session(action: CommandAction, done: bool) -> bool {
    done && (action is SetModel || action is SetPermissions || action is ClearSession
        || action is ResumeSession || action is Session)
}

/// Whether a command changed the session; `done` says whether its step was
/// carried out:
/// - of `/model` and `/permissions`, whether the step `changes` what is in use;
/// - of `/clear`, whether it was not refused (see `live::clear_refusal`);
/// - of `/resume`, whether a session was named (see `live::resume_reference`);
/// - of `/session`, whether the step goes on with another session (see
///   `live::session_step_changes`).
pub fn command_changed(action: &CommandAction, done: bool) -> (r: bool)
    ensures
        r == (done && (action is SetModel || action is SetPermissions || action is ClearSession
            || action is ResumeSession || action is Session)),
        r == changes_session(*action, done),
{
    match action {
        CommandAction::SetModel { .. } => done,
        CommandAction::SetPermissions { .. } => done,
        CommandAction::ClearSession { .. } => done,
        CommandAction::ResumeSession { .. } => done,
        CommandAction::Session { .. } => done,
        _ => false,
    }
}

/// Only `/model`, `/permissions`, `/clear`, `/resume` and `/session` change the
/// session, and the session is saved after a command exactly where one of them
/// did; after every other command the next line is read.
pub proof fn law_only_changing_commands_save(
    command: SlashCommand,
    skill_prompt: Option<Seq<char>>,
    guidance: UnknownCommandGuidance,
    action: CommandAction,
    done: bool,
    next: ReplAction,
)
    requires
        carries_out(command, skill_prompt, guidance, action),
        follows(ReplEvent::CommandRan { action, done }, next),
    ensures
        changes_session(action, done) <==> done && (command is Model || command is Permissions
            || command is Clear || command is Resume || command is Session),
        next == ReplAction::Persist <==> changes_session(action, done),
        !changes_session(action, done) ==> next == ReplAction::ReadLine,
{
}

/// After `/session` the session is saved exactly where it was `switch` with a
/// target or `fork`.
pub proof fn law_session_command_saves_exactly(
    word: Option<String>,
    target: Option<String>,
    skill_prompt: Option<Seq<char>>,
    guidance: UnknownCommandGuidance,
    action: CommandAction,
    step: SessionStep,
    next: ReplAction,
)
    requires
        carries_out(SlashCommand::Session { action: word, target }, skill_prompt, guidance, action),
        live::session_step(text::opt_text(word), text::opt_text(target), step),
        follows(ReplEvent::CommandRan { action, done: live::step_changes(step) }, next),
    ensures
        next == ReplAction::Persist <==> live::words_change_session(
            text::opt_text(word),
            text::opt_text(target),
        ),
        next == ReplAction::Persist || next == ReplAction::ReadLine,
{
    live::law_session_steps_change_exactly(text::opt_text(word), text::opt_text(target), step);
}

fn set_effort(level: Option<String>) -> (r: CommandAction)
    ensures
        forall|p: Option<Seq<char>>, s: UnknownCommandGuidance| #[trigger]
            carries_out(SlashCommand::Effort { level }, p, s, r),
{
    match level {
        Some(level) => {
            if text::str_eq(level.as_str(), "low") || text::str_eq(level.as_str(), "medium")
                || text::str_eq(level.as_str(), "high") {
                let mut notice = "Reasoning effort set to: ".to_string();
                notice.append(level.as_str());
                return CommandAction::SetEffort { level, notice };
            }
            let mut message = "Invalid effort level '".to_string();
            message.append(level.as_str());
            message.append("'. Must be: low, medium, or high");
            CommandAction::Say(message)
        },
        None => CommandAction::Say("Usage: /effort <low|medium|high>".to_string()),
    }
}

fn teleport(target: Option<String>) -> (r: CommandAction)
    ensures
        forall|p: Option<Seq<char>>, s: UnknownCommandGuidance| #[trigger]
            carries_out(SlashCommand::Teleport { target }, p, s, r),
{
    match target {
        Some(target) => {
            proof {
                text::lemma_trimmed_empty_iff_blank(target@);
            }
            let trimmed = text::trim(target.as_str());
            if !trimmed.is_empty() {
                return CommandAction::Teleport { place: trimmed.to_string() };
            }
        },
        None => {},
    }
    CommandAction::Say("Usage: /teleport <symbol-or-path>".to_string())
}

fn as_deref(o: &Option<String>) -> (r: Option<&str>)
    ensures
        text::opt_str(r) == text::opt_text(*o),
{
    match o {
        Some(s) => Some(s.as_str()),
        None => None,
    }
}

/// What is done for a slash command.
pub fn handle_repl_command(
    command: SlashCommand,
    skill_prompt: Option<String>,
    guidance: &UnknownCommandGuidance,
) -> (r: CommandAction)
    ensures
        carries_out(command, text::opt_text(skill_prompt), *guidance, r),
{
    match command {
        SlashCommand::Help => CommandAction::ShowHelp,
        SlashCommand::Status => CommandAction::ShowStatus,
        SlashCommand::Sandbox => CommandAction::ShowSandbox,
        SlashCommand::Cost => CommandAction::ShowCost,
        SlashCommand::Stats => CommandAction::ShowCost,
        SlashCommand::Memory => CommandAction::ShowMemory,
        SlashCommand::Init => CommandAction::Init,
        SlashCommand::Diff => CommandAction::ShowDiff,
        SlashCommand::Version => CommandAction::ShowVersion,
        SlashCommand::Doctor => CommandAction::ShowDoctor,
        SlashCommand::Commit => CommandAction::Commit,
        SlashCommand::DebugToolCall => CommandAction::ShowLastToolCall,
        SlashCommand::Compact { mode } => CommandAction::Compact { mode },
        SlashCommand::Model { model } => CommandAction::SetModel { model },
        SlashCommand::Permissions { mode } => CommandAction::SetPermissions { mode },
        SlashCommand::Clear { confirm } => CommandAction::ClearSession { confirm },
        SlashCommand::Resume { session_path } => CommandAction::ResumeSession { session_path },
        SlashCommand::Config { section } => CommandAction::ShowConfig { section },
        SlashCommand::Mcp { action, target } => CommandAction::ShowMcp {
            args: slash::join_mcp_arguments(action, target),
        },
        SlashCommand::Export { path } => CommandAction::Export { path },
        SlashCommand::Session { action, target } => CommandAction::Session { action, target },
        SlashCommand::Plugins { action, target } => CommandAction::Plugins { action, target },
        SlashCommand::Agents { args } => CommandAction::ShowAgents { args },
        SlashCommand::Skills { args } => match skill_prompt {
            Some(prompt) => CommandAction::RunTurn { prompt },
            None => CommandAction::ShowSkills { args },
        },
        SlashCommand::Simplify { args } => CommandAction::RunPromptCommand {
            name: "simplify",
            args,
        },
        SlashCommand::History { count } => CommandAction::ShowHistory { count },
        SlashCommand::Effort { level } => set_effort(level),
        SlashCommand::Bughunter { scope } => CommandAction::Say(
            reports::format_bughunter_report(as_deref(&scope)),
        ),
        SlashCommand::Pr { context } => CommandAction::PullRequest { context },
        SlashCommand::Issue { context } => CommandAction::Say(
            reports::format_issue_report(as_deref(&context)),
        ),
        SlashCommand::Ultraplan { task } => CommandAction::Say(
            reports::format_ultraplan_report(as_deref(&task)),
        ),
        SlashCommand::Teleport { target } => teleport(target),
        SlashCommand::Unimplemented { slash_name } => {
            let mut message = slash_name;
            message.append(" is not yet implemented in this build.");
            CommandAction::Warn(message)
        },
        SlashCommand::Unknown(name) => CommandAction::Warn(
            reports::format_unknown_slash_command(
                name.as_str(),
                &guidance.suggestions,
                guidance.note(),
            ),
        ),
    }
}

/// What `/history` writes: a report, or what is wrong with the count.
pub open spec fn history_told(
    count: Option<Seq<char>>,
    recorded: Seq<EntryView>,
    live: Seq<EntryView>,
    messages: Seq<MessageView>,
    updated_at_ms: u64,
) -> Result<Seq<char>, Seq<char>> {
    match history::history_count(count) {
        Ok(limit) => Ok(
            history::history_report(
                history::shown_prompts(recorded, live, messages, updated_at_ms),
                limit,
            ),
        ),
        Err(message) => Err(message),
    }
}

pub fn print_prompt_history(
    count: Option<&str>,
    recorded: &Vec<PromptHistoryEntry>,
    live: &Vec<PromptHistoryEntry>,
    messages: &Vec<ConversationMessage>,
    updated_at_ms: u64,
) -> (r: Result<String, String>)
    ensures
        text::result_text(r) == history_told(
            text::opt_str(count),
            history::entry_views(recorded@),
            history::entry_views(live@),
            messages::message_views(messages@),
            updated_at_ms,
        ),
{
    match history::parse_history_count(count) {
        Ok(limit) => {
            let entries = history::choose_prompt_history(recorded, live, messages, updated_at_ms);
            Ok(history::render_prompt_history_report(&entries, limit))
        },
        Err(message) => Err(message),
    }
}

// ---------------------------------------------------------------------------
// The banner
// ---------------------------------------------------------------------------

/// What the banner tells of.
pub struct BannerFacts<'a> {
    pub model: &'a str,
    pub permissions: &'a str,
    pub branch: Option<&'a str>,
    pub workspace: Option<&'a str>,
    pub directory: Option<&'a str>,
    pub session_id: &'a str,
    pub session_path: &'a str,
    /// The path of the session below the directory, where it lies below it.
    pub session_path_below: Option<&'a str>,
}

pub open spec fn banner_text(facts: BannerFacts<'_>) -> Seq<char> {
    "\x1b[38;5;196m ██████╗██╗      █████╗ ██╗    ██╗\n██╔════╝██║     ██╔══██╗██║    ██║\n██║     ██║     ███████║██║ █╗ ██║\n██║     ██║     ██╔══██║██║███╗██║\n╚██████╗███████╗██║  ██║╚███╔███╔╝\n ╚═════╝╚══════╝╚═╝  ╚═╝ ╚══╝╚══╝\x1b[0m \x1b[38;5;208mCode\x1b[0m 🦞\n\n  \x1b[2mModel\x1b[0m            "@
        + facts.model@ + "\n  \x1b[2mPermissions\x1b[0m      "@ + facts.permissions@
        + "\n  \x1b[2mBranch\x1b[0m           "@ + reports::or_default(
        text::opt_str(facts.branch),
        "unknown"@,
    ) + "\n  \x1b[2mWorkspace\x1b[0m        "@ + reports::or_default(
        text::opt_str(facts.workspace),
        "unknown"@,
    ) + "\n  \x1b[2mDirectory\x1b[0m        "@ + reports::or_default(
        text::opt_str(facts.directory),
        "<unknown>"@,
    ) + "\n  \x1b[2mSession\x1b[0m          "@ + facts.session_id@
        + "\n  \x1b[2mAuto-save\x1b[0m        "@ + reports::or_default(
        text::opt_str(facts.session_path_below),
        facts.session_path@,
    )
        + "\n\n  Type \x1b[1m/help\x1b[0m for commands · \x1b[1m/status\x1b[0m for live context · \x1b[2m/resume latest\x1b[0m jumps back to the newest session · \x1b[1m/diff\x1b[0m then \x1b[1m/commit\x1b[0m to ship · \x1b[2mTab\x1b[0m for workflow completions · \x1b[2mShift+Enter\x1b[0m for newline"@
}

/// The banner that the loop starts with.
pub fn startup_banner(facts: &BannerFacts<'_>) -> (r: String)
    ensures
        r@ == banner_text(*facts),
{
    let mut out =
        "\x1b[38;5;196m ██████╗██╗      █████╗ ██╗    ██╗\n██╔════╝██║     ██╔══██╗██║    ██║\n██║     ██║     ███████║██║ █╗ ██║\n██║     ██║     ██╔══██║██║███╗██║\n╚██████╗███████╗██║  ██║╚███╔███╔╝\n ╚═════╝╚══════╝╚═╝  ╚═╝ ╚══╝╚══╝\x1b[0m \x1b[38;5;208mCode\x1b[0m 🦞\n\n  \x1b[2mModel\x1b[0m            ".to_string();
    out.append(facts.model);
    out.append("\n  \x1b[2mPermissions\x1b[0m      ");
    out.append(facts.permissions);
    out.append("\n  \x1b[2mBranch\x1b[0m           ");
    out.append(reports::str_or(facts.branch, "unknown"));
    out.append("\n  \x1b[2mWorkspace\x1b[0m        ");
    out.append(reports::str_or(facts.workspace, "unknown"));
    out.append("\n  \x1b[2mDirectory\x1b[0m        ");
    out.append(reports::str_or(facts.directory, "<unknown>"));
    out.append("\n  \x1b[2mSession\x1b[0m          ");
    out.append(facts.session_id);
    out.append("\n  \x1b[2mAuto-save\x1b[0m        ");
    out.append(reports::str_or(facts.session_path_below, facts.session_path));
    out.append(
        "\n\n  Type \x1b[1m/help\x1b[0m for commands · \x1b[1m/status\x1b[0m for live context · \x1b[2m/resume latest\x1b[0m jumps back to the newest session · \x1b[1m/diff\x1b[0m then \x1b[1m/commit\x1b[0m to ship · \x1b[2mTab\x1b[0m for workflow completions · \x1b[2mShift+Enter\x1b[0m for newline",
    );
    out
}

} // verus!
