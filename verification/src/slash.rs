//! Slash commands, as they are parsed from a line.

use vstd::prelude::*;

use crate::text;

verus! {

/// A slash command with its arguments.
#[derive(Debug, PartialEq, Eq)]
pub enum SlashCommand {
    Help,
    Status,
    Sandbox,
    Cost,
    Stats,
    Memory,
    Init,
    Diff,
    Version,
    Doctor,
    Commit,
    DebugToolCall,
    Compact { mode: Option<String> },
    Model { model: Option<String> },
    Permissions { mode: Option<String> },
    Clear { confirm: bool },
    Resume { session_path: Option<String> },
    Config { section: Option<String> },
    Mcp { action: Option<String>, target: Option<String> },
    Export { path: Option<String> },
    Session { action: Option<String>, target: Option<String> },
    Plugins { action: Option<String>, target: Option<String> },
    Agents { args: Option<String> },
    Skills { args: Option<String> },
    Simplify { args: Option<String> },
    History { count: Option<String> },
    Effort { level: Option<String> },
    Bughunter { scope: Option<String> },
    Pr { context: Option<String> },
    Issue { context: Option<String> },
    Ultraplan { task: Option<String> },
    Teleport { target: Option<String> },
    /// A command that is known and not carried out, with its name as it is
    /// typed.
    Unimplemented { slash_name: String },
    /// A command that is not known, with its name.
    Unknown(String),
}

/// What is known of a command that is not known: commands with names like its
/// name, and where its name tells what it belongs to, a note on that.
#[derive(Debug, PartialEq, Eq)]
pub struct UnknownCommandGuidance {
    pub suggestions: Vec<String>,
    pub compatibility_note: Option<String>,
}

impl UnknownCommandGuidance {
    pub open spec fn suggested(&self) -> Seq<Seq<char>> {
        text::texts(self.suggestions@)
    }

    pub open spec fn noted(&self) -> Option<Seq<char>> {
        text::opt_text(self.compatibility_note)
    }

    pub fn note(&self) -> (r: Option<&str>)
        ensures
            text::opt_str(r) == self.noted(),
    {
        match &self.compatibility_note {
            Some(note) => Some(note.as_str()),
            None => None,
        }
    }
}

/// The arguments of `/mcp` as one text.
pub open spec fn mcp_arguments(action: Option<Seq<char>>, target: Option<Seq<char>>) -> Option<
    Seq<char>,
> {
    match (action, target) {
        (None, None) => None,
        (Some(action), None) => Some(action),
        (Some(action), Some(target)) => Some(action + " "@ + target),
        (None, Some(target)) => Some(target),
    }
}

pub fn join_mcp_arguments(action: Option<String>, target: Option<String>) -> (r: Option<String>)
    ensures
        text::opt_text(r) == mcp_arguments(text::opt_text(action), text::opt_text(target)),
{
    match (action, target) {
        (None, None) => None,
        (Some(action), None) => Some(action),
        (Some(action), Some(target)) => {
            let mut out = action;
            out.append(" ");
            out.append(target.as_str());
            Some(out)
        },
        (None, Some(target)) => Some(target),
    }
}

/// Whether `mcp` is asked to serve.
pub open spec fn asks_to_serve(args: Option<Seq<char>>) -> bool {
    match args {
        Some(args) => text::trimmed(args) == "serve"@,
        None => false,
    }
}

/// Whether `mcp` is asked to serve the tools of this program, and not to tell
/// of the servers that are configured.
pub fn serves_mcp(args: Option<&str>) -> (r: bool)
    ensures
        r == asks_to_serve(text::opt_str(args)),
{
    match args {
        Some(args) => text::str_eq(text::trim(args), "serve"),
        None => false,
    }
}

/// The name of the command that a line starts with.
pub open spec fn root_of(raw: Seq<char>) -> Seq<char> {
    text::first_word(text::without_leading(raw, '/'))
}

/// The name of a command, from a line that starts with it.
pub fn command_root(raw: &str) -> (r: &str)
    ensures
        r@ == root_of(raw@),
{
    text::first_word_of(text::trim_start_char(raw, '/'))
}

} // verus!
