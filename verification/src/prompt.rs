//! Prompts: what is piped in, and what slash commands make of a prompt.

use vstd::prelude::*;

use crate::json::{self, Json, JsonView};
use crate::messages::{self, BlockView, ConversationMessage, MessageRole, MessageView};
use crate::permissions::PermissionMode;
use crate::text;

verus! {

// ---------------------------------------------------------------------------
// Piped input
// ---------------------------------------------------------------------------

/// The prompt together with what was piped in: the piped text stands behind the
/// prompt, trimmed, after an empty line.
pub open spec fn merged_prompt(prompt: Seq<char>, piped: Option<Seq<char>>) -> Seq<char> {
    match piped {
        None => prompt,
        Some(raw) => if text::is_blank(raw) {
            prompt
        } else if prompt.len() == 0 {
            text::trimmed(raw)
        } else {
            prompt + "\n\n"@ + text::trimmed(raw)
        },
    }
}

/// Puts a prompt and a piped text together.
pub fn merge_prompt_with_stdin(prompt: &str, stdin_content: Option<&str>) -> (r: String)
    ensures
        r@ == merged_prompt(prompt@, text::opt_str(stdin_content)),
{
    match stdin_content {
        None => prompt.to_string(),
        Some(raw) => {
            proof {
                text::lemma_trimmed_empty_iff_blank(raw@);
            }
            let trimmed = text::trim(raw);
            if trimmed.is_empty() {
                return prompt.to_string();
            }
            if prompt.is_empty() {
                return trimmed.to_string();
            }
            let mut out = prompt.to_string();
            out.append("\n\n");
            out.append(trimmed);
            out
        },
    }
}

/// Whether nothing is asked about in a mode.
pub open spec fn asks_nothing(mode: PermissionMode) -> bool {
    mode == PermissionMode::DangerFullAccess
}

/// Whether the standard input may be read for a prompt: only where no
/// permission can be asked for, since the answer would be read from it too.
pub fn reads_stdin(permission_mode: PermissionMode) -> (r: bool)
    ensures
        r == asks_nothing(permission_mode),
{
    match permission_mode {
        PermissionMode::DangerFullAccess => true,
        _ => false,
    }
}

/// What a read of the standard input brings: nothing from a terminal, from a
/// read that failed, or of white space alone.
pub open spec fn piped_content(is_terminal: bool, read: Option<Seq<char>>) -> Option<Seq<char>> {
    match read {
        Some(content) => if !is_terminal && !text::is_blank(content) {
            Some(content)
        } else {
            None
        },
        None => None,
    }
}

/// What the standard input brings, `read` being what was read from it.
pub fn read_piped_stdin(is_terminal: bool, read: Option<String>) -> (r: Option<String>)
    ensures
        text::opt_text(r) == piped_content(is_terminal, text::opt_text(read)),
{
    if is_terminal {
        return None;
    }
    match read {
        Some(content) => {
            proof {
                text::lemma_trimmed_empty_iff_blank(content@);
            }
            if text::trim(content.as_str()).is_empty() {
                None
            } else {
                Some(content)
            }
        },
        None => None,
    }
}

/// The prompt stands first, and what is piped in is never lost.
pub proof fn law_merged_prompt_keeps_both(prompt: Seq<char>, piped: Seq<char>)
    ensures
        text::has_prefix(merged_prompt(prompt, Some(piped)), prompt),
        !text::is_blank(piped) ==> text::has_suffix(
            merged_prompt(prompt, Some(piped)),
            text::trimmed(piped),
        ),
{
    let merged = merged_prompt(prompt, Some(piped));
    assert(merged.take(prompt.len() as int) =~= prompt);
    if !text::is_blank(piped) {
        assert(merged.skip(merged.len() - text::trimmed(piped).len()) =~= text::trimmed(piped));
    }
}

// ---------------------------------------------------------------------------
// Prompts of slash commands
// ---------------------------------------------------------------------------

/// What the model is told of the command that a prompt comes from.
pub open spec fn command_metadata(name: Seq<char>, args: Option<Seq<char>>) -> Seq<char> {
    let head = "<command-message>"@ + name + "</command-message>\n<command-name>/"@ + name
        + "</command-name>"@;
    match args {
        Some(args) => head + "\n<command-args>"@ + args + "</command-args>"@,
        None => head,
    }
}

pub fn format_prompt_slash_command_metadata(name: &str, args: Option<&str>) -> (r: String)
    ensures
        r@ == command_metadata(name@, text::opt_str(args)),
{
    let mut out = "<command-message>".to_string();
    out.append(name);
    out.append("</command-message>\n<command-name>/");
    out.append(name);
    out.append("</command-name>");
    match args {
        Some(args) => {
            out.append("\n<command-args>");
            out.append(args);
            out.append("</command-args>");
        },
        None => {},
    }
    out
}

/// A command as the user typed it.
pub open spec fn command_input(name: Seq<char>, args: Option<Seq<char>>) -> Seq<char> {
    match args {
        Some(args) => "/"@ + name + " "@ + args,
        None => "/"@ + name,
    }
}

pub fn format_prompt_slash_command_input(name: &str, args: Option<&str>) -> (r: String)
    ensures
        r@ == command_input(name@, text::opt_str(args)),
{
    let mut out = "/".to_string();
    out.append(name);
    match args {
        Some(args) => {
            out.append(" ");
            out.append(args);
        },
        None => {},
    }
    out
}

/// The line of a skill in the listing: active skills with a name and a
/// description have one.
pub open spec fn skill_line(skill: JsonView) -> Option<Seq<char>> {
    match (skill.flag("active"@), skill.str_field("name"@), skill.str_field("description"@)) {
        (true, Some(name), Some(description)) => Some("- "@ + name + ": "@ + description),
        _ => None,
    }
}

/// The lines of the skills that have one.
pub open spec fn skill_lines(skills: Seq<JsonView>) -> Seq<Seq<char>>
    decreases skills.len(),
{
    if skills.len() == 0 {
        Seq::empty()
    } else {
        match skill_line(skills.last()) {
            Some(line) => skill_lines(skills.drop_last()).push(line),
            None => skill_lines(skills.drop_last()),
        }
    }
}

/// The skills of a listing.
pub open spec fn listed_skills(listing: JsonView) -> Seq<JsonView> {
    match listing.get("skills"@) {
        Some(skills) => match skills.as_array() {
            Some(skills) => skills,
            None => Seq::empty(),
        },
        None => Seq::empty(),
    }
}

/// What the model is told of the skills that it can use.
pub open spec fn skill_reminder(listing: JsonView) -> Option<Seq<char>> {
    let lines = skill_lines(listed_skills(listing));
    if lines.len() == 0 {
        None
    } else {
        Some(
            "<system-reminder>\nThe following skills are available for use with the Skill tool:\n\n"@
                + text::joined(lines, "\n"@) + "\n</system-reminder>"@,
        )
    }
}

fn describe_skill(skill: &Json) -> (r: Option<String>)
    ensures
        text::opt_text(r) == skill_line(skill.view()),
{
    if !skill.flag("active") {
        return None;
    }
    match skill.str_field("name") {
        Some(name) => match skill.str_field("description") {
            Some(description) => {
                let mut line = "- ".to_string();
                line.append(name);
                line.append(": ");
                line.append(description);
                Some(line)
            },
            None => None,
        },
        None => None,
    }
}

pub fn format_prompt_slash_skill_listing(listing: &Json) -> (r: Option<String>)
    ensures
        text::opt_text(r) == skill_reminder(listing.view()),
{
    let mut lines: Vec<String> = Vec::new();
    let skills = match listing.get("skills") {
        Some(skills) => skills.as_array(),
        None => None,
    };
    match skills {
        Some(skills) => {
            let ghost all = json::json_views(skills@);
            let mut i: usize = 0;
            assert(all.take(0) =~= Seq::empty());
            assert(text::texts(lines@) =~= Seq::empty());
            while i < skills.len()
                invariant
                    i <= skills@.len(),
                    all == json::json_views(skills@),
                    text::texts(lines@) == skill_lines(all.take(i as int)),
                decreases skills.len() - i,
            {
                assert(all.take(i + 1).drop_last() =~= all.take(i as int));
                assert(all.take(i + 1).last() == skills@[i as int].view());
                match describe_skill(&skills[i]) {
                    Some(line) => {
                        proof {
                            text::lemma_texts_push(lines@, line);
                        }
                        lines.push(line);
                    },
                    None => {},
                }
                i += 1;
            }
            assert(all.take(i as int) =~= all);
        },
        None => {
            assert(text::texts(lines@) =~= Seq::empty());
        },
    }
    assert(text::texts(lines@) == skill_lines(listed_skills(listing.view())));
    if lines.is_empty() {
        return None;
    }
    let mut out =
        "<system-reminder>\nThe following skills are available for use with the Skill tool:\n\n".to_string();
    out.append(text::join(&lines, "\n").as_str());
    out.append("\n</system-reminder>");
    Some(out)
}

pub open spec fn user_message(text: Seq<char>) -> MessageView {
    MessageView { role: MessageRole::User, blocks: seq![BlockView::Text(text)] }
}

/// The messages that a turn of a slash command starts with; `listing` lists the
/// skills, where they could be listed.
pub open spec fn initial_messages(
    name: Seq<char>,
    args: Option<Seq<char>>,
    prompt: Seq<char>,
    listing: Option<JsonView>,
) -> Seq<MessageView> {
    let head = seq![user_message(command_metadata(name, args)), user_message(prompt)];
    match listing {
        Some(listing) => match skill_reminder(listing) {
            Some(reminder) => head.push(user_message(reminder)),
            None => head,
        },
        None => head,
    }
}

pub fn build_prompt_slash_command_initial_messages(
    name: &str,
    args: Option<&str>,
    prompt: &str,
    listing: Option<&Json>,
) -> (r: Vec<ConversationMessage>)
    ensures
        messages::message_views(r@) == initial_messages(
            name@,
            text::opt_str(args),
            prompt@,
            json::opt_json(listing),
        ),
{
    let mut out: Vec<ConversationMessage> = Vec::new();
    let metadata = format_prompt_slash_command_metadata(name, args);
    out.push(ConversationMessage::user_text(metadata.as_str()));
    out.push(ConversationMessage::user_text(prompt));
    let ghost head = seq![
        user_message(command_metadata(name@, text::opt_str(args))),
        user_message(prompt@),
    ];
    assert(messages::message_views(out@) =~= head);
    match listing {
        Some(listing) => match format_prompt_slash_skill_listing(listing) {
            Some(reminder) => {
                out.push(ConversationMessage::user_text(reminder.as_str()));
                assert(messages::message_views(out@) =~= head.push(user_message(reminder@)));
            },
            None => {},
        },
        None => {},
    }
    out
}

} // verus!
