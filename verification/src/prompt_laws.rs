//! What holds of prompts: what is piped in, and what slash commands make of them.

use vstd::prelude::*;

use crate::json::JsonView;
use crate::messages::{BlockView, MessageRole};
use crate::permissions::PermissionMode;
use crate::prompt;
use crate::text;

verus! {

/// What is piped in stands behind the prompt after an empty line, and alone where
/// there is no prompt; white space that is piped in changes nothing.
pub proof fn law_piped_text_stands_behind_the_prompt(said: Seq<char>, piped: Seq<char>)
    ensures
        prompt::merged_prompt(said, None) == said,
        text::is_blank(piped) ==> prompt::merged_prompt(said, Some(piped)) == said,
        !text::is_blank(piped) ==> prompt::merged_prompt(Seq::empty(), Some(piped))
            == text::trimmed(piped),
        !text::is_blank(piped) && said.len() > 0 ==> text::has_suffix(
            prompt::merged_prompt(said, Some(piped)),
            "\n\n"@ + text::trimmed(piped),
        ) && prompt::merged_prompt(said, Some(piped)).len() == said.len() + 2 + text::trimmed(
            piped,
        ).len(),
{
    lemma_stands_behind(said, text::trimmed(piped));
}

proof fn lemma_stands_behind(said: Seq<char>, piped: Seq<char>)
    ensures
        text::has_suffix(said + "\n\n"@ + piped, "\n\n"@ + piped),
        (said + "\n\n"@ + piped).len() == said.len() + 2 + piped.len(),
{
    reveal_strlit("\n\n");
    let tail = "\n\n"@ + piped;
    assert(said + tail + Seq::<char>::empty() =~= said + "\n\n"@ + piped);
    text::lemma_contains_part(said, tail, Seq::empty());
}

/// Input is read only in the one mode that asks for nothing.
pub proof fn law_input_is_read_where_nothing_is_asked()
    ensures
        prompt::asks_nothing(PermissionMode::DangerFullAccess),
        !prompt::asks_nothing(PermissionMode::ReadOnly),
        !prompt::asks_nothing(PermissionMode::WorkspaceWrite),
{
}

/// What is read counts as it is, but from a terminal, from a read that failed, or
/// of white space alone.
pub proof fn law_piped_content_is_kept(is_terminal: bool, read: Option<Seq<char>>)
    ensures
        ({
            let piped = prompt::piped_content(is_terminal, read);
            &&& piped is Some <==> !is_terminal && read is Some && !text::is_blank(read->0)
            &&& piped is Some ==> piped == read
        }),
{
}

proof fn lemma_metadata_is_told(report: Seq<char>, name: Seq<char>, args: Seq<char>)
    requires
        report == "<command-message>"@ + name + "</command-message>\n<command-name>/"@ + name + "</command-name>\n<command-args>"@ + args + "</command-args>"@,
    ensures
        text::contains_text(report, "<command-message>"@ + name + "<"@),
        text::contains_text(report, "<command-name>/"@ + name + "<"@),
        text::contains_text(report, "<command-args>"@ + args + "<"@),
{
    assert(text::contains_text(report, "<command-message>"@ + name + "<"@)) by {
        reveal_strlit("<command-message>");
        reveal_strlit("</command-message>\n<command-name>/");
        reveal_strlit("<");
        reveal_strlit("/command-message>\n<command-name>/");
        assert("</command-message>\n<command-name>/"@ =~= "<"@ + "/command-message>\n<command-name>/"@);
        let before = Seq::<char>::empty();
        let part = "<command-message>"@ + name + "<"@;
        let after = "/command-message>\n<command-name>/"@ + name + "</command-name>\n<command-args>"@ + args + "</command-args>"@;
        assert(report =~= before + part + after);
        text::lemma_contains_part(before, part, after);
    }
    assert(text::contains_text(report, "<command-name>/"@ + name + "<"@)) by {
        reveal_strlit("</command-message>\n<command-name>/");
        reveal_strlit("</command-message>\n");
        reveal_strlit("<command-name>/");
        reveal_strlit("</command-name>\n<command-args>");
        reveal_strlit("<");
        reveal_strlit("/command-name>\n<command-args>");
        assert("</command-message>\n<command-name>/"@ =~= "</command-message>\n"@ + "<command-name>/"@);
        assert("</command-name>\n<command-args>"@ =~= "<"@ + "/command-name>\n<command-args>"@);
        let before = "<command-message>"@ + name + "</command-message>\n"@;
        let part = "<command-name>/"@ + name + "<"@;
        let after = "/command-name>\n<command-args>"@ + args + "</command-args>"@;
        assert(report =~= before + part + after);
        text::lemma_contains_part(before, part, after);
    }
    assert(text::contains_text(report, "<command-args>"@ + args + "<"@)) by {
        reveal_strlit("</command-name>\n<command-args>");
        reveal_strlit("</command-name>\n");
        reveal_strlit("<command-args>");
        reveal_strlit("</command-args>");
        reveal_strlit("<");
        reveal_strlit("/command-args>");
        assert("</command-name>\n<command-args>"@ =~= "</command-name>\n"@ + "<command-args>"@);
        assert("</command-args>"@ =~= "<"@ + "/command-args>"@);
        let before = "<command-message>"@ + name + "</command-message>\n<command-name>/"@ + name + "</command-name>\n"@;
        let part = "<command-args>"@ + args + "<"@;
        let after = "/command-args>"@;
        assert(report =~= before + part + after);
        text::lemma_contains_part(before, part, after);
    }
}

/// The model is told the name of the command, and its arguments where it has any.
pub proof fn law_metadata_tell_name_and_arguments(name: Seq<char>, args: Seq<char>)
    ensures
        text::contains_text(prompt::command_metadata(name, Some(args)), "<command-message>"@ + name + "<"@),
        text::contains_text(prompt::command_metadata(name, Some(args)), "<command-name>/"@ + name + "<"@),
        text::contains_text(prompt::command_metadata(name, Some(args)), "<command-args>"@ + args + "<"@),
        text::has_prefix(
            prompt::command_metadata(name, Some(args)),
            prompt::command_metadata(name, None),
        ),
{
    reveal_strlit("</command-name>\n<command-args>");
    reveal_strlit("</command-name>");
    reveal_strlit("\n<command-args>");
    assert("</command-name>\n<command-args>"@ =~= "</command-name>"@ + "\n<command-args>"@);
    let told = prompt::command_metadata(name, Some(args));
    assert(told =~= "<command-message>"@ + name + "</command-message>\n<command-name>/"@ + name
        + "</command-name>\n<command-args>"@ + args + "</command-args>"@);
    assert(text::has_prefix(told, prompt::command_metadata(name, None))) by {
        let head = prompt::command_metadata(name, None);
        let tail = "\n<command-args>"@ + args + "</command-args>"@;
        assert(told =~= Seq::<char>::empty() + head + tail);
        text::lemma_contains_part(Seq::empty(), head, tail);
    }
    lemma_metadata_is_told(prompt::command_metadata(name, Some(args)), name, args);
}

proof fn lemma_bare_metadata_are_told(report: Seq<char>, name: Seq<char>)
    requires
        report == "<command-message>"@ + name + "</command-message>\n<command-name>/"@ + name + "</command-name>"@,
    ensures
        text::contains_text(report, "<command-message>"@ + name + "<"@),
        text::contains_text(report, "<command-name>/"@ + name + "<"@),
{
    assert(text::contains_text(report, "<command-message>"@ + name + "<"@)) by {
        reveal_strlit("<command-message>");
        reveal_strlit("</command-message>\n<command-name>/");
        reveal_strlit("<");
        reveal_strlit("/command-message>\n<command-name>/");
        assert("</command-message>\n<command-name>/"@ =~= "<"@ + "/command-message>\n<command-name>/"@);
        let before = Seq::<char>::empty();
        let part = "<command-message>"@ + name + "<"@;
        let after = "/command-message>\n<command-name>/"@ + name + "</command-name>"@;
        assert(report =~= before + part + after);
        text::lemma_contains_part(before, part, after);
    }
    assert(text::contains_text(report, "<command-name>/"@ + name + "<"@)) by {
        reveal_strlit("</command-message>\n<command-name>/");
        reveal_strlit("</command-message>\n");
        reveal_strlit("<command-name>/");
        reveal_strlit("</command-name>");
        reveal_strlit("<");
        reveal_strlit("/command-name>");
        assert("</command-message>\n<command-name>/"@ =~= "</command-message>\n"@ + "<command-name>/"@);
        assert("</command-name>"@ =~= "<"@ + "/command-name>"@);
        let before = "<command-message>"@ + name + "</command-message>\n"@;
        let part = "<command-name>/"@ + name + "<"@;
        let after = "/command-name>"@;
        assert(report =~= before + part + after);
        text::lemma_contains_part(before, part, after);
    }
}

/// Without arguments the model is told the name of the command alone.
pub proof fn law_metadata_without_arguments_tell_the_name(name: Seq<char>)
    ensures
        text::contains_text(prompt::command_metadata(name, None), "<command-message>"@ + name + "<"@),
        text::contains_text(prompt::command_metadata(name, None), "<command-name>/"@ + name + "<"@),
{
    lemma_bare_metadata_are_told(prompt::command_metadata(name, None), name);
}

/// A command is typed as its name behind a slash, and its arguments behind a space.
pub proof fn law_commands_are_typed_with_a_slash(name: Seq<char>, args: Seq<char>)
    ensures
        prompt::command_input(name, None).len() == name.len() + 1,
        prompt::command_input(name, None)[0] == '/',
        prompt::command_input(name, None).skip(1) == name,
        prompt::command_input(name, Some(args)).take(name.len() as int + 1)
            == prompt::command_input(name, None),
        prompt::command_input(name, Some(args))[name.len() as int + 1] == ' ',
        prompt::command_input(name, Some(args)).skip(name.len() as int + 2) == args,
{
    reveal_strlit("/");
    reveal_strlit(" ");
    assert("/"@.len() == 1 && "/"@[0] == '/');
    assert(" "@.len() == 1 && " "@[0] == ' ');
    let typed = prompt::command_input(name, Some(args));
    assert(prompt::command_input(name, None).skip(1) =~= name);
    assert(typed.take(name.len() as int + 1) =~= prompt::command_input(name, None));
    assert(typed.skip(name.len() as int + 2) =~= args);
}

/// A skill is listed by its name and its description where it is active and has
/// both.
pub proof fn law_active_skills_are_listed(skill: JsonView)
    ensures
        prompt::skill_line(skill) is Some <==> skill.get("active"@) == Some(JsonView::Bool(true))
            && skill.str_field("name"@) is Some && skill.str_field("description"@) is Some,
        prompt::skill_line(skill) is Some ==> text::has_prefix(
            prompt::skill_line(skill)->0,
            "- "@ + skill.str_field("name"@)->0 + ": "@,
        ) && text::has_suffix(
            prompt::skill_line(skill)->0,
            ": "@ + skill.str_field("description"@)->0,
        ),
{
    if prompt::skill_line(skill) is Some {
        lemma_skill_is_told(
            prompt::skill_line(skill)->0,
            skill.str_field("name"@)->0,
            skill.str_field("description"@)->0,
        );
    }
}

proof fn lemma_skill_is_told(line: Seq<char>, name: Seq<char>, described: Seq<char>)
    requires
        line == "- "@ + name + ": "@ + described,
    ensures
        text::has_prefix(line, "- "@ + name + ": "@),
        text::has_suffix(line, ": "@ + described),
{
    assert(text::has_prefix(line, "- "@ + name + ": "@)) by {
        let head = "- "@ + name + ": "@;
        assert(Seq::<char>::empty() + head + described =~= line);
        text::lemma_contains_part(Seq::empty(), head, described);
    }
    assert(text::has_suffix(line, ": "@ + described)) by {
        let tail = ": "@ + described;
        assert("- "@ + name + tail + Seq::<char>::empty() =~= line);
        text::lemma_contains_part("- "@ + name, tail, Seq::empty());
    }
}

/// Skills are listed in their order, each that has a line.
pub proof fn law_skills_are_listed_in_order(skills: Seq<JsonView>, skill: JsonView)
    ensures
        prompt::skill_lines(Seq::empty()).len() == 0,
        prompt::skill_line(skill) is Some ==> prompt::skill_lines(skills.push(skill))
            == prompt::skill_lines(skills).push(prompt::skill_line(skill)->0),
        prompt::skill_line(skill) is None ==> prompt::skill_lines(skills.push(skill))
            == prompt::skill_lines(skills),
{
    assert(skills.push(skill).drop_last() =~= skills);
}

/// The model is reminded of the skills where there is a line of any, and of each by
/// its line.
pub proof fn law_reminders_list_the_skills(listing: JsonView, skills: Seq<JsonView>)
    requires
        listing.get("skills"@) == Some(JsonView::Array(skills)),
    ensures
        prompt::skill_reminder(listing) is Some <==> prompt::skill_lines(skills).len() > 0,
        prompt::skill_reminder(listing) is Some ==> text::contains_text(
            prompt::skill_reminder(listing)->0,
            "\n\n"@ + text::joined(prompt::skill_lines(skills), "\n"@) + "\n"@,
        ),
{
    if prompt::skill_lines(skills).len() > 0 {
        let told = prompt::skill_reminder(listing)->0;
        let lines = text::joined(prompt::skill_lines(skills), "\n"@);
        reveal_strlit("<system-reminder>\nThe following skills are available for use with the Skill tool:\n\n");
        reveal_strlit("<system-reminder>\nThe following skills are available for use with the Skill tool:");
        reveal_strlit("\n\n");
        reveal_strlit("\n");
        reveal_strlit("\n</system-reminder>");
        reveal_strlit("</system-reminder>");
        let head = "<system-reminder>\nThe following skills are available for use with the Skill tool:"@;
        assert("<system-reminder>\nThe following skills are available for use with the Skill tool:\n\n"@
            =~= head + "\n\n"@);
        assert("\n</system-reminder>"@ =~= "\n"@ + "</system-reminder>"@);
        let part = "\n\n"@ + lines + "\n"@;
        assert(told =~= head + part + "</system-reminder>"@);
        text::lemma_contains_part(head, part, "</system-reminder>"@);
    }
}

/// A turn of a command starts with what the model is told of the command and with
/// the prompt; the skills follow where there are any. The user says all of it.
pub proof fn law_turns_of_commands_start_with_the_prompt(
    name: Seq<char>,
    args: Option<Seq<char>>,
    said: Seq<char>,
    listing: Option<JsonView>,
    at: int,
)
    ensures
        ({
            let messages = prompt::initial_messages(name, args, said, listing);
            let reminded = listing is Some && prompt::skill_reminder(listing->0) is Some;
            &&& messages.len() == (if reminded {
                3nat
            } else {
                2
            })
            &&& messages[0].blocks == seq![BlockView::Text(prompt::command_metadata(name, args))]
            &&& messages[1].blocks == seq![BlockView::Text(said)]
            &&& reminded ==> messages[2].blocks == seq![
                BlockView::Text(prompt::skill_reminder(listing->0)->0),
            ]
            &&& 0 <= at < messages.len() ==> messages[at].role == MessageRole::User
        }),
{
}

} // verus!
