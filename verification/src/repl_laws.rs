//! What holds of the loop that reads prompts and commands.

use vstd::prelude::*;

use crate::history::{self, EntryView};
use crate::messages::MessageView;
use crate::repl::{self, BannerFacts, CommandAction, ReplAction, ReplEvent};
use crate::reports;
use crate::slash::{self, SlashCommand, UnknownCommandGuidance};
use crate::text;

verus! {

/// A line that was submitted is read on where it is blank, ends the loop where it
/// asks for that, and else is parsed: the line as it was typed, and its text
/// without the white space around it.
pub proof fn law_submitted_lines_are_parsed(line: String, action: ReplAction)
    requires
        repl::follows(ReplEvent::Submit { line }, action),
    ensures
        text::is_blank(line@) ==> action is ReadLine,
        action is Parse <==> !text::is_blank(line@) && text::trimmed(line@) != "/exit"@
            && text::trimmed(line@) != "/quit"@,
        action is Parse ==> action->Parse_line == line && action->Parse_trimmed@ == text::trimmed(
            line@,
        ),
        action is ReadLine || action is PersistAndStop || action is Parse,
{
    reveal_strlit("/exit");
    reveal_strlit("/quit");
    assert("/exit"@.len() == 5);
    assert("/quit"@.len() == 5);
    text::lemma_trimmed_empty_iff_blank(line@);
}

/// What was parsed is carried out: a command is run, an error is shown, and
/// anything else is a prompt, which may name a skill. A prompt is recorded as it
/// was typed, and what is run is the prompt or what its skill makes of it.
pub proof fn law_parsed_lines_are_carried_out(
    line: String,
    trimmed: String,
    command: Result<Option<SlashCommand>, String>,
    prompt: Option<String>,
    action: ReplAction,
    resolved: ReplAction,
)
    requires
        repl::follows(ReplEvent::Parsed { line, trimmed, command }, action),
        repl::follows(ReplEvent::SkillResolved { line, trimmed, prompt }, resolved),
    ensures
        command is Err ==> action is ShowError && action->ShowError_0 == command->Err_0,
        command is Ok && command->Ok_0 is Some ==> action is RunCommand && action->RunCommand_0
            == command->Ok_0->0,
        command is Ok && command->Ok_0 is None ==> action is ResolveSkill || action is RunTurn,
        action is ResolveSkill ==> action->ResolveSkill_line == line && action->ResolveSkill_trimmed
            == trimmed,
        action is RunTurn ==> action->RunTurn_line == line && action->recorded@ == trimmed@
            && action->prompt@ == trimmed@,
        resolved is RunTurn && resolved->RunTurn_line == line && resolved->recorded@ == trimmed@,
        prompt is Some ==> resolved->prompt@ == prompt->0@,
        prompt is None ==> resolved->prompt@ == trimmed@,
        prompt is None && action is RunTurn ==> resolved->prompt@ == action->prompt@,
{
}

/// A prompt that may name a skill starts with a word of letters, digits, hyphens
/// and underscores; a word with a slash in front names none.
pub proof fn law_skill_words_have_no_slash(word: Seq<char>, at: int)
    requires
        repl::is_skill_word(word),
        0 <= at < word.len(),
    ensures
        word.len() > 0,
        word[0] != '/',
        word[at] == '-' || word[at] == '_' || repl::unicode_alphanumeric(word[at]),
        repl::is_skill_word(word.push('-')) && repl::is_skill_word(word.push('_')),
{
    assert forall|i: int| 0 <= i < word.len() implies #[trigger] word.push('-')[i] == word[i]
        && word.push('_')[i] == word[i] by {}
}

/// Every command is carried out as itself: no other command does the same, but for
/// the two that show the cost.
pub proof fn law_commands_do_their_own_work(
    command: SlashCommand,
    skill_prompt: Option<Seq<char>>,
    guidance: UnknownCommandGuidance,
    action: CommandAction,
)
    requires
        repl::carries_out(command, skill_prompt, guidance, action),
    ensures
        action is ShowHelp <==> command is Help,
        action is ShowStatus <==> command is Status,
        action is ShowSandbox <==> command is Sandbox,
        action is ShowMemory <==> command is Memory,
        action is Init <==> command is Init,
        action is ShowDiff <==> command is Diff,
        action is ShowVersion <==> command is Version,
        action is ShowDoctor <==> command is Doctor,
        action is Commit <==> command is Commit,
        action is ShowLastToolCall <==> command is DebugToolCall,
        action is ShowCost <==> command is Cost || command is Stats,
        action is Compact <==> command is Compact,
        action is SetModel <==> command is Model,
        action is SetPermissions <==> command is Permissions,
        action is ClearSession <==> command is Clear,
        action is ResumeSession <==> command is Resume,
        action is ShowConfig <==> command is Config,
        action is Export <==> command is Export,
        action is ShowAgents <==> command is Agents,
        action is ShowHistory <==> command is History,
        action is PullRequest <==> command is Pr,
        action is ShowMcp <==> command is Mcp,
        action is Session <==> command is Session,
        action is Plugins <==> command is Plugins,
        action is RunPromptCommand <==> command is Simplify,
        action is RunTurn <==> command is Skills && skill_prompt is Some,
        action is ShowSkills <==> command is Skills && skill_prompt is None,
        action is SetEffort ==> command is Effort,
        action is Teleport ==> command is Teleport,
        action is Warn <==> command is Unimplemented || command is Unknown,
        command is Bughunter || command is Issue || command is Ultraplan ==> action is Say,
{
}

/// A command is carried out with just what it was given.
pub proof fn law_commands_keep_what_they_are_given(
    given: Option<String>,
    other: Option<String>,
    confirm: bool,
    skill_prompt: Option<Seq<char>>,
    guidance: UnknownCommandGuidance,
    action: CommandAction,
)
    ensures
        repl::carries_out(SlashCommand::Compact { mode: given }, skill_prompt, guidance, action)
            ==> action == (CommandAction::Compact { mode: given }),
        repl::carries_out(SlashCommand::Model { model: given }, skill_prompt, guidance, action)
            ==> action == (CommandAction::SetModel { model: given }),
        repl::carries_out(SlashCommand::Permissions { mode: given }, skill_prompt, guidance, action)
            ==> action == (CommandAction::SetPermissions { mode: given }),
        repl::carries_out(SlashCommand::Clear { confirm }, skill_prompt, guidance, action)
            ==> action == (CommandAction::ClearSession { confirm }),
        repl::carries_out(SlashCommand::Resume { session_path: given }, skill_prompt, guidance, action)
            ==> action == (CommandAction::ResumeSession { session_path: given }),
        repl::carries_out(SlashCommand::Config { section: given }, skill_prompt, guidance, action)
            ==> action == (CommandAction::ShowConfig { section: given }),
        repl::carries_out(SlashCommand::Export { path: given }, skill_prompt, guidance, action)
            ==> action == (CommandAction::Export { path: given }),
        repl::carries_out(SlashCommand::Agents { args: given }, skill_prompt, guidance, action)
            ==> action == (CommandAction::ShowAgents { args: given }),
        repl::carries_out(SlashCommand::History { count: given }, skill_prompt, guidance, action)
            ==> action == (CommandAction::ShowHistory { count: given }),
        repl::carries_out(SlashCommand::Pr { context: given }, skill_prompt, guidance, action)
            ==> action == (CommandAction::PullRequest { context: given }),
        repl::carries_out(
            SlashCommand::Session { action: given, target: other },
            skill_prompt,
            guidance,
            action,
        ) ==> action == (CommandAction::Session { action: given, target: other }),
        repl::carries_out(
            SlashCommand::Plugins { action: given, target: other },
            skill_prompt,
            guidance,
            action,
        ) ==> action == (CommandAction::Plugins { action: given, target: other }),
        repl::carries_out(
            SlashCommand::Mcp { action: given, target: other },
            skill_prompt,
            guidance,
            action,
        ) ==> text::opt_text(action->ShowMcp_args) == slash::mcp_arguments(
            text::opt_text(given),
            text::opt_text(other),
        ),
        repl::carries_out(SlashCommand::Simplify { args: given }, skill_prompt, guidance, action)
            ==> action->name@ == "simplify"@ && action->RunPromptCommand_args == given,
        repl::carries_out(SlashCommand::Skills { args: given }, skill_prompt, guidance, action)
            ==> if skill_prompt is Some {
            action->prompt@ == skill_prompt->0
        } else {
            action->ShowSkills_args == given
        },
{
}

/// An effort is set where it is one of the three levels, to that level; any other
/// level, and none, is told and sets nothing.
pub proof fn law_efforts_are_low_medium_or_high(
    level: Option<String>,
    skill_prompt: Option<Seq<char>>,
    guidance: UnknownCommandGuidance,
    action: CommandAction,
)
    requires
        repl::carries_out(SlashCommand::Effort { level }, skill_prompt, guidance, action),
    ensures
        action is SetEffort <==> level is Some && (level->0@ == "low"@ || level->0@ == "medium"@
            || level->0@ == "high"@),
        action is SetEffort ==> action->level@ == level->0@ && text::has_suffix(
            action->notice@,
            ": "@ + level->0@,
        ),
        action !is SetEffort ==> action is Say,
        action is Say && level is Some ==> text::contains_text(
            action->Say_0@,
            "'"@ + level->0@ + "'"@,
        ),
{
    if level is Some {
        let asked = level->0@;
        assert(text::has_suffix("Reasoning effort set to: "@ + asked, ": "@ + asked)) by {
            reveal_strlit("Reasoning effort set to: ");
            reveal_strlit("Reasoning effort set to");
            reveal_strlit(": ");
            assert("Reasoning effort set to: "@ =~= "Reasoning effort set to"@ + ": "@);
            let head = "Reasoning effort set to"@;
            assert("Reasoning effort set to: "@ + asked =~= head + (": "@ + asked)
                + Seq::<char>::empty());
            text::lemma_contains_part(head, ": "@ + asked, Seq::empty());
        }
        let told = "Invalid effort level '"@ + asked + "'. Must be: low, medium, or high"@;
        assert(text::contains_text(told, "'"@ + asked + "'"@)) by {
            reveal_strlit("Invalid effort level '");
            reveal_strlit("Invalid effort level ");
            reveal_strlit("'");
            reveal_strlit("'. Must be: low, medium, or high");
            reveal_strlit(". Must be: low, medium, or high");
            assert("Invalid effort level '"@ =~= "Invalid effort level "@ + "'"@);
            assert("'. Must be: low, medium, or high"@ =~= "'"@
                + ". Must be: low, medium, or high"@);
            let part = "'"@ + asked + "'"@;
            let after = ". Must be: low, medium, or high"@;
            assert(told =~= "Invalid effort level "@ + part + after);
            text::lemma_contains_part("Invalid effort level "@, part, after);
        }
    }
}

/// A place is gone to where one is named, without the white space around it; what
/// is not built, and what is not known, is told by its name.
pub proof fn law_places_and_names_are_kept(
    target: Option<String>,
    name: String,
    skill_prompt: Option<Seq<char>>,
    guidance: UnknownCommandGuidance,
    gone: CommandAction,
    unbuilt: CommandAction,
    unknown: CommandAction,
)
    requires
        repl::carries_out(SlashCommand::Teleport { target }, skill_prompt, guidance, gone),
        repl::carries_out(
            SlashCommand::Unimplemented { slash_name: name },
            skill_prompt,
            guidance,
            unbuilt,
        ),
        repl::carries_out(SlashCommand::Unknown(name), skill_prompt, guidance, unknown),
    ensures
        gone is Teleport <==> target is Some && !text::is_blank(target->0@),
        gone is Teleport ==> gone->place@ == text::trimmed(target->0@),
        gone !is Teleport ==> gone is Say && gone->Say_0@ == "Usage: /teleport <symbol-or-path>"@,
        unbuilt is Warn && text::has_prefix(unbuilt->Warn_0@, name@),
        unknown is Warn && unknown->Warn_0@ == reports::unknown_command_report(
            name@,
            guidance.suggested(),
            guidance.noted(),
        ),
{
    let tail = " is not yet implemented in this build."@;
    text::lemma_contains_part(Seq::empty(), name@, tail);
    assert(Seq::<char>::empty() + name@ + tail =~= name@ + tail);
}

/// The reports of commands that only tell something are those reports.
pub proof fn law_told_commands_tell_their_own_report(
    given: Option<String>,
    skill_prompt: Option<Seq<char>>,
    guidance: UnknownCommandGuidance,
    hunted: CommandAction,
    raised: CommandAction,
    planned: CommandAction,
)
    requires
        repl::carries_out(
            SlashCommand::Bughunter { scope: given },
            skill_prompt,
            guidance,
            hunted,
        ),
        repl::carries_out(SlashCommand::Issue { context: given }, skill_prompt, guidance, raised),
        repl::carries_out(SlashCommand::Ultraplan { task: given }, skill_prompt, guidance, planned),
    ensures
        hunted->Say_0@ == reports::bughunter_report(text::opt_text(given)),
        raised->Say_0@ == reports::issue_report(text::opt_text(given)),
        planned->Say_0@ == reports::ultraplan_report(text::opt_text(given)),
{
}

/// `/history` tells the prompts as long as the count is a number above zero, and
/// else what is wrong with it.
pub proof fn law_history_needs_a_count(
    count: Option<Seq<char>>,
    recorded: Seq<EntryView>,
    live: Seq<EntryView>,
    messages: Seq<MessageView>,
    updated_at_ms: u64,
)
    ensures
        ({
            let told = repl::history_told(count, recorded, live, messages, updated_at_ms);
            let shown = history::shown_prompts(recorded, live, messages, updated_at_ms);
            &&& told is Ok <==> history::history_count(count) is Ok
            &&& told is Err ==> told->Err_0 == history::history_count(count)->Err_0
            &&& told is Ok ==> told->Ok_0 == history::history_report(
                shown,
                history::history_count(count)->Ok_0,
            )
            &&& count is None ==> told is Ok
        }),
{
}

proof fn lemma_banner_is_told(report: Seq<char>, model: Seq<char>, permissions: Seq<char>, branch: Seq<char>, workspace: Seq<char>, directory: Seq<char>, session: Seq<char>, saved: Seq<char>)
    requires
        report == "\x1b[38;5;196m ██████╗██╗      █████╗ ██╗    ██╗\n██╔════╝██║     ██╔══██╗██║    ██║\n██║     ██║     ███████║██║ █╗ ██║\n██║     ██║     ██╔══██║██║███╗██║\n╚██████╗███████╗██║  ██║╚███╔███╔╝\n ╚═════╝╚══════╝╚═╝  ╚═╝ ╚══╝╚══╝\x1b[0m \x1b[38;5;208mCode\x1b[0m 🦞\n\n  \x1b[2mModel\x1b[0m            "@ + model + "\n  \x1b[2mPermissions\x1b[0m      "@ + permissions + "\n  \x1b[2mBranch\x1b[0m           "@ + branch + "\n  \x1b[2mWorkspace\x1b[0m        "@ + workspace + "\n  \x1b[2mDirectory\x1b[0m        "@ + directory + "\n  \x1b[2mSession\x1b[0m          "@ + session + "\n  \x1b[2mAuto-save\x1b[0m        "@ + saved + "\n\n  Type \x1b[1m/help\x1b[0m for commands · \x1b[1m/status\x1b[0m for live context · \x1b[2m/resume latest\x1b[0m jumps back to the newest session · \x1b[1m/diff\x1b[0m then \x1b[1m/commit\x1b[0m to ship · \x1b[2mTab\x1b[0m for workflow completions · \x1b[2mShift+Enter\x1b[0m for newline"@,
    ensures
        text::contains_text(report, "  \x1b[2mModel\x1b[0m            "@ + model + "\n"@),
        text::contains_text(report, "  \x1b[2mPermissions\x1b[0m      "@ + permissions + "\n"@),
        text::contains_text(report, "  \x1b[2mBranch\x1b[0m           "@ + branch + "\n"@),
        text::contains_text(report, "  \x1b[2mWorkspace\x1b[0m        "@ + workspace + "\n"@),
        text::contains_text(report, "  \x1b[2mDirectory\x1b[0m        "@ + directory + "\n"@),
        text::contains_text(report, "  \x1b[2mSession\x1b[0m          "@ + session + "\n"@),
        text::contains_text(report, "  \x1b[2mAuto-save\x1b[0m        "@ + saved + "\n"@),
{
    assert(text::contains_text(report, "  \x1b[2mModel\x1b[0m            "@ + model + "\n"@)) by {
        reveal_strlit("\x1b[38;5;196m ██████╗██╗      █████╗ ██╗    ██╗\n██╔════╝██║     ██╔══██╗██║    ██║\n██║     ██║     ███████║██║ █╗ ██║\n██║     ██║     ██╔══██║██║███╗██║\n╚██████╗███████╗██║  ██║╚███╔███╔╝\n ╚═════╝╚══════╝╚═╝  ╚═╝ ╚══╝╚══╝\x1b[0m \x1b[38;5;208mCode\x1b[0m 🦞\n\n  \x1b[2mModel\x1b[0m            ");
        reveal_strlit("\x1b[38;5;196m ██████╗██╗      █████╗ ██╗    ██╗\n██╔════╝██║     ██╔══██╗██║    ██║\n██║     ██║     ███████║██║ █╗ ██║\n██║     ██║     ██╔══██║██║███╗██║\n╚██████╗███████╗██║  ██║╚███╔███╔╝\n ╚═════╝╚══════╝╚═╝  ╚═╝ ╚══╝╚══╝\x1b[0m \x1b[38;5;208mCode\x1b[0m 🦞\n\n");
        reveal_strlit("  \x1b[2mModel\x1b[0m            ");
        reveal_strlit("\n  \x1b[2mPermissions\x1b[0m      ");
        reveal_strlit("\n");
        reveal_strlit("  \x1b[2mPermissions\x1b[0m      ");
        assert("\x1b[38;5;196m ██████╗██╗      █████╗ ██╗    ██╗\n██╔════╝██║     ██╔══██╗██║    ██║\n██║     ██║     ███████║██║ █╗ ██║\n██║     ██║     ██╔══██║██║███╗██║\n╚██████╗███████╗██║  ██║╚███╔███╔╝\n ╚═════╝╚══════╝╚═╝  ╚═╝ ╚══╝╚══╝\x1b[0m \x1b[38;5;208mCode\x1b[0m 🦞\n\n  \x1b[2mModel\x1b[0m            "@ =~= "\x1b[38;5;196m ██████╗██╗      █████╗ ██╗    ██╗\n██╔════╝██║     ██╔══██╗██║    ██║\n██║     ██║     ███████║██║ █╗ ██║\n██║     ██║     ██╔══██║██║███╗██║\n╚██████╗███████╗██║  ██║╚███╔███╔╝\n ╚═════╝╚══════╝╚═╝  ╚═╝ ╚══╝╚══╝\x1b[0m \x1b[38;5;208mCode\x1b[0m 🦞\n\n"@ + "  \x1b[2mModel\x1b[0m            "@);
        assert("\n  \x1b[2mPermissions\x1b[0m      "@ =~= "\n"@ + "  \x1b[2mPermissions\x1b[0m      "@);
        let before = "\x1b[38;5;196m ██████╗██╗      █████╗ ██╗    ██╗\n██╔════╝██║     ██╔══██╗██║    ██║\n██║     ██║     ███████║██║ █╗ ██║\n██║     ██║     ██╔══██║██║███╗██║\n╚██████╗███████╗██║  ██║╚███╔███╔╝\n ╚═════╝╚══════╝╚═╝  ╚═╝ ╚══╝╚══╝\x1b[0m \x1b[38;5;208mCode\x1b[0m 🦞\n\n"@;
        let part = "  \x1b[2mModel\x1b[0m            "@ + model + "\n"@;
        let after = "  \x1b[2mPermissions\x1b[0m      "@ + permissions + "\n  \x1b[2mBranch\x1b[0m           "@ + branch + "\n  \x1b[2mWorkspace\x1b[0m        "@ + workspace + "\n  \x1b[2mDirectory\x1b[0m        "@ + directory + "\n  \x1b[2mSession\x1b[0m          "@ + session + "\n  \x1b[2mAuto-save\x1b[0m        "@ + saved + "\n\n  Type \x1b[1m/help\x1b[0m for commands · \x1b[1m/status\x1b[0m for live context · \x1b[2m/resume latest\x1b[0m jumps back to the newest session · \x1b[1m/diff\x1b[0m then \x1b[1m/commit\x1b[0m to ship · \x1b[2mTab\x1b[0m for workflow completions · \x1b[2mShift+Enter\x1b[0m for newline"@;
        assert(report =~= before + part + after);
        text::lemma_contains_part(before, part, after);
    }
    assert(text::contains_text(report, "  \x1b[2mPermissions\x1b[0m      "@ + permissions + "\n"@)) by {
        reveal_strlit("\n  \x1b[2mPermissions\x1b[0m      ");
        reveal_strlit("\n");
        reveal_strlit("  \x1b[2mPermissions\x1b[0m      ");
        reveal_strlit("\n  \x1b[2mBranch\x1b[0m           ");
        reveal_strlit("  \x1b[2mBranch\x1b[0m           ");
        assert("\n  \x1b[2mPermissions\x1b[0m      "@ =~= "\n"@ + "  \x1b[2mPermissions\x1b[0m      "@);
        assert("\n  \x1b[2mBranch\x1b[0m           "@ =~= "\n"@ + "  \x1b[2mBranch\x1b[0m           "@);
        let before = "\x1b[38;5;196m ██████╗██╗      █████╗ ██╗    ██╗\n██╔════╝██║     ██╔══██╗██║    ██║\n██║     ██║     ███████║██║ █╗ ██║\n██║     ██║     ██╔══██║██║███╗██║\n╚██████╗███████╗██║  ██║╚███╔███╔╝\n ╚═════╝╚══════╝╚═╝  ╚═╝ ╚══╝╚══╝\x1b[0m \x1b[38;5;208mCode\x1b[0m 🦞\n\n  \x1b[2mModel\x1b[0m            "@ + model + "\n"@;
        let part = "  \x1b[2mPermissions\x1b[0m      "@ + permissions + "\n"@;
        let after = "  \x1b[2mBranch\x1b[0m           "@ + branch + "\n  \x1b[2mWorkspace\x1b[0m        "@ + workspace + "\n  \x1b[2mDirectory\x1b[0m        "@ + directory + "\n  \x1b[2mSession\x1b[0m          "@ + session + "\n  \x1b[2mAuto-save\x1b[0m        "@ + saved + "\n\n  Type \x1b[1m/help\x1b[0m for commands · \x1b[1m/status\x1b[0m for live context · \x1b[2m/resume latest\x1b[0m jumps back to the newest session · \x1b[1m/diff\x1b[0m then \x1b[1m/commit\x1b[0m to ship · \x1b[2mTab\x1b[0m for workflow completions · \x1b[2mShift+Enter\x1b[0m for newline"@;
        assert(report =~= before + part + after);
        text::lemma_contains_part(before, part, after);
    }
    assert(text::contains_text(report, "  \x1b[2mBranch\x1b[0m           "@ + branch + "\n"@)) by {
        reveal_strlit("\n  \x1b[2mBranch\x1b[0m           ");
        reveal_strlit("\n");
        reveal_strlit("  \x1b[2mBranch\x1b[0m           ");
        reveal_strlit("\n  \x1b[2mWorkspace\x1b[0m        ");
        reveal_strlit("  \x1b[2mWorkspace\x1b[0m        ");
        assert("\n  \x1b[2mBranch\x1b[0m           "@ =~= "\n"@ + "  \x1b[2mBranch\x1b[0m           "@);
        assert("\n  \x1b[2mWorkspace\x1b[0m        "@ =~= "\n"@ + "  \x1b[2mWorkspace\x1b[0m        "@);
        let before = "\x1b[38;5;196m ██████╗██╗      █████╗ ██╗    ██╗\n██╔════╝██║     ██╔══██╗██║    ██║\n██║     ██║     ███████║██║ █╗ ██║\n██║     ██║     ██╔══██║██║███╗██║\n╚██████╗███████╗██║  ██║╚███╔███╔╝\n ╚═════╝╚══════╝╚═╝  ╚═╝ ╚══╝╚══╝\x1b[0m \x1b[38;5;208mCode\x1b[0m 🦞\n\n  \x1b[2mModel\x1b[0m            "@ + model + "\n  \x1b[2mPermissions\x1b[0m      "@ + permissions + "\n"@;
        let part = "  \x1b[2mBranch\x1b[0m           "@ + branch + "\n"@;
        let after = "  \x1b[2mWorkspace\x1b[0m        "@ + workspace + "\n  \x1b[2mDirectory\x1b[0m        "@ + directory + "\n  \x1b[2mSession\x1b[0m          "@ + session + "\n  \x1b[2mAuto-save\x1b[0m        "@ + saved + "\n\n  Type \x1b[1m/help\x1b[0m for commands · \x1b[1m/status\x1b[0m for live context · \x1b[2m/resume latest\x1b[0m jumps back to the newest session · \x1b[1m/diff\x1b[0m then \x1b[1m/commit\x1b[0m to ship · \x1b[2mTab\x1b[0m for workflow completions · \x1b[2mShift+Enter\x1b[0m for newline"@;
        assert(report =~= before + part + after);
        text::lemma_contains_part(before, part, after);
    }
    assert(text::contains_text(report, "  \x1b[2mWorkspace\x1b[0m        "@ + workspace + "\n"@)) by {
        reveal_strlit("\n  \x1b[2mWorkspace\x1b[0m        ");
        reveal_strlit("\n");
        reveal_strlit("  \x1b[2mWorkspace\x1b[0m        ");
        reveal_strlit("\n  \x1b[2mDirectory\x1b[0m        ");
        reveal_strlit("  \x1b[2mDirectory\x1b[0m        ");
        assert("\n  \x1b[2mWorkspace\x1b[0m        "@ =~= "\n"@ + "  \x1b[2mWorkspace\x1b[0m        "@);
        assert("\n  \x1b[2mDirectory\x1b[0m        "@ =~= "\n"@ + "  \x1b[2mDirectory\x1b[0m        "@);
        let before = "\x1b[38;5;196m ██████╗██╗      █████╗ ██╗    ██╗\n██╔════╝██║     ██╔══██╗██║    ██║\n██║     ██║     ███████║██║ █╗ ██║\n██║     ██║     ██╔══██║██║███╗██║\n╚██████╗███████╗██║  ██║╚███╔███╔╝\n ╚═════╝╚══════╝╚═╝  ╚═╝ ╚══╝╚══╝\x1b[0m \x1b[38;5;208mCode\x1b[0m 🦞\n\n  \x1b[2mModel\x1b[0m            "@ + model + "\n  \x1b[2mPermissions\x1b[0m      "@ + permissions + "\n  \x1b[2mBranch\x1b[0m           "@ + branch + "\n"@;
        let part = "  \x1b[2mWorkspace\x1b[0m        "@ + workspace + "\n"@;
        let after = "  \x1b[2mDirectory\x1b[0m        "@ + directory + "\n  \x1b[2mSession\x1b[0m          "@ + session + "\n  \x1b[2mAuto-save\x1b[0m        "@ + saved + "\n\n  Type \x1b[1m/help\x1b[0m for commands · \x1b[1m/status\x1b[0m for live context · \x1b[2m/resume latest\x1b[0m jumps back to the newest session · \x1b[1m/diff\x1b[0m then \x1b[1m/commit\x1b[0m to ship · \x1b[2mTab\x1b[0m for workflow completions · \x1b[2mShift+Enter\x1b[0m for newline"@;
        assert(report =~= before + part + after);
        text::lemma_contains_part(before, part, after);
    }
    assert(text::contains_text(report, "  \x1b[2mDirectory\x1b[0m        "@ + directory + "\n"@)) by {
        reveal_strlit("\n  \x1b[2mDirectory\x1b[0m        ");
        reveal_strlit("\n");
        reveal_strlit("  \x1b[2mDirectory\x1b[0m        ");
        reveal_strlit("\n  \x1b[2mSession\x1b[0m          ");
        reveal_strlit("  \x1b[2mSession\x1b[0m          ");
        assert("\n  \x1b[2mDirectory\x1b[0m        "@ =~= "\n"@ + "  \x1b[2mDirectory\x1b[0m        "@);
        assert("\n  \x1b[2mSession\x1b[0m          "@ =~= "\n"@ + "  \x1b[2mSession\x1b[0m          "@);
        let before = "\x1b[38;5;196m ██████╗██╗      █████╗ ██╗    ██╗\n██╔════╝██║     ██╔══██╗██║    ██║\n██║     ██║     ███████║██║ █╗ ██║\n██║     ██║     ██╔══██║██║███╗██║\n╚██████╗███████╗██║  ██║╚███╔███╔╝\n ╚═════╝╚══════╝╚═╝  ╚═╝ ╚══╝╚══╝\x1b[0m \x1b[38;5;208mCode\x1b[0m 🦞\n\n  \x1b[2mModel\x1b[0m            "@ + model + "\n  \x1b[2mPermissions\x1b[0m      "@ + permissions + "\n  \x1b[2mBranch\x1b[0m           "@ + branch + "\n  \x1b[2mWorkspace\x1b[0m        "@ + workspace + "\n"@;
        let part = "  \x1b[2mDirectory\x1b[0m        "@ + directory + "\n"@;
        let after = "  \x1b[2mSession\x1b[0m          "@ + session + "\n  \x1b[2mAuto-save\x1b[0m        "@ + saved + "\n\n  Type \x1b[1m/help\x1b[0m for commands · \x1b[1m/status\x1b[0m for live context · \x1b[2m/resume latest\x1b[0m jumps back to the newest session · \x1b[1m/diff\x1b[0m then \x1b[1m/commit\x1b[0m to ship · \x1b[2mTab\x1b[0m for workflow completions · \x1b[2mShift+Enter\x1b[0m for newline"@;
        assert(report =~= before + part + after);
        text::lemma_contains_part(before, part, after);
    }
    assert(text::contains_text(report, "  \x1b[2mSession\x1b[0m          "@ + session + "\n"@)) by {
        reveal_strlit("\n  \x1b[2mSession\x1b[0m          ");
        reveal_strlit("\n");
        reveal_strlit("  \x1b[2mSession\x1b[0m          ");
        reveal_strlit("\n  \x1b[2mAuto-save\x1b[0m        ");
        reveal_strlit("  \x1b[2mAuto-save\x1b[0m        ");
        assert("\n  \x1b[2mSession\x1b[0m          "@ =~= "\n"@ + "  \x1b[2mSession\x1b[0m          "@);
        assert("\n  \x1b[2mAuto-save\x1b[0m        "@ =~= "\n"@ + "  \x1b[2mAuto-save\x1b[0m        "@);
        let before = "\x1b[38;5;196m ██████╗██╗      █████╗ ██╗    ██╗\n██╔════╝██║     ██╔══██╗██║    ██║\n██║     ██║     ███████║██║ █╗ ██║\n██║     ██║     ██╔══██║██║███╗██║\n╚██████╗███████╗██║  ██║╚███╔███╔╝\n ╚═════╝╚══════╝╚═╝  ╚═╝ ╚══╝╚══╝\x1b[0m \x1b[38;5;208mCode\x1b[0m 🦞\n\n  \x1b[2mModel\x1b[0m            "@ + model + "\n  \x1b[2mPermissions\x1b[0m      "@ + permissions + "\n  \x1b[2mBranch\x1b[0m           "@ + branch + "\n  \x1b[2mWorkspace\x1b[0m        "@ + workspace + "\n  \x1b[2mDirectory\x1b[0m        "@ + directory + "\n"@;
        let part = "  \x1b[2mSession\x1b[0m          "@ + session + "\n"@;
        let after = "  \x1b[2mAuto-save\x1b[0m        "@ + saved + "\n\n  Type \x1b[1m/help\x1b[0m for commands · \x1b[1m/status\x1b[0m for live context · \x1b[2m/resume latest\x1b[0m jumps back to the newest session · \x1b[1m/diff\x1b[0m then \x1b[1m/commit\x1b[0m to ship · \x1b[2mTab\x1b[0m for workflow completions · \x1b[2mShift+Enter\x1b[0m for newline"@;
        assert(report =~= before + part + after);
        text::lemma_contains_part(before, part, after);
    }
    assert(text::contains_text(report, "  \x1b[2mAuto-save\x1b[0m        "@ + saved + "\n"@)) by {
        reveal_strlit("\n  \x1b[2mAuto-save\x1b[0m        ");
        reveal_strlit("\n");
        reveal_strlit("  \x1b[2mAuto-save\x1b[0m        ");
        reveal_strlit("\n\n  Type \x1b[1m/help\x1b[0m for commands · \x1b[1m/status\x1b[0m for live context · \x1b[2m/resume latest\x1b[0m jumps back to the newest session · \x1b[1m/diff\x1b[0m then \x1b[1m/commit\x1b[0m to ship · \x1b[2mTab\x1b[0m for workflow completions · \x1b[2mShift+Enter\x1b[0m for newline");
        reveal_strlit("\n  Type \x1b[1m/help\x1b[0m for commands · \x1b[1m/status\x1b[0m for live context · \x1b[2m/resume latest\x1b[0m jumps back to the newest session · \x1b[1m/diff\x1b[0m then \x1b[1m/commit\x1b[0m to ship · \x1b[2mTab\x1b[0m for workflow completions · \x1b[2mShift+Enter\x1b[0m for newline");
        assert("\n  \x1b[2mAuto-save\x1b[0m        "@ =~= "\n"@ + "  \x1b[2mAuto-save\x1b[0m        "@);
        assert("\n\n  Type \x1b[1m/help\x1b[0m for commands · \x1b[1m/status\x1b[0m for live context · \x1b[2m/resume latest\x1b[0m jumps back to the newest session · \x1b[1m/diff\x1b[0m then \x1b[1m/commit\x1b[0m to ship · \x1b[2mTab\x1b[0m for workflow completions · \x1b[2mShift+Enter\x1b[0m for newline"@ =~= "\n"@ + "\n  Type \x1b[1m/help\x1b[0m for commands · \x1b[1m/status\x1b[0m for live context · \x1b[2m/resume latest\x1b[0m jumps back to the newest session · \x1b[1m/diff\x1b[0m then \x1b[1m/commit\x1b[0m to ship · \x1b[2mTab\x1b[0m for workflow completions · \x1b[2mShift+Enter\x1b[0m for newline"@);
        let before = "\x1b[38;5;196m ██████╗██╗      █████╗ ██╗    ██╗\n██╔════╝██║     ██╔══██╗██║    ██║\n██║     ██║     ███████║██║ █╗ ██║\n██║     ██║     ██╔══██║██║███╗██║\n╚██████╗███████╗██║  ██║╚███╔███╔╝\n ╚═════╝╚══════╝╚═╝  ╚═╝ ╚══╝╚══╝\x1b[0m \x1b[38;5;208mCode\x1b[0m 🦞\n\n  \x1b[2mModel\x1b[0m            "@ + model + "\n  \x1b[2mPermissions\x1b[0m      "@ + permissions + "\n  \x1b[2mBranch\x1b[0m           "@ + branch + "\n  \x1b[2mWorkspace\x1b[0m        "@ + workspace + "\n  \x1b[2mDirectory\x1b[0m        "@ + directory + "\n  \x1b[2mSession\x1b[0m          "@ + session + "\n"@;
        let part = "  \x1b[2mAuto-save\x1b[0m        "@ + saved + "\n"@;
        let after = "\n  Type \x1b[1m/help\x1b[0m for commands · \x1b[1m/status\x1b[0m for live context · \x1b[2m/resume latest\x1b[0m jumps back to the newest session · \x1b[1m/diff\x1b[0m then \x1b[1m/commit\x1b[0m to ship · \x1b[2mTab\x1b[0m for workflow completions · \x1b[2mShift+Enter\x1b[0m for newline"@;
        assert(report =~= before + part + after);
        text::lemma_contains_part(before, part, after);
    }
}

/// The banner tells the model, the permissions, the branch, the workspace, the
/// directory, the session and its file, each behind its own label.
pub proof fn law_banners_tell_each_fact(facts: BannerFacts<'_>)
    ensures
        text::contains_text(repl::banner_text(facts), "  \x1b[2mModel\x1b[0m            "@ + facts.model@ + "\n"@),
        text::contains_text(repl::banner_text(facts), "  \x1b[2mPermissions\x1b[0m      "@ + facts.permissions@ + "\n"@),
        text::contains_text(repl::banner_text(facts), "  \x1b[2mBranch\x1b[0m           "@ + (if facts.branch is Some { facts.branch->0@ } else { "unknown"@ }) + "\n"@),
        text::contains_text(repl::banner_text(facts), "  \x1b[2mWorkspace\x1b[0m        "@ + (if facts.workspace is Some { facts.workspace->0@ } else { "unknown"@ }) + "\n"@),
        text::contains_text(repl::banner_text(facts), "  \x1b[2mDirectory\x1b[0m        "@ + (if facts.directory is Some { facts.directory->0@ } else { "<unknown>"@ }) + "\n"@),
        text::contains_text(repl::banner_text(facts), "  \x1b[2mSession\x1b[0m          "@ + facts.session_id@ + "\n"@),
        text::contains_text(repl::banner_text(facts), "  \x1b[2mAuto-save\x1b[0m        "@ + (if facts.session_path_below is Some { facts.session_path_below->0@ } else { facts.session_path@ }) + "\n"@),
{
    lemma_banner_is_told(repl::banner_text(facts), facts.model@, facts.permissions@, (if facts.branch is Some { facts.branch->0@ } else { "unknown"@ }), (if facts.workspace is Some { facts.workspace->0@ } else { "unknown"@ }), (if facts.directory is Some { facts.directory->0@ } else { "<unknown>"@ }), facts.session_id@, (if facts.session_path_below is Some { facts.session_path_below->0@ } else { facts.session_path@ }));
}

} // verus!
