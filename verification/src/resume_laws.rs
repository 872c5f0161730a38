//! What holds of every command that runs on a saved session.

use vstd::prelude::*;

use crate::history::{self, EntryView};
use crate::json::{self, JsonView};
use crate::output::{self, CliOutputFormat, OutputView};
use crate::resume::{self, OutcomeView, ResumeAction, ResumeFacts};
use crate::slash::{self, SlashCommand, UnknownCommandGuidance};
use crate::stream::TokenUsage;
use crate::text;
use crate::text_laws;

verus! {

// ---------------------------------------------------------------------------
// Commands and their actions
// ---------------------------------------------------------------------------

/// The name of a command as it is typed behind the slash; none for one that no
/// saved session runs.
pub open spec fn typed(command: SlashCommand) -> Option<Seq<char>> {
    match command {
        SlashCommand::Help => Some("help"@),
        SlashCommand::Status => Some("status"@),
        SlashCommand::Sandbox => Some("sandbox"@),
        SlashCommand::Cost => Some("cost"@),
        SlashCommand::Stats => Some("stats"@),
        SlashCommand::Memory => Some("memory"@),
        SlashCommand::Init => Some("init"@),
        SlashCommand::Diff => Some("diff"@),
        SlashCommand::Version => Some("version"@),
        SlashCommand::Doctor => Some("doctor"@),
        SlashCommand::Compact { .. } => Some("compact"@),
        SlashCommand::Clear { .. } => Some("clear"@),
        SlashCommand::Config { .. } => Some("config"@),
        SlashCommand::Mcp { .. } => Some("mcp"@),
        SlashCommand::Export { .. } => Some("export"@),
        SlashCommand::Agents { .. } => Some("agents"@),
        SlashCommand::Skills { .. } => Some("skills"@),
        SlashCommand::History { .. } => Some("history"@),
        SlashCommand::Session { .. } => Some("session"@),
        _ => None,
    }
}

/// The name of what is carried out; none where there is nothing to carry out.
pub open spec fn carried_out(action: ResumeAction) -> Option<Seq<char>> {
    match action {
        ResumeAction::Report(_) | ResumeAction::Refuse(_) => None,
        ResumeAction::Help => Some("help"@),
        ResumeAction::Status => Some("status"@),
        ResumeAction::Sandbox => Some("sandbox"@),
        ResumeAction::Cost => Some("cost"@),
        ResumeAction::Stats => Some("stats"@),
        ResumeAction::Memory => Some("memory"@),
        ResumeAction::Init => Some("init"@),
        ResumeAction::Diff => Some("diff"@),
        ResumeAction::Version => Some("version"@),
        ResumeAction::Doctor => Some("doctor"@),
        ResumeAction::Compact { .. } => Some("compact"@),
        ResumeAction::Config { .. } => Some("config"@),
        ResumeAction::Mcp { .. } => Some("mcp"@),
        ResumeAction::Export { .. } => Some("export"@),
        ResumeAction::Agents { .. } => Some("agents"@),
        ResumeAction::Skills { .. } => Some("skills"@),
        ResumeAction::History { .. } => Some("history"@),
        ResumeAction::Clear => Some("clear"@),
        ResumeAction::ListSessions => Some("session"@),
    }
}

/// What a command says behind its name.
pub open spec fn argument(command: SlashCommand) -> Option<Seq<char>> {
    match command {
        SlashCommand::Compact { mode } => text::opt_text(mode),
        SlashCommand::Config { section } => text::opt_text(section),
        SlashCommand::Export { path } => text::opt_text(path),
        SlashCommand::Agents { args } => text::opt_text(args),
        SlashCommand::Skills { args } => text::opt_text(args),
        _ => None,
    }
}

/// What an action was given.
pub open spec fn given(action: ResumeAction) -> Option<Seq<char>> {
    match action {
        ResumeAction::Compact { mode } => text::opt_text(mode),
        ResumeAction::Config { section } => text::opt_text(section),
        ResumeAction::Export { path } => text::opt_text(path),
        ResumeAction::Agents { args } => text::opt_text(args),
        ResumeAction::Skills { args } => text::opt_text(args),
        _ => None,
    }
}

/// Whether a command has nothing behind its name.
pub open spec fn takes_nothing(command: SlashCommand) -> bool {
    match command {
        SlashCommand::Help
        | SlashCommand::Status
        | SlashCommand::Sandbox
        | SlashCommand::Cost
        | SlashCommand::Stats
        | SlashCommand::Memory
        | SlashCommand::Init
        | SlashCommand::Diff
        | SlashCommand::Version
        | SlashCommand::Doctor => true,
        _ => false,
    }
}

/// A command that is carried out is carried out under its own name, and with what
/// was typed behind it.
pub proof fn law_commands_ask_for_their_own_action(
    command: SlashCommand,
    setting: Option<Seq<char>>,
    invokes_skill: bool,
    guidance: UnknownCommandGuidance,
    action: ResumeAction,
)
    requires
        resume::asks_for(command, setting, invokes_skill, guidance, action),
    ensures
        carried_out(action) is Some ==> carried_out(action) == typed(command) && given(action)
            == argument(command),
        takes_nothing(command) ==> carried_out(action) == typed(command) && typed(command) is Some,
{
}

/// No two commands without arguments ask for the same action.
pub proof fn law_different_commands_ask_for_different_actions(
    first: SlashCommand,
    second: SlashCommand,
    setting: Option<Seq<char>>,
    invokes_skill: bool,
    guidance: UnknownCommandGuidance,
    action: ResumeAction,
)
    requires
        takes_nothing(first),
        takes_nothing(second),
        resume::asks_for(first, setting, invokes_skill, guidance, action),
        resume::asks_for(second, setting, invokes_skill, guidance, action),
    ensures
        first == second,
{
    law_commands_ask_for_their_own_action(first, setting, invokes_skill, guidance, action);
    law_commands_ask_for_their_own_action(second, setting, invokes_skill, guidance, action);
    lemma_names_differ();
}

proof fn lemma_names_differ()
    ensures
        forall|first: SlashCommand, second: SlashCommand|
            takes_nothing(first) && takes_nothing(second) && #[trigger] typed(first)
                == #[trigger] typed(second) ==> first == second,
{
    reveal_strlit("help");
    reveal_strlit("status");
    reveal_strlit("sandbox");
    reveal_strlit("cost");
    reveal_strlit("stats");
    reveal_strlit("memory");
    reveal_strlit("init");
    reveal_strlit("diff");
    reveal_strlit("version");
    reveal_strlit("doctor");
    assert("help"@.len() == 4);
    assert("status"@.len() == 6);
    assert("sandbox"@.len() == 7);
    assert("cost"@.len() == 4);
    assert("stats"@.len() == 5);
    assert("memory"@.len() == 6);
    assert("init"@.len() == 4);
    assert("diff"@.len() == 4);
    assert("version"@.len() == 7);
    assert("doctor"@.len() == 6);
    assert("cost"@[0] == 'c');
    assert("diff"@[0] == 'd');
    assert("doctor"@[0] == 'd');
    assert("help"@[0] == 'h');
    assert("init"@[0] == 'i');
    assert("memory"@[0] == 'm');
    assert("sandbox"@[0] == 's');
    assert("status"@[0] == 's');
    assert("version"@[0] == 'v');
}

/// A session is cleared only where that is confirmed, and compacted only where
/// compaction is not switched off: without that, nothing is carried out.
pub proof fn law_sessions_change_only_when_told(
    command: SlashCommand,
    setting: Option<Seq<char>>,
    invokes_skill: bool,
    guidance: UnknownCommandGuidance,
    action: ResumeAction,
)
    requires
        resume::asks_for(command, setting, invokes_skill, guidance, action),
    ensures
        action is Clear <==> (command matches SlashCommand::Clear { confirm } && confirm),
        action is Compact ==> command is Compact && !resume::switches_off(setting),
        command is Compact && setting is None ==> action is Compact,
        command is Compact && (setting == Some("0"@) || setting == Some("false"@)) ==> !(
        action is Compact),
        action is ListSessions ==> (command matches SlashCommand::Session {
            action: Some(asked),
            ..
        } && asked@ == "list"@),
{
}

/// Compaction is switched off by `0` and by `false` in any case, and by nothing
/// else.
pub proof fn law_compaction_is_on_unless_switched_off(value: Seq<char>)
    ensures
        !resume::switches_off(None),
        resume::switches_off(Some("0"@)),
        resume::switches_off(Some("false"@)),
        value != "0"@ && text::lowered(value) != "false"@ ==> !resume::switches_off(Some(value)),
        resume::switches_off(Some(text::lowered(value))) == resume::switches_off(Some(value)),
{
    reveal_strlit("false");
    reveal_strlit("0");
    assert("false"@.len() == 5);
    assert("0"@.len() == 1);
    assert("0"@[0] == '0');
    assert(text::lowered("false"@) =~= "false"@);
    assert(text::lowered(text::lowered(value)) =~= text::lowered(value));
    if text::lowered(value) == "0"@ {
        assert(value.len() == 1);
        assert(text::lowered(value)[0] == text::lower_char(value[0]));
        assert(value =~= "0"@);
    }
    if value == "0"@ {
        assert(text::lowered(value) =~= "0"@);
    }
}

/// A count that is no number, or nought, is refused with the count; any other
/// count is asked for as it is, and twenty prompts where none is given.
pub proof fn law_history_asks_for_the_count(count: nat, raw: Seq<char>)
    requires
        0 < count <= usize::MAX,
    ensures
        history::history_count(Some(text::decimal(count))) == Ok::<nat, Seq<char>>(count),
        history::history_count(None) == Ok::<nat, Seq<char>>(20),
        history::history_count(Some("0"@)) is Err,
        history::history_count(Some(raw)) matches Ok(asked) ==> asked > 0 && text::number_in(
            raw,
            usize::MAX as nat,
        ) == Some(asked),
        text::number_in(raw, usize::MAX as nat) is None ==> (history::history_count(Some(raw))
            matches Err(message) && text::contains_text(message, raw)),
{
    text::lemma_decimal_reads_back(count, usize::MAX as nat);
    reveal_strlit("0");
    assert("0"@ =~= text::decimal(0));
    text::lemma_decimal_reads_back(0, usize::MAX as nat);
    if text::number_in(raw, usize::MAX as nat) is None {
        text::lemma_contains_part(
            "history: invalid count '"@,
            raw,
            "'. Expected a positive integer."@,
        );
    }
}

/// The arguments of `/mcp` are what was typed, the second behind the first.
pub proof fn law_mcp_arguments_are_what_was_typed(first: Seq<char>, second: Seq<char>)
    ensures
        slash::mcp_arguments(None, None) is None,
        slash::mcp_arguments(Some(first), None) == Some(first),
        slash::mcp_arguments(None, Some(second)) == Some(second),
        slash::mcp_arguments(Some(first), Some(second)) matches Some(all) && text::has_prefix(
            all,
            first,
        ) && text::has_suffix(all, second) && all.len() == first.len() + 1 + second.len(),
{
    reveal_strlit(" ");
    let all = first + " "@ + second;
    assert(all.take(first.len() as int) =~= first);
    assert(all.skip(all.len() - second.len()) =~= second);
}

// ---------------------------------------------------------------------------
// Outcomes
// ---------------------------------------------------------------------------

/// The kind under which the document of an outcome tells what was carried out.
pub open spec fn told_kind(action: ResumeAction) -> Option<Seq<char>> {
    match action {
        ResumeAction::ListSessions => Some("session_list"@),
        _ => carried_out(action),
    }
}

/// The document of a text tells its kind and holds the text.
pub proof fn law_text_documents_hold_the_text(kind: Seq<char>, text: Seq<char>)
    ensures
        resume::text_json(kind, text).get("kind"@) == Some(JsonView::Text(kind)),
        resume::text_json(kind, text).get("text"@) == Some(JsonView::Text(text)),
{
    reveal_strlit("kind");
    reveal_strlit("text");
    assert("kind"@.len() == 4);
    assert("text"@.len() == 4);
    assert("kind"@[0] == 'k');
    assert("text"@[0] == 't');
    let members = resume::text_json(kind, text)->Object_0;
    json::lemma_member_at(members, 0);
    json::lemma_member_at(members, 1);
}

/// The document of a compaction tells how many messages were removed and how many
/// were kept, and that it was skipped where none was removed.
pub proof fn law_compaction_documents_tell_the_numbers(removed: usize, kept: usize)
    ensures
        resume::compact_json(removed, kept).get("kind"@) == Some(JsonView::Text("compact"@)),
        resume::compact_json(removed, kept).get("skipped"@) == Some(JsonView::Bool(removed == 0)),
        resume::compact_json(removed, kept).get("removed_messages"@) == Some(json::number_json(removed as u64)),
        resume::compact_json(removed, kept).get("kept_messages"@) == Some(json::number_json(kept as u64)),
{
    reveal_strlit("kind");
    reveal_strlit("skipped");
    reveal_strlit("removed_messages");
    reveal_strlit("kept_messages");
    assert("kind"@.len() == 4);
    assert("skipped"@.len() == 7);
    assert("removed_messages"@.len() == 16);
    assert("kept_messages"@.len() == 13);
    let members = resume::compact_json(removed, kept)->Object_0;
    json::lemma_member_at(members, 0);
    json::lemma_member_at(members, 1);
    json::lemma_member_at(members, 2);
    json::lemma_member_at(members, 3);
}

/// The document of a cleared session names the old session and the new one, where
/// the old one is kept and where the new one stands.
pub proof fn law_clear_documents_name_both_sessions(previous: Seq<char>, backup: Seq<char>, new_id: Seq<char>, file: Seq<char>)
    ensures
        resume::cleared_json(previous, backup, new_id, file).get("kind"@) == Some(JsonView::Text("clear"@)),
        resume::cleared_json(previous, backup, new_id, file).get("previous_session_id"@) == Some(JsonView::Text(previous)),
        resume::cleared_json(previous, backup, new_id, file).get("new_session_id"@) == Some(JsonView::Text(new_id)),
        resume::cleared_json(previous, backup, new_id, file).get("backup"@) == Some(JsonView::Text(backup)),
        resume::cleared_json(previous, backup, new_id, file).get("session_file"@) == Some(JsonView::Text(file)),
{
    reveal_strlit("kind");
    reveal_strlit("previous_session_id");
    reveal_strlit("new_session_id");
    reveal_strlit("backup");
    reveal_strlit("session_file");
    assert("kind"@.len() == 4);
    assert("previous_session_id"@.len() == 19);
    assert("new_session_id"@.len() == 14);
    assert("backup"@.len() == 6);
    assert("session_file"@.len() == 12);
    let members = resume::cleared_json(previous, backup, new_id, file)->Object_0;
    json::lemma_member_at(members, 0);
    json::lemma_member_at(members, 1);
    json::lemma_member_at(members, 2);
    json::lemma_member_at(members, 3);
    json::lemma_member_at(members, 4);
}

/// The document of used tokens tells each count, and their sum.
pub proof fn law_usage_documents_tell_the_counts(kind: Seq<char>, usage: TokenUsage)
    ensures
        resume::usage_json(kind, usage).get("kind"@) == Some(JsonView::Text(kind)),
        resume::usage_json(kind, usage).get("input_tokens"@) == Some(json::number_json(usage.input_tokens as u64)),
        resume::usage_json(kind, usage).get("output_tokens"@) == Some(json::number_json(usage.output_tokens as u64)),
        resume::usage_json(kind, usage).get("cache_creation_input_tokens"@) == Some(json::number_json(usage.cache_creation_input_tokens as u64)),
        resume::usage_json(kind, usage).get("cache_read_input_tokens"@) == Some(json::number_json(usage.cache_read_input_tokens as u64)),
        resume::usage_json(kind, usage).get("total_tokens"@) == Some(json::number_json((usage.input_tokens + usage.output_tokens + usage.cache_creation_input_tokens + usage.cache_read_input_tokens) as u64)),
{
    reveal_strlit("kind");
    reveal_strlit("input_tokens");
    reveal_strlit("output_tokens");
    reveal_strlit("cache_creation_input_tokens");
    reveal_strlit("cache_read_input_tokens");
    reveal_strlit("total_tokens");
    assert("kind"@.len() == 4);
    assert("input_tokens"@.len() == 12);
    assert("output_tokens"@.len() == 13);
    assert("cache_creation_input_tokens"@.len() == 27);
    assert("cache_read_input_tokens"@.len() == 23);
    assert("total_tokens"@.len() == 12);
    assert("input_tokens"@[0] == 'i');
    assert("total_tokens"@[0] == 't');
    let members = resume::usage_json(kind, usage)->Object_0;
    json::lemma_member_at(members, 0);
    json::lemma_member_at(members, 1);
    json::lemma_member_at(members, 2);
    json::lemma_member_at(members, 3);
    json::lemma_member_at(members, 4);
    json::lemma_member_at(members, 5);
}

/// The document of an export names the file and counts the messages.
pub proof fn law_export_documents_name_the_file(file: Seq<char>, messages: usize)
    ensures
        resume::export_json(file, messages).get("kind"@) == Some(JsonView::Text("export"@)),
        resume::export_json(file, messages).get("file"@) == Some(JsonView::Text(file)),
        resume::export_json(file, messages).get("message_count"@) == Some(json::number_json(messages as u64)),
{
    reveal_strlit("kind");
    reveal_strlit("file");
    reveal_strlit("message_count");
    assert("kind"@.len() == 4);
    assert("file"@.len() == 4);
    assert("message_count"@.len() == 13);
    assert("file"@[0] == 'f');
    assert("kind"@[0] == 'k');
    let members = resume::export_json(file, messages)->Object_0;
    json::lemma_member_at(members, 0);
    json::lemma_member_at(members, 1);
    json::lemma_member_at(members, 2);
}

/// The document of a list of sessions names them and the active one.
pub proof fn law_session_documents_name_the_sessions(ids: Seq<Seq<char>>, active: Seq<char>)
    ensures
        resume::session_list_json(ids, active).get("kind"@) == Some(JsonView::Text("session_list"@)),
        resume::session_list_json(ids, active).get("sessions"@) == Some(json::texts_json(ids)),
        resume::session_list_json(ids, active).get("active"@) == Some(JsonView::Text(active)),
{
    reveal_strlit("kind");
    reveal_strlit("sessions");
    reveal_strlit("active");
    assert("kind"@.len() == 4);
    assert("sessions"@.len() == 8);
    assert("active"@.len() == 6);
    let members = resume::session_list_json(ids, active)->Object_0;
    json::lemma_member_at(members, 0);
    json::lemma_member_at(members, 1);
    json::lemma_member_at(members, 2);
}

/// A restored session is told with its identifier, its file and how many messages
/// it holds, in the form that is asked for.
pub proof fn law_restored_sessions_are_told(
    session_id: Seq<char>,
    path: Seq<char>,
    messages: usize,
)
    ensures
        resume::restored_shown(CliOutputFormat::Text, session_id, path, messages)
            matches OutputView::Text(shown) && text::contains_text(shown, "from "@ + path + " "@)
            && text::contains_text(
            shown,
            "("@ + text::decimal(messages as nat) + " messages)"@,
        ),
        resume::restored_shown(CliOutputFormat::Json, session_id, path, messages)
            matches OutputView::Compact(document) && document.get("kind"@) == Some(
            JsonView::Text("restored"@),
        ) && document.get("session_id"@) == Some(JsonView::Text(session_id)) && document.get(
            "path"@,
        ) == Some(JsonView::Text(path)) && document.get("message_count"@) == Some(
            json::number_json(messages as u64),
        ),
{
    reveal_strlit("Restored session from ");
    reveal_strlit("Restored session ");
    reveal_strlit("from ");
    assert("Restored session from "@ =~= "Restored session "@ + "from "@);
    reveal_strlit(" (");
    reveal_strlit(" ");
    reveal_strlit("(");
    assert(" ("@ =~= " "@ + "("@);
    reveal_strlit(" messages).");
    reveal_strlit(" messages)");
    reveal_strlit(".");
    assert(" messages)."@ =~= " messages)"@ + "."@);
    let count = text::decimal(messages as nat);
    let shown = "Restored session from "@ + path + " ("@ + count + " messages)."@;
    let named = "from "@ + path + " "@;
    let counted = "("@ + count + " messages)"@;
    assert(shown =~= "Restored session "@ + named + (counted + "."@));
    text::lemma_contains_part("Restored session "@, named, counted + "."@);
    assert(shown =~= ("Restored session "@ + named) + counted + "."@);
    text::lemma_contains_part("Restored session "@ + named, counted, "."@);
    reveal_strlit("kind");
    reveal_strlit("session_id");
    reveal_strlit("path");
    reveal_strlit("message_count");
    assert("kind"@.len() == 4);
    assert("session_id"@.len() == 10);
    assert("path"@.len() == 4);
    assert("message_count"@.len() == 13);
    assert("kind"@[0] == 'k');
    assert("path"@[0] == 'p');
    let document = resume::restored_shown(
        CliOutputFormat::Json,
        session_id,
        path,
        messages,
    )->Compact_0;
    let members = document->Object_0;
    json::lemma_member_at(members, 0);
    json::lemma_member_at(members, 1);
    json::lemma_member_at(members, 2);
    json::lemma_member_at(members, 3);
}

/// What a command comes to tells what was found: a failure with its error, a
/// report with its message and its document, and a text as it is.
pub proof fn law_outcomes_tell_what_was_found(action: ResumeAction, facts: ResumeFacts)
    requires
        resume::answers(action, facts),
    ensures
        ({
            let came = resume::comes_to(action, facts);
            &&& facts matches ResumeFacts::Failed(error) ==> came == Err::<OutcomeView, Seq<char>>(
                error@,
            )
            &&& action matches ResumeAction::Refuse(error) ==> came == Err::<
                OutcomeView,
                Seq<char>,
            >(error@)
            &&& action matches ResumeAction::Report(outcome) ==> came == Ok::<
                OutcomeView,
                Seq<char>,
            >(outcome.view())
            &&& !(facts is Failed) && !(action is Refuse) ==> came is Ok
            &&& facts matches ResumeFacts::Listing(listing) ==> came->Ok_0.message == Some(listing@)
                && came->Ok_0.json is Some && came->Ok_0.json->0.get("text"@) == Some(
                JsonView::Text(listing@),
            )
            &&& facts matches ResumeFacts::Report { message, json } ==> came->Ok_0.message == Some(
                message@,
            ) && came->Ok_0.json == Some(json.view())
            &&& facts matches ResumeFacts::Sessions { listing: Ok(listing), .. }
                ==> came->Ok_0.message == Some(listing@)
        }),
{
    if let ResumeFacts::Listing(listing) = facts {
        law_text_documents_hold_the_text("help"@, listing@);
        law_text_documents_hold_the_text("agents"@, listing@);
    }
}

/// The document of an outcome tells, as its kind, the command that was carried
/// out, where the outcome is made here and not handed in.
pub proof fn law_outcomes_tell_their_kind(action: ResumeAction, facts: ResumeFacts)
    requires
        resume::answers(action, facts),
        !(facts is Report),
        !(facts is Failed),
        !(facts is Nothing),
    ensures
        resume::comes_to(action, facts) matches Ok(outcome) && outcome.json is Some
            && told_kind(action) is Some && outcome.json->0.get("kind"@) == Some(
            JsonView::Text(told_kind(action)->0),
        ),
{
    match facts {
        ResumeFacts::Listing(listing) => {
            law_text_documents_hold_the_text("help"@, listing@);
            law_text_documents_hold_the_text("agents"@, listing@);
        },
        ResumeFacts::Compacted { removed, kept } => {
            law_compaction_documents_tell_the_numbers(removed, kept);
        },
        ResumeFacts::Cleared { previous, backup, new_id, file } => {
            law_clear_documents_name_both_sessions(previous@, backup@, new_id@, file@);
        },
        ResumeFacts::Used(usage) => {
            law_usage_documents_tell_the_counts("cost"@, usage);
            law_usage_documents_tell_the_counts("stats"@, usage);
        },
        ResumeFacts::Exported { file, message_count } => {
            law_export_documents_name_the_file(file@, message_count);
        },
        ResumeFacts::Prompts(entries) => {
            if let ResumeAction::History { limit } = action {
                law_history_documents_hold_the_prompts(
                    history::entry_views(entries@),
                    limit as nat,
                    0,
                );
            }
        },
        ResumeFacts::Sessions { ids, active, .. } => {
            law_session_documents_name_the_sessions(text::texts(ids@), active@);
        },
        _ => {},
    }
}

/// The document of the latest prompts counts all of them and those that it shows,
/// and holds each of these with its text and time.
pub proof fn law_history_documents_hold_the_prompts(
    entries: Seq<EntryView>,
    limit: nat,
    at: int,
)
    ensures
        ({
            let document = history::history_json(entries, limit);
            let shown = history::latest(entries, limit);
            &&& document.get("kind"@) == Some(JsonView::Text("history"@))
            &&& document.get("total"@) == Some(json::number_json(entries.len() as u64))
            &&& document.get("showing"@) == Some(json::number_json(shown.len() as u64))
            &&& document.get("entries"@) matches Some(JsonView::Array(items)) && items.len()
                == shown.len() && (0 <= at < items.len() ==> items[at].get("text"@) == Some(
                JsonView::Text(shown[at].text),
            ) && items[at].get("timestamp_ms"@) == Some(json::number_json(shown[at].timestamp_ms)))
        }),
{
    reveal_strlit("kind");
    reveal_strlit("total");
    reveal_strlit("showing");
    reveal_strlit("entries");
    reveal_strlit("text");
    reveal_strlit("timestamp_ms");
    assert("kind"@.len() == 4);
    assert("total"@.len() == 5);
    assert("showing"@.len() == 7);
    assert("entries"@.len() == 7);
    assert("text"@.len() == 4);
    assert("timestamp_ms"@.len() == 12);
    assert("entries"@[0] == 'e');
    assert("kind"@[0] == 'k');
    assert("showing"@[0] == 's');
    assert("text"@[0] == 't');
    let members = history::history_json(entries, limit)->Object_0;
    json::lemma_member_at(members, 0);
    json::lemma_member_at(members, 1);
    json::lemma_member_at(members, 2);
    json::lemma_member_at(members, 3);
    let shown = history::latest(entries, limit);
    if 0 <= at < shown.len() {
        let entry = history::entry_json(shown[at])->Object_0;
        json::lemma_member_at(entry, 0);
        json::lemma_member_at(entry, 1);
    }
}

/// A run that fails ends with an error: one for a session that cannot be
/// restored, another for a command, and the error is told with the command.
pub proof fn law_failures_end_with_their_error(
    format: CliOutputFormat,
    raw: Seq<char>,
    error: Seq<char>,
)
    ensures
        resume::restore_failed(format, error).code == 1,
        resume::command_failed(format, raw, error).code == 2,
        resume::command_failed(CliOutputFormat::Text, raw, error).output == OutputView::Text(error),
        resume::command_failed(CliOutputFormat::Json, raw, error).output
            matches OutputView::Compact(document) && document.get("error"@) == Some(
            JsonView::Text(error),
        ) && document.get("command"@) == Some(JsonView::Text(raw)) && document.get("type"@) == Some(
            JsonView::Text("error"@),
        ),
        resume::restore_failed(CliOutputFormat::Text, error).output matches OutputView::Text(shown)
            && text::has_suffix(shown, error),
{
    reveal_strlit("type");
    reveal_strlit("error");
    reveal_strlit("command");
    assert("type"@.len() == 4);
    assert("error"@.len() == 5);
    assert("command"@.len() == 7);
    let members = output::error_json(error, Some(raw))->Object_0;
    json::lemma_member_at(members, 0);
    json::lemma_member_at(members, 1);
    json::lemma_member_at(members, 2);
    text::lemma_contains_part("failed to restore session: "@, error, Seq::empty());
}

/// What an outcome shows is its document where JSON is asked for and there is one,
/// and its message otherwise.
pub proof fn law_outcomes_are_shown_as_asked(outcome: OutcomeView)
    ensures
        outcome.json matches Some(json) ==> resume::outcome_shown(CliOutputFormat::Json, outcome)
            == Some(OutputView::Indented(json)),
        outcome.message matches Some(message) ==> resume::outcome_shown(
            CliOutputFormat::Text,
            outcome,
        ) == Some(OutputView::Text(message)),
        outcome.json is None && outcome.message is Some ==> resume::outcome_shown(
            CliOutputFormat::Json,
            outcome,
        ) == resume::outcome_shown(CliOutputFormat::Text, outcome),
        outcome.message is None && outcome.json is None ==> resume::outcome_shown(
            CliOutputFormat::Json,
            outcome,
        ) is None,
{
}

/// A line names its command by the word behind the slash.
pub proof fn law_lines_name_their_command(word: Seq<char>, rest: Seq<char>)
    requires
        word.len() > 0,
        word[0] != '/',
        forall|i: int| 0 <= i < word.len() ==> !text::is_whitespace(#[trigger] word[i]),
    ensures
        resume::root_of("/"@ + word) == word,
        resume::root_of("/"@ + word + " "@ + rest) == word,
        resume::root_of(word) == word,
{
    reveal_strlit("/");
    reveal_strlit(" ");
    text_laws::law_first_word_ends_at_white_space(word, ' ', rest);
    reveal_with_fuel(text::without_leading, 2);
    assert(("/"@ + word).skip(1) =~= word);
    let spaced = word + " "@ + rest;
    assert(spaced =~= word + seq![' '] + rest);
    assert(("/"@ + word + " "@ + rest).skip(1) =~= spaced);
    assert(spaced[0] == word[0]);
}

/// A session that was loaded tells its model, and that it was restored where it
/// knows none.
pub proof fn law_loaded_sessions_tell_their_model(model: Seq<char>)
    ensures
        resume::model_told(Some(model)) == model,
        resume::model_told(None) == "restored-session"@,
{
}

} // verus!
