//! What holds of the history of prompts.

use vstd::prelude::*;

use crate::calendar;
use crate::history::{self, EntryView};
use crate::json::{self, JsonView};
use crate::messages::{BlockView, MessageRole, MessageView};
use crate::text;

verus! {

/// Twenty prompts are shown where no count is given; else as many as a number above
/// zero says. Zero and anything else is refused, and what is no number is told.
pub proof fn law_counts_are_numbers_above_zero(raw: Seq<char>, count: nat)
    ensures
        history::history_count(None) == Ok::<nat, Seq<char>>(20),
        0 < count <= usize::MAX ==> history::history_count(Some(text::decimal(count))) == Ok::<
            nat,
            Seq<char>,
        >(count),
        history::history_count(Some(text::decimal(0))) is Err,
        history::history_count(Some(raw)) is Ok ==> history::history_count(Some(raw))->Ok_0 > 0
            && text::number_in(raw, usize::MAX as nat) == Some(
            history::history_count(Some(raw))->Ok_0,
        ),
        text::number_in(raw, usize::MAX as nat) is None ==> history::history_count(Some(raw)) is Err
            && text::contains_text(
            history::history_count(Some(raw))->Err_0,
            "'"@ + raw + "'"@,
        ),
{
    if count <= usize::MAX {
        text::lemma_decimal_reads_back(count, usize::MAX as nat);
    }
    text::lemma_decimal_reads_back(0, usize::MAX as nat);
    let told = "history: invalid count '"@ + raw + "'. Expected a positive integer."@;
    assert(text::contains_text(told, "'"@ + raw + "'"@)) by {
        reveal_strlit("history: invalid count '");
        reveal_strlit("history: invalid count ");
        reveal_strlit("'");
        reveal_strlit("'. Expected a positive integer.");
        reveal_strlit(". Expected a positive integer.");
        assert("history: invalid count '"@ =~= "history: invalid count "@ + "'"@);
        assert("'. Expected a positive integer."@ =~= "'"@ + ". Expected a positive integer."@);
        let part = "'"@ + raw + "'"@;
        assert(told =~= "history: invalid count "@ + part + ". Expected a positive integer."@);
        text::lemma_contains_part(
            "history: invalid count "@,
            part,
            ". Expected a positive integer."@,
        );
    }
}

/// The first text of a message is the one that no other text stands before,
/// whatever follows it.
pub proof fn law_first_texts_have_none_before_them(
    before: Seq<BlockView>,
    said: Seq<char>,
    after: Seq<BlockView>,
)
    requires
        forall|i: int| 0 <= i < before.len() ==> (#[trigger] before[i]) !is Text,
    ensures
        history::first_text(before) is None,
        history::first_text(before.push(BlockView::Text(said)) + after) == Some(said),
    decreases before.len() + after.len(),
{
    if before.len() > 0 {
        law_first_texts_have_none_before_them(before.drop_last(), said, Seq::empty());
    }
    let head = before.push(BlockView::Text(said));
    if after.len() == 0 {
        assert(head + after =~= head);
        assert(head.drop_last() =~= before);
    } else {
        law_first_texts_have_none_before_them(before, said, after.drop_last());
        assert((head + after).drop_last() =~= head + after.drop_last());
    }
}

/// A message of the user adds its first text to the prompts; every other message,
/// and one without a text, adds nothing.
pub proof fn law_prompts_are_what_the_user_said(
    messages: Seq<MessageView>,
    message: MessageView,
    timestamp_ms: u64,
)
    ensures
        ({
            let prompts = history::prompts_in(messages.push(message), timestamp_ms);
            let known = history::prompts_in(messages, timestamp_ms);
            let said = history::first_text(message.blocks);
            &&& message.role == MessageRole::User && said is Some ==> prompts.drop_last() == known
                && prompts.last().text == said->0 && prompts.last().timestamp_ms == timestamp_ms
                && prompts.len() == known.len() + 1
            &&& message.role != MessageRole::User || said is None ==> prompts == known
        }),
        history::prompts_in(Seq::empty(), timestamp_ms).len() == 0,
{
    assert(messages.push(message).drop_last() =~= messages);
    let prompts = history::prompts_in(messages.push(message), timestamp_ms);
    let known = history::prompts_in(messages, timestamp_ms);
    if message.role == MessageRole::User && history::first_text(message.blocks) is Some {
        assert(prompts.drop_last() =~= known);
    }
}

/// Prompts that were recorded are shown before those of this run, and those before
/// the ones among the messages; a session tells its own in the same order.
pub proof fn law_recorded_prompts_go_first(
    recorded: Seq<EntryView>,
    live: Seq<EntryView>,
    messages: Seq<MessageView>,
    updated_at_ms: u64,
)
    ensures
        ({
            let shown = history::shown_prompts(recorded, live, messages, updated_at_ms);
            let own = history::session_prompts(recorded, messages, updated_at_ms);
            &&& recorded.len() > 0 ==> shown == recorded && own == recorded
            &&& recorded.len() == 0 && live.len() > 0 ==> shown == live
            &&& recorded.len() == 0 && live.len() == 0 ==> shown == own
            &&& recorded.len() == 0 ==> own == history::prompts_in(messages, updated_at_ms)
        }),
{
}

/// A prompt is recorded as it is, at the time that the clock tells, or where it
/// could not be read, at the time of the last change.
pub proof fn law_prompts_are_recorded_with_their_time(
    prompt: Seq<char>,
    now_ms: Option<u128>,
    updated_at_ms: u64,
)
    ensures
        ({
            let entry = history::recorded_entry(prompt, now_ms, updated_at_ms);
            &&& entry.text == prompt
            &&& now_ms is None ==> entry.timestamp_ms == updated_at_ms
            &&& now_ms is Some && now_ms->0 <= u64::MAX ==> entry.timestamp_ms == now_ms->0
            &&& now_ms is Some && now_ms->0 > u64::MAX ==> entry.timestamp_ms == u64::MAX
        }),
{
}

/// As many prompts are shown as were asked for, or all where there are fewer.
pub proof fn law_as_many_are_shown_as_asked_for(entries: Seq<EntryView>, limit: nat)
    ensures
        entries.len() >= limit ==> history::latest(entries, limit).len() == limit,
        entries.len() <= limit ==> history::latest(entries, limit) == entries,
        limit > 0 && entries.len() > 0 ==> history::latest(entries, limit).last()
            == entries.last(),
{
}

/// A prompt is shown by its first line without the white space around it, in no
/// more than 80 characters; a longer line is cut and ends in dots.
pub proof fn law_prompts_are_shown_in_one_line(prompt: Seq<char>)
    ensures
        history::prompt_line(prompt).len() <= 80,
        text::lines_of(prompt).len() == 0 ==> history::prompt_line(prompt).len() == 0,
        text::lines_of(prompt).len() > 0 ==> ({
            let first = text::trimmed(text::lines_of(prompt)[0]);
            &&& first.len() <= 80 ==> history::prompt_line(prompt) == first
            &&& first.len() > 80 ==> history::prompt_line(prompt).len() == 80
                && history::prompt_line(prompt).take(77) == first.take(77) && text::has_suffix(
                history::prompt_line(prompt),
                "..."@,
            )
        }),
{
    reveal_strlit("...");
    assert("..."@.len() == 3);
    if text::lines_of(prompt).len() > 0 {
        let first = text::trimmed(text::lines_of(prompt)[0]);
        if first.len() > 80 {
            let line = history::prompt_line(prompt);
            assert(line.take(77) =~= first.take(77));
            text::lemma_contains_part(first.take(77), "..."@, Seq::empty());
            assert(first.take(77) + "..."@ + Seq::<char>::empty() =~= line);
        }
    }
}

proof fn lemma_entry_is_told(report: Seq<char>, count: Seq<char>, time: Seq<char>, line: Seq<char>)
    requires
        report == "\n  "@ + count + ". ["@ + time + "] "@ + line,
    ensures
        text::contains_text(report, "  "@ + count + "."@),
        text::contains_text(report, ". ["@ + time + "]"@),
        text::has_suffix(report, "] "@ + line),
{
    assert(text::contains_text(report, "  "@ + count + "."@)) by {
        reveal_strlit("\n  ");
        reveal_strlit("\n");
        reveal_strlit("  ");
        reveal_strlit(". [");
        reveal_strlit(".");
        reveal_strlit(" [");
        assert("\n  "@ =~= "\n"@ + "  "@);
        assert(". ["@ =~= "."@ + " ["@);
        let before = "\n"@;
        let part = "  "@ + count + "."@;
        let after = " ["@ + time + "] "@ + line;
        assert(report =~= before + part + after);
        text::lemma_contains_part(before, part, after);
    }
    assert(text::contains_text(report, ". ["@ + time + "]"@)) by {
        reveal_strlit(". [");
        reveal_strlit("] ");
        reveal_strlit("]");
        reveal_strlit(" ");
        assert("] "@ =~= "]"@ + " "@);
        let before = "\n  "@ + count;
        let part = ". ["@ + time + "]"@;
        let after = " "@ + line;
        assert(report =~= before + part + after);
        text::lemma_contains_part(before, part, after);
    }
    assert(text::has_suffix(report, "] "@ + line)) by {
        reveal_strlit("] ");
        let before = "\n  "@ + count + ". ["@ + time;
        let part = "] "@ + line;
        let after = Seq::<char>::empty();
        assert(report =~= before + part + after);
        text::lemma_contains_part(before, part, after);
        assert(before + part + after =~= before + part);
    }
}

/// The line of a prompt tells its number, its time and the prompt.
pub proof fn law_entries_tell_number_time_and_prompt(number: nat, entry: EntryView)
    ensures
        text::contains_text(history::entry_line(number, entry), "  "@ + text::left_padded(text::decimal(number), ' ', 3) + "."@),
        text::contains_text(history::entry_line(number, entry), ". ["@ + calendar::timestamp_text(entry.timestamp_ms as nat) + "]"@),
        text::has_suffix(history::entry_line(number, entry), "] "@ + history::prompt_line(entry.text)),
{
    lemma_entry_is_told(history::entry_line(number, entry), text::left_padded(text::decimal(number), ' ', 3), calendar::timestamp_text(entry.timestamp_ms as nat), history::prompt_line(entry.text));
}

/// Prompts are told one after the other, with numbers that count on.
pub proof fn law_entries_are_numbered_in_order(entries: Seq<EntryView>, entry: EntryView, from: nat)
    ensures
        history::entry_lines(Seq::empty(), from).len() == 0,
        history::entry_lines(entries.push(entry), from) == history::entry_lines(entries, from)
            + history::entry_line(from + entries.len() + 1, entry),
{
    assert(entries.push(entry).drop_last() =~= entries);
}

proof fn lemma_history_is_told(report: Seq<char>, total: Seq<char>, shown: Seq<char>, lines: Seq<char>)
    requires
        report == "Prompt history\n  Total            "@ + total + "\n  Showing          "@ + shown + " most recent\n  Reverse search   Ctrl-R in the REPL\n"@ + lines,
    ensures
        text::contains_text(report, "  Total            "@ + total + "\n"@),
        text::contains_text(report, "  Showing          "@ + shown + " "@),
        text::has_suffix(report, ""@ + lines),
{
    assert(text::contains_text(report, "  Total            "@ + total + "\n"@)) by {
        reveal_strlit("Prompt history\n  Total            ");
        reveal_strlit("Prompt history\n");
        reveal_strlit("  Total            ");
        reveal_strlit("\n  Showing          ");
        reveal_strlit("\n");
        reveal_strlit("  Showing          ");
        assert("Prompt history\n  Total            "@ =~= "Prompt history\n"@ + "  Total            "@);
        assert("\n  Showing          "@ =~= "\n"@ + "  Showing          "@);
        let before = "Prompt history\n"@;
        let part = "  Total            "@ + total + "\n"@;
        let after = "  Showing          "@ + shown + " most recent\n  Reverse search   Ctrl-R in the REPL\n"@ + lines;
        assert(report =~= before + part + after);
        text::lemma_contains_part(before, part, after);
    }
    assert(text::contains_text(report, "  Showing          "@ + shown + " "@)) by {
        reveal_strlit("\n  Showing          ");
        reveal_strlit("\n");
        reveal_strlit("  Showing          ");
        reveal_strlit(" most recent\n  Reverse search   Ctrl-R in the REPL\n");
        reveal_strlit(" ");
        reveal_strlit("most recent\n  Reverse search   Ctrl-R in the REPL\n");
        assert("\n  Showing          "@ =~= "\n"@ + "  Showing          "@);
        assert(" most recent\n  Reverse search   Ctrl-R in the REPL\n"@ =~= " "@ + "most recent\n  Reverse search   Ctrl-R in the REPL\n"@);
        let before = "Prompt history\n  Total            "@ + total + "\n"@;
        let part = "  Showing          "@ + shown + " "@;
        let after = "most recent\n  Reverse search   Ctrl-R in the REPL\n"@ + lines;
        assert(report =~= before + part + after);
        text::lemma_contains_part(before, part, after);
    }
    assert(text::has_suffix(report, ""@ + lines)) by {
        reveal_strlit(" most recent\n  Reverse search   Ctrl-R in the REPL\n");
        reveal_strlit("");
        assert(" most recent\n  Reverse search   Ctrl-R in the REPL\n"@ =~= " most recent\n  Reverse search   Ctrl-R in the REPL\n"@ + ""@);
        let before = "Prompt history\n  Total            "@ + total + "\n  Showing          "@ + shown + " most recent\n  Reverse search   Ctrl-R in the REPL\n"@;
        let part = ""@ + lines;
        let after = Seq::<char>::empty();
        assert(report =~= before + part + after);
        text::lemma_contains_part(before, part, after);
        assert(before + part + after =~= before + part);
    }
}

/// The report tells how many prompts there are and how many of them it shows, and
/// then shows them, with the number that each has among all.
pub proof fn law_histories_tell_total_and_shown(entries: Seq<EntryView>, limit: nat)
    requires
        entries.len() > 0,
    ensures
        text::contains_text(history::history_report(entries, limit), "  Total            "@ + text::decimal(entries.len()) + "\n"@),
        text::contains_text(history::history_report(entries, limit), "  Showing          "@ + text::decimal(history::latest(entries, limit).len()) + " "@),
        text::has_suffix(history::history_report(entries, limit), ""@ + history::entry_lines(
                history::latest(entries, limit),
                (entries.len() - history::latest(entries, limit).len()) as nat,
            )),
{
    lemma_history_is_told(history::history_report(entries, limit), text::decimal(entries.len()), text::decimal(history::latest(entries, limit).len()), history::entry_lines(
                history::latest(entries, limit),
                (entries.len() - history::latest(entries, limit).len()) as nat,
            ));
}

/// Where there are no prompts the report says so.
pub proof fn law_empty_histories_are_told(limit: nat)
    ensures
        text::has_suffix(
            history::history_report(Seq::empty(), limit),
            "no prompts recorded yet"@,
        ),
{
    reveal_strlit("Prompt history\n  Result           no prompts recorded yet");
    reveal_strlit("Prompt history\n  Result           ");
    reveal_strlit("no prompts recorded yet");
    let head = "Prompt history\n  Result           "@;
    let tail = "no prompts recorded yet"@;
    assert(history::history_report(Seq::empty(), limit) =~= head + tail + Seq::<char>::empty());
    text::lemma_contains_part(head, tail, Seq::empty());
}

/// The document of a prompt holds its time and its text.
pub proof fn law_entry_documents_hold_time_and_text(entry: EntryView)
    ensures
        history::entry_json(entry).get("timestamp_ms"@) == Some(json::number_json(entry.timestamp_ms)),
        history::entry_json(entry).get("text"@) == Some(JsonView::Text(entry.text)),
{
    reveal_strlit("timestamp_ms");
    reveal_strlit("text");
    assert("timestamp_ms"@.len() == 12);
    assert("text"@.len() == 4);
    let members = history::entry_json(entry)->Object_0;
    json::lemma_member_at(members, 0);
    json::lemma_member_at(members, 1);
}

/// The document of the prompts holds how many there are, how many are shown, and
/// those that are shown.
pub proof fn law_history_documents_hold_what_is_shown(entries: Seq<EntryView>, limit: nat, at: int)
    ensures
        history::history_json(entries, limit).get("kind"@) == Some(JsonView::Text("history"@)),
        history::history_json(entries, limit).get("total"@) == Some(json::number_json(entries.len() as u64)),
        history::history_json(entries, limit).get("showing"@) == Some(json::number_json(history::latest(entries, limit).len() as u64)),
        ({
            let shown = history::history_json(entries, limit).get("entries"@)->0;
            &&& shown is Array
            &&& shown->Array_0.len() == history::latest(entries, limit).len()
            &&& 0 <= at < shown->Array_0.len() ==> shown->Array_0[at] == history::entry_json(
                history::latest(entries, limit)[at],
            )
        }),
{
    reveal_strlit("kind");
    reveal_strlit("total");
    reveal_strlit("showing");
    reveal_strlit("entries");
    assert("kind"@.len() == 4);
    assert("total"@.len() == 5);
    assert("showing"@.len() == 7);
    assert("entries"@.len() == 7);
    assert("entries"@[0] == 'e');
    assert("showing"@[0] == 's');
    let members = history::history_json(entries, limit)->Object_0;
    json::lemma_member_at(members, 0);
    json::lemma_member_at(members, 1);
    json::lemma_member_at(members, 2);
    json::lemma_member_at(members, 3);
}

} // verus!
