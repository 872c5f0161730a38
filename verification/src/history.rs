//! The prompts of a session.

use vstd::prelude::*;

use crate::calendar;
use crate::json::{self, Json, JsonObject, JsonView};
use crate::messages::{self, BlockView, ContentBlock, ConversationMessage, MessageRole, MessageView};
use crate::text;

verus! {

/// How many prompts are shown where no count is given.
pub const DEFAULT_HISTORY_LIMIT: usize = 20;

/// A prompt and the time it was given at, in milliseconds since the start of
/// 1970.
#[derive(Debug, PartialEq, Eq)]
pub struct PromptHistoryEntry {
    pub timestamp_ms: u64,
    pub text: String,
}

pub struct EntryView {
    pub timestamp_ms: u64,
    pub text: Seq<char>,
}

impl PromptHistoryEntry {
    pub open spec fn view(&self) -> EntryView {
        EntryView { timestamp_ms: self.timestamp_ms, text: self.text@ }
    }
}

pub open spec fn entry_views(entries: Seq<PromptHistoryEntry>) -> Seq<EntryView> {
    entries.map_values(|e: PromptHistoryEntry| e.view())
}

// ---------------------------------------------------------------------------
// How many
// ---------------------------------------------------------------------------

/// How many prompts a request asks for: a number above zero.
pub open spec fn history_count(raw: Option<Seq<char>>) -> Result<nat, Seq<char>> {
    match raw {
        None => Ok(DEFAULT_HISTORY_LIMIT as nat),
        Some(raw) => match text::number_in(raw, usize::MAX as nat) {
            None => Err(
                "history: invalid count '"@ + raw + "'. Expected a positive integer."@,
            ),
            Some(count) => if count == 0 {
                Err("history: count must be greater than 0."@)
            } else {
                Ok(count)
            },
        },
    }
}

pub open spec fn count_view(r: Result<usize, String>) -> Result<nat, Seq<char>> {
    match r {
        Ok(count) => Ok(count as nat),
        Err(message) => Err(message@),
    }
}

pub fn parse_history_count(raw: Option<&str>) -> (r: Result<usize, String>)
    ensures
        count_view(r) == history_count(text::opt_str(raw)),
{
    match raw {
        None => Ok(DEFAULT_HISTORY_LIMIT),
        Some(raw) => match text::parse_usize(raw) {
            None => {
                let mut message = "history: invalid count '".to_string();
                message.append(raw);
                message.append("'. Expected a positive integer.");
                Err(message)
            },
            Some(count) => if count == 0 {
                Err("history: count must be greater than 0.".to_string())
            } else {
                Ok(count)
            },
        },
    }
}

// ---------------------------------------------------------------------------
// Which
// ---------------------------------------------------------------------------

/// The first text of a message.
pub open spec fn first_text(blocks: Seq<BlockView>) -> Option<Seq<char>>
    decreases blocks.len(),
{
    if blocks.len() == 0 {
        None
    } else {
        match first_text(blocks.drop_last()) {
            Some(text) => Some(text),
            None => match blocks.last() {
                BlockView::Text(text) => Some(text),
                _ => None,
            },
        }
    }
}

/// The prompts among messages: the first text of each message of the user.
pub open spec fn prompts_in(messages: Seq<MessageView>, timestamp_ms: u64) -> Seq<EntryView>
    decreases messages.len(),
{
    if messages.len() == 0 {
        Seq::empty()
    } else {
        let front = prompts_in(messages.drop_last(), timestamp_ms);
        let message = messages.last();
        if message.role == MessageRole::User {
            match first_text(message.blocks) {
                Some(text) => front.push(EntryView { timestamp_ms, text }),
                None => front,
            }
        } else {
            front
        }
    }
}

/// The prompts that a session knows of: those that it recorded, and where there
/// are none, those among its messages.
pub open spec fn session_prompts(
    recorded: Seq<EntryView>,
    messages: Seq<MessageView>,
    updated_at_ms: u64,
) -> Seq<EntryView> {
    if recorded.len() > 0 {
        recorded
    } else {
        prompts_in(messages, updated_at_ms)
    }
}

fn find_first_text(blocks: &Vec<ContentBlock>) -> (r: Option<&str>)
    ensures
        text::opt_str(r) == first_text(messages::block_views(blocks@)),
{
    let ghost all = messages::block_views(blocks@);
    let mut i: usize = 0;
    assert(all.take(0) =~= Seq::empty());
    while i < blocks.len()
        invariant
            i <= blocks@.len(),
            all == messages::block_views(blocks@),
            first_text(all.take(i as int)) is None,
        decreases blocks.len() - i,
    {
        assert(all.take(i + 1).drop_last() =~= all.take(i as int));
        assert(all.take(i + 1).last() == blocks@[i as int].view());
        match &blocks[i] {
            ContentBlock::Text { text } => {
                proof {
                    lemma_first_text_is_kept(all, i + 1);
                }
                return Some(text.as_str());
            },
            _ => {},
        }
        i += 1;
    }
    assert(all.take(i as int) =~= all);
    None
}

proof fn lemma_first_text_is_kept(blocks: Seq<BlockView>, n: int)
    requires
        0 <= n <= blocks.len(),
        first_text(blocks.take(n)) is Some,
    ensures
        first_text(blocks) == first_text(blocks.take(n)),
    decreases blocks.len() - n,
{
    if n < blocks.len() {
        assert(blocks.take(n + 1).drop_last() =~= blocks.take(n));
        lemma_first_text_is_kept(blocks, n + 1);
    } else {
        assert(blocks.take(n) =~= blocks);
    }
}

fn clone_entries(entries: &Vec<PromptHistoryEntry>) -> (r: Vec<PromptHistoryEntry>)
    ensures
        entry_views(r@) == entry_views(entries@),
{
    let mut out: Vec<PromptHistoryEntry> = Vec::new();
    let mut i: usize = 0;
    while i < entries.len()
        invariant
            i <= entries@.len(),
            out@.len() == i,
            forall|j: int| 0 <= j < i ==> (#[trigger] out@[j]).view() == entries@[j].view(),
        decreases entries.len() - i,
    {
        out.push(
            PromptHistoryEntry {
                timestamp_ms: entries[i].timestamp_ms,
                text: entries[i].text.clone(),
            },
        );
        i += 1;
    }
    assert(entry_views(out@) =~= entry_views(entries@));
    out
}

/// The prompts that a session knows of.
pub fn collect_session_prompt_history(
    recorded: &Vec<PromptHistoryEntry>,
    messages: &Vec<ConversationMessage>,
    updated_at_ms: u64,
) -> (r: Vec<PromptHistoryEntry>)
    ensures
        entry_views(r@) == session_prompts(
            entry_views(recorded@),
            messages::message_views(messages@),
            updated_at_ms,
        ),
{
    if !recorded.is_empty() {
        return clone_entries(recorded);
    }
    let ghost all = messages::message_views(messages@);
    let mut out: Vec<PromptHistoryEntry> = Vec::new();
    let mut i: usize = 0;
    assert(all.take(0) =~= Seq::empty());
    assert(entry_views(out@) =~= Seq::empty());
    while i < messages.len()
        invariant
            i <= messages@.len(),
            all == messages::message_views(messages@),
            entry_views(out@) == prompts_in(all.take(i as int), updated_at_ms),
        decreases messages.len() - i,
    {
        assert(all.take(i + 1).drop_last() =~= all.take(i as int));
        assert(all.take(i + 1).last() == messages@[i as int].view());
        let ghost before = out@;
        match messages[i].role {
            MessageRole::User => match find_first_text(&messages[i].blocks) {
                Some(text) => {
                    out.push(
                        PromptHistoryEntry { timestamp_ms: updated_at_ms, text: text.to_string() },
                    );
                    assert(entry_views(out@) =~= entry_views(before).push(out@.last().view()));
                },
                None => {},
            },
            _ => {},
        }
        i += 1;
    }
    assert(all.take(i as int) =~= all);
    out
}

/// The prompts that are shown: those that the session recorded, else those of
/// this run, else those among its messages.
pub open spec fn shown_prompts(
    recorded: Seq<EntryView>,
    live: Seq<EntryView>,
    messages: Seq<MessageView>,
    updated_at_ms: u64,
) -> Seq<EntryView> {
    if recorded.len() > 0 {
        recorded
    } else if live.len() > 0 {
        live
    } else {
        prompts_in(messages, updated_at_ms)
    }
}

pub fn choose_prompt_history(
    recorded: &Vec<PromptHistoryEntry>,
    live: &Vec<PromptHistoryEntry>,
    messages: &Vec<ConversationMessage>,
    updated_at_ms: u64,
) -> (r: Vec<PromptHistoryEntry>)
    ensures
        entry_views(r@) == shown_prompts(
            entry_views(recorded@),
            entry_views(live@),
            messages::message_views(messages@),
            updated_at_ms,
        ),
{
    if !recorded.is_empty() {
        clone_entries(recorded)
    } else if !live.is_empty() {
        clone_entries(live)
    } else {
        collect_session_prompt_history(recorded, messages, updated_at_ms)
    }
}

/// The entry of a prompt given now; `now_ms` is the time where the clock could
/// be read, and counts at most to the largest number.
pub open spec fn recorded_entry(
    prompt: Seq<char>,
    now_ms: Option<u128>,
    updated_at_ms: u64,
) -> EntryView {
    EntryView {
        timestamp_ms: match now_ms {
            Some(now) => if now <= u64::MAX {
                now as u64
            } else {
                u64::MAX
            },
            None => updated_at_ms,
        },
        text: prompt,
    }
}

/// Adds a prompt given now to the prompts of this run.
pub fn record_prompt_history(
    live: &mut Vec<PromptHistoryEntry>,
    prompt: &str,
    now_ms: Option<u128>,
    updated_at_ms: u64,
)
    ensures
        entry_views(final(live)@) == entry_views(old(live)@).push(
            recorded_entry(prompt@, now_ms, updated_at_ms),
        ),
{
    let timestamp_ms: u64 = match now_ms {
        Some(now) => if now <= u64::MAX as u128 {
            now as u64
        } else {
            u64::MAX
        },
        None => updated_at_ms,
    };
    live.push(PromptHistoryEntry { timestamp_ms, text: prompt.to_string() });
    assert(entry_views(live@) =~= entry_views(old(live)@).push(
        recorded_entry(prompt@, now_ms, updated_at_ms),
    ));
}

// ---------------------------------------------------------------------------
// The report
// ---------------------------------------------------------------------------

/// The last `limit` entries.
pub open spec fn latest(entries: Seq<EntryView>, limit: nat) -> Seq<EntryView> {
    if entries.len() <= limit {
        entries
    } else {
        entries.skip(entries.len() - limit)
    }
}

/// The first line of a prompt, cut to what fits on a line of the report.
pub open spec fn prompt_line(prompt: Seq<char>) -> Seq<char> {
    let lines = text::lines_of(prompt);
    let first = if lines.len() > 0 {
        text::trimmed(lines[0])
    } else {
        Seq::empty()
    };
    if first.len() > 80 {
        first.take(77) + "..."@
    } else {
        first
    }
}

/// The line of the entry with this number, counted from one.
pub open spec fn entry_line(number: nat, entry: EntryView) -> Seq<char> {
    "\n  "@ + text::left_padded(text::decimal(number), ' ', 3) + ". ["@ + calendar::timestamp_text(
        entry.timestamp_ms as nat,
    ) + "] "@ + prompt_line(entry.text)
}

/// The lines of entries, the first of which has the number `from + 1`.
pub open spec fn entry_lines(entries: Seq<EntryView>, from: nat) -> Seq<char>
    decreases entries.len(),
{
    if entries.len() == 0 {
        Seq::empty()
    } else {
        entry_lines(entries.drop_last(), from) + entry_line(from + entries.len(), entries.last())
    }
}

/// The report of the last `limit` prompts.
pub open spec fn history_report(entries: Seq<EntryView>, limit: nat) -> Seq<char> {
    if entries.len() == 0 {
        "Prompt history\n  Result           no prompts recorded yet"@
    } else {
        let shown = latest(entries, limit);
        "Prompt history\n  Total            "@ + text::decimal(entries.len())
            + "\n  Showing          "@ + text::decimal(shown.len())
            + " most recent\n  Reverse search   Ctrl-R in the REPL\n"@ + entry_lines(
            shown,
            (entries.len() - shown.len()) as nat,
        )
    }
}

fn format_prompt_line(prompt: &str) -> (r: String)
    ensures
        r@ == prompt_line(prompt@),
{
    let lines = text::lines(prompt);
    let ghost all = text::lines_of(prompt@);
    assert(text::texts(lines@) == all);
    if lines.is_empty() {
        return String::new();
    }
    assert(all[0] == lines@[0]@);
    let first = text::trim(lines[0].as_str());
    if first.unicode_len() > 80 {
        let mut out = text::take_chars(first, 77).to_string();
        out.append("...");
        out
    } else {
        first.to_string()
    }
}

fn format_entry(number: usize, entry: &PromptHistoryEntry) -> (r: String)
    ensures
        r@ == entry_line(number as nat, entry.view()),
{
    let mut out = "\n  ".to_string();
    out.append(text::pad_left(text::decimal_usize(number).as_str(), ' ', 3).as_str());
    out.append(". [");
    out.append(calendar::format_history_timestamp(entry.timestamp_ms).as_str());
    out.append("] ");
    out.append(format_prompt_line(entry.text.as_str()).as_str());
    out
}

/// Where the entries that are shown start.
fn shown_from(entries: &Vec<PromptHistoryEntry>, limit: usize) -> (r: usize)
    ensures
        r <= entries@.len(),
        latest(entry_views(entries@), limit as nat) == entry_views(entries@).skip(r as int),
{
    let ghost all = entry_views(entries@);
    if entries.len() <= limit {
        assert(all.skip(0) =~= all);
        0
    } else {
        entries.len() - limit
    }
}

pub fn render_prompt_history_report(entries: &Vec<PromptHistoryEntry>, limit: usize) -> (r: String)
    ensures
        r@ == history_report(entry_views(entries@), limit as nat),
{
    if entries.is_empty() {
        return "Prompt history\n  Result           no prompts recorded yet".to_string();
    }
    let ghost all = entry_views(entries@);
    let start: usize = shown_from(entries, limit);
    let ghost shown = all.skip(start as int);
    let mut out = "Prompt history\n  Total            ".to_string();
    out.append(text::decimal_usize(entries.len()).as_str());
    out.append("\n  Showing          ");
    out.append(text::decimal_usize(entries.len() - start).as_str());
    out.append(" most recent\n  Reverse search   Ctrl-R in the REPL\n");
    let ghost head = out@;
    let mut lines = String::new();
    let mut i: usize = start;
    assert(shown.take(0) =~= Seq::empty());
    while i < entries.len()
        invariant
            start <= i <= entries@.len(),
            all == entry_views(entries@),
            shown == all.skip(start as int),
            lines@ == entry_lines(shown.take(i - start), start as nat),
        decreases entries.len() - i,
    {
        assert(shown.take(i - start + 1).drop_last() =~= shown.take(i - start));
        assert(shown.take(i - start + 1).last() == entries@[i as int].view());
        lines.append(format_entry(i + 1, &entries[i]).as_str());
        i += 1;
    }
    assert(shown.take(i - start) =~= shown);
    out.append(lines.as_str());
    out
}

/// The document of an entry.
pub open spec fn entry_json(entry: EntryView) -> JsonView {
    JsonView::Object(
        seq![
            ("timestamp_ms"@, json::number_json(entry.timestamp_ms)),
            ("text"@, JsonView::Text(entry.text)),
        ],
    )
}

/// The document of the last `limit` prompts.
pub open spec fn history_json(entries: Seq<EntryView>, limit: nat) -> JsonView {
    let shown = latest(entries, limit);
    JsonView::Object(
        seq![
            ("kind"@, JsonView::Text("history"@)),
            ("total"@, json::number_json(entries.len() as u64)),
            ("showing"@, json::number_json(shown.len() as u64)),
            (
                "entries"@,
                JsonView::Array(shown.map_values(|entry: EntryView| entry_json(entry))),
            ),
        ],
    )
}

fn entry_document(entry: &PromptHistoryEntry) -> (r: Json)
    ensures
        r.view() == entry_json(entry.view()),
{
    let mut object = JsonObject::new();
    object.put("timestamp_ms", Json::of_u64(entry.timestamp_ms));
    object.put("text", Json::of_str(entry.text.as_str()));
    assert(object.view() =~= entry_json(entry.view())->Object_0);
    object.done()
}

/// The document of the last `limit` prompts.
pub fn prompt_history_document(entries: &Vec<PromptHistoryEntry>, limit: usize) -> (r: Json)
    ensures
        r.view() == history_json(entry_views(entries@), limit as nat),
{
    let ghost all = entry_views(entries@);
    let start: usize = shown_from(entries, limit);
    let ghost shown = all.skip(start as int);
    let mut items: Vec<Json> = Vec::new();
    let mut i: usize = start;
    while i < entries.len()
        invariant
            start <= i <= entries@.len(),
            all == entry_views(entries@),
            shown == all.skip(start as int),
            items@.len() == i - start,
            forall|j: int| 0 <= j < items@.len() ==> (#[trigger] items@[j]).view() == entry_json(shown[j]),
        decreases entries.len() - i,
    {
        items.push(entry_document(&entries[i]));
        i += 1;
    }
    let showing: usize = entries.len() - start;
    assert(json::json_views(items@) =~= shown.map_values(|entry: EntryView| entry_json(entry)));
    let mut object = JsonObject::new();
    object.put("kind", Json::of_str("history"));
    object.put("total", Json::of_u64(entries.len() as u64));
    object.put("showing", Json::of_u64(showing as u64));
    object.put("entries", Json::of_items(items));
    assert(object.view() =~= history_json(all, limit as nat)->Object_0);
    object.done()
}

/// At most `limit` prompts are shown, and they are the last ones.
pub proof fn law_latest_prompts_are_the_last(entries: Seq<EntryView>, limit: nat)
    ensures
        latest(entries, limit).len() <= limit,
        latest(entries, limit).len() <= entries.len(),
        forall|i: int|
            0 <= i < latest(entries, limit).len() ==> #[trigger] latest(entries, limit)[i]
                == entries[entries.len() - latest(entries, limit).len() + i],
{
}

} // verus!
