//! Diagnostics of streamed tool calls: the lines that the debug log gets.

use std::collections::BTreeMap;

use vstd::prelude::*;

use crate::json;
use crate::stream::{self, ContentBlockDelta, OutputContentBlock, PendingTool, PendingView, StreamEvent};
use crate::text;
use crate::tool_display;

verus! {

broadcast use vstd::std_specs::btree::group_btree_axioms;

// ---------------------------------------------------------------------------
// Inputs
// ---------------------------------------------------------------------------

/// The first `limit` characters of a text as a JSON string.
pub open spec fn quoted_prefix(input: Seq<char>, limit: nat) -> Seq<char> {
    json::json_literal(text::prefix_of(input, limit))
}

/// The last `limit` characters of a text as a JSON string.
pub open spec fn quoted_suffix(input: Seq<char>, limit: nat) -> Seq<char> {
    json::json_literal(text::suffix_of(input, limit))
}

pub fn json_debug_string(input: &str, limit: usize) -> (r: String)
    ensures
        r@ == quoted_prefix(input@, limit as nat),
{
    json::quote(text::take_chars(input, limit))
}

pub fn json_debug_suffix(input: &str, limit: usize) -> (r: String)
    ensures
        r@ == quoted_suffix(input@, limit as nat),
{
    json::quote(text::take_last_chars(input, limit))
}

/// The sizes of an input and its two ends, one on each line, where the ends are
/// given as JSON strings.
pub open spec fn input_report(
    label: Seq<char>,
    input: Seq<char>,
    limit: nat,
    prefix: Seq<char>,
    suffix: Seq<char>,
) -> Seq<char> {
    label + "_bytes="@ + text::decimal(tool_display::byte_len(input) as nat) + "\n"@ + label
        + "_chars="@ + text::decimal(input.len()) + "\n"@ + label + "_trimmed_empty="@
        + text::bool_text(text::is_blank(input)) + "\n"@ + label + "_full_available="@
        + text::bool_text(input.len() <= limit) + "\n"@ + label + "_prefix="@ + prefix + "\n"@
        + label + "_suffix="@ + suffix
}

/// The sizes of an input and its two ends.
pub open spec fn input_summary(label: Seq<char>, input: Seq<char>, limit: nat) -> Seq<char> {
    input_report(label, input, limit, quoted_prefix(input, limit), quoted_suffix(input, limit))
}

/// The report on an input, from its two ends as JSON strings.
pub fn report_input(label: &str, input: &str, limit: usize, prefix: &str, suffix: &str) -> (r:
    String)
    ensures
        r@ == input_report(label@, input@, limit as nat, prefix@, suffix@),
{
    proof {
        text::lemma_trimmed_empty_iff_blank(input@);
    }
    let chars: usize = input.unicode_len();
    let mut out = label.to_string();
    out.append("_bytes=");
    out.append(text::decimal_usize(input.len()).as_str());
    out.append("\n");
    out.append(label);
    out.append("_chars=");
    out.append(text::decimal_usize(chars).as_str());
    out.append("\n");
    out.append(label);
    out.append("_trimmed_empty=");
    out.append(text::bool_str(text::trim(input).is_empty()));
    out.append("\n");
    out.append(label);
    out.append("_full_available=");
    out.append(text::bool_str(chars <= limit));
    out.append("\n");
    out.append(label);
    out.append("_prefix=");
    out.append(prefix);
    out.append("\n");
    out.append(label);
    out.append("_suffix=");
    out.append(suffix);
    out
}

pub fn debug_labeled_json_input_summary(label: &str, input: &str, limit: usize) -> (r: String)
    ensures
        r@ == input_summary(label@, input@, limit as nat),
{
    report_input(
        label,
        input,
        limit,
        json_debug_string(input, limit).as_str(),
        json_debug_suffix(input, limit).as_str(),
    )
}

pub fn debug_json_input_summary(input: &str, limit: usize) -> (r: String)
    ensures
        r@ == input_summary("input"@, input@, limit as nat),
{
    debug_labeled_json_input_summary("input", input, limit)
}

/// The summary of an input that another part of the program holds as a document.
pub fn debug_json_value_summary(value: &serde_json::Value, limit: usize) -> (r: String)
    ensures
        r@ == input_summary("input"@, json::json_compact(json::value_json(*value)), limit as nat),
{
    debug_json_input_summary(json::compact_text(value).as_str(), limit)
}

// ---------------------------------------------------------------------------
// Sampling
// ---------------------------------------------------------------------------

/// Whether an event is logged by the interactive client.
pub open spec fn client_logs(event: StreamEvent) -> bool {
    !(event matches StreamEvent::ContentBlockDelta { delta, .. } && (delta is TextDelta
        || delta is InputJsonDelta))
}

/// Whether an event is logged by a sub-agent.
pub open spec fn agent_logs(event: StreamEvent) -> bool {
    !(event matches StreamEvent::ContentBlockDelta { delta, .. } && delta is TextDelta)
}

/// Whether the piece with this number is logged.
pub open spec fn piece_is_logged(number: nat) -> bool {
    number == 1 || (number > 0 && number % 32 == 0)
}

/// Whether an event is logged by the interactive client: all are but the pieces
/// of texts and of tool inputs.
pub fn should_log_stream_event_for_tool_diagnostics(event: &StreamEvent) -> (r: bool)
    ensures
        r == client_logs(*event),
{
    match event {
        StreamEvent::ContentBlockDelta { delta, .. } => match delta {
            ContentBlockDelta::TextDelta { .. } => false,
            ContentBlockDelta::InputJsonDelta { .. } => false,
            _ => true,
        },
        _ => true,
    }
}

/// Whether an event is logged by a sub-agent: all are but the pieces of texts.
pub fn should_log_agent_stream_event(event: &StreamEvent) -> (r: bool)
    ensures
        r == agent_logs(*event),
{
    match event {
        StreamEvent::ContentBlockDelta { delta, .. } => match delta {
            ContentBlockDelta::TextDelta { .. } => false,
            _ => true,
        },
        _ => true,
    }
}

/// Whether the piece with this number is logged: the first, and every
/// thirty-second.
pub fn should_log_streamed_tool_input_delta(delta_count: usize) -> (r: bool)
    ensures
        r == piece_is_logged(delta_count as nat),
{
    delta_count > 0 && (delta_count == 1 || delta_count % 32 == 0)
}

// ---------------------------------------------------------------------------
// Events
// ---------------------------------------------------------------------------

pub open spec fn or_none(o: Option<Seq<char>>) -> Seq<char> {
    match o {
        Some(s) => s,
        None => "none"@,
    }
}

fn str_or_none(o: &Option<String>) -> (r: &str)
    ensures
        r@ == or_none(text::opt_text(*o)),
{
    match o {
        Some(s) => s.as_str(),
        None => "none",
    }
}

/// The line of the debug log for an event.
pub open spec fn event_summary(event: StreamEvent, limit: nat) -> Seq<char> {
    match event {
        StreamEvent::MessageStart { content } => "event=message_start\ncontent_blocks="@
            + text::decimal(content@.len()),
        StreamEvent::ContentBlockStart { index, content_block } => {
            let head = "event=content_block_start\nindex="@ + text::decimal(index as nat);
            match content_block {
                OutputContentBlock::ToolUse { id, name, input } => head
                    + "\nblock_type=tool_use\ntool_id="@ + id@ + "\ntool_name="@ + name@ + "\n"@
                    + input_summary("input"@, input@, limit),
                OutputContentBlock::Text { text } => head + "\nblock_type=text\ntext_bytes="@
                    + text::decimal(tool_display::byte_len(text@) as nat) + "\ntext_chars="@
                    + text::decimal(text@.len()),
                OutputContentBlock::Thinking { thinking, .. } => head
                    + "\nblock_type=thinking\nthinking_chars="@ + text::decimal(thinking@.len()),
                OutputContentBlock::RedactedThinking { .. } => head
                    + "\nblock_type=redacted_thinking"@,
            }
        },
        StreamEvent::ContentBlockDelta { index, delta } => {
            let head = "event=content_block_delta\nindex="@ + text::decimal(index as nat);
            match delta {
                ContentBlockDelta::InputJsonDelta { partial_json } => head
                    + "\ndelta_type=input_json_delta\n"@ + input_summary(
                    "partial_json"@,
                    partial_json@,
                    limit,
                ),
                ContentBlockDelta::TextDelta { text } => head
                    + "\ndelta_type=text_delta\ntext_bytes="@ + text::decimal(
                    tool_display::byte_len(text@) as nat,
                ) + "\ntext_chars="@ + text::decimal(text@.len()),
                ContentBlockDelta::ThinkingDelta { thinking } => head
                    + "\ndelta_type=thinking_delta\nthinking_chars="@ + text::decimal(
                    thinking@.len(),
                ),
                ContentBlockDelta::SignatureDelta { signature } => head
                    + "\ndelta_type=signature_delta\nsignature_chars="@ + text::decimal(
                    signature@.len(),
                ),
            }
        },
        StreamEvent::ContentBlockStop { index } => "event=content_block_stop\nindex="@
            + text::decimal(index as nat),
        StreamEvent::MessageDelta { stop_reason, stop_sequence, usage } => {
            "event=message_delta\nstop_reason="@ + or_none(text::opt_text(stop_reason))
                + "\nstop_sequence="@ + or_none(text::opt_text(stop_sequence)) + "\ninput_tokens="@
                + text::decimal(usage.input_tokens as nat) + "\noutput_tokens="@ + text::decimal(
                usage.output_tokens as nat,
            ) + "\ncache_creation_input_tokens="@ + text::decimal(
                usage.cache_creation_input_tokens as nat,
            ) + "\ncache_read_input_tokens="@ + text::decimal(
                usage.cache_read_input_tokens as nat,
            )
        },
        StreamEvent::MessageStop => "event=message_stop"@,
    }
}

pub fn stream_event_debug_summary(event: &StreamEvent, limit: usize) -> (r: String)
    ensures
        r@ == event_summary(*event, limit as nat),
{
    match event {
        StreamEvent::MessageStart { content } => {
            let mut out = "event=message_start\ncontent_blocks=".to_string();
            out.append(text::decimal_usize(content.len()).as_str());
            out
        },
        StreamEvent::ContentBlockStart { index, content_block } => {
            let mut out = "event=content_block_start\nindex=".to_string();
            out.append(text::decimal_u32(*index).as_str());
            match content_block {
                OutputContentBlock::ToolUse { id, name, input } => {
                    out.append("\nblock_type=tool_use\ntool_id=");
                    out.append(id.as_str());
                    out.append("\ntool_name=");
                    out.append(name.as_str());
                    out.append("\n");
                    out.append(debug_json_input_summary(input.as_str(), limit).as_str());
                },
                OutputContentBlock::Text { text } => {
                    out.append("\nblock_type=text\ntext_bytes=");
                    out.append(text::decimal_usize(text.as_str().len()).as_str());
                    out.append("\ntext_chars=");
                    out.append(text::decimal_usize(text.as_str().unicode_len()).as_str());
                },
                OutputContentBlock::Thinking { thinking, .. } => {
                    out.append("\nblock_type=thinking\nthinking_chars=");
                    out.append(text::decimal_usize(thinking.as_str().unicode_len()).as_str());
                },
                OutputContentBlock::RedactedThinking { .. } => {
                    out.append("\nblock_type=redacted_thinking");
                },
            }
            out
        },
        StreamEvent::ContentBlockDelta { index, delta } => {
            let mut out = "event=content_block_delta\nindex=".to_string();
            out.append(text::decimal_u32(*index).as_str());
            match delta {
                ContentBlockDelta::InputJsonDelta { partial_json } => {
                    out.append("\ndelta_type=input_json_delta\n");
                    out.append(
                        debug_labeled_json_input_summary(
                            "partial_json",
                            partial_json.as_str(),
                            limit,
                        ).as_str(),
                    );
                },
                ContentBlockDelta::TextDelta { text } => {
                    out.append("\ndelta_type=text_delta\ntext_bytes=");
                    out.append(text::decimal_usize(text.as_str().len()).as_str());
                    out.append("\ntext_chars=");
                    out.append(text::decimal_usize(text.as_str().unicode_len()).as_str());
                },
                ContentBlockDelta::ThinkingDelta { thinking } => {
                    out.append("\ndelta_type=thinking_delta\nthinking_chars=");
                    out.append(text::decimal_usize(thinking.as_str().unicode_len()).as_str());
                },
                ContentBlockDelta::SignatureDelta { signature } => {
                    out.append("\ndelta_type=signature_delta\nsignature_chars=");
                    out.append(text::decimal_usize(signature.as_str().unicode_len()).as_str());
                },
            }
            out
        },
        StreamEvent::ContentBlockStop { index } => {
            let mut out = "event=content_block_stop\nindex=".to_string();
            out.append(text::decimal_u32(*index).as_str());
            out
        },
        StreamEvent::MessageDelta { stop_reason, stop_sequence, usage } => {
            let mut out = "event=message_delta\nstop_reason=".to_string();
            out.append(str_or_none(stop_reason));
            out.append("\nstop_sequence=");
            out.append(str_or_none(stop_sequence));
            out.append("\ninput_tokens=");
            out.append(text::decimal_u32(usage.input_tokens).as_str());
            out.append("\noutput_tokens=");
            out.append(text::decimal_u32(usage.output_tokens).as_str());
            out.append("\ncache_creation_input_tokens=");
            out.append(text::decimal_u32(usage.cache_creation_input_tokens).as_str());
            out.append("\ncache_read_input_tokens=");
            out.append(text::decimal_u32(usage.cache_read_input_tokens).as_str());
            out
        },
        StreamEvent::MessageStop => "event=message_stop".to_string(),
    }
}

// ---------------------------------------------------------------------------
// Open tool calls
// ---------------------------------------------------------------------------

/// Whether `keys` lists the members of `dom` in ascending order.
pub open spec fn ascending(keys: Seq<u32>, dom: Set<u32>) -> bool {
    &&& forall|i: int, j: int| 0 <= i < j < keys.len() ==> keys[i] < keys[j]
    &&& forall|k: u32| dom.contains(k) <==> #[trigger] keys.contains(k)
}

/// The members of `dom` in ascending order.
pub open spec fn in_order(dom: Set<u32>) -> Seq<u32> {
    choose|keys: Seq<u32>| ascending(keys, dom)
}

proof fn lemma_ascending_prefix(a: Seq<u32>, b: Seq<u32>, dom: Set<u32>, n: int)
    requires
        ascending(a, dom),
        ascending(b, dom),
        0 <= n <= a.len(),
    ensures
        n <= b.len(),
        a.take(n) == b.take(n),
    decreases n,
{
    if n > 0 {
        lemma_ascending_prefix(a, b, dom, n - 1);
        let k = a[n - 1];
        assert(a.contains(k));
        assert(dom.contains(k));
        assert(b.contains(k));
        let j = choose|j: int| 0 <= j < b.len() && b[j] == k;
        if j < n - 1 {
            assert(a.take(n - 1)[j] == b.take(n - 1)[j]);
            assert(a[j] == b[j]);
            assert(false);
        }
        if j > n - 1 {
            let l = b[n - 1];
            assert(b.contains(l));
            assert(dom.contains(l));
            assert(a.contains(l));
            let i = choose|i: int| 0 <= i < a.len() && a[i] == l;
            if i < n - 1 {
                assert(a.take(n - 1)[i] == b.take(n - 1)[i]);
                assert(b[i] == b[n - 1]);
                assert(false);
            }
            if i > n - 1 {
                assert(a[n - 1] < a[i]);
            }
            assert(false);
        }
        assert(a.take(n) =~= b.take(n)) by {
            assert forall|i: int| 0 <= i < n implies a[i] == b[i] by {
                if i < n - 1 {
                    assert(a.take(n - 1)[i] == b.take(n - 1)[i]);
                }
            }
        }
    } else {
        assert(a.take(0) =~= b.take(0));
    }
}

/// There is one way to list a set in ascending order.
pub proof fn law_ascending_order_is_unique(a: Seq<u32>, b: Seq<u32>, dom: Set<u32>)
    requires
        ascending(a, dom),
        ascending(b, dom),
    ensures
        a == b,
{
    lemma_ascending_prefix(a, b, dom, a.len() as int);
    lemma_ascending_prefix(b, a, dom, b.len() as int);
    assert(a.take(a.len() as int) =~= a);
    assert(b.take(b.len() as int) =~= b);
}

fn ordered_indices(pending: &BTreeMap<u32, PendingTool>) -> (r: Vec<u32>)
    ensures
        r@ == in_order(pending@.dom()),
        ascending(r@, pending@.dom()),
{
    let mut out: Vec<u32> = Vec::new();
    let entries_iter = pending.iter();
    let ghost entries = vstd::std_specs::iter::IteratorSpec::remaining(&entries_iter);
    let ghost keys = entries.map_values(|kv: (&u32, &PendingTool)| *kv.0);
    proof {
        assert(vstd::std_specs::btree::increasing_seq(keys));
        assert forall|i: int, j: int| 0 <= i < j < keys.len() implies keys[i] < keys[j] by {
            assert(vstd::std_specs::cmp::OrdSpec::cmp_spec(&keys[i], &keys[j]) is Less);
        }
        assert forall|k: u32| pending@.dom().contains(k) <==> #[trigger] keys.contains(k) by {
            if pending@.dom().contains(k) {
                assert(pending@.contains_key(k));
                assert(entries.contains((&k, &pending@[k])));
                let i = choose|i: int| 0 <= i < entries.len() && entries[i] == (&k, &pending@[k]);
                assert(keys[i] == k);
            }
            if keys.contains(k) {
                let i = choose|i: int| 0 <= i < keys.len() && keys[i] == k;
                assert(pending@.contains_key(*entries[i].0));
            }
        }
        assert(ascending(keys, pending@.dom()));
        law_ascending_order_is_unique(keys, in_order(pending@.dom()), pending@.dom());
    }
    for kv in it: entries_iter
        invariant
            it.seq() == entries,
            keys == entries.map_values(|kv: (&u32, &PendingTool)| *kv.0),
            out@ == keys.take(it.index()),
    {
        out.push(*kv.0);
        assert(out@ =~= keys.take(it.index() + 1));
    }
    assert(out@ =~= keys);
    out
}

/// What the debug log says of one open tool call.
pub open spec fn pending_entry(index: u32, tool: PendingView, limit: nat) -> Seq<char> {
    "index="@ + text::decimal(index as nat) + " id="@ + tool.id + " name="@ + tool.name + " bytes="@
        + text::decimal(tool_display::byte_len(tool.input) as nat) + " chars="@ + text::decimal(
        tool.input.len(),
    ) + " suffix="@ + quoted_suffix(tool.input, limit)
}

pub open spec fn index_texts(keys: Seq<u32>) -> Seq<Seq<char>> {
    keys.map_values(|k: u32| text::decimal(k as nat))
}

pub open spec fn entry_texts(keys: Seq<u32>, pending: Map<u32, PendingView>, limit: nat) -> Seq<
    Seq<char>,
> {
    keys.map_values(|k: u32| pending_entry(k, pending[k], limit))
}

/// What the debug log says of the open tool calls, in the order of their
/// indices.
pub open spec fn pending_summary(pending: Map<u32, PendingView>, limit: nat) -> Seq<char> {
    let keys = in_order(pending.dom());
    let room = if keys.len() > 1 {
        limit * keys.len()
    } else {
        limit
    };
    "pending_tool_count="@ + text::decimal(keys.len()) + "\npending_tool_indices="@ + quoted_prefix(
        text::joined(index_texts(keys), ","@),
        limit,
    ) + "\npending_tool_entries="@ + quoted_prefix(
        text::joined(entry_texts(keys, pending, limit), " | "@),
        room,
    )
}

fn describe_pending(index: u32, tool: &PendingTool, limit: usize) -> (r: String)
    ensures
        r@ == pending_entry(index, tool.view(), limit as nat),
{
    let input = tool.input.as_str();
    let mut out = "index=".to_string();
    out.append(text::decimal_u32(index).as_str());
    out.append(" id=");
    out.append(tool.id.as_str());
    out.append(" name=");
    out.append(tool.name.as_str());
    out.append(" bytes=");
    out.append(text::decimal_usize(input.len()).as_str());
    out.append(" chars=");
    out.append(text::decimal_usize(input.unicode_len()).as_str());
    out.append(" suffix=");
    out.append(json_debug_suffix(input, limit).as_str());
    out
}

pub fn pending_tools_debug_summary(pending_tools: &BTreeMap<u32, PendingTool>, limit: usize) -> (r:
    String)
    ensures
        r@ == pending_summary(stream::pending_view(pending_tools@), limit as nat),
{
    let keys = ordered_indices(pending_tools);
    let ghost pending = stream::pending_view(pending_tools@);
    assert(pending.dom() =~= pending_tools@.dom());
    let mut indices: Vec<String> = Vec::new();
    let mut entries: Vec<String> = Vec::new();
    let mut i: usize = 0;
    assert(text::texts(indices@) =~= index_texts(keys@).take(0));
    assert(text::texts(entries@) =~= entry_texts(keys@, pending, limit as nat).take(0));
    while i < keys.len()
        invariant
            i <= keys@.len(),
            pending == stream::pending_view(pending_tools@),
            ascending(keys@, pending_tools@.dom()),
            text::texts(indices@) == index_texts(keys@).take(i as int),
            text::texts(entries@) == entry_texts(keys@, pending, limit as nat).take(i as int),
        decreases keys.len() - i,
    {
        let index: u32 = keys[i];
        assert(keys@.contains(index));
        assert(pending_tools@.dom().contains(index));
        let index_text = text::decimal_u32(index);
        proof {
            text::lemma_texts_push(indices@, index_text);
            assert(index_texts(keys@).take(i + 1) =~= index_texts(keys@).take(i as int).push(
                index_text@,
            ));
        }
        indices.push(index_text);
        match pending_tools.get(&index) {
            Some(tool) => {
                let entry = describe_pending(index, tool, limit);
                proof {
                    text::lemma_texts_push(entries@, entry);
                    assert(entry_texts(keys@, pending, limit as nat).take(i + 1) =~= entry_texts(
                        keys@,
                        pending,
                        limit as nat,
                    ).take(i as int).push(entry@));
                }
                entries.push(entry);
            },
            None => {
                assert(false);
            },
        }
        i += 1;
    }
    proof {
        assert(index_texts(keys@).take(i as int) =~= index_texts(keys@));
        assert(entry_texts(keys@, pending, limit as nat).take(i as int) =~= entry_texts(
            keys@,
            pending,
            limit as nat,
        ));
    }
    let indices_text = text::join(&indices, ",");
    let entries_text = text::join(&entries, " | ");
    let mut out = "pending_tool_count=".to_string();
    out.append(text::decimal_usize(keys.len()).as_str());
    out.append("\npending_tool_indices=");
    out.append(json_debug_string(indices_text.as_str(), limit).as_str());
    out.append("\npending_tool_entries=");
    let room: Option<usize> = if keys.len() > 1 {
        limit.checked_mul(keys.len())
    } else {
        Some(limit)
    };
    let shown: &str = match room {
        Some(room) => text::take_chars(entries_text.as_str(), room),
        None => {
            let _chars: usize = entries_text.as_str().unicode_len();
            entries_text.as_str()
        },
    };
    out.append(json::quote(shown).as_str());
    out
}

} // verus!
