//! What holds of the lines of the debug log.

use vstd::prelude::*;

use crate::stream::{ContentBlockDelta, OutputContentBlock, PendingView, StreamEvent, TokenUsage};
use crate::json;
use crate::stream_debug;
use crate::text;
use crate::tool_display;

verus! {

/// All events are logged but the pieces of texts, and by the interactive client
/// the pieces of inputs, of which the first and each thirty-second are; so a
/// sub-agent logs whatever the client does.
pub proof fn law_pieces_are_logged_seldom(event: StreamEvent, number: nat)
    ensures
        event !is ContentBlockDelta ==> stream_debug::client_logs(event)
            && stream_debug::agent_logs(event),
        event is ContentBlockDelta && event->delta is TextDelta ==> !stream_debug::client_logs(
            event,
        ) && !stream_debug::agent_logs(event),
        event is ContentBlockDelta && event->delta is InputJsonDelta ==> !stream_debug::client_logs(
            event,
        ) && stream_debug::agent_logs(event),
        event is ContentBlockDelta && (event->delta is ThinkingDelta || event->delta is SignatureDelta)
            ==> stream_debug::client_logs(event) && stream_debug::agent_logs(event),
        stream_debug::client_logs(event) ==> stream_debug::agent_logs(event),
        stream_debug::piece_is_logged(1),
        !stream_debug::piece_is_logged(0),
        number > 0 ==> stream_debug::piece_is_logged(32 * number),
        1 < number && number % 32 != 0 ==> !stream_debug::piece_is_logged(number),
{
    assert(32 * number % 32 == 0) by (nonlinear_arith);
}

/// The ends of an input are shown as JSON, and an input that is short enough is
/// shown whole at both.
pub proof fn law_short_inputs_are_shown_whole(input: Seq<char>, limit: nat)
    ensures
        input.len() <= limit ==> stream_debug::quoted_prefix(input, limit) == json::json_literal(
            input,
        ) && stream_debug::quoted_suffix(input, limit) == json::json_literal(input),
        input.len() > limit ==> stream_debug::quoted_prefix(input, limit) == json::json_literal(
            input.take(limit as int),
        ) && stream_debug::quoted_suffix(input, limit) == json::json_literal(
            input.skip(input.len() - limit),
        ),
{
}

proof fn lemma_lines_are_told(
    report: Seq<char>,
    first: Seq<char>,
    second: Seq<char>,
    third: Seq<char>,
    fourth: Seq<char>,
    fifth: Seq<char>,
    sixth: Seq<char>,
)
    requires
        report == first + "\n"@ + second + "\n"@ + third + "\n"@ + fourth + "\n"@ + fifth + "\n"@ + sixth,
    ensures
        text::contains_text(report, first + "\n"@),
        text::contains_text(report, second + "\n"@),
        text::contains_text(report, third + "\n"@),
        text::contains_text(report, fourth + "\n"@),
        text::contains_text(report, fifth + "\n"@),
        text::has_suffix(report, sixth),
{
    assert(text::contains_text(report, first + "\n"@)) by {
        let before = Seq::<char>::empty();
        let part = first + "\n"@;
        let after = second + "\n"@ + third + "\n"@ + fourth + "\n"@ + fifth + "\n"@ + sixth;
        assert(report =~= before + part + after);
        text::lemma_contains_part(before, part, after);
    }
    assert(text::contains_text(report, second + "\n"@)) by {
        let before = first + "\n"@;
        let part = second + "\n"@;
        let after = third + "\n"@ + fourth + "\n"@ + fifth + "\n"@ + sixth;
        assert(report =~= before + part + after);
        text::lemma_contains_part(before, part, after);
    }
    assert(text::contains_text(report, third + "\n"@)) by {
        let before = first + "\n"@ + second + "\n"@;
        let part = third + "\n"@;
        let after = fourth + "\n"@ + fifth + "\n"@ + sixth;
        assert(report =~= before + part + after);
        text::lemma_contains_part(before, part, after);
    }
    assert(text::contains_text(report, fourth + "\n"@)) by {
        let before = first + "\n"@ + second + "\n"@ + third + "\n"@;
        let part = fourth + "\n"@;
        let after = fifth + "\n"@ + sixth;
        assert(report =~= before + part + after);
        text::lemma_contains_part(before, part, after);
    }
    assert(text::contains_text(report, fifth + "\n"@)) by {
        let before = first + "\n"@ + second + "\n"@ + third + "\n"@ + fourth + "\n"@;
        let part = fifth + "\n"@;
        let after = sixth;
        assert(report =~= before + part + after);
        text::lemma_contains_part(before, part, after);
    }
    assert(text::has_suffix(report, sixth)) by {
        let before = first + "\n"@ + second + "\n"@ + third + "\n"@ + fourth + "\n"@ + fifth + "\n"@;
        let part = sixth;
        let after = Seq::<char>::empty();
        assert(report =~= before + part + after);
        text::lemma_contains_part(before, part, after);
    }
}

/// The report on an input tells, each behind its label, its bytes, its characters,
/// whether it is blank, whether it is shown whole, and its two ends.
pub proof fn law_input_reports_tell_sizes_and_ends(
    label: Seq<char>,
    input: Seq<char>,
    limit: nat,
    prefix: Seq<char>,
    suffix: Seq<char>,
)
    ensures
        text::contains_text(stream_debug::input_report(label, input, limit, prefix, suffix), label + "_bytes="@ + text::decimal(tool_display::byte_len(input) as nat) + "\n"@),
        text::contains_text(stream_debug::input_report(label, input, limit, prefix, suffix), label + "_chars="@ + text::decimal(input.len()) + "\n"@),
        text::contains_text(stream_debug::input_report(label, input, limit, prefix, suffix), label + "_trimmed_empty="@ + text::bool_text(text::is_blank(input)) + "\n"@),
        text::contains_text(stream_debug::input_report(label, input, limit, prefix, suffix), label + "_full_available="@ + text::bool_text(input.len() <= limit) + "\n"@),
        text::contains_text(stream_debug::input_report(label, input, limit, prefix, suffix), label + "_prefix="@ + prefix + "\n"@),
        text::has_suffix(stream_debug::input_report(label, input, limit, prefix, suffix), label + "_suffix="@ + suffix),
        stream_debug::input_summary(label, input, limit) == stream_debug::input_report(
            label,
            input,
            limit,
            stream_debug::quoted_prefix(input, limit),
            stream_debug::quoted_suffix(input, limit),
        ),
{
    let bytes = text::decimal(tool_display::byte_len(input) as nat);
    let chars = text::decimal(input.len());
    let blank = text::bool_text(text::is_blank(input));
    let full = text::bool_text(input.len() <= limit);
    let report = stream_debug::input_report(label, input, limit, prefix, suffix);
    let first = label + "_bytes="@ + bytes;
    let second = label + "_chars="@ + chars;
    let third = label + "_trimmed_empty="@ + blank;
    let fourth = label + "_full_available="@ + full;
    let fifth = label + "_prefix="@ + prefix;
    let sixth = label + "_suffix="@ + suffix;
    let one = first + "\n"@ + second;
    let two = one + "\n"@ + third;
    let three = two + "\n"@ + fourth;
    let four = three + "\n"@ + fifth;
    assert(one =~= first + "\n"@ + label + "_chars="@ + chars);
    assert(two =~= one + "\n"@ + label + "_trimmed_empty="@ + blank);
    assert(three =~= two + "\n"@ + label + "_full_available="@ + full);
    assert(four =~= three + "\n"@ + label + "_prefix="@ + prefix);
    assert(report =~= four + "\n"@ + label + "_suffix="@ + suffix);
    assert(report =~= four + "\n"@ + sixth);
    lemma_lines_are_told(report, first, second, third, fourth, fifth, sixth);
}

proof fn lemma_call_start_is_told(report: Seq<char>, at: Seq<char>, call: Seq<char>, tool: Seq<char>, summary: Seq<char>)
    requires
        report == "event=content_block_start\nindex="@ + at + "\nblock_type=tool_use\ntool_id="@ + call + "\ntool_name="@ + tool + "\n"@ + summary,
    ensures
        text::contains_text(report, "index="@ + at + "\n"@),
        text::contains_text(report, "tool_id="@ + call + "\n"@),
        text::contains_text(report, "tool_name="@ + tool + "\n"@),
        text::has_suffix(report, ""@ + summary),
{
    assert(text::contains_text(report, "index="@ + at + "\n"@)) by {
        reveal_strlit("event=content_block_start\nindex=");
        reveal_strlit("event=content_block_start\n");
        reveal_strlit("index=");
        reveal_strlit("\nblock_type=tool_use\ntool_id=");
        reveal_strlit("\n");
        reveal_strlit("block_type=tool_use\ntool_id=");
        assert("event=content_block_start\nindex="@ =~= "event=content_block_start\n"@ + "index="@);
        assert("\nblock_type=tool_use\ntool_id="@ =~= "\n"@ + "block_type=tool_use\ntool_id="@);
        let before = "event=content_block_start\n"@;
        let part = "index="@ + at + "\n"@;
        let after = "block_type=tool_use\ntool_id="@ + call + "\ntool_name="@ + tool + "\n"@ + summary;
        assert(report =~= before + part + after);
        text::lemma_contains_part(before, part, after);
    }
    assert(text::contains_text(report, "tool_id="@ + call + "\n"@)) by {
        reveal_strlit("\nblock_type=tool_use\ntool_id=");
        reveal_strlit("\nblock_type=tool_use\n");
        reveal_strlit("tool_id=");
        reveal_strlit("\ntool_name=");
        reveal_strlit("\n");
        reveal_strlit("tool_name=");
        assert("\nblock_type=tool_use\ntool_id="@ =~= "\nblock_type=tool_use\n"@ + "tool_id="@);
        assert("\ntool_name="@ =~= "\n"@ + "tool_name="@);
        let before = "event=content_block_start\nindex="@ + at + "\nblock_type=tool_use\n"@;
        let part = "tool_id="@ + call + "\n"@;
        let after = "tool_name="@ + tool + "\n"@ + summary;
        assert(report =~= before + part + after);
        text::lemma_contains_part(before, part, after);
    }
    assert(text::contains_text(report, "tool_name="@ + tool + "\n"@)) by {
        reveal_strlit("\ntool_name=");
        reveal_strlit("\n");
        reveal_strlit("tool_name=");
        assert("\ntool_name="@ =~= "\n"@ + "tool_name="@);
        let before = "event=content_block_start\nindex="@ + at + "\nblock_type=tool_use\ntool_id="@ + call + "\n"@;
        let part = "tool_name="@ + tool + "\n"@;
        let after = summary;
        assert(report =~= before + part + after);
        text::lemma_contains_part(before, part, after);
    }
    assert(text::has_suffix(report, ""@ + summary)) by {
        reveal_strlit("\n");
        reveal_strlit("");
        assert("\n"@ =~= "\n"@ + ""@);
        let before = "event=content_block_start\nindex="@ + at + "\nblock_type=tool_use\ntool_id="@ + call + "\ntool_name="@ + tool + "\n"@;
        let part = ""@ + summary;
        let after = Seq::<char>::empty();
        assert(report =~= before + part + after);
        text::lemma_contains_part(before, part, after);
        assert(before + part + after =~= before + part);
    }
}

/// The start of a call is told by its index, the id and the name of the tool, and its
/// input.
pub proof fn law_started_calls_tell_id_and_name(index: u32, id: String, name: String, input: String, limit: nat)
    ensures
        text::contains_text(stream_debug::event_summary(StreamEvent::ContentBlockStart { index, content_block: OutputContentBlock::ToolUse { id, name, input } }, limit), "index="@ + text::decimal(index as nat) + "\n"@),
        text::contains_text(stream_debug::event_summary(StreamEvent::ContentBlockStart { index, content_block: OutputContentBlock::ToolUse { id, name, input } }, limit), "tool_id="@ + id@ + "\n"@),
        text::contains_text(stream_debug::event_summary(StreamEvent::ContentBlockStart { index, content_block: OutputContentBlock::ToolUse { id, name, input } }, limit), "tool_name="@ + name@ + "\n"@),
        text::has_suffix(stream_debug::event_summary(StreamEvent::ContentBlockStart { index, content_block: OutputContentBlock::ToolUse { id, name, input } }, limit), ""@ + stream_debug::input_summary("input"@, input@, limit)),
{
    lemma_call_start_is_told(stream_debug::event_summary(StreamEvent::ContentBlockStart { index, content_block: OutputContentBlock::ToolUse { id, name, input } }, limit), text::decimal(index as nat), id@, name@, stream_debug::input_summary("input"@, input@, limit));
}

proof fn lemma_text_start_is_told(report: Seq<char>, at: Seq<char>, bytes: Seq<char>, chars: Seq<char>)
    requires
        report == "event=content_block_start\nindex="@ + at + "\nblock_type=text\ntext_bytes="@ + bytes + "\ntext_chars="@ + chars,
    ensures
        text::contains_text(report, "index="@ + at + "\n"@),
        text::contains_text(report, "text_bytes="@ + bytes + "\n"@),
        text::has_suffix(report, "text_chars="@ + chars),
{
    assert(text::contains_text(report, "index="@ + at + "\n"@)) by {
        reveal_strlit("event=content_block_start\nindex=");
        reveal_strlit("event=content_block_start\n");
        reveal_strlit("index=");
        reveal_strlit("\nblock_type=text\ntext_bytes=");
        reveal_strlit("\n");
        reveal_strlit("block_type=text\ntext_bytes=");
        assert("event=content_block_start\nindex="@ =~= "event=content_block_start\n"@ + "index="@);
        assert("\nblock_type=text\ntext_bytes="@ =~= "\n"@ + "block_type=text\ntext_bytes="@);
        let before = "event=content_block_start\n"@;
        let part = "index="@ + at + "\n"@;
        let after = "block_type=text\ntext_bytes="@ + bytes + "\ntext_chars="@ + chars;
        assert(report =~= before + part + after);
        text::lemma_contains_part(before, part, after);
    }
    assert(text::contains_text(report, "text_bytes="@ + bytes + "\n"@)) by {
        reveal_strlit("\nblock_type=text\ntext_bytes=");
        reveal_strlit("\nblock_type=text\n");
        reveal_strlit("text_bytes=");
        reveal_strlit("\ntext_chars=");
        reveal_strlit("\n");
        reveal_strlit("text_chars=");
        assert("\nblock_type=text\ntext_bytes="@ =~= "\nblock_type=text\n"@ + "text_bytes="@);
        assert("\ntext_chars="@ =~= "\n"@ + "text_chars="@);
        let before = "event=content_block_start\nindex="@ + at + "\nblock_type=text\n"@;
        let part = "text_bytes="@ + bytes + "\n"@;
        let after = "text_chars="@ + chars;
        assert(report =~= before + part + after);
        text::lemma_contains_part(before, part, after);
    }
    assert(text::has_suffix(report, "text_chars="@ + chars)) by {
        reveal_strlit("\ntext_chars=");
        reveal_strlit("\n");
        reveal_strlit("text_chars=");
        assert("\ntext_chars="@ =~= "\n"@ + "text_chars="@);
        let before = "event=content_block_start\nindex="@ + at + "\nblock_type=text\ntext_bytes="@ + bytes + "\n"@;
        let part = "text_chars="@ + chars;
        let after = Seq::<char>::empty();
        assert(report =~= before + part + after);
        text::lemma_contains_part(before, part, after);
        assert(before + part + after =~= before + part);
    }
}

/// The start of a text is told by its index and its size.
pub proof fn law_started_texts_tell_their_size(index: u32, text: String, limit: nat)
    ensures
        text::contains_text(stream_debug::event_summary(StreamEvent::ContentBlockStart { index, content_block: OutputContentBlock::Text { text } }, limit), "index="@ + text::decimal(index as nat) + "\n"@),
        text::contains_text(stream_debug::event_summary(StreamEvent::ContentBlockStart { index, content_block: OutputContentBlock::Text { text } }, limit), "text_bytes="@ + text::decimal(tool_display::byte_len(text@) as nat) + "\n"@),
        text::has_suffix(stream_debug::event_summary(StreamEvent::ContentBlockStart { index, content_block: OutputContentBlock::Text { text } }, limit), "text_chars="@ + text::decimal(text@.len())),
{
    lemma_text_start_is_told(stream_debug::event_summary(StreamEvent::ContentBlockStart { index, content_block: OutputContentBlock::Text { text } }, limit), text::decimal(index as nat), text::decimal(tool_display::byte_len(text@) as nat), text::decimal(text@.len()));
}

proof fn lemma_thinking_start_is_told(report: Seq<char>, at: Seq<char>, chars: Seq<char>)
    requires
        report == "event=content_block_start\nindex="@ + at + "\nblock_type=thinking\nthinking_chars="@ + chars,
    ensures
        text::contains_text(report, "index="@ + at + "\n"@),
        text::has_suffix(report, "thinking_chars="@ + chars),
{
    assert(text::contains_text(report, "index="@ + at + "\n"@)) by {
        reveal_strlit("event=content_block_start\nindex=");
        reveal_strlit("event=content_block_start\n");
        reveal_strlit("index=");
        reveal_strlit("\nblock_type=thinking\nthinking_chars=");
        reveal_strlit("\n");
        reveal_strlit("block_type=thinking\nthinking_chars=");
        assert("event=content_block_start\nindex="@ =~= "event=content_block_start\n"@ + "index="@);
        assert("\nblock_type=thinking\nthinking_chars="@ =~= "\n"@ + "block_type=thinking\nthinking_chars="@);
        let before = "event=content_block_start\n"@;
        let part = "index="@ + at + "\n"@;
        let after = "block_type=thinking\nthinking_chars="@ + chars;
        assert(report =~= before + part + after);
        text::lemma_contains_part(before, part, after);
    }
    assert(text::has_suffix(report, "thinking_chars="@ + chars)) by {
        reveal_strlit("\nblock_type=thinking\nthinking_chars=");
        reveal_strlit("\nblock_type=thinking\n");
        reveal_strlit("thinking_chars=");
        assert("\nblock_type=thinking\nthinking_chars="@ =~= "\nblock_type=thinking\n"@ + "thinking_chars="@);
        let before = "event=content_block_start\nindex="@ + at + "\nblock_type=thinking\n"@;
        let part = "thinking_chars="@ + chars;
        let after = Seq::<char>::empty();
        assert(report =~= before + part + after);
        text::lemma_contains_part(before, part, after);
        assert(before + part + after =~= before + part);
    }
}

/// The start of a thought is told by its index and its size.
pub proof fn law_started_thoughts_tell_their_size(index: u32, thinking: String, signature: Option<String>, limit: nat)
    ensures
        text::contains_text(stream_debug::event_summary(StreamEvent::ContentBlockStart { index, content_block: OutputContentBlock::Thinking { thinking, signature } }, limit), "index="@ + text::decimal(index as nat) + "\n"@),
        text::has_suffix(stream_debug::event_summary(StreamEvent::ContentBlockStart { index, content_block: OutputContentBlock::Thinking { thinking, signature } }, limit), "thinking_chars="@ + text::decimal(thinking@.len())),
{
    lemma_thinking_start_is_told(stream_debug::event_summary(StreamEvent::ContentBlockStart { index, content_block: OutputContentBlock::Thinking { thinking, signature } }, limit), text::decimal(index as nat), text::decimal(thinking@.len()));
}

proof fn lemma_input_piece_is_told(report: Seq<char>, at: Seq<char>, summary: Seq<char>)
    requires
        report == "event=content_block_delta\nindex="@ + at + "\ndelta_type=input_json_delta\n"@ + summary,
    ensures
        text::contains_text(report, "index="@ + at + "\n"@),
        text::has_suffix(report, ""@ + summary),
{
    assert(text::contains_text(report, "index="@ + at + "\n"@)) by {
        reveal_strlit("event=content_block_delta\nindex=");
        reveal_strlit("event=content_block_delta\n");
        reveal_strlit("index=");
        reveal_strlit("\ndelta_type=input_json_delta\n");
        reveal_strlit("\n");
        reveal_strlit("delta_type=input_json_delta\n");
        assert("event=content_block_delta\nindex="@ =~= "event=content_block_delta\n"@ + "index="@);
        assert("\ndelta_type=input_json_delta\n"@ =~= "\n"@ + "delta_type=input_json_delta\n"@);
        let before = "event=content_block_delta\n"@;
        let part = "index="@ + at + "\n"@;
        let after = "delta_type=input_json_delta\n"@ + summary;
        assert(report =~= before + part + after);
        text::lemma_contains_part(before, part, after);
    }
    assert(text::has_suffix(report, ""@ + summary)) by {
        reveal_strlit("\ndelta_type=input_json_delta\n");
        reveal_strlit("");
        assert("\ndelta_type=input_json_delta\n"@ =~= "\ndelta_type=input_json_delta\n"@ + ""@);
        let before = "event=content_block_delta\nindex="@ + at + "\ndelta_type=input_json_delta\n"@;
        let part = ""@ + summary;
        let after = Seq::<char>::empty();
        assert(report =~= before + part + after);
        text::lemma_contains_part(before, part, after);
        assert(before + part + after =~= before + part);
    }
}

/// A piece of an input is told by its index and its sizes and ends.
pub proof fn law_pieces_of_inputs_are_told(index: u32, partial_json: String, limit: nat)
    ensures
        text::contains_text(stream_debug::event_summary(StreamEvent::ContentBlockDelta { index, delta: ContentBlockDelta::InputJsonDelta { partial_json } }, limit), "index="@ + text::decimal(index as nat) + "\n"@),
        text::has_suffix(stream_debug::event_summary(StreamEvent::ContentBlockDelta { index, delta: ContentBlockDelta::InputJsonDelta { partial_json } }, limit), ""@ + stream_debug::input_summary("partial_json"@, partial_json@, limit)),
{
    lemma_input_piece_is_told(stream_debug::event_summary(StreamEvent::ContentBlockDelta { index, delta: ContentBlockDelta::InputJsonDelta { partial_json } }, limit), text::decimal(index as nat), stream_debug::input_summary("partial_json"@, partial_json@, limit));
}

proof fn lemma_text_piece_is_told(report: Seq<char>, at: Seq<char>, bytes: Seq<char>, chars: Seq<char>)
    requires
        report == "event=content_block_delta\nindex="@ + at + "\ndelta_type=text_delta\ntext_bytes="@ + bytes + "\ntext_chars="@ + chars,
    ensures
        text::contains_text(report, "index="@ + at + "\n"@),
        text::contains_text(report, "text_bytes="@ + bytes + "\n"@),
        text::has_suffix(report, "text_chars="@ + chars),
{
    assert(text::contains_text(report, "index="@ + at + "\n"@)) by {
        reveal_strlit("event=content_block_delta\nindex=");
        reveal_strlit("event=content_block_delta\n");
        reveal_strlit("index=");
        reveal_strlit("\ndelta_type=text_delta\ntext_bytes=");
        reveal_strlit("\n");
        reveal_strlit("delta_type=text_delta\ntext_bytes=");
        assert("event=content_block_delta\nindex="@ =~= "event=content_block_delta\n"@ + "index="@);
        assert("\ndelta_type=text_delta\ntext_bytes="@ =~= "\n"@ + "delta_type=text_delta\ntext_bytes="@);
        let before = "event=content_block_delta\n"@;
        let part = "index="@ + at + "\n"@;
        let after = "delta_type=text_delta\ntext_bytes="@ + bytes + "\ntext_chars="@ + chars;
        assert(report =~= before + part + after);
        text::lemma_contains_part(before, part, after);
    }
    assert(text::contains_text(report, "text_bytes="@ + bytes + "\n"@)) by {
        reveal_strlit("\ndelta_type=text_delta\ntext_bytes=");
        reveal_strlit("\ndelta_type=text_delta\n");
        reveal_strlit("text_bytes=");
        reveal_strlit("\ntext_chars=");
        reveal_strlit("\n");
        reveal_strlit("text_chars=");
        assert("\ndelta_type=text_delta\ntext_bytes="@ =~= "\ndelta_type=text_delta\n"@ + "text_bytes="@);
        assert("\ntext_chars="@ =~= "\n"@ + "text_chars="@);
        let before = "event=content_block_delta\nindex="@ + at + "\ndelta_type=text_delta\n"@;
        let part = "text_bytes="@ + bytes + "\n"@;
        let after = "text_chars="@ + chars;
        assert(report =~= before + part + after);
        text::lemma_contains_part(before, part, after);
    }
    assert(text::has_suffix(report, "text_chars="@ + chars)) by {
        reveal_strlit("\ntext_chars=");
        reveal_strlit("\n");
        reveal_strlit("text_chars=");
        assert("\ntext_chars="@ =~= "\n"@ + "text_chars="@);
        let before = "event=content_block_delta\nindex="@ + at + "\ndelta_type=text_delta\ntext_bytes="@ + bytes + "\n"@;
        let part = "text_chars="@ + chars;
        let after = Seq::<char>::empty();
        assert(report =~= before + part + after);
        text::lemma_contains_part(before, part, after);
        assert(before + part + after =~= before + part);
    }
}

/// A piece of a text is told by its index and its size.
pub proof fn law_pieces_of_texts_are_told(index: u32, text: String, limit: nat)
    ensures
        text::contains_text(stream_debug::event_summary(StreamEvent::ContentBlockDelta { index, delta: ContentBlockDelta::TextDelta { text } }, limit), "index="@ + text::decimal(index as nat) + "\n"@),
        text::contains_text(stream_debug::event_summary(StreamEvent::ContentBlockDelta { index, delta: ContentBlockDelta::TextDelta { text } }, limit), "text_bytes="@ + text::decimal(tool_display::byte_len(text@) as nat) + "\n"@),
        text::has_suffix(stream_debug::event_summary(StreamEvent::ContentBlockDelta { index, delta: ContentBlockDelta::TextDelta { text } }, limit), "text_chars="@ + text::decimal(text@.len())),
{
    lemma_text_piece_is_told(stream_debug::event_summary(StreamEvent::ContentBlockDelta { index, delta: ContentBlockDelta::TextDelta { text } }, limit), text::decimal(index as nat), text::decimal(tool_display::byte_len(text@) as nat), text::decimal(text@.len()));
}

proof fn lemma_thinking_piece_is_told(report: Seq<char>, at: Seq<char>, chars: Seq<char>)
    requires
        report == "event=content_block_delta\nindex="@ + at + "\ndelta_type=thinking_delta\nthinking_chars="@ + chars,
    ensures
        text::contains_text(report, "index="@ + at + "\n"@),
        text::has_suffix(report, "thinking_chars="@ + chars),
{
    assert(text::contains_text(report, "index="@ + at + "\n"@)) by {
        reveal_strlit("event=content_block_delta\nindex=");
        reveal_strlit("event=content_block_delta\n");
        reveal_strlit("index=");
        reveal_strlit("\ndelta_type=thinking_delta\nthinking_chars=");
        reveal_strlit("\n");
        reveal_strlit("delta_type=thinking_delta\nthinking_chars=");
        assert("event=content_block_delta\nindex="@ =~= "event=content_block_delta\n"@ + "index="@);
        assert("\ndelta_type=thinking_delta\nthinking_chars="@ =~= "\n"@ + "delta_type=thinking_delta\nthinking_chars="@);
        let before = "event=content_block_delta\n"@;
        let part = "index="@ + at + "\n"@;
        let after = "delta_type=thinking_delta\nthinking_chars="@ + chars;
        assert(report =~= before + part + after);
        text::lemma_contains_part(before, part, after);
    }
    assert(text::has_suffix(report, "thinking_chars="@ + chars)) by {
        reveal_strlit("\ndelta_type=thinking_delta\nthinking_chars=");
        reveal_strlit("\ndelta_type=thinking_delta\n");
        reveal_strlit("thinking_chars=");
        assert("\ndelta_type=thinking_delta\nthinking_chars="@ =~= "\ndelta_type=thinking_delta\n"@ + "thinking_chars="@);
        let before = "event=content_block_delta\nindex="@ + at + "\ndelta_type=thinking_delta\n"@;
        let part = "thinking_chars="@ + chars;
        let after = Seq::<char>::empty();
        assert(report =~= before + part + after);
        text::lemma_contains_part(before, part, after);
        assert(before + part + after =~= before + part);
    }
}

/// A piece of a thought is told by its index and its size.
pub proof fn law_pieces_of_thoughts_are_told(index: u32, thinking: String, limit: nat)
    ensures
        text::contains_text(stream_debug::event_summary(StreamEvent::ContentBlockDelta { index, delta: ContentBlockDelta::ThinkingDelta { thinking } }, limit), "index="@ + text::decimal(index as nat) + "\n"@),
        text::has_suffix(stream_debug::event_summary(StreamEvent::ContentBlockDelta { index, delta: ContentBlockDelta::ThinkingDelta { thinking } }, limit), "thinking_chars="@ + text::decimal(thinking@.len())),
{
    lemma_thinking_piece_is_told(stream_debug::event_summary(StreamEvent::ContentBlockDelta { index, delta: ContentBlockDelta::ThinkingDelta { thinking } }, limit), text::decimal(index as nat), text::decimal(thinking@.len()));
}

proof fn lemma_signature_is_told(report: Seq<char>, at: Seq<char>, chars: Seq<char>)
    requires
        report == "event=content_block_delta\nindex="@ + at + "\ndelta_type=signature_delta\nsignature_chars="@ + chars,
    ensures
        text::contains_text(report, "index="@ + at + "\n"@),
        text::has_suffix(report, "signature_chars="@ + chars),
{
    assert(text::contains_text(report, "index="@ + at + "\n"@)) by {
        reveal_strlit("event=content_block_delta\nindex=");
        reveal_strlit("event=content_block_delta\n");
        reveal_strlit("index=");
        reveal_strlit("\ndelta_type=signature_delta\nsignature_chars=");
        reveal_strlit("\n");
        reveal_strlit("delta_type=signature_delta\nsignature_chars=");
        assert("event=content_block_delta\nindex="@ =~= "event=content_block_delta\n"@ + "index="@);
        assert("\ndelta_type=signature_delta\nsignature_chars="@ =~= "\n"@ + "delta_type=signature_delta\nsignature_chars="@);
        let before = "event=content_block_delta\n"@;
        let part = "index="@ + at + "\n"@;
        let after = "delta_type=signature_delta\nsignature_chars="@ + chars;
        assert(report =~= before + part + after);
        text::lemma_contains_part(before, part, after);
    }
    assert(text::has_suffix(report, "signature_chars="@ + chars)) by {
        reveal_strlit("\ndelta_type=signature_delta\nsignature_chars=");
        reveal_strlit("\ndelta_type=signature_delta\n");
        reveal_strlit("signature_chars=");
        assert("\ndelta_type=signature_delta\nsignature_chars="@ =~= "\ndelta_type=signature_delta\n"@ + "signature_chars="@);
        let before = "event=content_block_delta\nindex="@ + at + "\ndelta_type=signature_delta\n"@;
        let part = "signature_chars="@ + chars;
        let after = Seq::<char>::empty();
        assert(report =~= before + part + after);
        text::lemma_contains_part(before, part, after);
        assert(before + part + after =~= before + part);
    }
}

/// A signature is told by its index and its size.
pub proof fn law_signatures_are_told(index: u32, signature: String, limit: nat)
    ensures
        text::contains_text(stream_debug::event_summary(StreamEvent::ContentBlockDelta { index, delta: ContentBlockDelta::SignatureDelta { signature } }, limit), "index="@ + text::decimal(index as nat) + "\n"@),
        text::has_suffix(stream_debug::event_summary(StreamEvent::ContentBlockDelta { index, delta: ContentBlockDelta::SignatureDelta { signature } }, limit), "signature_chars="@ + text::decimal(signature@.len())),
{
    lemma_signature_is_told(stream_debug::event_summary(StreamEvent::ContentBlockDelta { index, delta: ContentBlockDelta::SignatureDelta { signature } }, limit), text::decimal(index as nat), text::decimal(signature@.len()));
}

proof fn lemma_end_is_told(report: Seq<char>, reason: Seq<char>, sequence: Seq<char>, read: Seq<char>, written: Seq<char>, stored: Seq<char>, reused: Seq<char>)
    requires
        report == "event=message_delta\nstop_reason="@ + reason + "\nstop_sequence="@ + sequence + "\ninput_tokens="@ + read + "\noutput_tokens="@ + written + "\ncache_creation_input_tokens="@ + stored + "\ncache_read_input_tokens="@ + reused,
    ensures
        text::contains_text(report, "stop_reason="@ + reason + "\n"@),
        text::contains_text(report, "stop_sequence="@ + sequence + "\n"@),
        text::contains_text(report, "input_tokens="@ + read + "\n"@),
        text::contains_text(report, "output_tokens="@ + written + "\n"@),
        text::contains_text(report, "cache_creation_input_tokens="@ + stored + "\n"@),
        text::has_suffix(report, "cache_read_input_tokens="@ + reused),
{
    assert(text::contains_text(report, "stop_reason="@ + reason + "\n"@)) by {
        reveal_strlit("event=message_delta\nstop_reason=");
        reveal_strlit("event=message_delta\n");
        reveal_strlit("stop_reason=");
        reveal_strlit("\nstop_sequence=");
        reveal_strlit("\n");
        reveal_strlit("stop_sequence=");
        assert("event=message_delta\nstop_reason="@ =~= "event=message_delta\n"@ + "stop_reason="@);
        assert("\nstop_sequence="@ =~= "\n"@ + "stop_sequence="@);
        let before = "event=message_delta\n"@;
        let part = "stop_reason="@ + reason + "\n"@;
        let after = "stop_sequence="@ + sequence + "\ninput_tokens="@ + read + "\noutput_tokens="@ + written + "\ncache_creation_input_tokens="@ + stored + "\ncache_read_input_tokens="@ + reused;
        assert(report =~= before + part + after);
        text::lemma_contains_part(before, part, after);
    }
    assert(text::contains_text(report, "stop_sequence="@ + sequence + "\n"@)) by {
        reveal_strlit("\nstop_sequence=");
        reveal_strlit("\n");
        reveal_strlit("stop_sequence=");
        reveal_strlit("\ninput_tokens=");
        reveal_strlit("input_tokens=");
        assert("\nstop_sequence="@ =~= "\n"@ + "stop_sequence="@);
        assert("\ninput_tokens="@ =~= "\n"@ + "input_tokens="@);
        let before = "event=message_delta\nstop_reason="@ + reason + "\n"@;
        let part = "stop_sequence="@ + sequence + "\n"@;
        let after = "input_tokens="@ + read + "\noutput_tokens="@ + written + "\ncache_creation_input_tokens="@ + stored + "\ncache_read_input_tokens="@ + reused;
        assert(report =~= before + part + after);
        text::lemma_contains_part(before, part, after);
    }
    assert(text::contains_text(report, "input_tokens="@ + read + "\n"@)) by {
        reveal_strlit("\ninput_tokens=");
        reveal_strlit("\n");
        reveal_strlit("input_tokens=");
        reveal_strlit("\noutput_tokens=");
        reveal_strlit("output_tokens=");
        assert("\ninput_tokens="@ =~= "\n"@ + "input_tokens="@);
        assert("\noutput_tokens="@ =~= "\n"@ + "output_tokens="@);
        let before = "event=message_delta\nstop_reason="@ + reason + "\nstop_sequence="@ + sequence + "\n"@;
        let part = "input_tokens="@ + read + "\n"@;
        let after = "output_tokens="@ + written + "\ncache_creation_input_tokens="@ + stored + "\ncache_read_input_tokens="@ + reused;
        assert(report =~= before + part + after);
        text::lemma_contains_part(before, part, after);
    }
    assert(text::contains_text(report, "output_tokens="@ + written + "\n"@)) by {
        reveal_strlit("\noutput_tokens=");
        reveal_strlit("\n");
        reveal_strlit("output_tokens=");
        reveal_strlit("\ncache_creation_input_tokens=");
        reveal_strlit("cache_creation_input_tokens=");
        assert("\noutput_tokens="@ =~= "\n"@ + "output_tokens="@);
        assert("\ncache_creation_input_tokens="@ =~= "\n"@ + "cache_creation_input_tokens="@);
        let before = "event=message_delta\nstop_reason="@ + reason + "\nstop_sequence="@ + sequence + "\ninput_tokens="@ + read + "\n"@;
        let part = "output_tokens="@ + written + "\n"@;
        let after = "cache_creation_input_tokens="@ + stored + "\ncache_read_input_tokens="@ + reused;
        assert(report =~= before + part + after);
        text::lemma_contains_part(before, part, after);
    }
    assert(text::contains_text(report, "cache_creation_input_tokens="@ + stored + "\n"@)) by {
        reveal_strlit("\ncache_creation_input_tokens=");
        reveal_strlit("\n");
        reveal_strlit("cache_creation_input_tokens=");
        reveal_strlit("\ncache_read_input_tokens=");
        reveal_strlit("cache_read_input_tokens=");
        assert("\ncache_creation_input_tokens="@ =~= "\n"@ + "cache_creation_input_tokens="@);
        assert("\ncache_read_input_tokens="@ =~= "\n"@ + "cache_read_input_tokens="@);
        let before = "event=message_delta\nstop_reason="@ + reason + "\nstop_sequence="@ + sequence + "\ninput_tokens="@ + read + "\noutput_tokens="@ + written + "\n"@;
        let part = "cache_creation_input_tokens="@ + stored + "\n"@;
        let after = "cache_read_input_tokens="@ + reused;
        assert(report =~= before + part + after);
        text::lemma_contains_part(before, part, after);
    }
    assert(text::has_suffix(report, "cache_read_input_tokens="@ + reused)) by {
        reveal_strlit("\ncache_read_input_tokens=");
        reveal_strlit("\n");
        reveal_strlit("cache_read_input_tokens=");
        assert("\ncache_read_input_tokens="@ =~= "\n"@ + "cache_read_input_tokens="@);
        let before = "event=message_delta\nstop_reason="@ + reason + "\nstop_sequence="@ + sequence + "\ninput_tokens="@ + read + "\noutput_tokens="@ + written + "\ncache_creation_input_tokens="@ + stored + "\n"@;
        let part = "cache_read_input_tokens="@ + reused;
        let after = Seq::<char>::empty();
        assert(report =~= before + part + after);
        text::lemma_contains_part(before, part, after);
        assert(before + part + after =~= before + part);
    }
}

/// The end of a message is told by why it stopped and by the tokens that it used.
pub proof fn law_message_ends_tell_reason_and_tokens(stop_reason: Option<String>, stop_sequence: Option<String>, usage: TokenUsage, limit: nat)
    ensures
        text::contains_text(stream_debug::event_summary(StreamEvent::MessageDelta { stop_reason, stop_sequence, usage }, limit), "stop_reason="@ + (if stop_reason is Some { stop_reason->0@ } else { "none"@ }) + "\n"@),
        text::contains_text(stream_debug::event_summary(StreamEvent::MessageDelta { stop_reason, stop_sequence, usage }, limit), "stop_sequence="@ + (if stop_sequence is Some { stop_sequence->0@ } else { "none"@ }) + "\n"@),
        text::contains_text(stream_debug::event_summary(StreamEvent::MessageDelta { stop_reason, stop_sequence, usage }, limit), "input_tokens="@ + text::decimal(usage.input_tokens as nat) + "\n"@),
        text::contains_text(stream_debug::event_summary(StreamEvent::MessageDelta { stop_reason, stop_sequence, usage }, limit), "output_tokens="@ + text::decimal(usage.output_tokens as nat) + "\n"@),
        text::contains_text(stream_debug::event_summary(StreamEvent::MessageDelta { stop_reason, stop_sequence, usage }, limit), "cache_creation_input_tokens="@ + text::decimal(usage.cache_creation_input_tokens as nat) + "\n"@),
        text::has_suffix(stream_debug::event_summary(StreamEvent::MessageDelta { stop_reason, stop_sequence, usage }, limit), "cache_read_input_tokens="@ + text::decimal(usage.cache_read_input_tokens as nat)),
{
    lemma_end_is_told(stream_debug::event_summary(StreamEvent::MessageDelta { stop_reason, stop_sequence, usage }, limit), (if stop_reason is Some { stop_reason->0@ } else { "none"@ }), (if stop_sequence is Some { stop_sequence->0@ } else { "none"@ }), text::decimal(usage.input_tokens as nat), text::decimal(usage.output_tokens as nat), text::decimal(usage.cache_creation_input_tokens as nat), text::decimal(usage.cache_read_input_tokens as nat));
}

proof fn lemma_pending_is_told(report: Seq<char>, at: Seq<char>, call: Seq<char>, name: Seq<char>, bytes: Seq<char>, chars: Seq<char>, end: Seq<char>)
    requires
        report == "index="@ + at + " id="@ + call + " name="@ + name + " bytes="@ + bytes + " chars="@ + chars + " suffix="@ + end,
    ensures
        text::contains_text(report, "index="@ + at + " "@),
        text::contains_text(report, " id="@ + call + " "@),
        text::contains_text(report, " name="@ + name + " "@),
        text::contains_text(report, " bytes="@ + bytes + " "@),
        text::contains_text(report, " chars="@ + chars + " "@),
        text::has_suffix(report, " suffix="@ + end),
{
    assert(text::contains_text(report, "index="@ + at + " "@)) by {
        reveal_strlit("index=");
        reveal_strlit(" id=");
        reveal_strlit(" ");
        reveal_strlit("id=");
        assert(" id="@ =~= " "@ + "id="@);
        let before = Seq::<char>::empty();
        let part = "index="@ + at + " "@;
        let after = "id="@ + call + " name="@ + name + " bytes="@ + bytes + " chars="@ + chars + " suffix="@ + end;
        assert(report =~= before + part + after);
        text::lemma_contains_part(before, part, after);
    }
    assert(text::contains_text(report, " id="@ + call + " "@)) by {
        reveal_strlit(" id=");
        reveal_strlit(" name=");
        reveal_strlit(" ");
        reveal_strlit("name=");
        assert(" name="@ =~= " "@ + "name="@);
        let before = "index="@ + at;
        let part = " id="@ + call + " "@;
        let after = "name="@ + name + " bytes="@ + bytes + " chars="@ + chars + " suffix="@ + end;
        assert(report =~= before + part + after);
        text::lemma_contains_part(before, part, after);
    }
    assert(text::contains_text(report, " name="@ + name + " "@)) by {
        reveal_strlit(" name=");
        reveal_strlit(" bytes=");
        reveal_strlit(" ");
        reveal_strlit("bytes=");
        assert(" bytes="@ =~= " "@ + "bytes="@);
        let before = "index="@ + at + " id="@ + call;
        let part = " name="@ + name + " "@;
        let after = "bytes="@ + bytes + " chars="@ + chars + " suffix="@ + end;
        assert(report =~= before + part + after);
        text::lemma_contains_part(before, part, after);
    }
    assert(text::contains_text(report, " bytes="@ + bytes + " "@)) by {
        reveal_strlit(" bytes=");
        reveal_strlit(" chars=");
        reveal_strlit(" ");
        reveal_strlit("chars=");
        assert(" chars="@ =~= " "@ + "chars="@);
        let before = "index="@ + at + " id="@ + call + " name="@ + name;
        let part = " bytes="@ + bytes + " "@;
        let after = "chars="@ + chars + " suffix="@ + end;
        assert(report =~= before + part + after);
        text::lemma_contains_part(before, part, after);
    }
    assert(text::contains_text(report, " chars="@ + chars + " "@)) by {
        reveal_strlit(" chars=");
        reveal_strlit(" suffix=");
        reveal_strlit(" ");
        reveal_strlit("suffix=");
        assert(" suffix="@ =~= " "@ + "suffix="@);
        let before = "index="@ + at + " id="@ + call + " name="@ + name + " bytes="@ + bytes;
        let part = " chars="@ + chars + " "@;
        let after = "suffix="@ + end;
        assert(report =~= before + part + after);
        text::lemma_contains_part(before, part, after);
    }
    assert(text::has_suffix(report, " suffix="@ + end)) by {
        reveal_strlit(" suffix=");
        let before = "index="@ + at + " id="@ + call + " name="@ + name + " bytes="@ + bytes + " chars="@ + chars;
        let part = " suffix="@ + end;
        let after = Seq::<char>::empty();
        assert(report =~= before + part + after);
        text::lemma_contains_part(before, part, after);
        assert(before + part + after =~= before + part);
    }
}

/// An open call is told by its index, its id, its name, the size of its input so far,
/// and the end of it.
pub proof fn law_open_calls_are_told(index: u32, tool: PendingView, limit: nat)
    ensures
        text::contains_text(stream_debug::pending_entry(index, tool, limit), "index="@ + text::decimal(index as nat) + " "@),
        text::contains_text(stream_debug::pending_entry(index, tool, limit), " id="@ + tool.id + " "@),
        text::contains_text(stream_debug::pending_entry(index, tool, limit), " name="@ + tool.name + " "@),
        text::contains_text(stream_debug::pending_entry(index, tool, limit), " bytes="@ + text::decimal(tool_display::byte_len(tool.input) as nat) + " "@),
        text::contains_text(stream_debug::pending_entry(index, tool, limit), " chars="@ + text::decimal(tool.input.len()) + " "@),
        text::has_suffix(stream_debug::pending_entry(index, tool, limit), " suffix="@ + stream_debug::quoted_suffix(tool.input, limit)),
{
    lemma_pending_is_told(stream_debug::pending_entry(index, tool, limit), text::decimal(index as nat), tool.id, tool.name, text::decimal(tool_display::byte_len(tool.input) as nat), text::decimal(tool.input.len()), stream_debug::quoted_suffix(tool.input, limit));
}

/// The indices and the entries of open calls are listed in the same order, one for
/// each call.
pub proof fn law_open_calls_are_listed_by_index(
    keys: Seq<u32>,
    pending: Map<u32, PendingView>,
    limit: nat,
    at: int,
)
    requires
        0 <= at < keys.len(),
    ensures
        stream_debug::index_texts(keys).len() == keys.len(),
        stream_debug::entry_texts(keys, pending, limit).len() == keys.len(),
        stream_debug::index_texts(keys)[at] == text::decimal(keys[at] as nat),
        stream_debug::entry_texts(keys, pending, limit)[at] == stream_debug::pending_entry(
            keys[at],
            pending[keys[at]],
            limit,
        ),
{
}

proof fn lemma_pendings_are_told(report: Seq<char>, count: Seq<char>, indices: Seq<char>, entries: Seq<char>)
    requires
        report == "pending_tool_count="@ + count + "\npending_tool_indices="@ + indices + "\npending_tool_entries="@ + entries,
    ensures
        text::contains_text(report, "pending_tool_count="@ + count + "\n"@),
        text::contains_text(report, "pending_tool_indices="@ + indices + "\n"@),
        text::has_suffix(report, "pending_tool_entries="@ + entries),
{
    assert(text::contains_text(report, "pending_tool_count="@ + count + "\n"@)) by {
        reveal_strlit("pending_tool_count=");
        reveal_strlit("\npending_tool_indices=");
        reveal_strlit("\n");
        reveal_strlit("pending_tool_indices=");
        assert("\npending_tool_indices="@ =~= "\n"@ + "pending_tool_indices="@);
        let before = Seq::<char>::empty();
        let part = "pending_tool_count="@ + count + "\n"@;
        let after = "pending_tool_indices="@ + indices + "\npending_tool_entries="@ + entries;
        assert(report =~= before + part + after);
        text::lemma_contains_part(before, part, after);
    }
    assert(text::contains_text(report, "pending_tool_indices="@ + indices + "\n"@)) by {
        reveal_strlit("\npending_tool_indices=");
        reveal_strlit("\n");
        reveal_strlit("pending_tool_indices=");
        reveal_strlit("\npending_tool_entries=");
        reveal_strlit("pending_tool_entries=");
        assert("\npending_tool_indices="@ =~= "\n"@ + "pending_tool_indices="@);
        assert("\npending_tool_entries="@ =~= "\n"@ + "pending_tool_entries="@);
        let before = "pending_tool_count="@ + count + "\n"@;
        let part = "pending_tool_indices="@ + indices + "\n"@;
        let after = "pending_tool_entries="@ + entries;
        assert(report =~= before + part + after);
        text::lemma_contains_part(before, part, after);
    }
    assert(text::has_suffix(report, "pending_tool_entries="@ + entries)) by {
        reveal_strlit("\npending_tool_entries=");
        reveal_strlit("\n");
        reveal_strlit("pending_tool_entries=");
        assert("\npending_tool_entries="@ =~= "\n"@ + "pending_tool_entries="@);
        let before = "pending_tool_count="@ + count + "\npending_tool_indices="@ + indices + "\n"@;
        let part = "pending_tool_entries="@ + entries;
        let after = Seq::<char>::empty();
        assert(report =~= before + part + after);
        text::lemma_contains_part(before, part, after);
        assert(before + part + after =~= before + part);
    }
}

/// The open calls are told by their number, their indices and their entries; the more
/// there are, the more room their entries have.
pub proof fn law_open_calls_are_counted_and_listed(pending: Map<u32, PendingView>, limit: nat)
    ensures
        text::contains_text(stream_debug::pending_summary(pending, limit), "pending_tool_count="@ + text::decimal(stream_debug::in_order(pending.dom()).len()) + "\n"@),
        text::contains_text(stream_debug::pending_summary(pending, limit), "pending_tool_indices="@ + stream_debug::quoted_prefix(text::joined(stream_debug::index_texts(stream_debug::in_order(pending.dom())), ","@), limit) + "\n"@),
        text::has_suffix(stream_debug::pending_summary(pending, limit), "pending_tool_entries="@ + stream_debug::quoted_prefix(text::joined(stream_debug::entry_texts(stream_debug::in_order(pending.dom()), pending, limit), " | "@), if stream_debug::in_order(pending.dom()).len() > 1 { limit * stream_debug::in_order(pending.dom()).len() } else { limit })),
{
    lemma_pendings_are_told(stream_debug::pending_summary(pending, limit), text::decimal(stream_debug::in_order(pending.dom()).len()), stream_debug::quoted_prefix(text::joined(stream_debug::index_texts(stream_debug::in_order(pending.dom())), ","@), limit), stream_debug::quoted_prefix(text::joined(stream_debug::entry_texts(stream_debug::in_order(pending.dom()), pending, limit), " | "@), if stream_debug::in_order(pending.dom()).len() > 1 { limit * stream_debug::in_order(pending.dom()).len() } else { limit }));
}

} // verus!
