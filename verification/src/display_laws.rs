//! What holds of every tool call and result that is shown.

use vstd::prelude::*;

use crate::json::{self, JsonView};
use crate::text;
use crate::text_laws;
use crate::tool_display::{self, DisplayTool};

verus! {

// ---------------------------------------------------------------------------
// Shortening
// ---------------------------------------------------------------------------

/// A summary shows the beginning of a text, and says where it is not the whole.
pub proof fn law_summaries_show_the_beginning(value: Seq<char>, limit: nat)
    ensures
        value.len() <= limit ==> tool_display::summary(value, limit) == value,
        value.len() > limit ==> {
            let shown = tool_display::summary(value, limit);
            &&& shown.len() == limit + 1
            &&& shown.take(limit as int) == value.take(limit as int)
            &&& shown.last() == '…'
        },
{
    reveal_strlit("…");
    if value.len() > limit {
        assert(tool_display::summary(value, limit).take(limit as int) =~= value.take(limit as int));
    }
}

/// The length of lines with a newline between neighbours.
pub open spec fn length_of_lines(lines: Seq<Seq<char>>) -> nat
    decreases lines.len(),
{
    if lines.len() == 0 {
        0
    } else {
        lines[0].len() + (if lines.len() > 1 {
            1 + length_of_lines(lines.skip(1))
        } else {
            0
        })
    }
}

proof fn lemma_fitting_keeps(
    lines: Seq<Seq<char>>,
    index: nat,
    used: nat,
    max_lines: nat,
    max_chars: nat,
)
    requires
        used <= max_chars,
        index <= lines.len(),
    ensures
        ({
            let (kept, cut) = tool_display::fitting(lines, index, used, max_lines, max_chars);
            let rest = lines.skip(index as int);
            let start = used + (if index > 0 {
                1nat
            } else {
                0nat
            });
            &&& kept.len() <= rest.len()
            &&& forall|i: int| 0 <= i < kept.len() - 1 ==> #[trigger] kept[i] == rest[i]
            &&& kept.len() > 0 ==> text::has_prefix(rest[kept.len() - 1], kept.last())
            &&& !cut ==> kept == rest
            &&& rest.len() > 0 && lines.len() <= max_lines && rest[0].len() > 0 && start
                + length_of_lines(rest) <= max_chars && (forall|i: int|
                0 <= i < rest.len() ==> (#[trigger] rest[i]).len() > 0) ==> !cut
        }),
    decreases lines.len() - index,
{
    let (kept, cut) = tool_display::fitting(lines, index, used, max_lines, max_chars);
    let rest = lines.skip(index as int);
    if index >= lines.len() {
        assert(kept =~= rest);
    } else if index < max_lines {
        let start = used + (if index > 0 {
            1nat
        } else {
            0nat
        });
        let line = lines[index as int];
        assert(rest[0] == line);
        if start < max_chars {
            if line.len() > max_chars - start {
                assert(kept =~= seq![line.take(max_chars - start)]);
                assert(line.take(kept.last().len() as int) =~= kept.last());
            } else {
                lemma_fitting_keeps(lines, index + 1, start + line.len(), max_lines, max_chars);
                let next = tool_display::fitting(
                    lines,
                    index + 1,
                    start + line.len(),
                    max_lines,
                    max_chars,
                );
                assert(lines.skip(index as int + 1) =~= rest.skip(1));
                assert(kept =~= seq![line] + next.0);
                assert forall|i: int| 0 <= i < kept.len() - 1 implies #[trigger] kept[i]
                    == rest[i] by {
                    if i > 0 {
                        assert(kept[i] == next.0[i - 1]);
                        assert(rest[i] == rest.skip(1)[i - 1]);
                    }
                }
                if next.0.len() > 0 {
                    assert(kept.last() == next.0.last());
                    assert(rest[kept.len() - 1] == rest.skip(1)[next.0.len() - 1]);
                } else {
                    assert(kept.last() == line);
                    assert(line.take(line.len() as int) =~= line);
                }
                if !cut {
                    assert(rest =~= seq![line] + rest.skip(1));
                }
                if rest.len() > 1 {
                    assert(rest.skip(1)[0] == rest[1]);
                    assert(forall|i: int|
                        0 <= i < rest.skip(1).len() ==> #[trigger] rest.skip(1)[i] == rest[i + 1]);
                }
            }
        }
    }
}

/// What is shown of lines is what they begin with: whole lines in their order,
/// of which only the last may be cut, and all of them where nothing was cut.
pub proof fn law_shown_lines_are_the_first(
    lines: Seq<Seq<char>>,
    max_lines: nat,
    max_chars: nat,
    at: int,
)
    ensures
        ({
            let (kept, cut) = tool_display::fitting(lines, 0, 0, max_lines, max_chars);
            &&& kept.len() <= lines.len()
            &&& 0 <= at < kept.len() - 1 ==> kept[at] == lines[at]
            &&& kept.len() > 0 ==> text::has_prefix(lines[kept.len() - 1], kept.last())
            &&& !cut ==> kept == lines
        }),
{
    lemma_fitting_keeps(lines, 0, 0, max_lines, max_chars);
    assert(lines.skip(0) =~= lines);
}

proof fn lemma_joined_length(lines: Seq<Seq<char>>)
    ensures
        text::joined(lines, "\n"@).len() == length_of_lines(lines),
    decreases lines.len(),
{
    reveal_strlit("\n");
    if lines.len() > 1 {
        lemma_joined_length(lines.skip(1));
        text_laws::law_joining_puts_the_separator_between(
            seq![lines[0]],
            lines.skip(1),
            lines[0],
            "\n"@,
        );
        assert(lines =~= seq![lines[0]] + lines.skip(1));
    }
}

/// A result that keeps within the limits is shown as it is, without a notice.
pub proof fn law_short_results_are_shown_whole(
    lines: Seq<Seq<char>>,
    max_lines: nat,
    max_chars: nat,
)
    requires
        0 < lines.len() <= max_lines,
        forall|i: int|
            0 <= i < lines.len() ==> text_laws::is_line(#[trigger] lines[i]) && lines[i].len() > 0,
        text::joined(lines, "\n"@).len() <= max_chars,
    ensures
        tool_display::displayed(text::joined(lines, "\n"@), max_lines, max_chars) == text::joined(
            lines,
            "\n"@,
        ),
{
    let content = text::joined(lines, "\n"@);
    text_laws::law_joined_lines_read_back(lines);
    lemma_joined_length(lines);
    let last = lines.last();
    lemma_joined_last(lines);
    assert(content.last() == last.last());
    assert(last.contains(last.last()));
    assert(text::without_trailing_newlines(content) == content);
    lemma_fitting_keeps(lines, 0, 0, max_lines, max_chars);
    assert(lines.skip(0) =~= lines);
}

proof fn lemma_joined_last(lines: Seq<Seq<char>>)
    requires
        lines.len() > 0,
        lines.last().len() > 0,
    ensures
        text::joined(lines, "\n"@).len() > 0,
        text::joined(lines, "\n"@).last() == lines.last().last(),
{
}

/// A result that was cut says so at its end, and no other does by itself: what is
/// shown of it is what was kept, and the notice behind it.
pub proof fn law_cut_results_say_so(content: Seq<char>, max_lines: nat, max_chars: nat)
    ensures
        ({
            let lines = text::lines_of(text::without_trailing_newlines(content));
            let cut = tool_display::fitting(lines, 0, 0, max_lines, max_chars).1;
            let shown = tool_display::displayed(content, max_lines, max_chars);
            &&& cut ==> text::has_suffix(
                shown,
                "\x1b[2m… output truncated for display; full result preserved in session.\x1b[0m"@,
            )
            &&& !cut ==> shown == text::joined(lines, "\n"@)
            &&& lines.len() > max_lines ==> cut
        }),
{
    let lines = text::lines_of(text::without_trailing_newlines(content));
    lemma_fitting_keeps(lines, 0, 0, max_lines, max_chars);
    assert(lines.skip(0) =~= lines);
    let (kept, cut) = tool_display::fitting(lines, 0, 0, max_lines, max_chars);
    tool_display::law_displayed_lines_are_bounded(lines, max_lines, max_chars);
    let notice =
        "\x1b[2m… output truncated for display; full result preserved in session.\x1b[0m"@;
    let preview = text::joined(kept, "\n"@);
    text::lemma_contains_part(preview + "\n"@, notice, Seq::empty());
    text::lemma_contains_part(Seq::empty(), notice, Seq::empty());
    assert(Seq::empty() + notice =~= notice);
}

// ---------------------------------------------------------------------------
// Visible lines
// ---------------------------------------------------------------------------

proof fn lemma_visible_in_rest(head: Seq<char>, lines: Seq<Seq<char>>, index: int)
    requires
        0 <= index <= lines.len(),
    ensures
        tool_display::visible_line(seq![head] + lines, index + 1) == tool_display::visible_line(
            lines,
            index,
        ),
    decreases lines.len() - index,
{
    if index < lines.len() {
        assert((seq![head] + lines)[index + 1] == lines[index]);
        lemma_visible_in_rest(head, lines, index + 1);
    }
}

/// The first visible line of a text is its first line where that holds
/// something; a blank line is passed over; and a text of one line is its own.
pub proof fn law_first_visible_line(line: Seq<char>, rest: Seq<char>)
    requires
        text_laws::is_line(line),
    ensures
        tool_display::first_visible(line) == line,
        !text::is_blank(line) ==> tool_display::first_visible(line + "\n"@ + rest) == line,
        text::is_blank(line) && tool_display::visible_line(text::lines_of(rest), 0) is Some
            ==> tool_display::first_visible(line + "\n"@ + rest) == tool_display::first_visible(
            rest,
        ),
{
    text_laws::law_lines_end_at_newlines(line, rest);
    let lines = text::lines_of(rest);
    let whole = seq![line] + lines;
    assert(whole[0] == line);
    lemma_visible_in_rest(line, lines, 0);
    if line.len() > 0 {
        reveal_with_fuel(tool_display::visible_line, 2);
        assert(seq![line][0] == line);
    }
}

// ---------------------------------------------------------------------------
// Tool calls
// ---------------------------------------------------------------------------

/// Whether a text is shown in a preview as it is: one line of at most 72
/// characters.
pub open spec fn short_line(s: Seq<char>) -> bool {
    text_laws::is_line(s) && s.len() <= 72
}

/// The preview of an edit shows what is taken away and then what takes its place:
/// for texts of one short line it starts with the old text, in red behind a minus
/// sign, and ends with the new one, in green behind a plus sign.
pub proof fn law_edit_previews_show_old_then_new(old_value: Seq<char>, new_value: Seq<char>)
    requires
        short_line(old_value),
        short_line(new_value),
        old_value.len() > 0 || new_value.len() > 0,
    ensures
        tool_display::patch_preview(old_value, new_value) matches Some(preview) && {
            &&& text::has_prefix(preview, "\x1b[38;5;203m- "@ + old_value + "\x1b[0m\n"@)
            &&& text::has_suffix(preview, "\x1b[38;5;70m+ "@ + new_value + "\x1b[0m"@)
            &&& preview.len() == ("\x1b[38;5;203m- "@ + old_value + "\x1b[0m\n"@).len() + (
            "\x1b[38;5;70m+ "@ + new_value + "\x1b[0m"@).len()
        },
{
    law_first_visible_line(old_value, Seq::empty());
    law_first_visible_line(new_value, Seq::empty());
    reveal_strlit("\x1b[0m\n\x1b[38;5;70m+ ");
    reveal_strlit("\x1b[0m\n");
    reveal_strlit("\x1b[38;5;70m+ ");
    let minus = "\x1b[38;5;203m- "@ + old_value + "\x1b[0m\n"@;
    let plus = "\x1b[38;5;70m+ "@ + new_value + "\x1b[0m"@;
    let preview = tool_display::patch_preview(old_value, new_value)->0;
    assert("\x1b[0m\n\x1b[38;5;70m+ "@ =~= "\x1b[0m\n"@ + "\x1b[38;5;70m+ "@);
    assert(preview =~= minus + plus);
    text::lemma_contains_part(minus, plus, Seq::empty());
    text::lemma_contains_part(Seq::empty(), minus, plus);
}

/// A longer text is shown in the preview of an edit by its first visible line,
/// each on its own side.
pub proof fn law_edit_previews_show_first_lines(
    old_line: Seq<char>,
    old_rest: Seq<char>,
    new_line: Seq<char>,
    new_rest: Seq<char>,
)
    requires
        short_line(old_line),
        short_line(new_line),
        !text::is_blank(old_line),
        !text::is_blank(new_line),
    ensures
        tool_display::patch_preview(old_line + "\n"@ + old_rest, new_line + "\n"@ + new_rest)
            == tool_display::patch_preview(old_line, new_line),
{
    law_first_visible_line(old_line, old_rest);
    law_first_visible_line(new_line, new_rest);
    reveal_strlit("\n");
}

/// A tool call is shown under its name, with its detail in the frame.
pub proof fn law_frames_show_name_and_detail(name: Seq<char>, detail: Seq<char>)
    ensures
        text::contains_text(tool_display::framed(name, detail), "╭─ \x1b[1;36m"@ + name),
        text::contains_text(tool_display::framed(name, detail), "│\x1b[0m "@ + detail + "\n"@),
{
    reveal_strlit("\x1b[38;5;245m╭─ \x1b[1;36m");
    reveal_strlit("╭─ \x1b[1;36m");
    reveal_strlit("\x1b[38;5;245m");
    reveal_strlit("\x1b[0;38;5;245m ─╮\x1b[0m\n\x1b[38;5;245m│\x1b[0m ");
    reveal_strlit("\x1b[0;38;5;245m ─╮\x1b[0m\n\x1b[38;5;245m");
    reveal_strlit("│\x1b[0m ");
    reveal_strlit("\n\x1b[38;5;245m╰");
    reveal_strlit("\n");
    reveal_strlit("\x1b[38;5;245m╰");
    let whole = tool_display::framed(name, detail);
    let tail = "\x1b[38;5;245m╰"@ + text::repeated('─', tool_display::border_width(name))
        + "╯\x1b[0m"@;
    assert("\x1b[38;5;245m╭─ \x1b[1;36m"@ =~= "\x1b[38;5;245m"@ + "╭─ \x1b[1;36m"@);
    assert("\x1b[0;38;5;245m ─╮\x1b[0m\n\x1b[38;5;245m│\x1b[0m "@
        =~= "\x1b[0;38;5;245m ─╮\x1b[0m\n\x1b[38;5;245m"@ + "│\x1b[0m "@);
    assert("\n\x1b[38;5;245m╰"@ =~= "\n"@ + "\x1b[38;5;245m╰"@);
    let head = "\x1b[38;5;245m"@;
    let named = "╭─ \x1b[1;36m"@ + name;
    let between = "\x1b[0;38;5;245m ─╮\x1b[0m\n\x1b[38;5;245m"@;
    let shown = "│\x1b[0m "@ + detail + "\n"@;
    assert(whole =~= head + named + (between + shown + tail));
    text::lemma_contains_part(head, named, between + shown + tail);
    assert(whole =~= (head + named + between) + shown + tail);
    text::lemma_contains_part(head + named + between, shown, tail);
}

/// Whether a document names the path of a file, under one of three names.
pub open spec fn only_path(parsed: JsonView, key: Seq<char>, path: Seq<char>) -> bool {
    &&& key == "file_path"@ || key == "filePath"@ || key == "path"@
    &&& parsed.get(key) == Some(JsonView::Text(path))
    &&& key != "file_path"@ ==> parsed.get("file_path"@) is None
    &&& key != "filePath"@ ==> parsed.get("filePath"@) is None
    &&& key != "path"@ ==> parsed.get("path"@) is None
}

/// The path of a tool is the one that its input names, under whichever of the
/// three names; without a name there is a question mark.
pub proof fn law_tool_paths_are_named(parsed: JsonView, key: Seq<char>, path: Seq<char>)
    ensures
        only_path(parsed, key, path) ==> tool_display::tool_path(parsed) == path,
        parsed.get("file_path"@) == Some(JsonView::Text(path)) ==> tool_display::tool_path(parsed)
            == path,
        parsed.get("file_path"@) is None && parsed.get("filePath"@) == Some(JsonView::Text(path))
            ==> tool_display::tool_path(parsed) == path,
        parsed.get("file_path"@) is None && parsed.get("filePath"@) is None && parsed.get("path"@)
            is None ==> tool_display::tool_path(parsed) == "?"@,
{
}

/// The two names of a tool that has a display of its own.
pub open spec fn is_named(
    name: Seq<char>,
    first: Seq<char>,
    second: Seq<char>,
) -> bool {
    name == first || name == second
}

proof fn lemma_tool_names()
    ensures
        tool_display::display_tool("bash"@) == DisplayTool::Bash,
        tool_display::display_tool("Bash"@) == DisplayTool::Bash,
        tool_display::display_tool("read_file"@) == DisplayTool::Read,
        tool_display::display_tool("Read"@) == DisplayTool::Read,
        tool_display::display_tool("write_file"@) == DisplayTool::Write,
        tool_display::display_tool("Write"@) == DisplayTool::Write,
        tool_display::display_tool("edit_file"@) == DisplayTool::Edit,
        tool_display::display_tool("Edit"@) == DisplayTool::Edit,
        tool_display::display_tool("glob_search"@) == DisplayTool::Glob,
        tool_display::display_tool("Glob"@) == DisplayTool::Glob,
        tool_display::display_tool("grep_search"@) == DisplayTool::Grep,
        tool_display::display_tool("Grep"@) == DisplayTool::Grep,
        tool_display::display_tool("web_search"@) == DisplayTool::WebSearch,
        tool_display::display_tool("WebSearch"@) == DisplayTool::WebSearch,
{
    reveal_strlit("bash");
    reveal_strlit("Bash");
    reveal_strlit("read_file");
    reveal_strlit("Read");
    reveal_strlit("write_file");
    reveal_strlit("Write");
    reveal_strlit("edit_file");
    reveal_strlit("Edit");
    reveal_strlit("glob_search");
    reveal_strlit("Glob");
    reveal_strlit("grep_search");
    reveal_strlit("Grep");
    reveal_strlit("web_search");
    reveal_strlit("WebSearch");
    assert("bash"@.len() == 4);
    assert("Bash"@.len() == 4);
    assert("read_file"@.len() == 9);
    assert("Read"@.len() == 4);
    assert("write_file"@.len() == 10);
    assert("Write"@.len() == 5);
    assert("edit_file"@.len() == 9);
    assert("Edit"@.len() == 4);
    assert("glob_search"@.len() == 11);
    assert("Glob"@.len() == 4);
    assert("grep_search"@.len() == 11);
    assert("Grep"@.len() == 4);
    assert("web_search"@.len() == 10);
    assert("WebSearch"@.len() == 9);
    assert("bash"@[0] == 'b' && "Bash"@[0] == 'B' && "Read"@[0] == 'R' && "Edit"@[0] == 'E');
    assert("Glob"@[1] == 'l' && "Grep"@[1] == 'r' && "Glob"@[0] == 'G' && "Grep"@[0] == 'G');
    assert("glob_search"@[1] == 'l' && "grep_search"@[1] == 'r');
    assert("read_file"@[0] == 'r' && "edit_file"@[0] == 'e' && "WebSearch"@[0] == 'W');
    assert("web_search"@[1] == 'e' && "write_file"@[1] == 'r');
}

/// A shown call says what is asked for: the command of a shell, the path of a
/// file that is read, written or edited, the pattern and the place of a search,
/// and the query of a web search. Any other tool shows its payload.
pub proof fn law_calls_show_what_is_asked_for(
    name: Seq<char>,
    parsed: JsonView,
    payload: Seq<char>,
    asked: Seq<char>,
    place: Seq<char>,
)
    ensures
        ({
            let shown = tool_display::call_detail(name, parsed, payload);
            &&& is_named(name, "bash"@, "Bash"@) && parsed.get("command"@) == Some(
                JsonView::Text(asked),
            ) && 0 < asked.len() <= 160 ==> text::contains_text(shown, " $ "@ + asked + " "@)
            &&& is_named(name, "read_file"@, "Read"@) ==> text::contains_text(
                shown,
                "Reading "@ + tool_display::tool_path(parsed) + "…"@,
            )
            &&& is_named(name, "write_file"@, "Write"@) ==> text::contains_text(
                shown,
                "Writing "@ + tool_display::tool_path(parsed) + "\x1b[0m"@,
            )
            &&& is_named(name, "edit_file"@, "Edit"@) ==> text::contains_text(
                shown,
                "Editing "@ + tool_display::tool_path(parsed) + "\x1b[0m"@,
            )
            &&& is_named(name, "glob_search"@, "Glob"@) && parsed.get("pattern"@) == Some(
                JsonView::Text(asked),
            ) && parsed.get("path"@) == Some(JsonView::Text(place)) ==> text::contains_text(
                shown,
                "Glob "@ + asked + "\n"@,
            ) && text::has_suffix(shown, "in "@ + place + "\x1b[0m"@)
            &&& is_named(name, "grep_search"@, "Grep"@) && parsed.get("pattern"@) == Some(
                JsonView::Text(asked),
            ) && parsed.get("path"@) == Some(JsonView::Text(place)) ==> text::contains_text(
                shown,
                "Grep "@ + asked + "\n"@,
            ) && text::has_suffix(shown, "in "@ + place + "\x1b[0m"@)
            &&& is_named(name, "web_search"@, "WebSearch"@) && parsed.get("query"@) == Some(
                JsonView::Text(asked),
            ) ==> shown == asked
            &&& !is_named(name, "bash"@, "Bash"@) && !is_named(name, "read_file"@, "Read"@)
                && !is_named(name, "write_file"@, "Write"@) && !is_named(
                name,
                "edit_file"@,
                "Edit"@,
            ) && !is_named(name, "glob_search"@, "Glob"@) && !is_named(
                name,
                "grep_search"@,
                "Grep"@,
            ) && !is_named(name, "web_search"@, "WebSearch"@) ==> shown == payload
        }),
{
    lemma_tool_names();
    let shown = tool_display::call_detail(name, parsed, payload);
    let path = tool_display::tool_path(parsed);
    match tool_display::display_tool(name) {
        DisplayTool::Bash => {
            if parsed.get("command"@) == Some(JsonView::Text(asked)) && 0 < asked.len() <= 160 {
                reveal_strlit("\x1b[48;5;236;38;5;255m $ ");
                reveal_strlit("\x1b[48;5;236;38;5;255m");
                reveal_strlit(" $ ");
                reveal_strlit(" \x1b[0m");
                reveal_strlit(" ");
                reveal_strlit("\x1b[0m");
                assert("\x1b[48;5;236;38;5;255m $ "@ =~= "\x1b[48;5;236;38;5;255m"@ + " $ "@);
                assert(" \x1b[0m"@ =~= " "@ + "\x1b[0m"@);
                let part = " $ "@ + asked + " "@;
                assert(shown =~= "\x1b[48;5;236;38;5;255m"@ + part + "\x1b[0m"@);
                text::lemma_contains_part("\x1b[48;5;236;38;5;255m"@, part, "\x1b[0m"@);
            }
        },
        DisplayTool::Read => {
            reveal_strlit("\x1b[2m📄 Reading ");
            reveal_strlit("\x1b[2m📄 ");
            reveal_strlit("Reading ");
            reveal_strlit("…\x1b[0m");
            reveal_strlit("…");
            reveal_strlit("\x1b[0m");
            assert("\x1b[2m📄 Reading "@ =~= "\x1b[2m📄 "@ + "Reading "@);
            assert("…\x1b[0m"@ =~= "…"@ + "\x1b[0m"@);
            let part = "Reading "@ + path + "…"@;
            assert(shown =~= "\x1b[2m📄 "@ + part + "\x1b[0m"@);
            text::lemma_contains_part("\x1b[2m📄 "@, part, "\x1b[0m"@);
        },
        DisplayTool::Write => {
            reveal_strlit("\x1b[1;32m✏️ Writing ");
            reveal_strlit("\x1b[1;32m✏️ ");
            reveal_strlit("Writing ");
            reveal_strlit("\x1b[0m \x1b[2m(");
            reveal_strlit("\x1b[0m");
            reveal_strlit(" \x1b[2m(");
            assert("\x1b[1;32m✏️ Writing "@ =~= "\x1b[1;32m✏️ "@ + "Writing "@);
            assert("\x1b[0m \x1b[2m("@ =~= "\x1b[0m"@ + " \x1b[2m("@);
            let part = "Writing "@ + path + "\x1b[0m"@;
            let tail = " \x1b[2m("@ + text::decimal(tool_display::content_lines(parsed))
                + " lines)\x1b[0m"@;
            assert(shown =~= "\x1b[1;32m✏️ "@ + part + tail);
            text::lemma_contains_part("\x1b[1;32m✏️ "@, part, tail);
        },
        DisplayTool::Edit => {
            reveal_strlit("\x1b[1;33m📝 Editing ");
            reveal_strlit("\x1b[1;33m📝 ");
            reveal_strlit("Editing ");
            assert("\x1b[1;33m📝 Editing "@ =~= "\x1b[1;33m📝 "@ + "Editing "@);
            let part = "Editing "@ + path + "\x1b[0m"@;
            let head = "\x1b[1;33m📝 "@ + part;
            let preview = tool_display::patch_preview(
                tool_display::str_under(parsed, "old_string"@, "oldString"@),
                tool_display::str_under(parsed, "new_string"@, "newString"@),
            );
            match preview {
                Some(preview) => {
                    assert(shown =~= "\x1b[1;33m📝 "@ + part + ("\n"@ + preview));
                    text::lemma_contains_part("\x1b[1;33m📝 "@, part, "\n"@ + preview);
                },
                None => {
                    assert(shown =~= "\x1b[1;33m📝 "@ + part + Seq::empty());
                    text::lemma_contains_part("\x1b[1;33m📝 "@, part, Seq::empty());
                },
            }
        },
        DisplayTool::Glob => {
            lemma_search_start("🔎 Glob"@, "🔎 "@, "Glob"@, "Glob "@, parsed, asked, place);
        },
        DisplayTool::Grep => {
            lemma_search_start("🔎 Grep"@, "🔎 "@, "Grep"@, "Grep "@, parsed, asked, place);
        },
        _ => {},
    }
}

proof fn lemma_search_start(
    label: Seq<char>,
    icon: Seq<char>,
    word: Seq<char>,
    spaced: Seq<char>,
    parsed: JsonView,
    asked: Seq<char>,
    place: Seq<char>,
)
    requires
        (label == "🔎 Glob"@ && word == "Glob"@ && spaced == "Glob "@) || (label == "🔎 Grep"@
            && word == "Grep"@ && spaced == "Grep "@),
        icon == "🔎 "@,
    ensures
        parsed.get("pattern"@) == Some(JsonView::Text(asked)) && parsed.get("path"@) == Some(
            JsonView::Text(place),
        ) ==> text::contains_text(
            tool_display::search_start(label, parsed),
            spaced + asked + "\n"@,
        ) && text::has_suffix(
            tool_display::search_start(label, parsed),
            "in "@ + place + "\x1b[0m"@,
        ),
{
    reveal_strlit("🔎 Glob");
    reveal_strlit("🔎 Grep");
    reveal_strlit("🔎 ");
    reveal_strlit("Glob");
    reveal_strlit("Grep");
    reveal_strlit("Glob ");
    reveal_strlit("Grep ");
    reveal_strlit(" ");
    reveal_strlit("\n\x1b[2min ");
    reveal_strlit("\n");
    reveal_strlit("\x1b[2m");
    reveal_strlit("in ");
    assert(label =~= icon + word);
    assert(spaced =~= word + " "@);
    assert("\n\x1b[2min "@ =~= "\n"@ + "\x1b[2m"@ + "in "@);
    if parsed.get("pattern"@) == Some(JsonView::Text(asked)) && parsed.get("path"@) == Some(
        JsonView::Text(place),
    ) {
        let shown = tool_display::search_start(label, parsed);
        let part = spaced + asked + "\n"@;
        let tail = "in "@ + place + "\x1b[0m"@;
        assert(shown =~= icon + part + ("\x1b[2m"@ + tail));
        text::lemma_contains_part(icon, part, "\x1b[2m"@ + tail);
        assert(shown =~= (icon + part + "\x1b[2m"@) + tail);
        text::lemma_contains_part(icon + part + "\x1b[2m"@, tail, Seq::empty());
    }
}

/// An edit shows what it changes: the old text and the new one of its input, the
/// old one first.
pub proof fn law_edit_calls_show_the_change(
    parsed: JsonView,
    payload: Seq<char>,
    old_value: Seq<char>,
    new_value: Seq<char>,
)
    requires
        parsed.get("old_string"@) == Some(JsonView::Text(old_value)),
        parsed.get("new_string"@) == Some(JsonView::Text(new_value)),
        short_line(old_value),
        short_line(new_value),
        old_value.len() > 0,
    ensures
        text::has_suffix(
            tool_display::call_detail("edit_file"@, parsed, payload),
            "\n\x1b[38;5;203m- "@ + old_value + "\x1b[0m\n"@ + "\x1b[38;5;70m+ "@ + new_value
                + "\x1b[0m"@,
        ),
{
    lemma_tool_names();
    law_first_visible_line(old_value, Seq::empty());
    law_first_visible_line(new_value, Seq::empty());
    reveal_strlit("\x1b[0m\n\x1b[38;5;70m+ ");
    reveal_strlit("\x1b[0m\n");
    reveal_strlit("\x1b[38;5;70m+ ");
    reveal_strlit("\n\x1b[38;5;203m- ");
    reveal_strlit("\n");
    reveal_strlit("\x1b[38;5;203m- ");
    assert("\x1b[0m\n\x1b[38;5;70m+ "@ =~= "\x1b[0m\n"@ + "\x1b[38;5;70m+ "@);
    assert("\n\x1b[38;5;203m- "@ =~= "\n"@ + "\x1b[38;5;203m- "@);
    let head = "\x1b[1;33m📝 Editing "@ + tool_display::tool_path(parsed) + "\x1b[0m"@;
    let tail = "\n\x1b[38;5;203m- "@ + old_value + "\x1b[0m\n"@ + "\x1b[38;5;70m+ "@ + new_value
        + "\x1b[0m"@;
    assert(tool_display::call_detail("edit_file"@, parsed, payload) =~= head + tail);
    text::lemma_contains_part(head, tail, Seq::empty());
}

// ---------------------------------------------------------------------------
// Tool results
// ---------------------------------------------------------------------------

/// The result of a command shows what it wrote, and behind it, in red, what it
/// wrote as errors; where it wrote nothing, nothing is shown of that.
pub proof fn law_command_results_show_both_outputs(
    icon: Seq<char>,
    parsed: JsonView,
    out: Seq<char>,
    errors: Seq<char>,
)
    requires
        parsed.get("stdout"@) == Some(JsonView::Text(out)),
        parsed.get("stderr"@) == Some(JsonView::Text(errors)),
    ensures
        ({
            let shown = tool_display::bash_result(icon, parsed);
            let plain = "\n\n"@ + tool_display::displayed(out, 60, 4_000);
            let red = "\n\n\x1b[38;5;203m"@ + tool_display::displayed(errors, 60, 4_000)
                + "\x1b[0m"@;
            &&& text::has_prefix(shown, icon + " \x1b[38;5;245mbash\x1b[0m"@)
            &&& !text::is_blank(out) && text::is_blank(errors) ==> text::has_suffix(shown, plain)
            &&& text::is_blank(out) && !text::is_blank(errors) ==> text::has_suffix(shown, red)
            &&& !text::is_blank(out) && !text::is_blank(errors) ==> text::has_suffix(
                shown,
                plain + red,
            )
            &&& text::is_blank(out) && text::is_blank(errors) ==> shown == icon
                + " \x1b[38;5;245mbash\x1b[0m"@ + tool_display::bash_status(parsed)
        }),
{
    reveal_strlit("\n\n\x1b[38;5;203m");
    reveal_strlit("\n\n");
    reveal_strlit("\x1b[38;5;203m");
    assert("\n\n\x1b[38;5;203m"@ =~= "\n\n"@ + "\x1b[38;5;203m"@);
    let shown = tool_display::bash_result(icon, parsed);
    let named = icon + " \x1b[38;5;245mbash\x1b[0m"@;
    let head = named + tool_display::bash_status(parsed);
    let plain = "\n\n"@ + tool_display::displayed(out, 60, 4_000);
    let red = "\n\n\x1b[38;5;203m"@ + tool_display::displayed(errors, 60, 4_000) + "\x1b[0m"@;
    assert(shown.take(named.len() as int) =~= named);
    if !text::is_blank(out) && !text::is_blank(errors) {
        assert(shown =~= head + (plain + red));
        text::lemma_contains_part(head, plain + red, Seq::empty());
    } else if !text::is_blank(out) {
        assert(shown =~= head + plain);
        text::lemma_contains_part(head, plain, Seq::empty());
    } else if !text::is_blank(errors) {
        assert(shown =~= head + red);
        text::lemma_contains_part(head, red, Seq::empty());
    }
}

/// The state of a command is the task that runs it, or else how its return code
/// reads.
pub proof fn law_command_status(parsed: JsonView, told: Seq<char>)
    ensures
        parsed.get("backgroundTaskId"@) == Some(JsonView::Text(told)) ==> text::contains_text(
            tool_display::bash_status(parsed),
            "backgrounded ("@ + told + ")"@,
        ),
        parsed.get("backgroundTaskId"@) is None && parsed.get("returnCodeInterpretation"@) == Some(
            JsonView::Text(told),
        ) && told.len() > 0 ==> tool_display::bash_status(parsed) == " "@ + told,
        parsed.get("backgroundTaskId"@) is None && parsed.get("returnCodeInterpretation"@) is None
            ==> tool_display::bash_status(parsed).len() == 0,
{
    reveal_strlit(" backgrounded (");
    reveal_strlit(" ");
    reveal_strlit("backgrounded (");
    assert(" backgrounded ("@ =~= " "@ + "backgrounded ("@);
    let part = "backgrounded ("@ + told + ")"@;
    if parsed.get("backgroundTaskId"@) == Some(JsonView::Text(told)) {
        assert(tool_display::bash_status(parsed) =~= " "@ + part + Seq::empty());
        text::lemma_contains_part(" "@, part, Seq::empty());
    }
}

/// The last line of a span is as far from its first as the span is long.
pub proof fn law_spans_are_as_long_as_they_say(start: u64, count: u64)
    ensures
        count > 0 && start + count - 1 <= u64::MAX ==> tool_display::last_line(start, count) - start
            + 1 == count,
        count == 0 ==> tool_display::last_line(start, count) == start,
        start <= tool_display::last_line(start, count) <= u64::MAX,
{
}

/// A read file is shown by its path, the lines that were read of how many, and
/// below that its content.
pub proof fn law_read_results_show_the_file(
    icon: Seq<char>,
    parsed: JsonView,
    file: JsonView,
    content: Seq<char>,
)
    requires
        parsed.get("file"@) == Some(file),
        file.get("content"@) == Some(JsonView::Text(content)),
    ensures
        ({
            let shown = tool_display::read_result(icon, parsed);
            let start = file.u64_or("startLine"@, 1);
            let count = file.u64_or("numLines"@, 0);
            &&& text::contains_text(
                shown,
                "Read "@ + tool_display::tool_path(file) + " (lines "@ + text::decimal(start as nat)
                    + "-"@,
            )
            &&& text::contains_text(
                shown,
                "-"@ + text::decimal(tool_display::last_line(start, count)) + " of "@
                    + text::decimal(file.u64_or("totalLines"@, count) as nat) + ")"@,
            )
            &&& text::has_suffix(shown, "\n"@ + tool_display::displayed(content, 80, 6_000))
        }),
{
    reveal_strlit(" \x1b[2m📄 Read ");
    reveal_strlit(" \x1b[2m📄 ");
    reveal_strlit("Read ");
    assert(" \x1b[2m📄 Read "@ =~= " \x1b[2m📄 "@ + "Read "@);
    reveal_strlit(")\x1b[0m\n");
    reveal_strlit(")");
    reveal_strlit("\x1b[0m");
    reveal_strlit("\n");
    assert(")\x1b[0m\n"@ =~= ")"@ + "\x1b[0m"@ + "\n"@);
    let shown = tool_display::read_result(icon, parsed);
    let start = file.u64_or("startLine"@, 1);
    let count = file.u64_or("numLines"@, 0);
    let head = icon + " \x1b[2m📄 "@;
    let first = "Read "@ + tool_display::tool_path(file) + " (lines "@ + text::decimal(start as nat);
    let second = "-"@ + text::decimal(tool_display::last_line(start, count)) + " of "@
        + text::decimal(file.u64_or("totalLines"@, count) as nat) + ")"@;
    let tail = "\n"@ + tool_display::displayed(content, 80, 6_000);
    let after = text::decimal(tool_display::last_line(start, count)) + " of "@ + text::decimal(
        file.u64_or("totalLines"@, count) as nat,
    ) + ")"@ + "\x1b[0m"@ + tail;
    assert(shown =~= head + (first + "-"@) + after);
    text::lemma_contains_part(head, first + "-"@, after);
    assert(shown =~= (head + first) + second + ("\x1b[0m"@ + tail));
    text::lemma_contains_part(head + first, second, "\x1b[0m"@ + tail);
    assert(shown =~= (head + first + second + "\x1b[0m"@) + tail);
    text::lemma_contains_part(head + first + second + "\x1b[0m"@, tail, Seq::empty());
}

/// A written file is told to be written where it is new, and updated where it is
/// not; its path and its lines are told.
pub proof fn law_write_results_tell_new_from_old(
    icon: Seq<char>,
    parsed: JsonView,
    content: Seq<char>,
)
    requires
        parsed.get("content"@) == Some(JsonView::Text(content)),
    ensures
        ({
            let shown = tool_display::write_result(icon, parsed);
            let path = tool_display::tool_path(parsed) + "\x1b[0m \x1b[2m("@ + text::decimal(
                text::lines_of(content).len(),
            ) + " lines)\x1b[0m"@;
            &&& parsed.get("type"@) == Some(JsonView::Text("create"@)) ==> text::has_suffix(
                shown,
                "Wrote "@ + path,
            )
            &&& parsed.get("type"@) == Some(JsonView::Text("update"@)) || parsed.get("type"@)
                is None ==> text::has_suffix(shown, "Updated "@ + path)
        }),
{
    reveal_strlit("create");
    reveal_strlit("update");
    reveal_strlit("write");
    assert("create"@.len() == 6);
    assert("update"@.len() == 6);
    assert("write"@.len() == 5);
    assert("create"@[0] == 'c');
    assert("update"@[0] == 'u');
    reveal_strlit("Wrote ");
    reveal_strlit("Wrote");
    reveal_strlit(" ");
    assert("Wrote "@ =~= "Wrote"@ + " "@);
    reveal_strlit("Updated ");
    reveal_strlit("Updated");
    reveal_strlit(" ");
    assert("Updated "@ =~= "Updated"@ + " "@);
    let shown = tool_display::write_result(icon, parsed);
    let path = tool_display::tool_path(parsed) + "\x1b[0m \x1b[2m("@ + text::decimal(
        text::lines_of(content).len(),
    ) + " lines)\x1b[0m"@;
    let head = icon + " \x1b[1;32m✏️ "@;
    if parsed.get("type"@) == Some(JsonView::Text("create"@)) {
        assert(shown =~= head + ("Wrote "@ + path));
        text::lemma_contains_part(head, "Wrote "@ + path, Seq::empty());
    } else if parsed.get("type"@) == Some(JsonView::Text("update"@)) || parsed.get("type"@) is None {
        assert(shown =~= head + ("Updated "@ + path));
        text::lemma_contains_part(head, "Updated "@ + path, Seq::empty());
    }
}

/// A line of a patch is shown as it is, green where it was added, red where it was
/// taken away, and without a colour where it stayed.
pub proof fn law_patch_lines_are_coloured_by_their_sign(line: Seq<char>)
    ensures
        text::contains_text(tool_display::patch_line(line), line),
        line.len() > 0 && line[0] == '+' ==> text::has_prefix(
            tool_display::patch_line(line),
            "\x1b[38;5;70m+"@,
        ),
        line.len() > 0 && line[0] == '-' ==> text::has_prefix(
            tool_display::patch_line(line),
            "\x1b[38;5;203m-"@,
        ),
        line.len() == 0 || (line[0] != '+' && line[0] != '-') ==> tool_display::patch_line(line)
            == line,
{
    reveal_strlit("\x1b[38;5;70m+");
    reveal_strlit("\x1b[38;5;203m-");
    reveal_strlit("\x1b[38;5;70m");
    reveal_strlit("\x1b[38;5;203m");
    let shown = tool_display::patch_line(line);
    if line.len() > 0 && line[0] == '+' {
        text::lemma_contains_part("\x1b[38;5;70m"@, line, "\x1b[0m"@);
        assert(shown.take("\x1b[38;5;70m+"@.len() as int) =~= "\x1b[38;5;70m+"@);
    } else if line.len() > 0 && line[0] == '-' {
        text::lemma_contains_part("\x1b[38;5;203m"@, line, "\x1b[0m"@);
        assert(shown.take("\x1b[38;5;203m-"@.len() as int) =~= "\x1b[38;5;203m-"@);
    } else {
        text::lemma_contains_part(Seq::empty(), line, Seq::empty());
        assert(Seq::empty() + line + Seq::empty() =~= line);
    }
}

/// An edited file is told by its path, and whether every place was replaced; where
/// it reports no patch, what was changed is shown as in the call.
pub proof fn law_edit_results_show_the_change(
    icon: Seq<char>,
    parsed: JsonView,
    old_value: Seq<char>,
    new_value: Seq<char>,
)
    requires
        parsed.get("structuredPatch"@) is None,
        parsed.get("oldString"@) == Some(JsonView::Text(old_value)),
        parsed.get("newString"@) == Some(JsonView::Text(new_value)),
        short_line(old_value),
        short_line(new_value),
        old_value.len() > 0,
    ensures
        ({
            let shown = tool_display::edit_result(icon, parsed);
            let change = "\x1b[0m\n\x1b[38;5;203m- "@ + old_value + "\x1b[0m\n\x1b[38;5;70m+ "@
                + new_value + "\x1b[0m"@;
            let path = "Edited "@ + tool_display::tool_path(parsed);
            &&& parsed.get("replaceAll"@) == Some(JsonView::Bool(true)) ==> text::has_suffix(
                shown,
                path + " (replace all)"@ + change,
            )
            &&& parsed.get("replaceAll"@) is None || parsed.get("replaceAll"@) == Some(
                JsonView::Bool(false),
            ) ==> text::has_suffix(shown, path + change)
        }),
{
    law_first_visible_line(old_value, Seq::empty());
    law_first_visible_line(new_value, Seq::empty());
    reveal_strlit("\x1b[0m\n\x1b[38;5;203m- ");
    reveal_strlit("\x1b[0m");
    reveal_strlit("\n");
    reveal_strlit("\x1b[38;5;203m- ");
    assert("\x1b[0m\n\x1b[38;5;203m- "@ =~= "\x1b[0m"@ + "\n"@ + "\x1b[38;5;203m- "@);
    reveal_strlit(" \x1b[1;33m📝 Edited ");
    reveal_strlit(" \x1b[1;33m📝 ");
    reveal_strlit("Edited ");
    assert(" \x1b[1;33m📝 Edited "@ =~= " \x1b[1;33m📝 "@ + "Edited "@);
    reveal_strlit("");
    let shown = tool_display::edit_result(icon, parsed);
    let change = "\x1b[0m\n\x1b[38;5;203m- "@ + old_value + "\x1b[0m\n\x1b[38;5;70m+ "@ + new_value
        + "\x1b[0m"@;
    let path = "Edited "@ + tool_display::tool_path(parsed);
    let head = icon + " \x1b[1;33m📝 "@;
    if parsed.get("replaceAll"@) == Some(JsonView::Bool(true)) {
        assert(shown =~= head + (path + " (replace all)"@ + change));
        text::lemma_contains_part(head, path + " (replace all)"@ + change, Seq::empty());
    } else if parsed.get("replaceAll"@) is None || parsed.get("replaceAll"@) == Some(
        JsonView::Bool(false),
    ) {
        assert(shown =~= head + (path + change));
        text::lemma_contains_part(head, path + change, Seq::empty());
    }
}

/// The texts of an array of strings are those strings, in order.
pub proof fn law_string_items_are_read_in_order(strings: Seq<Seq<char>>)
    ensures
        tool_display::strings_of(strings.map_values(|s: Seq<char>| JsonView::Text(s))) == strings,
    decreases strings.len(),
{
    let items = strings.map_values(|s: Seq<char>| JsonView::Text(s));
    if strings.len() > 0 {
        law_string_items_are_read_in_order(strings.drop_last());
        assert(items.drop_last() =~= strings.drop_last().map_values(
            |s: Seq<char>| JsonView::Text(s),
        ));
        assert(strings =~= strings.drop_last().push(strings.last()));
    } else {
        assert(tool_display::strings_of(items) =~= strings);
    }
}

/// A search for files tells how many it found and names them, each in a line and
/// at most eight; a search in files tells how often it matched in how many files,
/// and shows what it matched.
pub proof fn law_search_results_show_what_was_found(
    icon: Seq<char>,
    parsed: JsonView,
    names: Seq<Seq<char>>,
    content: Seq<char>,
    matches: u64,
    files: u64,
)
    requires
        parsed.get("filenames"@) == Some(
            JsonView::Array(names.map_values(|s: Seq<char>| JsonView::Text(s))),
        ),
        0 < names.len() <= 8,
        names[0].len() > 0,
        parsed.u64_or("numMatches"@, 0) == matches,
        parsed.u64_or("numFiles"@, 0) == files,
    ensures
        text::has_suffix(
            tool_display::glob_result(icon, parsed),
            "matched "@ + text::decimal(files as nat) + " files\n"@ + text::joined(names, "\n"@),
        ),
        parsed.get("content"@) == Some(JsonView::Text(content)) && !text::is_blank(content)
            ==> text::has_suffix(
            tool_display::grep_result(icon, parsed),
            " "@ + text::decimal(matches as nat) + " matches across "@ + text::decimal(files as nat)
                + " files\n"@ + tool_display::displayed(content, 60, 4_000),
        ),
        parsed.get("content"@) is None ==> text::has_suffix(
            tool_display::grep_result(icon, parsed),
            " "@ + text::decimal(matches as nat) + " matches across "@ + text::decimal(files as nat)
                + " files\n"@ + text::joined(names, "\n"@),
        ),
{
    reveal_strlit(" files\n");
    reveal_strlit(" files");
    reveal_strlit("\n");
    assert(" files\n"@ =~= " files"@ + "\n"@);
    reveal_strlit(" \x1b[38;5;245mglob_search\x1b[0m matched ");
    reveal_strlit(" \x1b[38;5;245mglob_search\x1b[0m ");
    reveal_strlit("matched ");
    assert(" \x1b[38;5;245mglob_search\x1b[0m matched "@ =~= " \x1b[38;5;245mglob_search\x1b[0m "@ + "matched "@);
    reveal_strlit(" \x1b[38;5;245mgrep_search\x1b[0m ");
    reveal_strlit(" \x1b[38;5;245mgrep_search\x1b[0m");
    reveal_strlit(" ");
    assert(" \x1b[38;5;245mgrep_search\x1b[0m "@ =~= " \x1b[38;5;245mgrep_search\x1b[0m"@ + " "@);
    law_string_items_are_read_in_order(names);
    let listed = text::joined(names, "\n"@);
    assert(tool_display::file_names(parsed) == listed);
    lemma_joined_not_empty(names);
    let glob = tool_display::glob_result(icon, parsed);
    let found = "matched "@ + text::decimal(files as nat) + " files\n"@ + listed;
    let glob_head = icon + " \x1b[38;5;245mglob_search\x1b[0m "@;
    assert(glob =~= glob_head + found);
    text::lemma_contains_part(glob_head, found, Seq::empty());
    let grep = tool_display::grep_result(icon, parsed);
    let counts = " "@ + text::decimal(matches as nat) + " matches across "@ + text::decimal(
        files as nat,
    ) + " files\n"@;
    let grep_head = icon + " \x1b[38;5;245mgrep_search\x1b[0m"@;
    if parsed.get("content"@) == Some(JsonView::Text(content)) && !text::is_blank(content) {
        let tail = counts + tool_display::displayed(content, 60, 4_000);
        assert(grep =~= grep_head + tail);
        text::lemma_contains_part(grep_head, tail, Seq::empty());
    } else if parsed.get("content"@) is None {
        assert(grep =~= grep_head + (counts + listed));
        text::lemma_contains_part(grep_head, counts + listed, Seq::empty());
    }
}

proof fn lemma_joined_not_empty(parts: Seq<Seq<char>>)
    requires
        parts.len() > 0,
        parts[0].len() > 0,
    ensures
        text::joined(parts, "\n"@).len() > 0,
    decreases parts.len(),
{
    if parts.len() > 1 {
        lemma_joined_not_empty(parts.drop_last());
    }
}

/// A tool without a display of its own shows its result behind its name: a text
/// as it is, on the same line where it is one line, and a document in its indented
/// form.
pub proof fn law_other_results_are_shown_as_they_are(
    icon: Seq<char>,
    name: Seq<char>,
    line: Seq<char>,
    document: JsonView,
    pretty: Seq<char>,
)
    requires
        text_laws::is_line(line),
        0 < line.len() <= 4_000,
    ensures
        tool_display::generic_result(icon, name, JsonView::Text(line), pretty) == icon
            + " \x1b[38;5;245m"@ + name + ":\x1b[0m "@ + line,
        document is Object || document is Array ==> tool_display::generic_result(
            icon,
            name,
            document,
            pretty,
        ) == tool_display::generic_result(icon, name, JsonView::Text(pretty), pretty),
        tool_display::generic_result(icon, name, JsonView::Null, pretty) == icon
            + " \x1b[38;5;245m"@ + name + "\x1b[0m"@,
{
    assert(text::joined(seq![line], "\n"@) == line);
    law_short_results_are_shown_whole(seq![line], 60, 4_000);
    text_laws::law_lines_end_at_newlines(line, Seq::empty());
    let nothing = Seq::<char>::empty();
    assert(text::without_trailing_newlines(nothing) == nothing);
    assert(tool_display::displayed(nothing, 60, 4_000) =~= nothing);
}

/// A result that came from a tool is marked with a tick, and a failure with a
/// cross; a failure is told with its tool and its text.
pub proof fn law_failures_are_told_from_results(
    name: Seq<char>,
    parsed: JsonView,
    pretty: Seq<char>,
    output: Seq<char>,
)
    requires
        output.len() > 0,
        output.len() <= 160,
        !text::is_whitespace(output[0]),
        !text::is_whitespace(output.last()),
    ensures
        text::has_prefix(
            tool_display::parsed_result(name, parsed, pretty),
            "\x1b[1;32m✓\x1b[0m "@,
        ),
        tool_display::failed_result(name, output) == "\x1b[1;31m✗\x1b[0m \x1b[38;5;245m"@ + name
            + "\x1b[0m\n\x1b[38;5;203m"@ + output + "\x1b[0m"@,
{
    text_laws::law_trimmed_texts_stay(output);
    reveal_strlit("\x1b[1;31m✗\x1b[0m \x1b[38;5;245m");
    reveal_strlit("\x1b[1;31m✗\x1b[0m");
    reveal_strlit(" \x1b[38;5;245m");
    assert("\x1b[1;31m✗\x1b[0m \x1b[38;5;245m"@ =~= "\x1b[1;31m✗\x1b[0m"@ + " \x1b[38;5;245m"@);
    reveal_strlit("\x1b[0m\n\x1b[38;5;203m");
    reveal_strlit("\x1b[0m");
    reveal_strlit("\n\x1b[38;5;203m");
    assert("\x1b[0m\n\x1b[38;5;203m"@ =~= "\x1b[0m"@ + "\n\x1b[38;5;203m"@);
    reveal_strlit("\x1b[1;32m✓\x1b[0m ");
    reveal_strlit("\x1b[1;32m✓\x1b[0m");
    reveal_strlit(" ");
    assert("\x1b[1;32m✓\x1b[0m "@ =~= "\x1b[1;32m✓\x1b[0m"@ + " "@);
    reveal_strlit(" \x1b[38;5;245mbash\x1b[0m");
    reveal_strlit(" \x1b[2m📄 Read ");
    reveal_strlit(" \x1b[1;32m✏️ ");
    reveal_strlit(" \x1b[1;33m📝 Edited ");
    reveal_strlit(" \x1b[38;5;245mglob_search\x1b[0m matched ");
    reveal_strlit(" \x1b[38;5;245mgrep_search\x1b[0m ");
    let shown = tool_display::parsed_result(name, parsed, pretty);
    let mark = "\x1b[1;32m✓\x1b[0m "@;
    assert(shown.take(mark.len() as int) =~= mark);
    assert(tool_display::failed_result(name, output) =~= "\x1b[1;31m✗\x1b[0m \x1b[38;5;245m"@ + name
        + "\x1b[0m\n\x1b[38;5;203m"@ + output + "\x1b[0m"@);
}

/// A result that is JSON is shown as the document that it is, and any other as a
/// text.
pub proof fn law_results_are_read_as_json(name: Seq<char>, output: Seq<char>)
    ensures
        json::json_parse(output) matches Ok(parsed) ==> tool_display::successful_result(
            name,
            output,
        ) == tool_display::parsed_result(name, parsed, json::json_indented(parsed)),
        json::json_parse(output) is Err && tool_display::display_tool(name) == DisplayTool::Other
            && text_laws::is_line(output) && 0 < output.len() <= 4_000
            ==> tool_display::successful_result(name, output) == "\x1b[1;32m✓\x1b[0m"@
            + " \x1b[38;5;245m"@ + name + ":\x1b[0m "@ + output,
{
    if text_laws::is_line(output) && 0 < output.len() <= 4_000 {
        law_other_results_are_shown_as_they_are(
            "\x1b[1;32m✓\x1b[0m"@,
            name,
            output,
            JsonView::Null,
            ""@,
        );
    }
}

/// The summary of a payload is its line, in no more than 96 characters and the sign
/// that it was cut; an id is shown in no more than 12.
pub proof fn law_payloads_and_ids_are_cut(payload: Seq<char>, id: Seq<char>)
    ensures
        tool_display::payload_line(payload).len() <= 96 ==> tool_display::payload_summary(payload)
            == tool_display::payload_line(payload),
        tool_display::payload_line(payload).len() > 96 ==> tool_display::payload_summary(
            payload,
        ).take(96) == tool_display::payload_line(payload).take(96)
            && tool_display::payload_summary(payload).len() == 97,
        id.len() <= 12 ==> tool_display::short_id(id) == id,
        id.len() > 12 ==> tool_display::short_id(id).take(12) == id.take(12)
            && tool_display::short_id(id).len() == 13,
{
    reveal_strlit("…");
    assert("…"@.len() == 1);
    let line = tool_display::payload_line(payload);
    if line.len() > 96 {
        assert(tool_display::payload_summary(payload).take(96) =~= line.take(96));
    }
    if id.len() > 12 {
        assert(tool_display::short_id(id).take(12) =~= id.take(12));
    }
}

/// A call is shown under the name of its tool, with what it asks for; a result is
/// shown as a failure where it is one, and only there.
pub proof fn law_calls_and_results_are_shown_under_their_name(
    name: Seq<char>,
    input: Seq<char>,
    output: Seq<char>,
)
    ensures
        tool_display::call_shown(name, input) == tool_display::framed(
            name,
            tool_display::call_detail(
                name,
                tool_display::read_loosely(input),
                tool_display::payload_summary(input),
            ),
        ),
        tool_display::result_shown(name, output, true) == tool_display::failed_result(name, output),
        tool_display::result_shown(name, output, false) == tool_display::successful_result(
            name,
            output,
        ),
{
}

/// A failure is shown in no more than 160 characters, and the sign that it was cut.
pub proof fn law_long_failures_are_cut(name: Seq<char>, output: Seq<char>)
    requires
        text::trimmed(output).len() > 160,
    ensures
        text::contains_text(
            tool_display::failed_result(name, output),
            text::trimmed(output).take(160) + "…"@,
        ),
{
    reveal_strlit("…");
    let shown = text::trimmed(output).take(160) + "…"@;
    let before = "\x1b[1;31m✗\x1b[0m"@ + " \x1b[38;5;245m"@ + name + "\x1b[0m"@
        + "\n\x1b[38;5;203m"@;
    assert(tool_display::failed_result(name, output) =~= before + shown + "\x1b[0m"@);
    text::lemma_contains_part(before, shown, "\x1b[0m"@);
}

/// Of a patch the first two hunks are shown: what follows them changes nothing, and
/// where there are no more, all of it is shown.
pub proof fn law_two_hunks_are_shown(parsed: JsonView, other: JsonView, hunks: Seq<JsonView>)
    requires
        parsed.get("structuredPatch"@) == Some(JsonView::Array(hunks)),
        hunks.len() >= 2,
        other.get("structuredPatch"@) == Some(JsonView::Array(hunks.take(2))),
    ensures
        tool_display::structured_patch(parsed) == tool_display::structured_patch(other),
        tool_display::structured_patch(other) is Some ==> tool_display::structured_patch(other)
            == Some(
            text::joined(
                tool_display::hunk_preview(hunks[0])->0 + tool_display::hunk_preview(hunks[1])->0,
                "\n"@,
            ),
        ),
{
    let two = hunks.take(2);
    if hunks.len() == 2 {
        assert(two =~= hunks);
    }
    assert(two.drop_last() =~= seq![hunks[0]]);
    assert(two.last() == hunks[1]);
    assert(seq![hunks[0]].drop_last() =~= Seq::empty());
    reveal_with_fuel(tool_display::hunks_preview, 3);
    if tool_display::structured_patch(other) is Some {
        let first = tool_display::hunk_preview(hunks[0])->0;
        assert(Seq::<Seq<char>>::empty() + first =~= first);
    }
}

/// Of the files that were found, the first eight are named.
pub proof fn law_eight_files_are_named(parsed: JsonView, items: Seq<JsonView>)
    requires
        parsed.get("filenames"@) == Some(JsonView::Array(items)),
    ensures
        ({
            let names = tool_display::strings_of(items);
            &&& names.len() <= 8 ==> tool_display::file_names(parsed) == text::joined(
                names,
                "\n"@,
            )
            &&& names.len() > 8 ==> tool_display::file_names(parsed) == text::joined(
                names.take(8),
                "\n"@,
            )
        }),
{
}

/// The lines of what is written are counted, and none where nothing is written; a
/// frame is eight wider than the name that stands in it.
pub proof fn law_written_lines_are_counted(parsed: JsonView, name: Seq<char>)
    ensures
        parsed.str_field("content"@) is None ==> tool_display::content_lines(parsed) == 0,
        parsed.str_field("content"@) is Some ==> tool_display::content_lines(parsed)
            == text::lines_of(parsed.str_field("content"@)->0).len(),
        tool_display::byte_len(name) + 8 <= usize::MAX ==> tool_display::border_width(name)
            == tool_display::byte_len(name) + 8,
{
}

/// Of a hunk the first six lines are shown, and of a command its first 160
/// characters.
pub proof fn law_six_lines_of_a_hunk_are_shown(
    hunk: JsonView,
    items: Seq<JsonView>,
    parsed: JsonView,
    command: Seq<char>,
)
    requires
        hunk.get("lines"@) == Some(JsonView::Array(items)),
        parsed.str_field("command"@) == Some(command),
        command.len() > 0,
    ensures
        ({
            let lines = tool_display::strings_of(items);
            &&& lines.len() <= 6 ==> tool_display::hunk_preview(hunk) == Some(
                tool_display::patch_lines(lines),
            )
            &&& lines.len() > 6 ==> tool_display::hunk_preview(hunk) == Some(
                tool_display::patch_lines(lines.take(6)),
            )
        }),
        command.len() <= 160 ==> text::contains_text(
            tool_display::bash_call(parsed),
            " $ "@ + command + " "@,
        ),
        command.len() > 160 ==> text::contains_text(
            tool_display::bash_call(parsed),
            " $ "@ + command.take(160) + "…"@ + " "@,
        ),
{
    let shown = tool_display::summary(command, 160);
    lemma_command_is_shown(tool_display::bash_call(parsed), shown);
    if command.len() > 160 {
        assert(" $ "@ + shown + " "@ =~= " $ "@ + command.take(160) + "…"@ + " "@);
    }
}

proof fn lemma_command_is_shown(told: Seq<char>, shown: Seq<char>)
    requires
        told == "\x1b[48;5;236;38;5;255m $ "@ + shown + " \x1b[0m"@,
    ensures
        text::contains_text(told, " $ "@ + shown + " "@),
{
    reveal_strlit("\x1b[48;5;236;38;5;255m $ ");
    reveal_strlit("\x1b[48;5;236;38;5;255m");
    reveal_strlit(" $ ");
    reveal_strlit(" \x1b[0m");
    reveal_strlit(" ");
    reveal_strlit("\x1b[0m");
    assert("\x1b[48;5;236;38;5;255m $ "@ =~= "\x1b[48;5;236;38;5;255m"@ + " $ "@);
    assert(" \x1b[0m"@ =~= " "@ + "\x1b[0m"@);
    let part = " $ "@ + shown + " "@;
    assert(told =~= "\x1b[48;5;236;38;5;255m"@ + part + "\x1b[0m"@);
    text::lemma_contains_part("\x1b[48;5;236;38;5;255m"@, part, "\x1b[0m"@);
}

/// A line of an edit is shown in its first 72 characters: what follows them changes
/// nothing but that the line is marked as cut.
pub proof fn law_long_edits_are_cut(old_value: Seq<char>, new_value: Seq<char>)
    requires
        tool_display::first_visible(old_value).len() > 72,
        tool_display::first_visible(new_value).len() > 72,
    ensures
        ({
            let preview = tool_display::patch_preview(old_value, new_value)->0;
            let old_line = tool_display::first_visible(old_value).take(72) + "…"@;
            let new_line = tool_display::first_visible(new_value).take(72) + "…"@;
            old_value.len() > 0 ==> text::contains_text(preview, "- "@ + old_line + "\x1b"@)
                && text::contains_text(preview, "+ "@ + new_line + "\x1b"@)
        }),
{
    if old_value.len() > 0 {
        lemma_edit_is_shown(
            tool_display::patch_preview(old_value, new_value)->0,
            tool_display::first_visible(old_value).take(72) + "…"@,
            tool_display::first_visible(new_value).take(72) + "…"@,
        );
    }
}

proof fn lemma_edit_is_shown(preview: Seq<char>, old_line: Seq<char>, new_line: Seq<char>)
    requires
        preview == "\x1b[38;5;203m- "@ + old_line + "\x1b[0m\n\x1b[38;5;70m+ "@ + new_line
            + "\x1b[0m"@,
    ensures
        text::contains_text(preview, "- "@ + old_line + "\x1b"@),
        text::contains_text(preview, "+ "@ + new_line + "\x1b"@),
{
    assert(text::contains_text(preview, "- "@ + old_line + "\x1b"@)) by {
        reveal_strlit("\x1b[38;5;203m- ");
        reveal_strlit("\x1b[38;5;203m");
        reveal_strlit("- ");
        reveal_strlit("\x1b[0m\n\x1b[38;5;70m+ ");
        reveal_strlit("\x1b");
        reveal_strlit("[0m\n\x1b[38;5;70m+ ");
        assert("\x1b[38;5;203m- "@ =~= "\x1b[38;5;203m"@ + "- "@);
        assert("\x1b[0m\n\x1b[38;5;70m+ "@ =~= "\x1b"@ + "[0m\n\x1b[38;5;70m+ "@);
        let part = "- "@ + old_line + "\x1b"@;
        let after = "[0m\n\x1b[38;5;70m+ "@ + new_line + "\x1b[0m"@;
        assert(preview =~= "\x1b[38;5;203m"@ + part + after);
        text::lemma_contains_part("\x1b[38;5;203m"@, part, after);
    }
    assert(text::contains_text(preview, "+ "@ + new_line + "\x1b"@)) by {
        reveal_strlit("\x1b[0m\n\x1b[38;5;70m+ ");
        reveal_strlit("\x1b[0m\n\x1b[38;5;70m");
        reveal_strlit("+ ");
        reveal_strlit("\x1b[0m");
        reveal_strlit("\x1b");
        reveal_strlit("[0m");
        assert("\x1b[0m\n\x1b[38;5;70m+ "@ =~= "\x1b[0m\n\x1b[38;5;70m"@ + "+ "@);
        assert("\x1b[0m"@ =~= "\x1b"@ + "[0m"@);
        let before = "\x1b[38;5;203m- "@ + old_line + "\x1b[0m\n\x1b[38;5;70m"@;
        let part = "+ "@ + new_line + "\x1b"@;
        assert(preview =~= before + part + "[0m"@);
        text::lemma_contains_part(before, part, "[0m"@);
    }
}

} // verus!
