//! How tool calls and their results are shown on the terminal. What is shown
//! is shortened; the full result stays in the session.

use vstd::prelude::*;

use crate::json::{self, Json, JsonView};
use crate::text;

verus! {

pub const READ_DISPLAY_MAX_LINES: usize = 80;

pub const READ_DISPLAY_MAX_CHARS: usize = 6_000;

pub const TOOL_OUTPUT_DISPLAY_MAX_LINES: usize = 60;

pub const TOOL_OUTPUT_DISPLAY_MAX_CHARS: usize = 4_000;

// ---------------------------------------------------------------------------
// Shortening
// ---------------------------------------------------------------------------

/// A text cut to `limit` characters; a cut text ends in an ellipsis.
pub open spec fn summary(value: Seq<char>, limit: nat) -> Seq<char> {
    if value.len() > limit {
        value.take(limit as int) + "…"@
    } else {
        value
    }
}

pub fn truncate_for_summary(value: &str, limit: usize) -> (r: String)
    ensures
        r@ == summary(value@, limit as nat),
{
    let n: usize = value.unicode_len();
    let mut out = text::take_chars(value, limit).to_string();
    if n > limit {
        out.append("…");
    }
    out
}

/// The notice below a result that was cut.
pub open spec fn truncation_notice() -> Seq<char> {
    "\x1b[2m… output truncated for display; full result preserved in session.\x1b[0m"@
}

/// The lines from `index` on that fit into the limits where `used` characters
/// are taken already, and whether anything had to be cut. Every line but the
/// first costs a newline; the first line that does not fit is cut.
pub open spec fn fitting(
    lines: Seq<Seq<char>>,
    index: nat,
    used: nat,
    max_lines: nat,
    max_chars: nat,
) -> (Seq<Seq<char>>, bool)
    decreases lines.len() - index,
{
    if index >= lines.len() {
        (Seq::empty(), false)
    } else if index >= max_lines {
        (Seq::empty(), true)
    } else {
        let start = used + (if index > 0 {
            1nat
        } else {
            0nat
        });
        let line = lines[index as int];
        if start >= max_chars {
            (Seq::empty(), true)
        } else if line.len() > max_chars - start {
            (seq![line.take(max_chars - start)], true)
        } else {
            let rest = fitting(lines, index + 1, start + line.len(), max_lines, max_chars);
            (seq![line] + rest.0, rest.1)
        }
    }
}

/// A result cut to the limits, with a notice where something was cut.
pub open spec fn displayed(content: Seq<char>, max_lines: nat, max_chars: nat) -> Seq<char> {
    let lines = text::lines_of(text::without_trailing_newlines(content));
    let (kept, cut) = fitting(lines, 0, 0, max_lines, max_chars);
    let preview = text::joined(kept, "\n"@);
    if cut {
        if preview.len() > 0 {
            preview + "\n"@ + truncation_notice()
        } else {
            truncation_notice()
        }
    } else {
        preview
    }
}

pub fn truncate_output_for_display(content: &str, max_lines: usize, max_chars: usize) -> (r: String)
    ensures
        r@ == displayed(content@, max_lines as nat, max_chars as nat),
{
    let original = text::trim_end_newlines(content);
    if original.is_empty() {
        proof {
            assert(text::lines_of(original@) =~= Seq::<Seq<char>>::empty());
        }
        return String::new();
    }
    let lines = text::lines(original);
    let ghost all = text::lines_of(original@);
    let ghost (whole, whole_cut) = fitting(all, 0, 0, max_lines as nat, max_chars as nat);
    let mut preview_lines: Vec<String> = Vec::new();
    let mut used_chars: usize = 0;
    let mut truncated = false;
    let mut index: usize = 0;
    assert(text::texts(preview_lines@) + whole =~= whole);
    while index < lines.len()
        invariant_except_break
            !truncated,
            index <= lines@.len(),
            used_chars <= max_chars,
            text::texts(lines@) == all,
            (whole, whole_cut) == fitting(all, 0, 0, max_lines as nat, max_chars as nat),
            ({
                let rest = fitting(
                    all,
                    index as nat,
                    used_chars as nat,
                    max_lines as nat,
                    max_chars as nat,
                );
                &&& text::texts(preview_lines@) + rest.0 == whole
                &&& rest.1 == whole_cut
            }),
        ensures
            text::texts(preview_lines@) == whole,
            truncated == whole_cut,
        decreases lines.len() - index,
    {
        let ghost before = preview_lines@;
        let ghost rest = fitting(
            all,
            index as nat,
            used_chars as nat,
            max_lines as nat,
            max_chars as nat,
        );
        if index >= max_lines {
            truncated = true;
            assert(text::texts(before) + rest.0 =~= text::texts(before));
            break ;
        }
        let newline_cost: usize = if index > 0 {
            1
        } else {
            0
        };
        let left: usize = max_chars - used_chars;
        if left <= newline_cost {
            truncated = true;
            assert(text::texts(before) + rest.0 =~= text::texts(before));
            break ;
        }
        let available: usize = left - newline_cost;
        let line_chars: usize = lines[index].as_str().unicode_len();
        assert(all[index as int] == lines@[index as int]@);
        if line_chars > available {
            let piece = text::take_chars(lines[index].as_str(), available).to_string();
            proof {
                text::lemma_texts_push(before, piece);
                assert(rest.0 =~= seq![piece@]);
                assert(text::texts(before) + rest.0 =~= text::texts(before).push(piece@));
            }
            preview_lines.push(piece);
            truncated = true;
            break ;
        }
        let line = lines[index].clone();
        proof {
            text::lemma_texts_push(before, line);
        }
        preview_lines.push(line);
        used_chars = used_chars + newline_cost + line_chars;
        index += 1;
        proof {
            let next = fitting(
                all,
                index as nat,
                used_chars as nat,
                max_lines as nat,
                max_chars as nat,
            );
            assert(rest.0 =~= seq![line@] + next.0);
            assert(text::texts(preview_lines@) + next.0 =~= text::texts(before) + rest.0);
        }
    }
    let mut preview = text::join(&preview_lines, "\n");
    if truncated {
        if !preview.as_str().is_empty() {
            preview.append("\n");
            preview.append(
                "\x1b[2m… output truncated for display; full result preserved in session.\x1b[0m",
            );
        } else {
            preview =
            "\x1b[2m… output truncated for display; full result preserved in session.\x1b[0m".to_string();
        }
    }
    preview
}

// ---------------------------------------------------------------------------
// Laws of shortening
// ---------------------------------------------------------------------------

proof fn lemma_joined_len(parts: Seq<Seq<char>>, line: Seq<char>)
    ensures
        text::joined(seq![line] + parts, "\n"@).len() == line.len() + (if parts.len() > 0 {
            1 + text::joined(parts, "\n"@).len()
        } else {
            0
        }),
    decreases parts.len(),
{
    reveal_strlit("\n");
    let all = seq![line] + parts;
    if parts.len() == 0 {
        assert(all =~= seq![line]);
    } else {
        lemma_joined_len(parts.drop_last(), line);
        assert(all.drop_last() =~= seq![line] + parts.drop_last());
        assert(all.last() == parts.last());
        if parts.len() == 1 {
            assert(parts.drop_last() =~= Seq::empty());
            assert(parts[0] == parts.last());
        }
    }
}

proof fn lemma_fitting_is_bounded(
    lines: Seq<Seq<char>>,
    index: nat,
    used: nat,
    max_lines: nat,
    max_chars: nat,
)
    requires
        used <= max_chars,
    ensures
        ({
            let kept = fitting(lines, index, used, max_lines, max_chars).0;
            let start = used + (if index > 0 {
                1nat
            } else {
                0nat
            });
            &&& kept.len() > 0 ==> index + kept.len() <= max_lines && start + text::joined(
                kept,
                "\n"@,
            ).len() <= max_chars
        }),
    decreases lines.len() - index,
{
    if index < lines.len() && index < max_lines {
        let start = used + (if index > 0 {
            1nat
        } else {
            0nat
        });
        let line = lines[index as int];
        if start < max_chars {
            if line.len() > max_chars - start {
                assert(text::joined(seq![line.take(max_chars - start)], "\n"@) =~= line.take(
                    max_chars - start,
                ));
            } else {
                lemma_fitting_is_bounded(
                    lines,
                    index + 1,
                    start + line.len(),
                    max_lines,
                    max_chars,
                );
                let rest = fitting(lines, index + 1, start + line.len(), max_lines, max_chars);
                lemma_joined_len(rest.0, line);
            }
        }
    }
}

/// What is shown of a result, the notice aside, never exceeds the limits.
pub proof fn law_displayed_lines_are_bounded(lines: Seq<Seq<char>>, max_lines: nat, max_chars: nat)
    ensures
        ({
            let kept = fitting(lines, 0, 0, max_lines, max_chars).0;
            &&& kept.len() <= max_lines
            &&& text::joined(kept, "\n"@).len() <= max_chars
        }),
{
    lemma_fitting_is_bounded(lines, 0, 0, max_lines, max_chars);
}

/// A cut summary is one character longer than its limit, and any other is the
/// text itself.
pub proof fn law_summary_is_bounded(value: Seq<char>, limit: nat)
    ensures
        summary(value, limit).len() <= limit + 1,
        value.len() <= limit ==> summary(value, limit) == value,
{
    reveal_strlit("…");
}

// ---------------------------------------------------------------------------
// Reading inputs and results
// ---------------------------------------------------------------------------

/// The member under the first of three names that an object has.
pub open spec fn path_member(parsed: JsonView) -> Option<JsonView> {
    match parsed.get("file_path"@) {
        Some(value) => Some(value),
        None => match parsed.get("filePath"@) {
            Some(value) => Some(value),
            None => parsed.get("path"@),
        },
    }
}

/// The path that a tool works on; a question mark where it names none.
pub open spec fn tool_path(parsed: JsonView) -> Seq<char> {
    match path_member(parsed) {
        Some(value) => match value.as_str() {
            Some(path) => path,
            None => "?"@,
        },
        None => "?"@,
    }
}

pub fn extract_tool_path(parsed: &Json) -> (r: String)
    ensures
        r@ == tool_path(parsed.view()),
{
    let found = match parsed.get("file_path") {
        Some(value) => Some(value),
        None => match parsed.get("filePath") {
            Some(value) => Some(value),
            None => parsed.get("path"),
        },
    };
    match found {
        Some(value) => match value.as_str() {
            Some(path) => path.to_string(),
            None => "?".to_string(),
        },
        None => "?".to_string(),
    }
}

/// The first line that is not blank, from position `index` on.
pub open spec fn visible_line(lines: Seq<Seq<char>>, index: int) -> Option<Seq<char>>
    decreases lines.len() - index,
{
    if index < 0 || index >= lines.len() {
        None
    } else if !text::is_blank(lines[index]) {
        Some(lines[index])
    } else {
        visible_line(lines, index + 1)
    }
}

/// The first line of a text that is not blank; the text itself where all are.
pub open spec fn first_visible(s: Seq<char>) -> Seq<char> {
    match visible_line(text::lines_of(s), 0) {
        Some(line) => line,
        None => s,
    }
}

pub fn first_visible_line(s: &str) -> (r: String)
    ensures
        r@ == first_visible(s@),
{
    let lines = text::lines(s);
    let ghost all = text::lines_of(s@);
    let mut i: usize = 0;
    while i < lines.len()
        invariant
            all == text::lines_of(s@),
            text::texts(lines@) == all,
            i <= lines@.len(),
            visible_line(all, 0) == visible_line(all, i as int),
        decreases lines.len() - i,
    {
        assert(all[i as int] == lines@[i as int]@);
        proof {
            text::lemma_trimmed_empty_iff_blank(all[i as int]);
        }
        if !text::trim(lines[i].as_str()).is_empty() {
            return lines[i].clone();
        }
        i += 1;
    }
    s.to_string()
}

/// The strings among the items of an array.
pub open spec fn strings_of(items: Seq<JsonView>) -> Seq<Seq<char>>
    decreases items.len(),
{
    if items.len() == 0 {
        Seq::empty()
    } else {
        match items.last().as_str() {
            Some(s) => strings_of(items.drop_last()).push(s),
            None => strings_of(items.drop_last()),
        }
    }
}

/// The first `limit` of some texts.
pub open spec fn first_of(parts: Seq<Seq<char>>, limit: nat) -> Seq<Seq<char>> {
    if parts.len() <= limit {
        parts
    } else {
        parts.take(limit as int)
    }
}

fn string_items(items: &Vec<Json>, limit: usize) -> (r: Vec<String>)
    ensures
        text::texts(r@) == first_of(strings_of(json::json_views(items@)), limit as nat),
{
    let mut out: Vec<String> = Vec::new();
    let ghost all = json::json_views(items@);
    let mut i: usize = 0;
    assert(all.take(0) =~= Seq::empty());
    assert(text::texts(out@) =~= Seq::empty());
    while i < items.len()
        invariant
            i <= items@.len(),
            all == json::json_views(items@),
            text::texts(out@) == strings_of(all.take(i as int)),
        decreases items.len() - i,
    {
        assert(all.take(i + 1).drop_last() =~= all.take(i as int));
        match items[i].as_str() {
            Some(s) => {
                let s = s.to_string();
                proof {
                    text::lemma_texts_push(out@, s);
                }
                out.push(s);
            },
            None => {},
        }
        i += 1;
    }
    assert(all.take(i as int) =~= all);
    let ghost whole = out@;
    if out.len() > limit {
        out.truncate(limit);
        assert(text::texts(out@) =~= text::texts(whole).take(limit as int));
    }
    out
}

// ---------------------------------------------------------------------------
// Tool calls
// ---------------------------------------------------------------------------

/// The two sides of an edit, one visible line each.
pub open spec fn patch_preview(old_value: Seq<char>, new_value: Seq<char>) -> Option<Seq<char>> {
    if old_value.len() == 0 && new_value.len() == 0 {
        None
    } else {
        Some(
            "\x1b[38;5;203m- "@ + summary(first_visible(old_value), 72)
                + "\x1b[0m\n\x1b[38;5;70m+ "@ + summary(first_visible(new_value), 72)
                + "\x1b[0m"@,
        )
    }
}

pub fn format_patch_preview(old_value: &str, new_value: &str) -> (r: Option<String>)
    ensures
        text::opt_text(r) == patch_preview(old_value@, new_value@),
{
    if old_value.is_empty() && new_value.is_empty() {
        return None;
    }
    let mut out = "\x1b[38;5;203m- ".to_string();
    out.append(truncate_for_summary(first_visible_line(old_value).as_str(), 72).as_str());
    out.append("\x1b[0m\n\x1b[38;5;70m+ ");
    out.append(truncate_for_summary(first_visible_line(new_value).as_str(), 72).as_str());
    out.append("\x1b[0m");
    Some(out)
}

pub open spec fn search_start(label: Seq<char>, parsed: JsonView) -> Seq<char> {
    label + " "@ + parsed.str_or("pattern"@, "?"@) + "\n\x1b[2min "@ + parsed.str_or("path"@, "."@)
        + "\x1b[0m"@
}

pub fn format_search_start(label: &str, parsed: &Json) -> (r: String)
    ensures
        r@ == search_start(label@, parsed.view()),
{
    let mut out = label.to_string();
    out.append(" ");
    out.append(parsed.str_or("pattern", "?"));
    out.append("\n\x1b[2min ");
    out.append(parsed.str_or("path", "."));
    out.append("\x1b[0m");
    out
}

pub open spec fn bash_call(parsed: JsonView) -> Seq<char> {
    let command = parsed.str_or("command"@, Seq::empty());
    if command.len() == 0 {
        Seq::empty()
    } else {
        "\x1b[48;5;236;38;5;255m $ "@ + summary(command, 160) + " \x1b[0m"@
    }
}

pub fn format_bash_call(parsed: &Json) -> (r: String)
    ensures
        r@ == bash_call(parsed.view()),
{
    match parsed.str_field("command") {
        Some(command) => if command.is_empty() {
            String::new()
        } else {
            let mut out = "\x1b[48;5;236;38;5;255m $ ".to_string();
            out.append(truncate_for_summary(command, 160).as_str());
            out.append(" \x1b[0m");
            out
        },
        None => String::new(),
    }
}

/// The number of bytes of a text.
pub open spec fn byte_len(s: Seq<char>) -> usize {
    vstd::utf8::encode_utf8(s).len() as usize
}

/// The width of the frame around a tool call: eight more than the name's bytes.
pub open spec fn border_width(name: Seq<char>) -> nat {
    if byte_len(name) <= usize::MAX - 8 {
        (byte_len(name) + 8) as nat
    } else {
        usize::MAX as nat
    }
}

/// A tool call in its frame.
pub open spec fn framed(name: Seq<char>, detail: Seq<char>) -> Seq<char> {
    "\x1b[38;5;245m╭─ \x1b[1;36m"@ + name + "\x1b[0;38;5;245m ─╮\x1b[0m\n\x1b[38;5;245m│\x1b[0m "@
        + detail + "\n\x1b[38;5;245m╰"@ + text::repeated('─', border_width(name)) + "╯\x1b[0m"@
}

fn frame(name: &str, detail: &str) -> (r: String)
    ensures
        r@ == framed(name@, detail@),
{
    let bytes: usize = name.len();
    let width: usize = if bytes <= usize::MAX - 8 {
        bytes + 8
    } else {
        usize::MAX
    };
    let mut out = "\x1b[38;5;245m╭─ \x1b[1;36m".to_string();
    out.append(name);
    out.append("\x1b[0;38;5;245m ─╮\x1b[0m\n\x1b[38;5;245m│\x1b[0m ");
    out.append(detail);
    out.append("\n\x1b[38;5;245m╰");
    out.append(text::repeat_char('─', width).as_str());
    out.append("╯\x1b[0m");
    out
}

/// The tools that have a display of their own. Each is known by two names.
#[derive(Clone, Copy, PartialEq, Eq, Structural)]
pub enum DisplayTool {
    Bash,
    Read,
    Write,
    Edit,
    Glob,
    Grep,
    WebSearch,
    Other,
}

pub open spec fn display_tool(name: Seq<char>) -> DisplayTool {
    if name == "bash"@ || name == "Bash"@ {
        DisplayTool::Bash
    } else if name == "read_file"@ || name == "Read"@ {
        DisplayTool::Read
    } else if name == "write_file"@ || name == "Write"@ {
        DisplayTool::Write
    } else if name == "edit_file"@ || name == "Edit"@ {
        DisplayTool::Edit
    } else if name == "glob_search"@ || name == "Glob"@ {
        DisplayTool::Glob
    } else if name == "grep_search"@ || name == "Grep"@ {
        DisplayTool::Grep
    } else if name == "web_search"@ || name == "WebSearch"@ {
        DisplayTool::WebSearch
    } else {
        DisplayTool::Other
    }
}

pub fn display_tool_of(name: &str) -> (r: DisplayTool)
    ensures
        r == display_tool(name@),
{
    if text::str_eq(name, "bash") || text::str_eq(name, "Bash") {
        DisplayTool::Bash
    } else if text::str_eq(name, "read_file") || text::str_eq(name, "Read") {
        DisplayTool::Read
    } else if text::str_eq(name, "write_file") || text::str_eq(name, "Write") {
        DisplayTool::Write
    } else if text::str_eq(name, "edit_file") || text::str_eq(name, "Edit") {
        DisplayTool::Edit
    } else if text::str_eq(name, "glob_search") || text::str_eq(name, "Glob") {
        DisplayTool::Glob
    } else if text::str_eq(name, "grep_search") || text::str_eq(name, "Grep") {
        DisplayTool::Grep
    } else if text::str_eq(name, "web_search") || text::str_eq(name, "WebSearch") {
        DisplayTool::WebSearch
    } else {
        DisplayTool::Other
    }
}

/// The number of lines of the text under `content`; none where there is no such
/// text.
pub open spec fn content_lines(parsed: JsonView) -> nat {
    match parsed.str_field("content"@) {
        Some(content) => text::lines_of(content).len(),
        None => 0,
    }
}

fn count_content_lines(parsed: &Json) -> (r: usize)
    ensures
        r == content_lines(parsed.view()),
{
    match parsed.str_field("content") {
        Some(content) => text::line_count(content),
        None => 0,
    }
}

/// The string under the first of two names that an object has; empty where
/// that member is no string.
pub open spec fn str_under(parsed: JsonView, first: Seq<char>, second: Seq<char>) -> Seq<char> {
    match parsed.get(first) {
        Some(value) => match value.as_str() {
            Some(s) => s,
            None => Seq::empty(),
        },
        None => parsed.str_or(second, Seq::empty()),
    }
}

fn string_under(parsed: &Json, first: &str, second: &str) -> (r: String)
    ensures
        r@ == str_under(parsed.view(), first@, second@),
{
    match parsed.get(first) {
        Some(value) => match value.as_str() {
            Some(s) => s.to_string(),
            None => String::new(),
        },
        None => match parsed.str_field(second) {
            Some(s) => s.to_string(),
            None => String::new(),
        },
    }
}

/// What is shown of the input of a tool call, where `payload` is the summary of
/// the input for a tool without a display of its own.
pub open spec fn call_detail(name: Seq<char>, parsed: JsonView, payload: Seq<char>) -> Seq<char> {
    match display_tool(name) {
        DisplayTool::Bash => bash_call(parsed),
        DisplayTool::Read => "\x1b[2m📄 Reading "@ + tool_path(parsed) + "…\x1b[0m"@,
        DisplayTool::Write => "\x1b[1;32m✏️ Writing "@ + tool_path(parsed) + "\x1b[0m \x1b[2m("@
            + text::decimal(content_lines(parsed)) + " lines)\x1b[0m"@,
        DisplayTool::Edit => {
            let head = "\x1b[1;33m📝 Editing "@ + tool_path(parsed) + "\x1b[0m"@;
            let preview = patch_preview(
                str_under(parsed, "old_string"@, "oldString"@),
                str_under(parsed, "new_string"@, "newString"@),
            );
            match preview {
                Some(preview) => head + "\n"@ + preview,
                None => head,
            }
        },
        DisplayTool::Glob => search_start("🔎 Glob"@, parsed),
        DisplayTool::Grep => search_start("🔎 Grep"@, parsed),
        DisplayTool::WebSearch => parsed.str_or("query"@, "?"@),
        DisplayTool::Other => payload,
    }
}

/// A tool call as it is shown, from its parsed input.
pub fn format_parsed_tool_call(name: &str, parsed: &Json, payload: &str) -> (r: String)
    ensures
        r@ == framed(name@, call_detail(name@, parsed.view(), payload@)),
{
    let detail = match display_tool_of(name) {
        DisplayTool::Bash => format_bash_call(parsed),
        DisplayTool::Read => {
            let mut out = "\x1b[2m📄 Reading ".to_string();
            out.append(extract_tool_path(parsed).as_str());
            out.append("…\x1b[0m");
            out
        },
        DisplayTool::Write => {
            let mut out = "\x1b[1;32m✏️ Writing ".to_string();
            out.append(extract_tool_path(parsed).as_str());
            out.append("\x1b[0m \x1b[2m(");
            out.append(text::decimal_usize(count_content_lines(parsed)).as_str());
            out.append(" lines)\x1b[0m");
            out
        },
        DisplayTool::Edit => {
            let mut out = "\x1b[1;33m📝 Editing ".to_string();
            out.append(extract_tool_path(parsed).as_str());
            out.append("\x1b[0m");
            let old_value = string_under(parsed, "old_string", "oldString");
            let new_value = string_under(parsed, "new_string", "newString");
            match format_patch_preview(old_value.as_str(), new_value.as_str()) {
                Some(preview) => {
                    out.append("\n");
                    out.append(preview.as_str());
                },
                None => {},
            }
            out
        },
        DisplayTool::Glob => format_search_start("🔎 Glob", parsed),
        DisplayTool::Grep => format_search_start("🔎 Grep", parsed),
        DisplayTool::WebSearch => parsed.str_or("query", "?").to_string(),
        DisplayTool::Other => payload.to_string(),
    };
    frame(name, detail.as_str())
}

/// A text that is read as JSON, or as a plain string where it is none.
pub open spec fn read_loosely(s: Seq<char>) -> JsonView {
    match json::json_parse(s) {
        Ok(parsed) => parsed,
        Err(_) => JsonView::Text(s),
    }
}

pub fn parse_loosely(s: &str) -> (r: Json)
    ensures
        r.view() == read_loosely(s@),
{
    match json::parse_json(s) {
        Ok(parsed) => parsed,
        Err(_) => Json::Text(s.to_string()),
    }
}

/// A payload on one line: JSON in compact form, any other text trimmed.
pub open spec fn payload_line(payload: Seq<char>) -> Seq<char> {
    match json::json_parse(payload) {
        Ok(parsed) => json::json_compact(parsed),
        Err(_) => text::trimmed(payload),
    }
}

fn one_line_payload(payload: &str) -> (r: String)
    ensures
        r@ == payload_line(payload@),
{
    match json::compact_json(payload) {
        Ok(compact) => compact,
        Err(_) => text::trim(payload).to_string(),
    }
}

/// The summary of a payload.
pub open spec fn payload_summary(payload: Seq<char>) -> Seq<char> {
    summary(payload_line(payload), 96)
}

pub fn summarize_tool_payload(payload: &str) -> (r: String)
    ensures
        r@ == payload_summary(payload@),
{
    truncate_for_summary(one_line_payload(payload).as_str(), 96)
}

pub const SESSION_MARKDOWN_TOOL_SUMMARY_LIMIT: usize = 280;

/// The payload of a tool call in an exported session.
pub fn summarize_tool_payload_for_markdown(payload: &str) -> (r: String)
    ensures
        r@ == summary(payload_line(payload@), SESSION_MARKDOWN_TOOL_SUMMARY_LIMIT as nat),
{
    truncate_for_summary(one_line_payload(payload).as_str(), SESSION_MARKDOWN_TOOL_SUMMARY_LIMIT)
}

/// The id of a call, as far as it is shown.
pub open spec fn short_id(id: Seq<char>) -> Seq<char> {
    summary(id, 12)
}

/// The identifier of a tool call, cut to twelve characters.
pub fn short_tool_id(id: &str) -> (r: String)
    ensures
        r@ == short_id(id@),
{
    truncate_for_summary(id, 12)
}

/// What is shown of a call.
pub open spec fn call_shown(name: Seq<char>, input: Seq<char>) -> Seq<char> {
    framed(name, call_detail(name, read_loosely(input), payload_summary(input)))
}

/// A tool call as it is shown when its input is complete.
pub fn format_tool_call_start(name: &str, input: &str) -> (r: String)
    ensures
        r@ == call_shown(name@, input@),
{
    let parsed = parse_loosely(input);
    let payload = summarize_tool_payload(input);
    format_parsed_tool_call(name, &parsed, payload.as_str())
}

// ---------------------------------------------------------------------------
// Tool results
// ---------------------------------------------------------------------------

/// The command's state behind its name: the task that runs it, or how its
/// return code is to be read.
pub open spec fn bash_status(parsed: JsonView) -> Seq<char> {
    match parsed.str_field("backgroundTaskId"@) {
        Some(task_id) => " backgrounded ("@ + task_id + ")"@,
        None => match parsed.str_field("returnCodeInterpretation"@) {
            Some(status) => if status.len() > 0 {
                " "@ + status
            } else {
                Seq::empty()
            },
            None => Seq::empty(),
        },
    }
}

/// The result of a command, cut for display.
pub open spec fn tool_output(content: Seq<char>) -> Seq<char> {
    displayed(
        content,
        TOOL_OUTPUT_DISPLAY_MAX_LINES as nat,
        TOOL_OUTPUT_DISPLAY_MAX_CHARS as nat,
    )
}

pub open spec fn bash_result(icon: Seq<char>, parsed: JsonView) -> Seq<char> {
    let head = icon + " \x1b[38;5;245mbash\x1b[0m"@ + bash_status(parsed);
    let with_stdout = match parsed.str_field("stdout"@) {
        Some(stdout) => if text::is_blank(stdout) {
            head
        } else {
            head + "\n\n"@ + tool_output(stdout)
        },
        None => head,
    };
    match parsed.str_field("stderr"@) {
        Some(stderr) => if text::is_blank(stderr) {
            with_stdout
        } else {
            with_stdout + "\n\n"@ + "\x1b[38;5;203m"@ + tool_output(stderr) + "\x1b[0m"@
        },
        None => with_stdout,
    }
}

fn is_blank_str(s: &str) -> (r: bool)
    ensures
        r == text::is_blank(s@),
{
    proof {
        text::lemma_trimmed_empty_iff_blank(s@);
    }
    text::trim(s).is_empty()
}

fn display_tool_output(content: &str) -> (r: String)
    ensures
        r@ == tool_output(content@),
{
    truncate_output_for_display(
        content,
        TOOL_OUTPUT_DISPLAY_MAX_LINES,
        TOOL_OUTPUT_DISPLAY_MAX_CHARS,
    )
}

pub fn format_bash_result(icon: &str, parsed: &Json) -> (r: String)
    ensures
        r@ == bash_result(icon@, parsed.view()),
{
    let mut status = String::new();
    match parsed.str_field("backgroundTaskId") {
        Some(task_id) => {
            status = " backgrounded (".to_string();
            status.append(task_id);
            status.append(")");
        },
        None => match parsed.str_field("returnCodeInterpretation") {
            Some(interpretation) => {
                if !interpretation.is_empty() {
                    status = " ".to_string();
                    status.append(interpretation);
                }
            },
            None => {},
        },
    }
    let mut out = icon.to_string();
    out.append(" \x1b[38;5;245mbash\x1b[0m");
    out.append(status.as_str());
    match parsed.str_field("stdout") {
        Some(stdout) => {
            if !is_blank_str(stdout) {
                out.append("\n\n");
                out.append(display_tool_output(stdout).as_str());
            }
        },
        None => {},
    }
    match parsed.str_field("stderr") {
        Some(stderr) => {
            if !is_blank_str(stderr) {
                out.append("\n\n");
                out.append("\x1b[38;5;203m");
                out.append(display_tool_output(stderr).as_str());
                out.append("\x1b[0m");
            }
        },
        None => {},
    }
    out
}

/// The file that a read result speaks of.
pub open spec fn read_file_of(parsed: JsonView) -> JsonView {
    match parsed.get("file"@) {
        Some(file) => file,
        None => parsed,
    }
}

/// The last line of a span that starts at `start` and is `count` lines long; an
/// empty span ends where it starts. Line numbers do not exceed 64 bits.
pub open spec fn last_line(start: u64, count: u64) -> nat {
    if count == 0 {
        start as nat
    } else if start + (count - 1) > u64::MAX {
        u64::MAX as nat
    } else {
        (start + (count - 1)) as nat
    }
}

pub open spec fn read_result(icon: Seq<char>, parsed: JsonView) -> Seq<char> {
    let file = read_file_of(parsed);
    let start = file.u64_or("startLine"@, 1);
    let count = file.u64_or("numLines"@, 0);
    icon + " \x1b[2m📄 Read "@ + tool_path(file) + " (lines "@ + text::decimal(start as nat) + "-"@
        + text::decimal(last_line(start, count)) + " of "@ + text::decimal(
        file.u64_or("totalLines"@, count) as nat,
    ) + ")\x1b[0m\n"@ + displayed(
        file.str_or("content"@, Seq::empty()),
        READ_DISPLAY_MAX_LINES as nat,
        READ_DISPLAY_MAX_CHARS as nat,
    )
}

pub fn format_read_result(icon: &str, parsed: &Json) -> (r: String)
    ensures
        r@ == read_result(icon@, parsed.view()),
{
    let file = match parsed.get("file") {
        Some(file) => file,
        None => parsed,
    };
    let start_line: u64 = file.u64_or("startLine", 1);
    let num_lines: u64 = file.u64_or("numLines", 0);
    let total_lines: u64 = file.u64_or("totalLines", num_lines);
    let end_line: u64 = if num_lines == 0 {
        start_line
    } else if start_line > u64::MAX - (num_lines - 1) {
        u64::MAX
    } else {
        start_line + (num_lines - 1)
    };
    let content = match file.str_field("content") {
        Some(content) => content.to_string(),
        None => String::new(),
    };
    let mut out = icon.to_string();
    out.append(" \x1b[2m📄 Read ");
    out.append(extract_tool_path(file).as_str());
    out.append(" (lines ");
    out.append(text::decimal_u64(start_line).as_str());
    out.append("-");
    out.append(text::decimal_u64(end_line).as_str());
    out.append(" of ");
    out.append(text::decimal_u64(total_lines).as_str());
    out.append(")\x1b[0m\n");
    out.append(
        truncate_output_for_display(
            content.as_str(),
            READ_DISPLAY_MAX_LINES,
            READ_DISPLAY_MAX_CHARS,
        ).as_str(),
    );
    out
}

pub open spec fn write_result(icon: Seq<char>, parsed: JsonView) -> Seq<char> {
    icon + " \x1b[1;32m✏️ "@ + (if parsed.str_or("type"@, "write"@) == "create"@ {
        "Wrote"@
    } else {
        "Updated"@
    }) + " "@ + tool_path(parsed) + "\x1b[0m \x1b[2m("@ + text::decimal(content_lines(parsed))
        + " lines)\x1b[0m"@
}

pub fn format_write_result(icon: &str, parsed: &Json) -> (r: String)
    ensures
        r@ == write_result(icon@, parsed.view()),
{
    let kind = parsed.str_or("type", "write");
    let mut out = icon.to_string();
    out.append(" \x1b[1;32m✏️ ");
    if text::str_eq(kind, "create") {
        out.append("Wrote");
    } else {
        out.append("Updated");
    }
    out.append(" ");
    out.append(extract_tool_path(parsed).as_str());
    out.append("\x1b[0m \x1b[2m(");
    out.append(text::decimal_usize(count_content_lines(parsed)).as_str());
    out.append(" lines)\x1b[0m");
    out
}

/// A line of a patch, coloured by its sign.
pub open spec fn patch_line(line: Seq<char>) -> Seq<char> {
    if line.len() > 0 && line[0] == '+' {
        "\x1b[38;5;70m"@ + line + "\x1b[0m"@
    } else if line.len() > 0 && line[0] == '-' {
        "\x1b[38;5;203m"@ + line + "\x1b[0m"@
    } else {
        line
    }
}

pub open spec fn patch_lines(lines: Seq<Seq<char>>) -> Seq<Seq<char>> {
    lines.map_values(|line: Seq<char>| patch_line(line))
}

/// The first six lines of a hunk.
pub open spec fn hunk_preview(hunk: JsonView) -> Option<Seq<Seq<char>>> {
    match hunk.get("lines"@) {
        Some(lines) => match lines.as_array() {
            Some(items) => Some(patch_lines(first_of(strings_of(items), 6))),
            None => None,
        },
        None => None,
    }
}

/// The lines of hunks one behind the other; none where a hunk has no lines.
pub open spec fn hunks_preview(hunks: Seq<JsonView>) -> Option<Seq<Seq<char>>>
    decreases hunks.len(),
{
    if hunks.len() == 0 {
        Some(Seq::empty())
    } else {
        match (hunks_preview(hunks.drop_last()), hunk_preview(hunks.last())) {
            (Some(before), Some(lines)) => Some(before + lines),
            _ => None,
        }
    }
}

/// The first two hunks of the patch that an edit reports.
pub open spec fn structured_patch(parsed: JsonView) -> Option<Seq<char>> {
    match parsed.get("structuredPatch"@) {
        Some(patch) => match patch.as_array() {
            Some(hunks) => {
                let shown = if hunks.len() <= 2 {
                    hunks
                } else {
                    hunks.take(2)
                };
                match hunks_preview(shown) {
                    Some(lines) => if lines.len() == 0 {
                        None
                    } else {
                        Some(text::joined(lines, "\n"@))
                    },
                    None => None,
                }
            },
            None => None,
        },
        None => None,
    }
}

fn color_patch_line(line: &str) -> (r: String)
    ensures
        r@ == patch_line(line@),
{
    if line.is_empty() {
        return line.to_string();
    }
    let sign: char = line.get_char(0);
    if sign == '+' {
        let mut out = "\x1b[38;5;70m".to_string();
        out.append(line);
        out.append("\x1b[0m");
        out
    } else if sign == '-' {
        let mut out = "\x1b[38;5;203m".to_string();
        out.append(line);
        out.append("\x1b[0m");
        out
    } else {
        line.to_string()
    }
}

fn preview_hunk(hunk: &Json) -> (r: Option<Vec<String>>)
    ensures
        match r {
            Some(lines) => hunk_preview(hunk.view()) == Some(text::texts(lines@)),
            None => hunk_preview(hunk.view()) is None,
        },
{
    let lines = match hunk.get("lines") {
        Some(lines) => lines,
        None => {
            return None;
        },
    };
    let items = match lines.as_array() {
        Some(items) => items,
        None => {
            return None;
        },
    };
    let plain = string_items(items, 6);
    let ghost all = text::texts(plain@);
    let mut out: Vec<String> = Vec::new();
    let mut i: usize = 0;
    assert(text::texts(out@) =~= patch_lines(all.take(0)));
    while i < plain.len()
        invariant
            i <= plain@.len(),
            all == text::texts(plain@),
            text::texts(out@) == patch_lines(all.take(i as int)),
        decreases plain.len() - i,
    {
        let line = color_patch_line(plain[i].as_str());
        proof {
            text::lemma_texts_push(out@, line);
            assert(patch_lines(all.take(i + 1)) =~= patch_lines(all.take(i as int)).push(
                patch_line(all[i as int]),
            ));
        }
        out.push(line);
        i += 1;
    }
    assert(all.take(i as int) =~= all);
    Some(out)
}

pub fn format_structured_patch_preview(parsed: &Json) -> (r: Option<String>)
    ensures
        text::opt_text(r) == structured_patch(parsed.view()),
{
    let patch = match parsed.get("structuredPatch") {
        Some(patch) => patch,
        None => {
            return None;
        },
    };
    let hunks = match patch.as_array() {
        Some(hunks) => hunks,
        None => {
            return None;
        },
    };
    let ghost all = json::json_views(hunks@);
    let count: usize = if hunks.len() <= 2 {
        hunks.len()
    } else {
        2
    };
    let ghost shown = all.take(count as int);
    let mut preview: Vec<String> = Vec::new();
    let mut i: usize = 0;
    assert(shown.take(0) =~= Seq::empty());
    assert(text::texts(preview@) =~= Seq::empty());
    proof {
        if hunks@.len() <= 2 {
            assert(shown =~= all);
        }
    }
    while i < count
        invariant
            i <= count <= hunks@.len(),
            all == json::json_views(hunks@),
            shown == all.take(count as int),
            shown == (if all.len() <= 2 {
                all
            } else {
                all.take(2)
            }),
            parsed.view().get("structuredPatch"@) == Some(patch.view()),
            patch.view().as_array() == Some(all),
            hunks_preview(shown.take(i as int)) == Some(text::texts(preview@)),
        decreases count - i,
    {
        proof {
            assert(shown.take(i + 1).drop_last() =~= shown.take(i as int));
            assert(shown.take(i + 1).last() == hunks@[i as int].view());
        }
        match preview_hunk(&hunks[i]) {
            Some(lines) => {
                let mut lines = lines;
                let ghost before = preview@;
                let ghost added = lines@;
                preview.append(&mut lines);
                assert(text::texts(preview@) =~= text::texts(before) + text::texts(added));
            },
            None => {
                proof {
                    lemma_missing_hunk(shown, i as int);
                }
                return None;
            },
        }
        i += 1;
    }
    assert(shown.take(i as int) =~= shown);
    if preview.len() == 0 {
        None
    } else {
        Some(text::join(&preview, "\n"))
    }
}

proof fn lemma_missing_hunk(hunks: Seq<JsonView>, at: int)
    requires
        0 <= at < hunks.len(),
        hunk_preview(hunks[at]) is None,
    ensures
        hunks_preview(hunks) is None,
    decreases hunks.len(),
{
    if at < hunks.len() - 1 {
        lemma_missing_hunk(hunks.drop_last(), at);
    }
}

pub open spec fn edit_result(icon: Seq<char>, parsed: JsonView) -> Seq<char> {
    let preview = match structured_patch(parsed) {
        Some(preview) => Some(preview),
        None => patch_preview(
            parsed.str_or("oldString"@, Seq::empty()),
            parsed.str_or("newString"@, Seq::empty()),
        ),
    };
    let head = icon + " \x1b[1;33m📝 Edited "@ + tool_path(parsed) + (if parsed.flag(
        "replaceAll"@,
    ) {
        " (replace all)"@
    } else {
        ""@
    }) + "\x1b[0m"@;
    match preview {
        Some(preview) => head + "\n"@ + preview,
        None => head,
    }
}

pub fn format_edit_result(icon: &str, parsed: &Json) -> (r: String)
    ensures
        r@ == edit_result(icon@, parsed.view()),
{
    let suffix = if parsed.flag("replaceAll") {
        " (replace all)"
    } else {
        ""
    };
    let preview = match format_structured_patch_preview(parsed) {
        Some(preview) => Some(preview),
        None => {
            let old_value = match parsed.str_field("oldString") {
                Some(s) => s.to_string(),
                None => String::new(),
            };
            let new_value = match parsed.str_field("newString") {
                Some(s) => s.to_string(),
                None => String::new(),
            };
            format_patch_preview(old_value.as_str(), new_value.as_str())
        },
    };
    let mut out = icon.to_string();
    out.append(" \x1b[1;33m📝 Edited ");
    out.append(extract_tool_path(parsed).as_str());
    out.append(suffix);
    out.append("\x1b[0m");
    match preview {
        Some(preview) => {
            out.append("\n");
            out.append(preview.as_str());
        },
        None => {},
    }
    out
}

/// The first eight file names of a search result, one on each line.
pub open spec fn file_names(parsed: JsonView) -> Seq<char> {
    match parsed.get("filenames"@) {
        Some(value) => match value.as_array() {
            Some(items) => text::joined(first_of(strings_of(items), 8), "\n"@),
            None => Seq::empty(),
        },
        None => Seq::empty(),
    }
}

fn list_file_names(parsed: &Json) -> (r: String)
    ensures
        r@ == file_names(parsed.view()),
{
    match parsed.get("filenames") {
        Some(value) => match value.as_array() {
            Some(items) => text::join(&string_items(items, 8), "\n"),
            None => String::new(),
        },
        None => String::new(),
    }
}

pub open spec fn glob_result(icon: Seq<char>, parsed: JsonView) -> Seq<char> {
    let head = icon + " \x1b[38;5;245mglob_search\x1b[0m matched "@ + text::decimal(
        parsed.u64_or("numFiles"@, 0) as nat,
    ) + " files"@;
    if file_names(parsed).len() == 0 {
        head
    } else {
        head + "\n"@ + file_names(parsed)
    }
}

pub fn format_glob_result(icon: &str, parsed: &Json) -> (r: String)
    ensures
        r@ == glob_result(icon@, parsed.view()),
{
    let names = list_file_names(parsed);
    let mut out = icon.to_string();
    out.append(" \x1b[38;5;245mglob_search\x1b[0m matched ");
    out.append(text::decimal_u64(parsed.u64_or("numFiles", 0)).as_str());
    out.append(" files");
    if !names.as_str().is_empty() {
        out.append("\n");
        out.append(names.as_str());
    }
    out
}

pub open spec fn grep_result(icon: Seq<char>, parsed: JsonView) -> Seq<char> {
    let content = parsed.str_or("content"@, Seq::empty());
    let head = icon + " \x1b[38;5;245mgrep_search\x1b[0m "@ + text::decimal(
        parsed.u64_or("numMatches"@, 0) as nat,
    ) + " matches across "@ + text::decimal(parsed.u64_or("numFiles"@, 0) as nat) + " files"@;
    if !text::is_blank(content) {
        head + "\n"@ + tool_output(content)
    } else if file_names(parsed).len() > 0 {
        head + "\n"@ + file_names(parsed)
    } else {
        head
    }
}

pub fn format_grep_result(icon: &str, parsed: &Json) -> (r: String)
    ensures
        r@ == grep_result(icon@, parsed.view()),
{
    let content = match parsed.str_field("content") {
        Some(s) => s.to_string(),
        None => String::new(),
    };
    let mut out = icon.to_string();
    out.append(" \x1b[38;5;245mgrep_search\x1b[0m ");
    out.append(text::decimal_u64(parsed.u64_or("numMatches", 0)).as_str());
    out.append(" matches across ");
    out.append(text::decimal_u64(parsed.u64_or("numFiles", 0)).as_str());
    out.append(" files");
    if !is_blank_str(content.as_str()) {
        out.append("\n");
        out.append(display_tool_output(content.as_str()).as_str());
        return out;
    }
    let names = list_file_names(parsed);
    if !names.as_str().is_empty() {
        out.append("\n");
        out.append(names.as_str());
    }
    out
}

/// The text of a result without a display of its own, where `pretty` is its
/// indented form.
pub open spec fn generic_output(parsed: JsonView, pretty: Seq<char>) -> Seq<char> {
    match parsed {
        JsonView::Text(s) => s,
        JsonView::Null => Seq::empty(),
        JsonView::Object(_) => pretty,
        JsonView::Array(_) => pretty,
        JsonView::Bool(b) => text::bool_text(b),
        JsonView::Number { text, .. } => text,
    }
}

pub open spec fn generic_result(
    icon: Seq<char>,
    name: Seq<char>,
    parsed: JsonView,
    pretty: Seq<char>,
) -> Seq<char> {
    let preview = tool_output(generic_output(parsed, pretty));
    if preview.len() == 0 {
        icon + " \x1b[38;5;245m"@ + name + "\x1b[0m"@
    } else if preview.contains('\n') {
        icon + " \x1b[38;5;245m"@ + name + "\x1b[0m\n"@ + preview
    } else {
        icon + " \x1b[38;5;245m"@ + name + ":\x1b[0m "@ + preview
    }
}

pub fn format_generic_tool_result(icon: &str, name: &str, parsed: &Json, pretty: &str) -> (r: String)
    ensures
        r@ == generic_result(icon@, name@, parsed.view(), pretty@),
{
    let rendered = match parsed {
        Json::Text(s) => s.clone(),
        Json::Null => String::new(),
        Json::Object(_) => pretty.to_string(),
        Json::Array(_) => pretty.to_string(),
        Json::Bool(b) => text::bool_str(*b).to_string(),
        Json::Number { text, .. } => text.clone(),
    };
    let preview = display_tool_output(rendered.as_str());
    let mut out = icon.to_string();
    out.append(" \x1b[38;5;245m");
    out.append(name);
    if preview.as_str().is_empty() {
        out.append("\x1b[0m");
    } else if text::contains_char(preview.as_str(), '\n') {
        out.append("\x1b[0m\n");
        out.append(preview.as_str());
    } else {
        out.append(":\x1b[0m ");
        out.append(preview.as_str());
    }
    out
}

/// A result that was parsed, where `pretty` is its indented form.
pub open spec fn parsed_result(name: Seq<char>, parsed: JsonView, pretty: Seq<char>) -> Seq<char> {
    let icon = "\x1b[1;32m✓\x1b[0m"@;
    match display_tool(name) {
        DisplayTool::Bash => bash_result(icon, parsed),
        DisplayTool::Read => read_result(icon, parsed),
        DisplayTool::Write => write_result(icon, parsed),
        DisplayTool::Edit => edit_result(icon, parsed),
        DisplayTool::Glob => glob_result(icon, parsed),
        DisplayTool::Grep => grep_result(icon, parsed),
        _ => generic_result(icon, name, parsed, pretty),
    }
}

/// A successful result as it is shown, from its parsed form.
pub fn format_parsed_tool_result(name: &str, parsed: &Json, pretty: &str) -> (r: String)
    ensures
        r@ == parsed_result(name@, parsed.view(), pretty@),
{
    let icon = "\x1b[1;32m✓\x1b[0m";
    match display_tool_of(name) {
        DisplayTool::Bash => format_bash_result(icon, parsed),
        DisplayTool::Read => format_read_result(icon, parsed),
        DisplayTool::Write => format_write_result(icon, parsed),
        DisplayTool::Edit => format_edit_result(icon, parsed),
        DisplayTool::Glob => format_glob_result(icon, parsed),
        DisplayTool::Grep => format_grep_result(icon, parsed),
        DisplayTool::WebSearch | DisplayTool::Other => {
            format_generic_tool_result(icon, name, parsed, pretty)
        },
    }
}

/// A failure as it is shown.
pub open spec fn failed_result(name: Seq<char>, output: Seq<char>) -> Seq<char> {
    let shown = summary(text::trimmed(output), 160);
    let head = "\x1b[1;31m✗\x1b[0m"@ + " \x1b[38;5;245m"@ + name + "\x1b[0m"@;
    if shown.len() == 0 {
        head
    } else {
        head + "\n\x1b[38;5;203m"@ + shown + "\x1b[0m"@
    }
}

/// A success as it is shown.
pub open spec fn successful_result(name: Seq<char>, output: Seq<char>) -> Seq<char> {
    match json::json_parse(output) {
        Ok(parsed) => parsed_result(name, parsed, json::json_indented(parsed)),
        Err(_) => parsed_result(name, JsonView::Text(output), ""@),
    }
}

/// What is shown of the result of a call.
pub open spec fn result_shown(name: Seq<char>, output: Seq<char>, is_error: bool) -> Seq<char> {
    if is_error {
        failed_result(name, output)
    } else {
        successful_result(name, output)
    }
}

/// The result of a tool as it is shown.
pub fn format_tool_result(name: &str, output: &str, is_error: bool) -> (r: String)
    ensures
        r@ == result_shown(name@, output@, is_error),
{
    if is_error {
        let shown = truncate_for_summary(text::trim(output), 160);
        let mut out = "\x1b[1;31m✗\x1b[0m".to_string();
        out.append(" \x1b[38;5;245m");
        out.append(name);
        out.append("\x1b[0m");
        if !shown.as_str().is_empty() {
            out.append("\n\x1b[38;5;203m");
            out.append(shown.as_str());
            out.append("\x1b[0m");
        }
        return out;
    }
    let parsed = parse_loosely(output);
    match json::indented_json(output) {
        Ok(pretty) => format_parsed_tool_result(name, &parsed, pretty.as_str()),
        Err(_) => format_parsed_tool_result(name, &parsed, ""),
    }
}

} // verus!
