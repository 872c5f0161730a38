//! The answers of the web tools.

use vstd::prelude::*;

use crate::json;
use crate::text;

verus! {

// ---------------------------------------------------------------------------
// Indented text
// ---------------------------------------------------------------------------

/// The start of a line at some depth.
pub open spec fn new_line(depth: nat) -> Seq<char> {
    "\n"@ + text::repeated(' ', 2 * depth)
}

/// A list or an object over several lines, one entry to a line; one without
/// entries takes no lines of its own.
pub open spec fn indented_block(
    opening: Seq<char>,
    entries: Seq<Seq<char>>,
    closing: Seq<char>,
    depth: nat,
) -> Seq<char> {
    if entries.len() == 0 {
        opening + closing
    } else {
        opening + new_line(depth + 1) + text::joined(entries, ","@ + new_line(depth + 1))
            + new_line(depth) + closing
    }
}

fn start_line(depth: usize) -> (r: String)
    requires
        depth <= 1000,
    ensures
        r@ == new_line(depth as nat),
{
    let mut out = "\n".to_string();
    out.append(text::repeat_char(' ', 2 * depth).as_str());
    out
}

fn write_block(opening: &str, entries: &Vec<String>, closing: &str, depth: usize) -> (r: String)
    requires
        depth < 1000,
    ensures
        r@ == indented_block(opening@, text::texts(entries@), closing@, depth as nat),
{
    assert(text::texts(entries@).len() == entries@.len());
    let mut out = opening.to_string();
    if entries.is_empty() {
        out.append(closing);
        return out;
    }
    let line = start_line(depth + 1);
    let mut separator = ",".to_string();
    separator.append(line.as_str());
    out.append(line.as_str());
    out.append(text::join(entries, separator.as_str()).as_str());
    out.append(start_line(depth).as_str());
    out.append(closing);
    out
}

fn push_entry(entries: &mut Vec<String>, head: &str, value: &str)
    ensures
        text::texts(final(entries)@) == text::texts(old(entries)@).push(head@ + value@),
{
    let mut entry = head.to_string();
    entry.append(value);
    proof {
        text::lemma_texts_push(entries@, entry);
    }
    entries.push(entry);
}

// ---------------------------------------------------------------------------
// Fetching
// ---------------------------------------------------------------------------

/// What a page was fetched with and what came of it.
#[derive(Debug, PartialEq, Eq)]
pub struct WebFetchOutput {
    pub bytes: usize,
    pub code: u16,
    pub code_text: String,
    pub result: String,
    pub duration_ms: u128,
    pub url: String,
}

pub open spec fn fetch_entries(output: WebFetchOutput) -> Seq<Seq<char>> {
    seq![
        "\"bytes\": "@ + text::decimal(output.bytes as nat),
        "\"code\": "@ + text::decimal(output.code as nat),
        "\"codeText\": "@ + json::json_literal(output.code_text@),
        "\"result\": "@ + json::json_literal(output.result@),
        "\"durationMs\": "@ + text::decimal(output.duration_ms as nat),
        "\"url\": "@ + json::json_literal(output.url@),
    ]
}

/// The answer of a fetch.
pub open spec fn fetch_text(output: WebFetchOutput) -> Seq<char> {
    indented_block("{"@, fetch_entries(output), "}"@, 0)
}

/// The answer of a fetch, or why it failed.
pub open spec fn fetch_answer(fetched: Result<WebFetchOutput, String>) -> Result<
    Seq<char>,
    Seq<char>,
> {
    match fetched {
        Ok(output) => Ok(fetch_text(output)),
        Err(error) => Err(error@),
    }
}

pub fn run_web_fetch(fetched: Result<WebFetchOutput, String>) -> (r: Result<String, String>)
    ensures
        text::result_text(r) == fetch_answer(fetched),
{
    match fetched {
        Ok(output) => {
            let mut entries: Vec<String> = Vec::new();
            assert(text::texts(entries@) =~= Seq::empty());
            push_entry(&mut entries, "\"bytes\": ", text::decimal_usize(output.bytes).as_str());
            push_entry(
                &mut entries,
                "\"code\": ",
                text::decimal_u32(output.code as u32).as_str(),
            );
            push_entry(
                &mut entries,
                "\"codeText\": ",
                json::quote(output.code_text.as_str()).as_str(),
            );
            push_entry(&mut entries, "\"result\": ", json::quote(output.result.as_str()).as_str());
            push_entry(
                &mut entries,
                "\"durationMs\": ",
                text::decimal_of(output.duration_ms).as_str(),
            );
            push_entry(&mut entries, "\"url\": ", json::quote(output.url.as_str()).as_str());
            assert(text::texts(entries@) =~= fetch_entries(output));
            Ok(write_block("{", &entries, "}", 0))
        },
        Err(error) => Err(error),
    }
}

// ---------------------------------------------------------------------------
// Searching
// ---------------------------------------------------------------------------

#[derive(Debug, PartialEq, Eq)]
pub struct SearchHit {
    pub title: String,
    pub url: String,
}

#[derive(Debug, PartialEq, Eq)]
pub enum WebSearchResultItem {
    SearchResult { tool_use_id: String, content: Vec<SearchHit> },
    Commentary(String),
}

/// What a search found.
#[derive(Debug, PartialEq, Eq)]
pub struct WebSearchOutput {
    pub query: String,
    pub results: Vec<WebSearchResultItem>,
    /// How long the search took, in seconds, as a JSON number.
    pub duration_seconds: String,
}

pub open spec fn hit_entries(hit: SearchHit) -> Seq<Seq<char>> {
    seq![
        "\"title\": "@ + json::json_literal(hit.title@),
        "\"url\": "@ + json::json_literal(hit.url@),
    ]
}

pub open spec fn hits_text(hits: Seq<SearchHit>) -> Seq<char> {
    indented_block(
        "["@,
        hits.map_values(|hit: SearchHit| indented_block("{"@, hit_entries(hit), "}"@, 4)),
        "]"@,
        3,
    )
}

pub open spec fn result_entries(tool_use_id: Seq<char>, content: Seq<SearchHit>) -> Seq<Seq<char>> {
    seq![
        "\"tool_use_id\": "@ + json::json_literal(tool_use_id),
        "\"content\": "@ + hits_text(content),
    ]
}

pub open spec fn item_text(item: WebSearchResultItem) -> Seq<char> {
    match item {
        WebSearchResultItem::SearchResult { tool_use_id, content } => indented_block(
            "{"@,
            result_entries(tool_use_id@, content@),
            "}"@,
            2,
        ),
        WebSearchResultItem::Commentary(said) => json::json_literal(said@),
    }
}

pub open spec fn items_text(items: Seq<WebSearchResultItem>) -> Seq<char> {
    indented_block(
        "["@,
        items.map_values(|item: WebSearchResultItem| item_text(item)),
        "]"@,
        1,
    )
}

pub open spec fn search_entries(output: WebSearchOutput) -> Seq<Seq<char>> {
    seq![
        "\"query\": "@ + json::json_literal(output.query@),
        "\"results\": "@ + items_text(output.results@),
        "\"durationSeconds\": "@ + output.duration_seconds@,
    ]
}

/// The answer of a search.
pub open spec fn search_text(output: WebSearchOutput) -> Seq<char> {
    indented_block("{"@, search_entries(output), "}"@, 0)
}

fn write_hit(hit: &SearchHit) -> (r: String)
    ensures
        r@ == indented_block("{"@, hit_entries(*hit), "}"@, 4),
{
    let mut entries: Vec<String> = Vec::new();
    assert(text::texts(entries@) =~= Seq::empty());
    push_entry(&mut entries, "\"title\": ", json::quote(hit.title.as_str()).as_str());
    push_entry(&mut entries, "\"url\": ", json::quote(hit.url.as_str()).as_str());
    assert(text::texts(entries@) =~= hit_entries(*hit));
    write_block("{", &entries, "}", 4)
}

fn write_hits(hits: &Vec<SearchHit>) -> (r: String)
    ensures
        r@ == hits_text(hits@),
{
    let mut entries: Vec<String> = Vec::new();
    let mut i: usize = 0;
    while i < hits.len()
        invariant
            i <= hits@.len(),
            entries@.len() == i,
            forall|j: int| 0 <= j < i ==> (#[trigger] entries@[j])@ == indented_block(
                "{"@,
                hit_entries(hits@[j]),
                "}"@,
                4,
            ),
        decreases hits.len() - i,
    {
        entries.push(write_hit(&hits[i]));
        i += 1;
    }
    assert(text::texts(entries@) =~= hits@.map_values(
        |hit: SearchHit| indented_block("{"@, hit_entries(hit), "}"@, 4),
    ));
    write_block("[", &entries, "]", 3)
}

fn write_item(item: &WebSearchResultItem) -> (r: String)
    ensures
        r@ == item_text(*item),
{
    match item {
        WebSearchResultItem::SearchResult { tool_use_id, content } => {
            let mut entries: Vec<String> = Vec::new();
            assert(text::texts(entries@) =~= Seq::empty());
            push_entry(
                &mut entries,
                "\"tool_use_id\": ",
                json::quote(tool_use_id.as_str()).as_str(),
            );
            push_entry(&mut entries, "\"content\": ", write_hits(content).as_str());
            assert(text::texts(entries@) =~= result_entries(tool_use_id@, content@));
            write_block("{", &entries, "}", 2)
        },
        WebSearchResultItem::Commentary(said) => json::quote(said.as_str()),
    }
}

fn write_items(items: &Vec<WebSearchResultItem>) -> (r: String)
    ensures
        r@ == items_text(items@),
{
    let mut entries: Vec<String> = Vec::new();
    let mut i: usize = 0;
    while i < items.len()
        invariant
            i <= items@.len(),
            entries@.len() == i,
            forall|j: int| 0 <= j < i ==> (#[trigger] entries@[j])@ == item_text(items@[j]),
        decreases items.len() - i,
    {
        entries.push(write_item(&items[i]));
        i += 1;
    }
    assert(text::texts(entries@) =~= items@.map_values(
        |item: WebSearchResultItem| item_text(item),
    ));
    write_block("[", &entries, "]", 1)
}

/// The answer of a search, or why it failed.
pub open spec fn search_answer(found: Result<WebSearchOutput, String>) -> Result<
    Seq<char>,
    Seq<char>,
> {
    match found {
        Ok(output) => Ok(search_text(output)),
        Err(error) => Err(error@),
    }
}

pub fn run_web_search(found: Result<WebSearchOutput, String>) -> (r: Result<String, String>)
    ensures
        text::result_text(r) == search_answer(found),
{
    match found {
        Ok(output) => {
            let mut entries: Vec<String> = Vec::new();
            assert(text::texts(entries@) =~= Seq::empty());
            push_entry(&mut entries, "\"query\": ", json::quote(output.query.as_str()).as_str());
            push_entry(&mut entries, "\"results\": ", write_items(&output.results).as_str());
            push_entry(&mut entries, "\"durationSeconds\": ", output.duration_seconds.as_str());
            assert(text::texts(entries@) =~= search_entries(output));
            Ok(write_block("{", &entries, "}", 0))
        },
        Err(error) => Err(error),
    }
}

} // verus!
