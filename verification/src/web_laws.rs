//! What holds of the answers of the web tools.

use vstd::prelude::*;

use crate::json;
use crate::text;
use crate::web_ops::{self, SearchHit, WebFetchOutput, WebSearchOutput, WebSearchResultItem};

verus! {

proof fn lemma_joined_holds(parts: Seq<Seq<char>>, sep: Seq<char>, at: int)
    requires
        0 <= at < parts.len(),
    ensures
        text::contains_text(text::joined(parts, sep), parts[at]),
    decreases parts.len(),
{
    if parts.len() == 1 {
        text::lemma_contains_part(Seq::empty(), parts[0], Seq::empty());
        assert(Seq::<char>::empty() + parts[0] + Seq::<char>::empty() =~= parts[0]);
    } else {
        let before = text::joined(parts.drop_last(), sep) + sep;
        if at == parts.len() - 1 {
            text::lemma_contains_part(before, parts[at], Seq::empty());
            assert(before + parts[at] + Seq::<char>::empty() =~= text::joined(parts, sep));
        } else {
            lemma_joined_holds(parts.drop_last(), sep, at);
            lemma_contains_within(
                Seq::empty(),
                text::joined(parts.drop_last(), sep),
                sep + parts.last(),
                parts[at],
            );
            assert(Seq::<char>::empty() + text::joined(parts.drop_last(), sep) + (sep
                + parts.last()) =~= text::joined(parts, sep));
        }
    }
}

proof fn lemma_contains_within(
    before: Seq<char>,
    middle: Seq<char>,
    after: Seq<char>,
    part: Seq<char>,
)
    requires
        text::contains_text(middle, part),
    ensures
        text::contains_text(before + middle + after, part),
{
    let at = choose|at: int| 0 <= at <= middle.len() && text::occurs_at(middle, part, at);
    let whole = before + middle + after;
    assert(whole.subrange(before.len() + at, before.len() + at + part.len()) =~= middle.subrange(
        at,
        at + part.len(),
    ));
    assert(text::occurs_at(whole, part, before.len() + at));
}

/// The entries of a block stand in it between its brackets, each on a line of its
/// own; a block without entries is its two brackets.
pub proof fn law_blocks_hold_their_entries(
    opening: Seq<char>,
    entries: Seq<Seq<char>>,
    closing: Seq<char>,
    depth: nat,
    at: int,
)
    ensures
        text::has_prefix(web_ops::indented_block(opening, entries, closing, depth), opening),
        text::has_suffix(web_ops::indented_block(opening, entries, closing, depth), closing),
        entries.len() == 0 ==> web_ops::indented_block(opening, entries, closing, depth) == opening
            + closing,
        0 <= at < entries.len() ==> text::contains_text(
            web_ops::indented_block(opening, entries, closing, depth),
            entries[at],
        ),
        entries.len() == 1 ==> web_ops::indented_block(opening, entries, closing, depth) == opening
            + "\n"@ + text::repeated(' ', 2 * depth + 2) + entries[0] + "\n"@ + text::repeated(
            ' ',
            2 * depth,
        ) + closing,
{
    let block = web_ops::indented_block(opening, entries, closing, depth);
    let line = web_ops::new_line(depth + 1);
    let all = text::joined(entries, ","@ + line);
    let inner = if entries.len() == 0 {
        Seq::empty()
    } else {
        line + all + web_ops::new_line(depth)
    };
    assert(block =~= opening + inner + closing);
    text::lemma_contains_part(Seq::empty(), opening, inner + closing);
    assert(Seq::<char>::empty() + opening + (inner + closing) =~= block);
    text::lemma_contains_part(opening + inner, closing, Seq::empty());
    assert(opening + inner + closing + Seq::<char>::empty() =~= block);
    if 0 <= at < entries.len() {
        lemma_joined_holds(entries, ","@ + line, at);
        lemma_contains_within(
            opening + line,
            all,
            web_ops::new_line(depth) + closing,
            entries[at],
        );
        assert(opening + line + all + (web_ops::new_line(depth) + closing) =~= block);
    }
    if entries.len() == 1 {
        assert(2 * (depth + 1) == 2 * depth + 2);
        assert(block =~= opening + "\n"@ + text::repeated(' ', 2 * depth + 2) + entries[0] + "\n"@
            + text::repeated(' ', 2 * depth) + closing);
    }
}

/// An entry of a block: a name in quotes, and its value.
pub open spec fn entry(name: Seq<char>, value: Seq<char>) -> Seq<char> {
    "\""@ + name + "\": "@ + value
}

/// The answer of a fetch holds the size, the status and its words, the text, the time
/// in milliseconds and the address, each by its name.
pub proof fn law_fetches_tell_each_value_by_its_name(output: WebFetchOutput)
    ensures
        web_ops::fetch_entries(output).len() == 6,
        web_ops::fetch_entries(output)[0] == entry("bytes"@, text::decimal(output.bytes as nat)),
        web_ops::fetch_entries(output)[1] == entry("code"@, text::decimal(output.code as nat)),
        web_ops::fetch_entries(output)[2] == entry("codeText"@, json::json_literal(output.code_text@)),
        web_ops::fetch_entries(output)[3] == entry("result"@, json::json_literal(output.result@)),
        web_ops::fetch_entries(output)[4] == entry("durationMs"@, text::decimal(output.duration_ms as nat)),
        web_ops::fetch_entries(output)[5] == entry("url"@, json::json_literal(output.url@)),
{
    reveal_strlit("\"");
    reveal_strlit("\": ");
    assert("\"bytes\": "@ =~= "\""@ + "bytes"@ + "\": "@) by {
        reveal_strlit("\"bytes\": ");
        reveal_strlit("bytes");
    }
    assert("\"code\": "@ =~= "\""@ + "code"@ + "\": "@) by {
        reveal_strlit("\"code\": ");
        reveal_strlit("code");
    }
    assert("\"codeText\": "@ =~= "\""@ + "codeText"@ + "\": "@) by {
        reveal_strlit("\"codeText\": ");
        reveal_strlit("codeText");
    }
    assert("\"result\": "@ =~= "\""@ + "result"@ + "\": "@) by {
        reveal_strlit("\"result\": ");
        reveal_strlit("result");
    }
    assert("\"durationMs\": "@ =~= "\""@ + "durationMs"@ + "\": "@) by {
        reveal_strlit("\"durationMs\": ");
        reveal_strlit("durationMs");
    }
    assert("\"url\": "@ =~= "\""@ + "url"@ + "\": "@) by {
        reveal_strlit("\"url\": ");
        reveal_strlit("url");
    }
}

/// A hit holds its title and its address.
pub proof fn law_hits_tell_title_and_address(hit: SearchHit)
    ensures
        web_ops::hit_entries(hit).len() == 2,
        web_ops::hit_entries(hit)[0] == entry("title"@, json::json_literal(hit.title@)),
        web_ops::hit_entries(hit)[1] == entry("url"@, json::json_literal(hit.url@)),
{
    reveal_strlit("\"");
    reveal_strlit("\": ");
    assert("\"title\": "@ =~= "\""@ + "title"@ + "\": "@) by {
        reveal_strlit("\"title\": ");
        reveal_strlit("title");
    }
    assert("\"url\": "@ =~= "\""@ + "url"@ + "\": "@) by {
        reveal_strlit("\"url\": ");
        reveal_strlit("url");
    }
}

/// A result holds the call that it belongs to and its hits.
pub proof fn law_results_tell_their_call_and_hits(tool_use_id: Seq<char>, content: Seq<SearchHit>)
    ensures
        web_ops::result_entries(tool_use_id, content).len() == 2,
        web_ops::result_entries(tool_use_id, content)[0] == entry("tool_use_id"@, json::json_literal(tool_use_id)),
        web_ops::result_entries(tool_use_id, content)[1] == entry("content"@, web_ops::hits_text(content)),
{
    reveal_strlit("\"");
    reveal_strlit("\": ");
    assert("\"tool_use_id\": "@ =~= "\""@ + "tool_use_id"@ + "\": "@) by {
        reveal_strlit("\"tool_use_id\": ");
        reveal_strlit("tool_use_id");
    }
    assert("\"content\": "@ =~= "\""@ + "content"@ + "\": "@) by {
        reveal_strlit("\"content\": ");
        reveal_strlit("content");
    }
}

/// The answer of a search holds the query, the results and the time in seconds.
pub proof fn law_searches_tell_query_results_and_time(output: WebSearchOutput)
    ensures
        web_ops::search_entries(output).len() == 3,
        web_ops::search_entries(output)[0] == entry("query"@, json::json_literal(output.query@)),
        web_ops::search_entries(output)[1] == entry("results"@, web_ops::items_text(output.results@)),
        web_ops::search_entries(output)[2] == entry("durationSeconds"@, output.duration_seconds@),
{
    reveal_strlit("\"");
    reveal_strlit("\": ");
    assert("\"query\": "@ =~= "\""@ + "query"@ + "\": "@) by {
        reveal_strlit("\"query\": ");
        reveal_strlit("query");
    }
    assert("\"results\": "@ =~= "\""@ + "results"@ + "\": "@) by {
        reveal_strlit("\"results\": ");
        reveal_strlit("results");
    }
    assert("\"durationSeconds\": "@ =~= "\""@ + "durationSeconds"@ + "\": "@) by {
        reveal_strlit("\"durationSeconds\": ");
        reveal_strlit("durationSeconds");
    }
}

/// Every hit of a result stands in its list, with its title and its address, and
/// every result and every remark in the list of a search.
pub proof fn law_lists_hold_what_was_found(
    hits: Seq<SearchHit>,
    items: Seq<WebSearchResultItem>,
    at: int,
)
    ensures
        0 <= at < hits.len() ==> text::contains_text(
            web_ops::hits_text(hits),
            entry("title"@, json::json_literal(hits[at].title@)),
        ) && text::contains_text(
            web_ops::hits_text(hits),
            entry("url"@, json::json_literal(hits[at].url@)),
        ),
        0 <= at < items.len() ==> match items[at] {
            WebSearchResultItem::SearchResult { tool_use_id, content } => text::contains_text(
                web_ops::items_text(items),
                entry("tool_use_id"@, json::json_literal(tool_use_id@)),
            ) && text::contains_text(
                web_ops::items_text(items),
                entry("content"@, web_ops::hits_text(content@)),
            ),
            WebSearchResultItem::Commentary(said) => text::contains_text(
                web_ops::items_text(items),
                json::json_literal(said@),
            ),
        },
        hits.len() == 0 ==> web_ops::hits_text(hits) == "["@ + "]"@,
        items.len() == 0 ==> web_ops::items_text(items) == "["@ + "]"@,
{
    let hit_texts = hits.map_values(
        |hit: SearchHit| web_ops::indented_block("{"@, web_ops::hit_entries(hit), "}"@, 4),
    );
    law_blocks_hold_their_entries("["@, hit_texts, "]"@, 3, at);
    if 0 <= at < hits.len() {
        let hit = hits[at];
        law_hits_tell_title_and_address(hit);
        law_blocks_hold_their_entries("{"@, web_ops::hit_entries(hit), "}"@, 4, 0);
        law_blocks_hold_their_entries("{"@, web_ops::hit_entries(hit), "}"@, 4, 1);
        lemma_contains_through(
            web_ops::hits_text(hits),
            hit_texts[at],
            web_ops::hit_entries(hit)[0],
        );
        lemma_contains_through(
            web_ops::hits_text(hits),
            hit_texts[at],
            web_ops::hit_entries(hit)[1],
        );
    }
    let item_texts = items.map_values(|item: WebSearchResultItem| web_ops::item_text(item));
    law_blocks_hold_their_entries("["@, item_texts, "]"@, 1, at);
    if 0 <= at < items.len() {
        assert(item_texts[at] == web_ops::item_text(items[at]));
        match items[at] {
            WebSearchResultItem::SearchResult { tool_use_id, content } => {
                let entries = web_ops::result_entries(tool_use_id@, content@);
                law_results_tell_their_call_and_hits(tool_use_id@, content@);
                law_blocks_hold_their_entries("{"@, entries, "}"@, 2, 0);
                law_blocks_hold_their_entries("{"@, entries, "}"@, 2, 1);
                lemma_contains_through(web_ops::items_text(items), item_texts[at], entries[0]);
                lemma_contains_through(web_ops::items_text(items), item_texts[at], entries[1]);
            },
            WebSearchResultItem::Commentary(said) => {},
        }
    }
}

proof fn lemma_contains_through(whole: Seq<char>, middle: Seq<char>, part: Seq<char>)
    requires
        text::contains_text(whole, middle),
        text::contains_text(middle, part),
    ensures
        text::contains_text(whole, part),
{
    let at = choose|at: int| 0 <= at <= whole.len() && text::occurs_at(whole, middle, at);
    let before = whole.take(at);
    let after = whole.skip(at + middle.len());
    assert(whole =~= before + middle + after);
    lemma_contains_within(before, middle, after, part);
}

/// What was fetched or found is answered with all of its values, and why it
/// failed is handed on as it is.
pub proof fn law_answers_hold_every_value(
    fetched: Result<WebFetchOutput, String>,
    found: Result<WebSearchOutput, String>,
    at: int,
)
    ensures
        fetched is Ok <==> web_ops::fetch_answer(fetched) is Ok,
        found is Ok <==> web_ops::search_answer(found) is Ok,
        fetched is Err ==> web_ops::fetch_answer(fetched)->Err_0 == fetched->Err_0@,
        found is Err ==> web_ops::search_answer(found)->Err_0 == found->Err_0@,
        fetched is Ok && 0 <= at < 6 ==> text::contains_text(
            web_ops::fetch_answer(fetched)->Ok_0,
            web_ops::fetch_entries(fetched->Ok_0)[at],
        ),
        found is Ok && 0 <= at < 3 ==> text::contains_text(
            web_ops::search_answer(found)->Ok_0,
            web_ops::search_entries(found->Ok_0)[at],
        ),
{
    if fetched is Ok {
        law_blocks_hold_their_entries("{"@, web_ops::fetch_entries(fetched->Ok_0), "}"@, 0, at);
    }
    if found is Ok {
        law_blocks_hold_their_entries("{"@, web_ops::search_entries(found->Ok_0), "}"@, 0, at);
    }
}

/// A hit that stands alone in its list has its brackets four levels deep, and a
/// result that does has them two levels deep.
pub proof fn law_lists_are_indented(hit: SearchHit, item: WebSearchResultItem)
    ensures
        web_ops::hits_text(seq![hit]) == "["@ + "\n"@ + text::repeated(' ', 8)
            + web_ops::indented_block("{"@, web_ops::hit_entries(hit), "}"@, 4) + "\n"@
            + text::repeated(' ', 6) + "]"@,
        web_ops::items_text(seq![item]) == "["@ + "\n"@ + text::repeated(' ', 4)
            + web_ops::item_text(item) + "\n"@ + text::repeated(' ', 2) + "]"@,
        item is SearchResult ==> web_ops::item_text(item) == web_ops::indented_block(
            "{"@,
            web_ops::result_entries(item->tool_use_id@, item->content@),
            "}"@,
            2,
        ),
        item is Commentary ==> web_ops::item_text(item) == json::json_literal(
            item->Commentary_0@,
        ),
{
    let hits = seq![hit].map_values(
        |hit: SearchHit| web_ops::indented_block("{"@, web_ops::hit_entries(hit), "}"@, 4),
    );
    law_blocks_hold_their_entries("["@, hits, "]"@, 3, 0);
    let items = seq![item].map_values(|item: WebSearchResultItem| web_ops::item_text(item));
    law_blocks_hold_their_entries("["@, items, "]"@, 1, 0);
}

} // verus!
