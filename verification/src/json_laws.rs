//! What holds of JSON documents and of their texts.

use vstd::prelude::*;

use crate::json::{self, JsonView};
use crate::text;

verus! {

// ---------------------------------------------------------------------------
// Members
// ---------------------------------------------------------------------------

/// A member is found by its key, in front of whatever follows it; other keys are
/// looked for behind it.
pub proof fn law_members_are_found_by_their_key(
    key: Seq<char>,
    other: Seq<char>,
    value: JsonView,
    rest: Seq<(Seq<char>, JsonView)>,
)
    ensures
        JsonView::Object(seq![(key, value)] + rest).get(key) == Some(value),
        other != key ==> JsonView::Object(seq![(key, value)] + rest).get(other)
            == JsonView::Object(rest).get(other),
        JsonView::Object(Seq::empty()).get(key) is None,
        JsonView::Text(key).get(key) is None,
{
    let members = seq![(key, value)] + rest;
    assert(members[0] == (key, value));
    assert(members.skip(1) =~= rest);
}

/// A member is read as what it is: a text as a text, a number as a number, and a
/// flag is set by `true` alone. What is not there, or is something else, leaves the
/// default.
pub proof fn law_members_are_read_as_what_they_are(
    document: JsonView,
    key: Seq<char>,
    default: Seq<char>,
    number: u64,
)
    ensures
        document.get(key) is None ==> document.str_or(key, default) == default && document.u64_or(
            key,
            number,
        ) == number && !document.flag(key) && document.str_field(key) is None,
        document.get(key) is Some && document.get(key)->0 is Text ==> document.str_or(key, default)
            == document.get(key)->0->Text_0 && document.u64_or(key, number) == number
            && !document.flag(key),
        document.get(key) is Some && document.get(key)->0 is Bool ==> document.flag(key)
            == document.get(key)->0->Bool_0 && document.str_or(key, default) == default
            && document.u64_or(key, number) == number,
        document.get(key) is Some && document.get(key)->0 is Number ==> document.str_or(
            key,
            default,
        ) == default && !document.flag(key),
        document.get(key) == Some(json::number_json(number)) ==> document.u64_or(key, 0) == number,
        document.str_field(key) is Some ==> document.str_or(key, default) == document.str_field(
            key,
        )->0,
{
}

/// A number, a text that may be missing, and texts are held as what they are.
pub proof fn law_values_are_held_as_what_they_are(
    n: u64,
    said: Seq<char>,
    texts: Seq<Seq<char>>,
    at: int,
)
    ensures
        json::number_json(n).as_u64() == Some(n),
        json::json_compact(json::number_json(n)) == text::decimal(n as nat),
        json::opt_text_json(Some(said)).as_str() == Some(said),
        json::opt_text_json(None) is Null,
        json::texts_json(texts).as_array() is Some,
        json::texts_json(texts).as_array()->0.len() == texts.len(),
        0 <= at < texts.len() ==> json::texts_json(texts).as_array()->0[at].as_str() == Some(
            texts[at],
        ),
{
}

// ---------------------------------------------------------------------------
// Texts
// ---------------------------------------------------------------------------

/// Texts are escaped character by character.
pub proof fn law_texts_are_escaped_by_character(a: Seq<char>, b: Seq<char>)
    ensures
        json::escaped(a + b) == json::escaped(a) + json::escaped(b),
        json::escaped(Seq::empty()).len() == 0,
    decreases b.len(),
{
    if b.len() == 0 {
        assert(a + b =~= a);
        assert(json::escaped(a) + json::escaped(b) =~= json::escaped(a));
    } else {
        law_texts_are_escaped_by_character(a, b.drop_last());
        assert((a + b).drop_last() =~= a + b.drop_last());
        assert((a + b).last() == b.last());
        assert(json::escaped(a) + json::escaped(b.drop_last()) + json::escaped_char(b.last())
            =~= json::escaped(a) + (json::escaped(b.drop_last()) + json::escaped_char(b.last())));
    }
}

/// A character stands as it is but where it would end the text or could not be
/// shown: quotes and backslashes have a backslash in front, line breaks and tabs
/// their letters, and other control characters their number.
pub proof fn law_plain_characters_stay(c: char)
    ensures
        (c as int) >= 0x20 && c != '"' && c != '\\' ==> json::escaped_char(c) == seq![c],
        json::escaped_char('"') == seq!['\\', '"'],
        json::escaped_char('\\') == seq!['\\', '\\'],
        json::escaped_char('\n') == seq!['\\', 'n'],
        json::escaped_char('\t') == seq!['\\', 't'],
        json::escaped_char('\r') == seq!['\\', 'r'],
        (c as int) < 0x20 ==> json::escaped_char(c).len() == 2 || json::escaped_char(c).len() == 6,
        json::escaped_char(c).len() > 1 ==> json::escaped_char(c)[0] == '\\',
{
}

/// The literal of a text of plain characters is that text between quotes.
pub proof fn law_plain_texts_stand_between_quotes(s: Seq<char>)
    requires
        forall|i: int|
            0 <= i < s.len() ==> (#[trigger] s[i]) as int >= 0x20 && s[i] != '"' && s[i] != '\\',
    ensures
        json::json_literal(s) == seq!['"'] + s + seq!['"'],
        json::json_compact(JsonView::Text(s)) == seq!['"'] + s + seq!['"'],
{
    lemma_plain_texts_stay(s);
}

proof fn lemma_plain_texts_stay(s: Seq<char>)
    requires
        forall|i: int|
            0 <= i < s.len() ==> (#[trigger] s[i]) as int >= 0x20 && s[i] != '"' && s[i] != '\\',
    ensures
        json::escaped(s) == s,
    decreases s.len(),
{
    if s.len() > 0 {
        let front = s.drop_last();
        assert forall|i: int| 0 <= i < front.len() implies (#[trigger] front[i]) as int >= 0x20
            && front[i] != '"' && front[i] != '\\' by {
            assert(front[i] == s[i]);
        }
        lemma_plain_texts_stay(front);
        assert(s[s.len() - 1] == s.last());
        assert(front + seq![s.last()] =~= s);
    } else {
        assert(json::escaped(s) =~= s);
    }
}

/// The items of a list stand in their order, with commas between them.
pub proof fn law_compact_items_have_commas_between(items: Seq<JsonView>)
    ensures
        json::compact_items(items) == text::joined(
            items.map_values(|item: JsonView| json::json_compact(item)),
            ","@,
        ),
        json::json_compact(JsonView::Array(items)) == "["@ + json::compact_items(items) + "]"@,
    decreases items.len(),
{
    let texts = items.map_values(|item: JsonView| json::json_compact(item));
    if items.len() > 0 {
        let front = items.drop_last();
        law_compact_items_have_commas_between(front);
        assert(texts.drop_last() =~= front.map_values(
            |item: JsonView| json::json_compact(item),
        ));
        assert(texts.last() == json::json_compact(items.last()));
        if items.len() == 1 {
            assert(json::compact_items(front) =~= Seq::empty());
            assert(json::compact_items(items) =~= texts[0]);
        }
    }
}

/// A member in compact form: its key between quotes, a colon, and its value.
pub open spec fn compact_member(member: (Seq<char>, JsonView)) -> Seq<char> {
    json::json_literal(member.0) + ":"@ + json::json_compact(member.1)
}

/// The members of an object stand in their order, with commas between them, each
/// with its value behind its key.
pub proof fn law_compact_members_have_commas_between(members: Seq<(Seq<char>, JsonView)>)
    ensures
        json::compact_members(members) == text::joined(
            members.map_values(|member: (Seq<char>, JsonView)| compact_member(member)),
            ","@,
        ),
        json::json_compact(JsonView::Object(members)) == "{"@ + json::compact_members(members)
            + "}"@,
    decreases members.len(),
{
    let texts = members.map_values(|member: (Seq<char>, JsonView)| compact_member(member));
    if members.len() > 0 {
        let front = members.drop_last();
        law_compact_members_have_commas_between(front);
        assert(texts.drop_last() =~= front.map_values(
            |member: (Seq<char>, JsonView)| compact_member(member),
        ));
        let last = members.last();
        assert(texts.last() == compact_member(last));
        let before = json::compact_members(front) + json::comma(members.len() > 1, ","@);
        assert(json::compact_members(members) =~= before + compact_member(last));
        if members.len() == 1 {
            assert(before =~= Seq::empty());
            assert(json::compact_members(members) =~= texts[0]);
        }
    }
}

/// In indented form a list, or an object, that holds nothing is its two brackets;
/// else each item and each member stands on a line of its own, one level deeper than
/// the brackets. What holds nothing else reads as in compact form.
pub proof fn law_indented_items_stand_on_their_lines(
    items: Seq<JsonView>,
    item: JsonView,
    key: Seq<char>,
    members: Seq<(Seq<char>, JsonView)>,
    level: nat,
)
    ensures
        json::indented_at(JsonView::Array(Seq::empty()), level) == "[]"@,
        json::indented_at(JsonView::Object(Seq::empty()), level) == "{}"@,
        json::indented_items(items.push(item), level) == json::indented_items(items, level) + (
        if items.len() > 0 {
            ","@
        } else {
            Seq::empty()
        }) + "\n"@ + json::indentation(level) + json::indented_at(item, level),
        json::indented_members(members.push((key, item)), level) == json::indented_members(
            members,
            level,
        ) + (if members.len() > 0 {
            ","@
        } else {
            Seq::empty()
        }) + "\n"@ + json::indentation(level) + json::json_literal(key) + ": "@
            + json::indented_at(item, level),
        json::indented_at(JsonView::Array(items.push(item)), level) == "["@ + json::indented_items(
            items.push(item),
            level + 1,
        ) + "\n"@ + json::indentation(level) + "]"@,
        json::indented_at(JsonView::Object(members.push((key, item))), level) == "{"@
            + json::indented_members(members.push((key, item)), level + 1) + "\n"@
            + json::indentation(level) + "}"@,
        item !is Array && item !is Object ==> json::json_indented(item) == json::json_compact(item),
        json::indentation(level).len() == 2 * level,
{
    assert(items.push(item).drop_last() =~= items);
    assert(members.push((key, item)).drop_last() =~= members);
}

} // verus!
