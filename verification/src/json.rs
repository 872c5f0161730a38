//! JSON documents: the tree that the display and dispatch logic reads, and the
//! parser and printers of `serde_json` behind it.

use vstd::prelude::*;

use crate::text;

verus! {

// ---------------------------------------------------------------------------
// The model
// ---------------------------------------------------------------------------

/// A JSON document, as a mathematical value.
pub enum JsonView {
    Null,
    Bool(bool),
    /// A number: its value where it is a non-negative 64-bit integer, and its text.
    Number { unsigned: Option<u64>, text: Seq<char> },
    Text(Seq<char>),
    Array(Seq<JsonView>),
    /// The members of an object, in the order in which they are listed.
    Object(Seq<(Seq<char>, JsonView)>),
}

/// A JSON document.
#[derive(Debug, PartialEq, Eq)]
pub enum Json {
    Null,
    Bool(bool),
    Number { unsigned: Option<u64>, text: String },
    Text(String),
    Array(Vec<Json>),
    Object(Vec<(String, Json)>),
}

impl Json {
    pub open spec fn view(&self) -> JsonView
        decreases self,
    {
        match self {
            Json::Null => JsonView::Null,
            Json::Bool(b) => JsonView::Bool(*b),
            Json::Number { unsigned, text } => JsonView::Number { unsigned: *unsigned, text: text@ },
            Json::Text(s) => JsonView::Text(s@),
            Json::Array(items) => JsonView::Array(
                Seq::new(
                    items@.len(),
                    |i: int|
                        if 0 <= i < items@.len() {
                            items@[i].view()
                        } else {
                            JsonView::Null
                        },
                ),
            ),
            Json::Object(members) => JsonView::Object(
                Seq::new(
                    members@.len(),
                    |i: int|
                        if 0 <= i < members@.len() {
                            (members@[i].0@, members@[i].1.view())
                        } else {
                            (Seq::empty(), JsonView::Null)
                        },
                ),
            ),
        }
    }
}

// ---------------------------------------------------------------------------
// Reading a document
// ---------------------------------------------------------------------------

/// The value of the first member called `key`.
pub open spec fn member(members: Seq<(Seq<char>, JsonView)>, key: Seq<char>) -> Option<JsonView>
    decreases members.len(),
{
    if members.len() == 0 {
        None
    } else if members[0].0 == key {
        Some(members[0].1)
    } else {
        member(members.skip(1), key)
    }
}

/// A member is found under its name where none before it has that name.
pub proof fn lemma_member_at(members: Seq<(Seq<char>, JsonView)>, at: int)
    requires
        0 <= at < members.len(),
        forall|i: int| 0 <= i < at ==> (#[trigger] members[i]).0 != members[at].0,
    ensures
        member(members, members[at].0) == Some(members[at].1),
    decreases at,
{
    if at > 0 {
        assert(members[0].0 != members[at].0);
        let rest = members.skip(1);
        assert(rest[at - 1] == members[at]);
        assert forall|i: int| 0 <= i < at - 1 implies (#[trigger] rest[i]).0 != rest[at - 1].0 by {
            assert(rest[i] == members[i + 1]);
        }
        lemma_member_at(rest, at - 1);
    }
}

impl JsonView {
    /// The member of an object called `key`.
    pub open spec fn get(self, key: Seq<char>) -> Option<JsonView> {
        match self {
            JsonView::Object(members) => member(members, key),
            _ => None,
        }
    }

    /// The characters of a string.
    pub open spec fn as_str(self) -> Option<Seq<char>> {
        match self {
            JsonView::Text(s) => Some(s),
            _ => None,
        }
    }

    /// The value of a number that is a non-negative 64-bit integer.
    pub open spec fn as_u64(self) -> Option<u64> {
        match self {
            JsonView::Number { unsigned, .. } => unsigned,
            _ => None,
        }
    }

    pub open spec fn as_bool(self) -> Option<bool> {
        match self {
            JsonView::Bool(b) => Some(b),
            _ => None,
        }
    }

    pub open spec fn as_array(self) -> Option<Seq<JsonView>> {
        match self {
            JsonView::Array(items) => Some(items),
            _ => None,
        }
    }

    /// The member `key`, where it is a string.
    pub open spec fn str_field(self, key: Seq<char>) -> Option<Seq<char>> {
        match self.get(key) {
            Some(value) => value.as_str(),
            None => None,
        }
    }

    /// The member `key`, where it is a string; else `default`.
    pub open spec fn str_or(self, key: Seq<char>, default: Seq<char>) -> Seq<char> {
        match self.str_field(key) {
            Some(s) => s,
            None => default,
        }
    }

    /// The member `key`, where it is a non-negative integer; else `default`.
    pub open spec fn u64_or(self, key: Seq<char>, default: u64) -> u64 {
        match self.get(key) {
            Some(value) => match value.as_u64() {
                Some(n) => n,
                None => default,
            },
            None => default,
        }
    }

    /// Whether the member `key` is the value `true`.
    pub open spec fn flag(self, key: Seq<char>) -> bool {
        match self.get(key) {
            Some(value) => value.as_bool() == Some(true),
            None => false,
        }
    }
}

/// The document that is read where none, or some document, was found.
pub open spec fn opt_json(o: Option<&Json>) -> Option<JsonView> {
    match o {
        Some(json) => Some(json.view()),
        None => None,
    }
}

impl Json {
    /// The member of an object called `key`.
    pub fn get(&self, key: &str) -> (r: Option<&Json>)
        ensures
            opt_json(r) == self.view().get(key@),
    {
        match self {
            Json::Object(members) => {
                let ghost all = self.view()->Object_0;
                assert(all.skip(0) =~= all);
                let mut i: usize = 0;
                while i < members.len()
                    invariant
                        *self == Json::Object(*members),
                        all == self.view()->Object_0,
                        i <= members@.len(),
                        member(all, key@) == member(all.skip(i as int), key@),
                    decreases members.len() - i,
                {
                    assert(all.skip(i as int)[0] == (members@[i as int].0@, members@[i as int].1.view()));
                    if text::str_eq(members[i].0.as_str(), key) {
                        return Some(&members[i].1);
                    }
                    assert(all.skip(i as int).skip(1) =~= all.skip(i + 1));
                    i += 1;
                }
                None
            },
            _ => None,
        }
    }

    /// The characters of a string.
    pub fn as_str(&self) -> (r: Option<&str>)
        ensures
            text::opt_str(r) == self.view().as_str(),
    {
        match self {
            Json::Text(s) => Some(s.as_str()),
            _ => None,
        }
    }

    /// The value of a number that is a non-negative 64-bit integer.
    pub fn as_u64(&self) -> (r: Option<u64>)
        ensures
            r == self.view().as_u64(),
    {
        match self {
            Json::Number { unsigned, .. } => *unsigned,
            _ => None,
        }
    }

    pub fn as_bool(&self) -> (r: Option<bool>)
        ensures
            r == self.view().as_bool(),
    {
        match self {
            Json::Bool(b) => Some(*b),
            _ => None,
        }
    }

    /// The items of an array.
    pub fn as_array(&self) -> (r: Option<&Vec<Json>>)
        ensures
            match r {
                Some(items) => self.view().as_array() == Some(json_views(items@)),
                None => self.view().as_array() is None,
            },
    {
        match self {
            Json::Array(items) => {
                assert(self.view()->Array_0 =~= json_views(items@));
                Some(items)
            },
            _ => None,
        }
    }

    /// The member `key`, where it is a string.
    pub fn str_field(&self, key: &str) -> (r: Option<&str>)
        ensures
            text::opt_str(r) == self.view().str_field(key@),
    {
        match self.get(key) {
            Some(value) => value.as_str(),
            None => None,
        }
    }

    /// The member `key`, where it is a string; else `default`.
    pub fn str_or<'a>(&'a self, key: &str, default: &'a str) -> (r: &'a str)
        ensures
            r@ == self.view().str_or(key@, default@),
    {
        match self.str_field(key) {
            Some(s) => s,
            None => default,
        }
    }

    /// The member `key`, where it is a non-negative integer; else `default`.
    pub fn u64_or(&self, key: &str, default: u64) -> (r: u64)
        ensures
            r == self.view().u64_or(key@, default),
    {
        match self.get(key) {
            Some(value) => match value.as_u64() {
                Some(n) => n,
                None => default,
            },
            None => default,
        }
    }

    /// Whether the member `key` is the value `true`.
    pub fn flag(&self, key: &str) -> (r: bool)
        ensures
            r == self.view().flag(key@),
    {
        match self.get(key) {
            Some(value) => match value.as_bool() {
                Some(b) => b,
                None => false,
            },
            None => false,
        }
    }
}

/// The documents held by a sequence of trees.
pub open spec fn json_views(items: Seq<Json>) -> Seq<JsonView> {
    items.map_values(|json: Json| json.view())
}

// ---------------------------------------------------------------------------
// Making a document
// ---------------------------------------------------------------------------

pub open spec fn member_views(members: Seq<(String, Json)>) -> Seq<(Seq<char>, JsonView)> {
    members.map_values(|m: (String, Json)| (m.0@, m.1.view()))
}

/// The document of a whole number.
pub open spec fn number_json(n: u64) -> JsonView {
    JsonView::Number { unsigned: Some(n), text: text::decimal(n as nat) }
}

/// The document of a text that may be missing.
pub open spec fn opt_text_json(o: Option<Seq<char>>) -> JsonView {
    match o {
        Some(s) => JsonView::Text(s),
        None => JsonView::Null,
    }
}

/// The documents of texts.
pub open spec fn texts_json(v: Seq<Seq<char>>) -> JsonView {
    JsonView::Array(v.map_values(|s: Seq<char>| JsonView::Text(s)))
}

impl Json {
    pub fn of_str(s: &str) -> (r: Json)
        ensures
            r.view() == JsonView::Text(s@),
    {
        Json::Text(s.to_string())
    }

    pub fn of_opt_str(o: Option<&str>) -> (r: Json)
        ensures
            r.view() == opt_text_json(text::opt_str(o)),
    {
        match o {
            Some(s) => Json::Text(s.to_string()),
            None => Json::Null,
        }
    }

    pub fn of_u64(n: u64) -> (r: Json)
        ensures
            r.view() == number_json(n),
    {
        Json::Number { unsigned: Some(n), text: text::decimal_u64(n) }
    }

    pub fn of_bool(b: bool) -> (r: Json)
        ensures
            r.view() == JsonView::Bool(b),
    {
        Json::Bool(b)
    }

    pub fn of_items(items: Vec<Json>) -> (r: Json)
        ensures
            r.view() == JsonView::Array(json_views(items@)),
    {
        let r = Json::Array(items);
        assert(r.view()->Array_0 =~= json_views(items@));
        r
    }

    pub fn of_strings(v: &Vec<String>) -> (r: Json)
        ensures
            r.view() == texts_json(text::texts(v@)),
    {
        let mut items: Vec<Json> = Vec::new();
        let ghost all = texts_json(text::texts(v@))->Array_0;
        let mut i: usize = 0;
        while i < v.len()
            invariant
                i <= v@.len(),
                all == texts_json(text::texts(v@))->Array_0,
                items@.len() == i,
                forall|j: int| 0 <= j < i ==> #[trigger] items@[j].view() == JsonView::Text(v@[j]@),
            decreases v.len() - i,
        {
            items.push(Json::Text(v[i].clone()));
            i += 1;
        }
        assert(json_views(items@) =~= all);
        Json::of_items(items)
    }
}

/// An object in the making.
pub struct JsonObject {
    pub members: Vec<(String, Json)>,
}

impl JsonObject {
    pub open spec fn view(&self) -> Seq<(Seq<char>, JsonView)> {
        member_views(self.members@)
    }

    pub fn new() -> (r: JsonObject)
        ensures
            r.view() == Seq::<(Seq<char>, JsonView)>::empty(),
    {
        let r = JsonObject { members: Vec::new() };
        assert(r.view() =~= Seq::<(Seq<char>, JsonView)>::empty());
        r
    }

    /// Adds a member behind the others.
    pub fn put(&mut self, key: &str, value: Json)
        ensures
            final(self).view() == old(self).view().push((key@, value.view())),
    {
        self.members.push((key.to_string(), value));
        assert(self.view() =~= old(self).view().push((key@, value.view())));
    }

    pub fn done(self) -> (r: Json)
        ensures
            r.view() == JsonView::Object(self.view()),
    {
        let r = Json::Object(self.members);
        assert(r.view()->Object_0 =~= self.view());
        r
    }
}

// ---------------------------------------------------------------------------
// serde_json
// ---------------------------------------------------------------------------

/// A document as `serde_json` holds it.
#[verifier::external_type_specification]
#[verifier::external_body]
pub struct ExValue(serde_json::Value);

/// What a `serde_json::Value` holds.
pub uninterp spec fn value_json(value: serde_json::Value) -> JsonView;

/// What `serde_json::from_str` makes of a text: the document it holds, or the
/// message of the syntax error.
pub uninterp spec fn json_parse(text: Seq<char>) -> Result<JsonView, Seq<char>>;

/// One level of a `serde_json::Value`.
pub enum ValueParts<'a> {
    Null,
    Bool(bool),
    Number { unsigned: Option<u64>, text: String },
    Text(String),
    Items(Vec<&'a serde_json::Value>),
    Members(Vec<(String, &'a serde_json::Value)>),
}

impl<'a> ValueParts<'a> {
    /// The document that a level and what hangs below it make up.
    pub open spec fn json(self) -> JsonView {
        match self {
            ValueParts::Null => JsonView::Null,
            ValueParts::Bool(b) => JsonView::Bool(b),
            ValueParts::Number { unsigned, text } => JsonView::Number { unsigned, text: text@ },
            ValueParts::Text(s) => JsonView::Text(s@),
            ValueParts::Items(items) => JsonView::Array(
                items@.map_values(|v: &serde_json::Value| value_json(*v)),
            ),
            ValueParts::Members(members) => JsonView::Object(
                members@.map_values(|m: (String, &serde_json::Value)| (m.0@, value_json(*m.1))),
            ),
        }
    }
}

/// `serde_json::from_str`, reading a document of any shape. The result is named
/// by [`json_parse`].
#[verifier::external_body]
fn parse_value(text: &str) -> (r: Result<serde_json::Value, String>)
    ensures
        match r {
            Ok(value) => json_parse(text@) == Ok::<JsonView, Seq<char>>(value_json(value)),
            Err(message) => json_parse(text@) == Err::<JsonView, Seq<char>>(message@),
        },
{
    serde_json::from_str::<serde_json::Value>(text).map_err(|error| error.to_string())
}

/// The variant of a `serde_json::Value` and its fields; of a number, what
/// `Number::as_u64` gives and its text.
#[verifier::external_body]
fn value_parts<'a>(value: &'a serde_json::Value) -> (r: ValueParts<'a>)
    ensures
        r.json() == value_json(*value),
{
    match value {
        serde_json::Value::Null => ValueParts::Null,
        serde_json::Value::Bool(b) => ValueParts::Bool(*b),
        serde_json::Value::Number(n) => ValueParts::Number { unsigned: n.as_u64(), text: n.to_string() },
        serde_json::Value::String(s) => ValueParts::Text(s.clone()),
        serde_json::Value::Array(items) => ValueParts::Items(items.iter().collect()),
        serde_json::Value::Object(map) => ValueParts::Members(map.iter().map(|(k, v)| (k.clone(), v)).collect()),
    }
}

/// The hexadecimal digit of a number below sixteen.
pub open spec fn hex_digit(n: int) -> char {
    if n < 10 {
        ('0' as int + n) as char
    } else {
        ('a' as int + n - 10) as char
    }
}

/// How a character stands in a JSON string literal.
pub open spec fn escaped_char(c: char) -> Seq<char> {
    if c == '"' || c == '\\' {
        seq!['\\', c]
    } else if c == '\u{8}' {
        seq!['\\', 'b']
    } else if c == '\t' {
        seq!['\\', 't']
    } else if c == '\n' {
        seq!['\\', 'n']
    } else if c == '\u{c}' {
        seq!['\\', 'f']
    } else if c == '\r' {
        seq!['\\', 'r']
    } else if (c as int) < 0x20 {
        seq!['\\', 'u', '0', '0', hex_digit(c as int / 16), hex_digit(c as int % 16)]
    } else {
        seq![c]
    }
}

pub open spec fn escaped(text: Seq<char>) -> Seq<char>
    decreases text.len(),
{
    if text.len() == 0 {
        Seq::empty()
    } else {
        escaped(text.drop_last()) + escaped_char(text.last())
    }
}

/// A string as a JSON string literal.
pub open spec fn json_literal(text: Seq<char>) -> Seq<char> {
    seq!['"'] + escaped(text) + seq!['"']
}

/// The text of a document in compact form.
pub open spec fn json_compact(json: JsonView) -> Seq<char>
    decreases json,
{
    match json {
        JsonView::Null => "null"@,
        JsonView::Bool(b) => text::bool_text(b),
        JsonView::Number { text, .. } => text,
        JsonView::Text(text) => json_literal(text),
        JsonView::Array(items) => "["@ + compact_items(items) + "]"@,
        JsonView::Object(members) => "{"@ + compact_members(members) + "}"@,
    }
}

/// The items of an array in compact form, with commas between them.
pub open spec fn compact_items(items: Seq<JsonView>) -> Seq<char>
    decreases items,
{
    if items.len() == 0 {
        Seq::empty()
    } else {
        compact_items(items.drop_last()) + comma(items.len() > 1, ","@) + json_compact(items.last())
    }
}

/// The members of an object in compact form, with commas between them.
pub open spec fn compact_members(members: Seq<(Seq<char>, JsonView)>) -> Seq<char>
    decreases members,
{
    if members.len() == 0 {
        Seq::empty()
    } else {
        let (key, value) = members.last();
        compact_members(members.drop_last()) + comma(members.len() > 1, ","@) + json_literal(key)
            + ":"@ + json_compact(value)
    }
}

/// What stands before an item that is not the first.
pub open spec fn comma(follows: bool, comma: Seq<char>) -> Seq<char> {
    if follows {
        comma
    } else {
        Seq::empty()
    }
}

/// Two spaces for each level.
pub open spec fn indentation(level: nat) -> Seq<char> {
    Seq::new(2 * level, |i: int| ' ')
}

/// The text of a document in indented form, as it stands at a level.
pub open spec fn indented_at(json: JsonView, level: nat) -> Seq<char>
    decreases json,
{
    match json {
        JsonView::Array(items) => if items.len() == 0 {
            "[]"@
        } else {
            "["@ + indented_items(items, level + 1) + "\n"@ + indentation(level) + "]"@
        },
        JsonView::Object(members) => if members.len() == 0 {
            "{}"@
        } else {
            "{"@ + indented_members(members, level + 1) + "\n"@ + indentation(level) + "}"@
        },
        _ => json_compact(json),
    }
}

/// The items of an array in indented form, each on a line of its own.
pub open spec fn indented_items(items: Seq<JsonView>, level: nat) -> Seq<char>
    decreases items,
{
    if items.len() == 0 {
        Seq::empty()
    } else {
        indented_items(items.drop_last(), level) + comma(items.len() > 1, ","@) + "\n"@
            + indentation(level) + indented_at(items.last(), level)
    }
}

/// The members of an object in indented form, each on a line of its own.
pub open spec fn indented_members(members: Seq<(Seq<char>, JsonView)>, level: nat) -> Seq<char>
    decreases members,
{
    if members.len() == 0 {
        Seq::empty()
    } else {
        let (key, value) = members.last();
        indented_members(members.drop_last(), level) + comma(members.len() > 1, ","@) + "\n"@
            + indentation(level) + json_literal(key) + ": "@ + indented_at(value, level)
    }
}

/// The text of a document in indented form.
pub open spec fn json_indented(json: JsonView) -> Seq<char> {
    indented_at(json, 0)
}

/// `Value::to_string`: the compact text of a document. It is `{}` for the
/// object without members and for no other document.
#[verifier::external_body]
fn value_text(value: &serde_json::Value) -> (r: String)
    ensures
        r@ == json_compact(value_json(*value)),
        r@ == "{}"@ <==> value_json(*value) == JsonView::Object(Seq::empty()),
{
    value.to_string()
}

/// `serde_json::to_string_pretty` on a document: it does not fail, and puts each
/// item and member on a line of its own, two spaces deeper than what holds it.
#[verifier::external_body]
fn value_pretty(value: &serde_json::Value) -> (r: Option<String>)
    ensures
        text::opt_text(r) == Some(json_indented(value_json(*value))),
{
    serde_json::to_string_pretty(value).ok()
}

/// `serde_json::to_string` on a string: it does not fail, and puts the string
/// in quotes with its quotes, backslashes and control characters escaped.
#[verifier::external_body]
fn quoted_text(text: &str) -> (r: Option<String>)
    ensures
        text::opt_text(r) == Some(json_literal(text@)),
{
    serde_json::to_string(text).ok()
}

/// A string as a JSON string literal.
pub fn quote(text: &str) -> (r: String)
    ensures
        r@ == json_literal(text@),
{
    match quoted_text(text) {
        Some(q) => q,
        None => "\"<unprintable>\"".to_string(),
    }
}

/// The documents held by a sequence of values.
pub open spec fn value_jsons(values: Seq<serde_json::Value>) -> Seq<JsonView> {
    values.map_values(|v: serde_json::Value| value_json(v))
}

pub open spec fn value_members(members: Seq<(String, serde_json::Value)>) -> Seq<
    (Seq<char>, JsonView),
> {
    members.map_values(|m: (String, serde_json::Value)| (m.0@, value_json(m.1)))
}

/// Whether members stand in the order of their keys, with no key twice.
pub open spec fn in_key_order(members: Seq<(String, serde_json::Value)>) -> bool {
    forall|i: int, j: int|
        0 <= i < j < members.len() ==> text::comes_before(
            (#[trigger] members[i]).0@,
            (#[trigger] members[j]).0@,
        )
}

/// `Value::String`, the value of a string.
#[verifier::external_body]
pub(crate) fn string_value(text: &str) -> (r: serde_json::Value)
    ensures
        value_json(r) == JsonView::Text(text@),
{
    serde_json::Value::String(text.to_string())
}

/// `Value::Array`, the value of a list.
#[verifier::external_body]
pub(crate) fn array_value(items: Vec<serde_json::Value>) -> (r: serde_json::Value)
    ensures
        value_json(r) == JsonView::Array(value_jsons(items@)),
{
    serde_json::Value::Array(items)
}

/// `Map::from_iter` and `Value::Object`, the value of an object. A map keeps its
/// members in the order of their keys, so members that come in that order stay
/// in it.
#[verifier::external_body]
pub(crate) fn object_value(members: Vec<(String, serde_json::Value)>) -> (r: serde_json::Value)
    ensures
        in_key_order(members@) ==> value_json(r) == JsonView::Object(value_members(members@)),
{
    serde_json::Value::Object(serde_json::Map::from_iter(members))
}

/// The value of an object with two members whose keys are in order.
pub(crate) fn pair_value(
    first: &str,
    first_value: serde_json::Value,
    second: &str,
    second_value: serde_json::Value,
) -> (r: serde_json::Value)
    requires
        text::comes_before(first@, second@),
    ensures
        value_json(r) == JsonView::Object(
            seq![(first@, value_json(first_value)), (second@, value_json(second_value))],
        ),
{
    let mut members: Vec<(String, serde_json::Value)> = Vec::new();
    members.push((first.to_string(), first_value));
    members.push((second.to_string(), second_value));
    assert(value_members(members@) =~= seq![
        (first@, value_json(first_value)),
        (second@, value_json(second_value)),
    ]);
    object_value(members)
}

/// The document that a `serde_json::Value` holds.
fn json_of_value(value: &serde_json::Value) -> (r: Json)
    ensures
        r.view() == value_json(*value),
    decreases value_json(*value),
{
    match value_parts(value) {
        ValueParts::Null => Json::Null,
        ValueParts::Bool(b) => Json::Bool(b),
        ValueParts::Number { unsigned, text } => Json::Number { unsigned, text },
        ValueParts::Text(s) => Json::Text(s),
        ValueParts::Items(items) => {
            let mut out: Vec<Json> = Vec::new();
            let mut i: usize = 0;
            while i < items.len()
                invariant
                    i <= items@.len(),
                    out@.len() == i,
                    value_json(*value) == ValueParts::Items(items).json(),
                    forall|j: int| 0 <= j < i ==> #[trigger] out@[j].view() == value_json(*items@[j]),
                decreases items.len() - i,
            {
                assert(value_json(*value)->Array_0[i as int] == value_json(*items@[i as int]));
                out.push(json_of_value(items[i]));
                i += 1;
            }
            let r = Json::Array(out);
            assert forall|j: int| 0 <= j < items@.len() implies r.view()->Array_0[j]
                == value_json(*value)->Array_0[j] by {
                assert(out@[j].view() == value_json(*items@[j]));
            }
            assert(r.view()->Array_0 =~= value_json(*value)->Array_0);
            r
        },
        ValueParts::Members(members) => {
            let mut out: Vec<(String, Json)> = Vec::new();
            let mut i: usize = 0;
            while i < members.len()
                invariant
                    i <= members@.len(),
                    out@.len() == i,
                    value_json(*value) == ValueParts::Members(members).json(),
                    forall|j: int|
                        0 <= j < i ==> (#[trigger] out@[j]).0@ == members@[j].0@ && out@[j].1.view()
                            == value_json(*members@[j].1),
                decreases members.len() - i,
            {
                assert(value_json(*value)->Object_0[i as int].1 == value_json(
                    *members@[i as int].1,
                ));
                out.push((members[i].0.clone(), json_of_value(members[i].1)));
                i += 1;
            }
            let r = Json::Object(out);
            assert(r.view()->Object_0 =~= value_json(*value)->Object_0);
            r
        },
    }
}

/// The compact text of a document that another part of the program holds.
pub fn compact_text(value: &serde_json::Value) -> (r: String)
    ensures
        r@ == json_compact(value_json(*value)),
        r@ == "{}"@ <==> value_json(*value) == JsonView::Object(Seq::empty()),
{
    value_text(value)
}

/// The indented text of a document that another part of the program holds.
pub fn indented_text(value: &serde_json::Value) -> (r: String)
    ensures
        r@ == json_indented(value_json(*value)),
{
    match value_pretty(value) {
        Some(pretty) => pretty,
        None => value_text(value),
    }
}

/// The document that `text` holds in compact form, or the message of the syntax
/// error.
pub fn compact_json(text: &str) -> (r: Result<String, String>)
    ensures
        text::result_text(r) == match json_parse(text@) {
            Ok(json) => Ok::<Seq<char>, Seq<char>>(json_compact(json)),
            Err(message) => Err(message),
        },
{
    match parse_value(text) {
        Ok(value) => Ok(value_text(&value)),
        Err(message) => Err(message),
    }
}

/// The document that `text` holds in indented form, or the message of the
/// syntax error.
pub fn indented_json(text: &str) -> (r: Result<String, String>)
    ensures
        text::result_text(r) == match json_parse(text@) {
            Ok(json) => Ok::<Seq<char>, Seq<char>>(json_indented(json)),
            Err(message) => Err(message),
        },
{
    match parse_value(text) {
        Ok(value) => match value_pretty(&value) {
            Some(pretty) => Ok(pretty),
            None => Ok(value_text(&value)),
        },
        Err(message) => Err(message),
    }
}

/// The document that `text` holds, or the message of the syntax error.
pub fn parse_json(text: &str) -> (r: Result<Json, String>)
    ensures
        match r {
            Ok(json) => json_parse(text@) == Ok::<JsonView, Seq<char>>(json.view()),
            Err(message) => json_parse(text@) == Err::<JsonView, Seq<char>>(message@),
        },
{
    match parse_value(text) {
        Ok(value) => Ok(json_of_value(&value)),
        Err(message) => Err(message),
    }
}

} // verus!
