//! What is written for the user, as text or as JSON.

use vstd::prelude::*;

use crate::json::{Json, JsonObject, JsonView};
use crate::text;

verus! {

#[derive(Debug, Clone, Copy, PartialEq, Eq, Structural)]
pub enum CliOutputFormat {
    Text,
    Json,
}

/// A piece of output.
#[derive(Debug, PartialEq, Eq)]
pub enum Output {
    Text(String),
    /// A document on one line.
    Compact(Json),
    /// A document over several lines.
    Indented(Json),
}

pub enum OutputView {
    Text(Seq<char>),
    Compact(JsonView),
    Indented(JsonView),
}

impl Output {
    pub open spec fn view(&self) -> OutputView {
        match self {
            Output::Text(text) => OutputView::Text(text@),
            Output::Compact(json) => OutputView::Compact(json.view()),
            Output::Indented(json) => OutputView::Indented(json.view()),
        }
    }
}

pub open spec fn opt_output(o: Option<Output>) -> Option<OutputView> {
    match o {
        Some(output) => Some(output.view()),
        None => None,
    }
}

/// The document that tells of an error, and of the command that met it.
pub open spec fn error_json(message: Seq<char>, command: Option<Seq<char>>) -> JsonView {
    let members = seq![
        ("type"@, JsonView::Text("error"@)),
        ("error"@, JsonView::Text(message)),
    ];
    match command {
        Some(command) => JsonView::Object(members.push(("command"@, JsonView::Text(command)))),
        None => JsonView::Object(members),
    }
}

pub fn error_document(message: &str, command: Option<&str>) -> (r: Json)
    ensures
        r.view() == error_json(message@, text::opt_str(command)),
{
    let mut object = JsonObject::new();
    object.put("type", Json::of_str("error"));
    object.put("error", Json::of_str(message));
    assert(object.view() =~= seq![
        ("type"@, JsonView::Text("error"@)),
        ("error"@, JsonView::Text(message@)),
    ]);
    match command {
        Some(command) => {
            object.put("command", Json::of_str(command));
        },
        None => {},
    }
    object.done()
}

/// An error as it is written: a document where JSON is asked for, else the
/// message alone.
pub open spec fn error_shown(
    format: CliOutputFormat,
    message: Seq<char>,
    command: Option<Seq<char>>,
) -> OutputView {
    match format {
        CliOutputFormat::Json => OutputView::Compact(error_json(message, command)),
        CliOutputFormat::Text => OutputView::Text(message),
    }
}

pub fn error_output(format: CliOutputFormat, message: &str, command: Option<&str>) -> (r: Output)
    ensures
        r.view() == error_shown(format, message@, text::opt_str(command)),
{
    match format {
        CliOutputFormat::Json => Output::Compact(error_document(message, command)),
        CliOutputFormat::Text => Output::Text(message.to_string()),
    }
}

// ---------------------------------------------------------------------------
// The end of a failed run
// ---------------------------------------------------------------------------

/// Whether the arguments ask for JSON, in one argument or in two.
pub open spec fn asks_for_json(argv: Seq<Seq<char>>) -> bool {
    ||| exists|i: int| 0 <= i < argv.len() && #[trigger] argv[i] == "--output-format=json"@
    ||| exists|i: int|
        0 <= i && i + 1 < argv.len() && #[trigger] argv[i] == "--output-format"@ && argv[i + 1]
            == "json"@
}

pub fn json_requested(argv: &Vec<String>) -> (r: bool)
    ensures
        r == asks_for_json(text::texts(argv@)),
{
    let ghost all = text::texts(argv@);
    let mut i: usize = 0;
    while i < argv.len()
        invariant
            i <= argv@.len(),
            all == text::texts(argv@),
            forall|j: int| 0 <= j < i ==> #[trigger] all[j] != "--output-format=json"@,
            forall|j: int|
                0 <= j < i && j + 1 < all.len() ==> !(#[trigger] all[j] == "--output-format"@
                    && all[j + 1] == "json"@),
        decreases argv.len() - i,
    {
        assert(all[i as int] == argv@[i as int]@);
        if text::str_eq(argv[i].as_str(), "--output-format=json") {
            return true;
        }
        if i + 1 < argv.len() {
            assert(all[i + 1] == argv@[i + 1]@);
            if text::str_eq(argv[i].as_str(), "--output-format") && text::str_eq(
                argv[i + 1].as_str(),
                "json",
            ) {
                return true;
            }
        }
        i += 1;
    }
    false
}

/// What is written when the program fails: where the message does not already
/// point at the help, a line that does is added.
pub open spec fn failure_shown(argv: Seq<Seq<char>>, message: Seq<char>) -> OutputView {
    if asks_for_json(argv) {
        OutputView::Compact(error_json(message, None))
    } else if text::contains_text(message, "`claw --help`"@) {
        OutputView::Text("error: "@ + message)
    } else {
        OutputView::Text("error: "@ + message + "\n\nRun `claw --help` for usage."@)
    }
}

pub fn failure_output(argv: &Vec<String>, message: &str) -> (r: Output)
    ensures
        r.view() == failure_shown(text::texts(argv@), message@),
{
    if json_requested(argv) {
        return Output::Compact(error_document(message, None));
    }
    let mut out = "error: ".to_string();
    out.append(message);
    if !text::contains(message, "`claw --help`") {
        out.append("\n\nRun `claw --help` for usage.");
    }
    Output::Text(out)
}

/// A failure names its error whatever form is asked for.
pub proof fn law_failures_name_their_error(argv: Seq<Seq<char>>, message: Seq<char>)
    ensures
        match failure_shown(argv, message) {
            OutputView::Compact(json) => json.str_field("error"@) == Some(message),
            OutputView::Text(shown) => text::contains_text(shown, message),
            OutputView::Indented(_) => false,
        },
{
    if asks_for_json(argv) {
        reveal_strlit("error");
        reveal_strlit("type");
        reveal_with_fuel(crate::json::member, 3);
        let members = seq![
            ("type"@, JsonView::Text("error"@)),
            ("error"@, JsonView::Text(message)),
        ];
        assert("type"@ != "error"@) by {
            assert("type"@.len() == 4);
        }
        assert(failure_shown(argv, message)->Compact_0 == JsonView::Object(members));
    } else {
        let shown = failure_shown(argv, message)->Text_0;
        assert(text::occurs_at(shown, message, "error: "@.len() as int)) by {
            assert(shown.subrange(
                "error: "@.len() as int,
                ("error: "@.len() + message.len()) as int,
            ) =~= message);
        }
    }
}

} // verus!
