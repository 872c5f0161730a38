//! What holds of all arguments.

use vstd::prelude::*;

use crate::args::{self, ExportView, ModelAlias};
use crate::output::{self, CliOutputFormat, OutputView};
use crate::text;
use crate::text_laws;

verus! {

// ---------------------------------------------------------------------------
// Models
// ---------------------------------------------------------------------------

/// A name stands for the model of the first alias with that name, and for itself
/// where no alias has it.
pub proof fn law_aliases_are_tried_in_order(
    name: Seq<char>,
    first: ModelAlias,
    rest: Seq<ModelAlias>,
)
    ensures
        first.name@ == name ==> args::model_of_alias(name, seq![first] + rest) == first.model@,
        first.name@ != name ==> args::model_of_alias(name, seq![first] + rest)
            == args::model_of_alias(name, rest),
        args::model_of_alias(name, Seq::empty()) == name,
{
    assert((seq![first] + rest).skip(1) =~= rest);
    assert((seq![first] + rest)[0] == first);
}

/// A model that the user asks for is taken as it is; only in place of the default
/// comes what the environment names, and in place of that what the settings name.
pub proof fn law_asked_models_come_first(
    model: Seq<char>,
    default: Seq<char>,
    environment: Option<Seq<char>>,
    settings: Option<Seq<char>>,
    aliases: Seq<ModelAlias>,
    named: Seq<char>,
)
    requires
        named.len() > 0,
        !text::is_whitespace(named[0]),
        !text::is_whitespace(named.last()),
    ensures
        model != default ==> args::repl_model(model, default, environment, settings, aliases)
            == model,
        args::repl_model(default, default, Some(named), settings, aliases) == args::model_of_alias(
            named,
            aliases,
        ),
        args::repl_model(default, default, None, Some(named), aliases) == args::model_of_alias(
            named,
            aliases,
        ),
        args::repl_model(default, default, Some(Seq::empty()), Some(named), aliases)
            == args::model_of_alias(named, aliases),
        args::repl_model(default, default, None, None, aliases) == default,
{
    text_laws::law_trimmed_texts_stay(named);
    assert(!text::is_blank(named)) by {
        if text::is_blank(named) {
            assert(text::is_whitespace(named[0]));
        }
    }
}

/// Each short name stands for the model of its family, made by the vendor; any
/// other name stands for itself.
pub proof fn law_short_names_stand_for_their_family(
    name: Seq<char>,
    vendor: Seq<char>,
)
    ensures
        text::has_prefix(args::known_model("opus"@, vendor), vendor + "-"@ + "opus"@ + "-"@),
        text::has_prefix(args::known_model("sonnet"@, vendor), vendor + "-"@ + "sonnet"@ + "-"@),
        text::has_prefix(args::known_model("haiku"@, vendor), vendor + "-"@ + "haiku"@ + "-"@),
        name != "opus"@ && name != "sonnet"@ && name != "haiku"@ ==> args::known_model(name, vendor)
            == name,
{
    reveal_strlit("opus");
    reveal_strlit("sonnet");
    reveal_strlit("haiku");
    assert("opus"@.len() == 4);
    assert("sonnet"@.len() == 6);
    assert("haiku"@.len() == 5);
    reveal_strlit("-opus-4-6");
    reveal_strlit("-");
    reveal_strlit("opus");
    reveal_strlit("4-6");
    assert("-opus-4-6"@ =~= "-"@ + "opus"@ + "-"@ + "4-6"@);
    reveal_strlit("-sonnet-4-6");
    reveal_strlit("-");
    reveal_strlit("sonnet");
    reveal_strlit("4-6");
    assert("-sonnet-4-6"@ =~= "-"@ + "sonnet"@ + "-"@ + "4-6"@);
    reveal_strlit("-haiku-4-5-20251213");
    reveal_strlit("-");
    reveal_strlit("haiku");
    reveal_strlit("4-5-20251213");
    assert("-haiku-4-5-20251213"@ =~= "-"@ + "haiku"@ + "-"@ + "4-5-20251213"@);
    let opus = vendor + "-"@ + "opus"@ + "-"@;
    let sonnet = vendor + "-"@ + "sonnet"@ + "-"@;
    let haiku = vendor + "-"@ + "haiku"@ + "-"@;
    assert(args::known_model("opus"@, vendor) =~= opus + "4-6"@);
    assert(args::known_model("sonnet"@, vendor) =~= sonnet + "4-6"@);
    assert(args::known_model("haiku"@, vendor) =~= haiku + "4-5-20251213"@);
    text::lemma_contains_part(Seq::empty(), opus, "4-6"@);
    text::lemma_contains_part(Seq::empty(), sonnet, "4-6"@);
    text::lemma_contains_part(Seq::empty(), haiku, "4-5-20251213"@);
}

/// The line of a connection names the model and who serves it: each family its
/// own provider.
pub proof fn law_connections_name_model_and_provider(model: Seq<char>, rest: Seq<char>)
    ensures
        text::has_prefix(args::connected_line(model), "Connected: "@ + model + " via "@),
        text::has_suffix(args::connected_line("grok"@ + rest), " via xai"@),
        text::has_suffix(args::connected_line("gpt-"@ + rest), " via openai"@),
        text::has_suffix(args::connected_line("openai/"@ + rest), " via openai"@),
        text::has_suffix(args::connected_line("qwen/"@ + rest), " via openai"@),
        !text::has_prefix(model, "g"@) && !text::has_prefix(model, "o"@) && !text::has_prefix(
            model,
            "q"@,
        ) ==> text::has_suffix(args::connected_line(model), " via anthropic"@),
{
    lemma_connected(model);
    lemma_connected("grok"@ + rest);
    lemma_connected("gpt-"@ + rest);
    lemma_connected("openai/"@ + rest);
    lemma_connected("qwen/"@ + rest);
    reveal_strlit("grok");
    reveal_strlit("gpt-");
    reveal_strlit("openai/");
    reveal_strlit("qwen/");
    reveal_strlit("g");
    reveal_strlit("o");
    reveal_strlit("q");
    assert("grok"@.len() == 4);
    assert("gpt-"@.len() == 4);
    assert("openai/"@.len() == 7);
    assert("qwen/"@.len() == 5);
    assert("g"@.len() == 1);
    assert("o"@.len() == 1);
    assert("q"@.len() == 1);
    assert("g"@[0] == 'g');
    assert("gpt-"@[1] == 'p');
    assert("grok"@[1] == 'r');
    assert("o"@[0] == 'o');
    assert("q"@[0] == 'q');
    assert(("grok"@ + rest).take(4) =~= "grok"@);
    assert(("gpt-"@ + rest).take(4) =~= "gpt-"@);
    assert(("openai/"@ + rest).take(7) =~= "openai/"@);
    assert(("qwen/"@ + rest).take(5) =~= "qwen/"@);
    assert("gpt-"@[1] == 'p' && "grok"@[1] == 'r');
    assert("openai/"@[0] == 'o' && "qwen/"@[0] == 'q' && "grok"@[0] == 'g' && "gpt-"@[0] == 'g');
    assert("g"@[0] == 'g' && "o"@[0] == 'o' && "q"@[0] == 'q');
    if text::has_prefix("gpt-"@ + rest, "grok"@) {
        assert(("gpt-"@ + rest).take(4)[1] == 'p');
    }
    if text::has_prefix("openai/"@ + rest, "grok"@) {
        assert(("openai/"@ + rest).take(4)[0] == 'o');
    }
    if text::has_prefix("qwen/"@ + rest, "grok"@) {
        assert(("qwen/"@ + rest).take(4)[0] == 'q');
    }
    if model.len() > 0 {
        let one = model.take(1);
        assert(one[0] == model[0]);
        if text::has_prefix(model, "grok"@) || text::has_prefix(model, "gpt-"@) {
            assert(model.take(4)[0] == model[0]);
            assert(one =~= "g"@);
        }
        if text::has_prefix(model, "openai/"@) {
            assert(model.take(7)[0] == model[0]);
            assert(one =~= "o"@);
        }
        if text::has_prefix(model, "qwen/"@) {
            assert(model.take(5)[0] == model[0]);
            assert(one =~= "q"@);
        }
    }
}

proof fn lemma_connected(model: Seq<char>)
    ensures
        text::has_prefix(args::connected_line(model), "Connected: "@ + model + " via "@),
        args::provider_name(model) == "xai"@ ==> text::has_suffix(
            args::connected_line(model),
            " via xai"@,
        ),
        args::provider_name(model) == "openai"@ ==> text::has_suffix(
            args::connected_line(model),
            " via openai"@,
        ),
        args::provider_name(model) == "anthropic"@ ==> text::has_suffix(
            args::connected_line(model),
            " via anthropic"@,
        ),
{
    reveal_strlit(" via xai");
    reveal_strlit(" via ");
    reveal_strlit("xai");
    assert(" via xai"@ =~= " via "@ + "xai"@);
    reveal_strlit(" via openai");
    reveal_strlit(" via ");
    reveal_strlit("openai");
    assert(" via openai"@ =~= " via "@ + "openai"@);
    reveal_strlit(" via anthropic");
    reveal_strlit(" via ");
    reveal_strlit("anthropic");
    assert(" via anthropic"@ =~= " via "@ + "anthropic"@);
    let head = "Connected: "@ + model;
    let name = args::provider_name(model);
    text::lemma_contains_part(Seq::empty(), head + " via "@, name);
    text::lemma_contains_part(head, " via "@ + name, Seq::empty());
    assert(args::connected_line(model) =~= head + (" via "@ + name));
}

// ---------------------------------------------------------------------------
// Export
// ---------------------------------------------------------------------------

/// What `export` is asked for by arguments.
pub open spec fn exported(arguments: Seq<Seq<char>>, format: CliOutputFormat) -> Result<
    ExportView,
    Seq<char>,
> {
    args::export_from(arguments, 0, args::plain_export(format))
}

proof fn lemma_option_words()
    ensures
        "--session"@ != "--output"@,
        "--session"@ != "-o"@,
        "--output"@ != "-o"@,
        "--session="@.len() == 10,
        "--output="@.len() == 9,
        "-"@.len() == 1,
        "-"@[0] == '-',
        "--session="@[2] == 's',
        "--output="@[2] == 'o',
        "--session"@.len() == 9,
        "--output"@.len() == 8,
        "-o"@.len() == 2,
        "--session="@[9] == '=',
        "--output="@[8] == '=',
        "--session="@[0] == '-',
        "--output="@[0] == '-',
        "--session"@[0] == '-',
        "--output"@[0] == '-',
        "--session"@[2] == 's',
        "--output"@[2] == 'o',
        "-o"@[0] == '-',
{
    reveal_strlit("--session");
    reveal_strlit("--output");
    reveal_strlit("-o");
    reveal_strlit("--session=");
    reveal_strlit("--output=");
    reveal_strlit("-");
    assert("--session"@.len() == 9);
    assert("--output"@.len() == 8);
    assert("-o"@.len() == 2);
    assert("--session="@.len() == 10);
    assert("--output="@.len() == 9);
    assert("-"@.len() == 1);
    assert("--output="@[2] == 'o');
    assert("--session"@[2] == 's');
    assert("--session="@[2] == 's' && "--output="@[2] == 'o');
    assert("--session"@[2] == 's' && "--output"@[2] == 'o');
    assert("--session="@[9] == '=' && "--output="@[8] == '=');
    assert("--session="@[0] == '-' && "--output="@[0] == '-' && "-"@[0] == '-');
    assert("--session"@[0] == '-' && "--output"@[0] == '-' && "-o"@[0] == '-');
}

/// Without arguments the latest session is written to the standard output.
pub proof fn law_exports_are_of_the_latest_session(format: CliOutputFormat)
    ensures
        exported(Seq::empty(), format) == Ok::<ExportView, Seq<char>>(
            ExportView { session_reference: "latest"@, output_path: None, output_format: format },
        ),
{
}

/// A session is named in two arguments or in one, to the same effect.
pub proof fn law_sessions_are_named_either_way(value: Seq<char>, format: CliOutputFormat)
    ensures
        exported(seq!["--session"@, value], format) == Ok::<ExportView, Seq<char>>(
            ExportView { session_reference: value, output_path: None, output_format: format },
        ),
        exported(seq!["--session="@ + value], format) == exported(
            seq!["--session"@, value],
            format,
        ),
        exported(seq!["--session"@], format) is Err,
{
    lemma_option_words();
    reveal_with_fuel(args::export_from, 3);
    let one = "--session="@ + value;
    assert(one.take(10) =~= "--session="@);
    assert(one.skip(10) =~= value);
    assert(one[9] == '=');
    assert(one.len() >= 10);
}

/// A file is named in two arguments, by its long or short name, in one, or by
/// itself, to the same effect.
pub proof fn law_files_are_named_either_way(value: Seq<char>, format: CliOutputFormat)
    ensures
        exported(seq!["--output"@, value], format) == Ok::<ExportView, Seq<char>>(
            ExportView {
                session_reference: "latest"@,
                output_path: Some(value),
                output_format: format,
            },
        ),
        exported(seq!["-o"@, value], format) == exported(seq!["--output"@, value], format),
        exported(seq!["--output="@ + value], format) == exported(seq!["--output"@, value], format),
        value.len() > 0 && value[0] != '-' ==> exported(seq![value], format) == exported(
            seq!["--output"@, value],
            format,
        ),
        exported(seq!["--output"@], format) is Err,
        exported(seq!["-o"@], format) is Err,
{
    lemma_option_words();
    reveal_with_fuel(args::export_from, 3);
    let one = "--output="@ + value;
    assert(one.take(9) =~= "--output="@);
    assert(one.skip(9) =~= value);
    assert(one[8] == '=' && one[2] == 'o');
    if text::has_prefix(one, "--session="@) {
        assert(one.take(10)[2] == one[2]);
    }
    if value.len() > 0 && value[0] != '-' {
        if text::has_prefix(value, "--session="@) {
            assert(value.take(10)[0] == value[0]);
        }
        if text::has_prefix(value, "--output="@) {
            assert(value.take(9)[0] == value[0]);
        }
        if text::has_prefix(value, "-"@) {
            assert(value.take(1)[0] == value[0]);
        }
    }
}

/// The order in which the session and the file are named does not matter.
pub proof fn law_the_order_of_options_does_not_matter(
    session: Seq<char>,
    file: Seq<char>,
    format: CliOutputFormat,
)
    ensures
        exported(seq!["--session"@, session, "--output"@, file], format) == Ok::<
            ExportView,
            Seq<char>,
        >(
            ExportView {
                session_reference: session,
                output_path: Some(file),
                output_format: format,
            },
        ),
        exported(seq!["--output"@, file, "--session"@, session], format) == exported(
            seq!["--session"@, session, "--output"@, file],
            format,
        ),
{
    lemma_option_words();
    reveal_with_fuel(args::export_from, 4);
}

/// An option that is not known, and a second file, are refused by name.
pub proof fn law_other_arguments_are_refused(
    option: Seq<char>,
    first: Seq<char>,
    second: Seq<char>,
    format: CliOutputFormat,
)
    requires
        option.len() > 0,
        option[0] == '-',
        option != "--session"@,
        option != "--output"@,
        option != "-o"@,
        !text::has_prefix(option, "--session="@),
        !text::has_prefix(option, "--output="@),
        first.len() > 0,
        first[0] != '-',
        second.len() > 0,
        second[0] != '-',
    ensures
        exported(seq![option], format) == Err::<ExportView, Seq<char>>(
            "unknown export option: "@ + option,
        ),
        exported(seq![first, second], format) == Err::<ExportView, Seq<char>>(
            "unexpected export argument: "@ + second,
        ),
{
    lemma_option_words();
    reveal_with_fuel(args::export_from, 3);
    assert(option.take(1) =~= "-"@);
    lemma_plain_argument(first);
    lemma_plain_argument(second);
}

proof fn lemma_plain_argument(value: Seq<char>)
    requires
        value.len() > 0,
        value[0] != '-',
    ensures
        value != "--session"@,
        value != "--output"@,
        value != "-o"@,
        !text::has_prefix(value, "--session="@),
        !text::has_prefix(value, "--output="@),
        !text::has_prefix(value, "-"@),
{
    lemma_option_words();
    if text::has_prefix(value, "--session="@) {
        assert(value.take(10)[0] == value[0]);
    }
    if text::has_prefix(value, "--output="@) {
        assert(value.take(9)[0] == value[0]);
    }
    if text::has_prefix(value, "-"@) {
        assert(value.take(1)[0] == value[0]);
    }
}

/// The form of the output is never changed by the arguments of an export.
pub proof fn law_exports_keep_the_output_format(
    arguments: Seq<Seq<char>>,
    at: int,
    request: ExportView,
)
    ensures
        args::export_from(arguments, at, request) matches Ok(asked) ==> asked.output_format
            == request.output_format,
    decreases arguments.len() - at,
{
    if 0 <= at < arguments.len() {
        let arg = arguments[at];
        if at + 1 < arguments.len() {
            law_exports_keep_the_output_format(
                arguments,
                at + 2,
                ExportView { session_reference: arguments[at + 1], ..request },
            );
            law_exports_keep_the_output_format(
                arguments,
                at + 2,
                ExportView { output_path: Some(arguments[at + 1]), ..request },
            );
        }
        law_exports_keep_the_output_format(
            arguments,
            at + 1,
            ExportView { session_reference: arg.skip(10), ..request },
        );
        law_exports_keep_the_output_format(
            arguments,
            at + 1,
            ExportView { output_path: Some(arg.skip(9)), ..request },
        );
        law_exports_keep_the_output_format(
            arguments,
            at + 1,
            ExportView { output_path: Some(arg), ..request },
        );
    }
}

// ---------------------------------------------------------------------------
// Output
// ---------------------------------------------------------------------------

/// Where no browser opens, the address is told on the standard output, unless
/// that is left to JSON: then it is told, with the warning, on the standard error.
pub proof fn law_addresses_are_told_where_they_may(url: Seq<char>, error: Seq<char>)
    ensures
        ({
            let plain = args::browser_failure(CliOutputFormat::Text, url, error);
            let json = args::browser_failure(CliOutputFormat::Json, url, error);
            &&& text::has_suffix(plain.0, "\n"@ + url + "\n"@)
            &&& text::has_suffix(plain.1, ": "@ + error + "\n"@)
            &&& json.0.len() == 0
            &&& json.1 == plain.1 + plain.0
        }),
{
    reveal_strlit("Open this URL manually:\n");
    reveal_strlit("Open this URL manually:");
    reveal_strlit("\n");
    assert("Open this URL manually:\n"@ =~= "Open this URL manually:"@ + "\n"@);
    reveal_strlit("warning: failed to open browser automatically: ");
    reveal_strlit("warning: failed to open browser automatically");
    reveal_strlit(": ");
    assert("warning: failed to open browser automatically: "@ =~= "warning: failed to open browser automatically"@ + ": "@);
    let plain = args::browser_failure(CliOutputFormat::Text, url, error);
    assert(text::has_suffix(plain.0, "\n"@ + url + "\n"@)) by {
        let part = "\n"@ + url + "\n"@;
        assert(plain.0 =~= "Open this URL manually:"@ + part);
        text::lemma_contains_part("Open this URL manually:"@, part, Seq::empty());
    }
    assert(text::has_suffix(plain.1, ": "@ + error + "\n"@)) by {
        let part = ": "@ + error + "\n"@;
        assert(plain.1 =~= "warning: failed to open browser automatically"@ + part);
        text::lemma_contains_part(
            "warning: failed to open browser automatically"@,
            part,
            Seq::empty(),
        );
    }
}

/// JSON is asked for in one argument or in two, wherever these stand, and by
/// nothing else.
pub proof fn law_json_is_asked_for(
    before: Seq<Seq<char>>,
    after: Seq<Seq<char>>,
    argv: Seq<Seq<char>>,
)
    ensures
        output::asks_for_json(before + seq!["--output-format=json"@] + after),
        output::asks_for_json(before + seq!["--output-format"@, "json"@] + after),
        !argv.contains("--output-format=json"@) && !argv.contains("--output-format"@)
            ==> !output::asks_for_json(argv),
        !output::asks_for_json(seq!["json"@, "--output-format"@]),
{
    let one = before + seq!["--output-format=json"@] + after;
    assert(one[before.len() as int] == "--output-format=json"@);
    let two = before + seq!["--output-format"@, "json"@] + after;
    assert(two[before.len() as int] == "--output-format"@);
    assert(two[before.len() as int + 1] == "json"@);
    reveal_strlit("json");
    reveal_strlit("--output-format");
    reveal_strlit("--output-format=json");
    assert("json"@.len() == 4);
    assert("--output-format"@.len() == 15);
    assert("--output-format=json"@.len() == 20);
}

/// A failure is told in the form that is asked for: a document that holds the
/// error, or a line that names it and points at the help once.
pub proof fn law_failures_are_told_as_asked(argv: Seq<Seq<char>>, message: Seq<char>)
    ensures
        output::failure_shown(argv, message) is Compact <==> output::asks_for_json(argv),
        output::failure_shown(argv, message) matches OutputView::Text(shown) ==> {
            &&& text::has_prefix(shown, "error: "@ + message)
            &&& text::contains_text(shown, "`claw --help`"@)
            &&& text::contains_text(message, "`claw --help`"@) ==> shown == "error: "@ + message
        },
{
    let head = "error: "@ + message;
    let tail = "\n\nRun `claw --help` for usage."@;
    if !output::asks_for_json(argv) {
        if text::contains_text(message, "`claw --help`"@) {
            let at = choose|at: int| text::occurs_at(message, "`claw --help`"@, at);
            let n = "error: "@.len();
            assert(head.subrange(n + at, n + at + "`claw --help`"@.len()) =~= message.subrange(
                at,
                at + "`claw --help`"@.len(),
            ));
            assert(text::occurs_at(head, "`claw --help`"@, n + at));
            assert(head.take(head.len() as int) =~= head);
        } else {
            text::lemma_contains_part(Seq::empty(), head, tail);
            reveal_strlit("\n\nRun `claw --help` for usage.");
            reveal_strlit("\n\nRun ");
            reveal_strlit("`claw --help`");
            reveal_strlit(" for usage.");
            assert("\n\nRun `claw --help` for usage."@ =~= "\n\nRun "@ + "`claw --help`"@ + " for usage."@);
            assert(head + tail =~= (head + "\n\nRun "@) + "`claw --help`"@ + " for usage."@);
            text::lemma_contains_part(head + "\n\nRun "@, "`claw --help`"@, " for usage."@);
        }
    }
}

} // verus!
