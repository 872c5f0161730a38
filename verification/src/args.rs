//! Arguments of the program: models, and what `export` is asked for.

use vstd::prelude::*;

use crate::output::CliOutputFormat;
use crate::text;

verus! {

// ---------------------------------------------------------------------------
// Models
// ---------------------------------------------------------------------------

/// A name that stands for a model.
#[derive(Debug, PartialEq, Eq)]
pub struct ModelAlias {
    pub name: String,
    pub model: String,
}

/// The model that a name stands for: that of the first alias of this name, or
/// the name itself.
pub open spec fn model_of_alias(name: Seq<char>, aliases: Seq<ModelAlias>) -> Seq<char>
    decreases aliases.len(),
{
    if aliases.len() == 0 {
        name
    } else if aliases[0].name@ == name {
        aliases[0].model@
    } else {
        model_of_alias(name, aliases.skip(1))
    }
}

pub fn resolve_model_alias<'a>(model: &'a str, aliases: &'a Vec<ModelAlias>) -> (r: &'a str)
    ensures
        r@ == model_of_alias(model@, aliases@),
{
    let mut i: usize = 0;
    assert(aliases@.skip(0) =~= aliases@);
    while i < aliases.len()
        invariant
            i <= aliases@.len(),
            model_of_alias(model@, aliases@) == model_of_alias(model@, aliases@.skip(i as int)),
        decreases aliases.len() - i,
    {
        assert(aliases@.skip(i as int).skip(1) =~= aliases@.skip(i + 1));
        if text::str_eq(aliases[i].name.as_str(), model) {
            return aliases[i].model.as_str();
        }
        i += 1;
    }
    model
}

/// The models that are known by a short name, `vendor` being the name of who
/// makes them.
pub open spec fn known_model(name: Seq<char>, vendor: Seq<char>) -> Seq<char> {
    if name == "opus"@ {
        vendor + "-opus-4-6"@
    } else if name == "sonnet"@ {
        vendor + "-sonnet-4-6"@
    } else if name == "haiku"@ {
        vendor + "-haiku-4-5-20251213"@
    } else {
        name
    }
}

fn alias(name: &str, vendor: &str, model: &str) -> (r: ModelAlias)
    ensures
        r.name@ == name@,
        r.model@ == vendor@ + model@,
{
    let mut full = vendor.to_string();
    full.append(model);
    ModelAlias { name: name.to_string(), model: full }
}

/// The aliases of the models that are known by a short name.
pub fn known_model_aliases(vendor: &str) -> (r: Vec<ModelAlias>)
    ensures
        forall|name: Seq<char>| #[trigger]
            model_of_alias(name, r@) == known_model(name, vendor@),
{
    let mut aliases: Vec<ModelAlias> = Vec::new();
    aliases.push(alias("opus", vendor, "-opus-4-6"));
    aliases.push(alias("sonnet", vendor, "-sonnet-4-6"));
    aliases.push(alias("haiku", vendor, "-haiku-4-5-20251213"));
    proof {
        let all = aliases@;
        assert forall|name: Seq<char>| #[trigger]
            model_of_alias(name, all) == known_model(name, vendor@) by {
            reveal_with_fuel(model_of_alias, 4);
            assert(all.skip(1)[0] == all[1]);
            assert(all.skip(1).skip(1)[0] == all[2]);
            assert(all.skip(1).skip(1).skip(1).len() == 0);
        }
    }
    aliases
}

/// The model where none is asked for.
pub fn default_model(vendor: &str) -> (r: String)
    ensures
        r@ == vendor@ + "-opus-4-6"@,
        r@ == known_model("opus"@, vendor@),
{
    let mut out = vendor.to_string();
    out.append("-opus-4-6");
    out
}

/// The model that a known name stands for is no such name itself: resolving it
/// again changes nothing.
pub proof fn law_known_models_stand(name: Seq<char>, vendor: Seq<char>)
    ensures
        known_model(known_model(name, vendor), vendor) == known_model(name, vendor),
{
    reveal_strlit("opus");
    reveal_strlit("sonnet");
    reveal_strlit("haiku");
    reveal_strlit("-opus-4-6");
    reveal_strlit("-sonnet-4-6");
    reveal_strlit("-haiku-4-5-20251213");
    let model = known_model(name, vendor);
    if model != name {
        assert(model.last() == '6' || model.last() == '3');
        assert("opus"@.last() == 's');
        assert("sonnet"@.last() == 't');
        assert("haiku"@.last() == 'u');
    }
}

/// Where no alias is called like a model that an alias stands for, to resolve a
/// name twice is to resolve it once.
pub proof fn law_resolving_an_alias_is_idempotent(name: Seq<char>, aliases: Seq<ModelAlias>)
    requires
        forall|i: int, j: int|
            0 <= i < aliases.len() && 0 <= j < aliases.len() ==> (#[trigger] aliases[i]).model@ != (
            #[trigger] aliases[j]).name@,
    ensures
        model_of_alias(model_of_alias(name, aliases), aliases) == model_of_alias(name, aliases),
{
    lemma_alias_is_found(name, aliases);
    let model = model_of_alias(name, aliases);
    if model != name {
        let i = choose|i: int| 0 <= i < aliases.len() && (#[trigger] aliases[i]).model@ == model;
        assert forall|j: int| 0 <= j < aliases.len() implies (#[trigger] aliases[j]).name@ != model by {
            assert(aliases[i].model@ != aliases[j].name@);
        }
        lemma_alias_is_missed(model, aliases);
    }
}

proof fn lemma_alias_is_found(name: Seq<char>, aliases: Seq<ModelAlias>)
    ensures
        model_of_alias(name, aliases) == name || exists|i: int|
            0 <= i < aliases.len() && (#[trigger] aliases[i]).model@ == model_of_alias(name, aliases),
    decreases aliases.len(),
{
    if aliases.len() > 0 && aliases[0].name@ != name {
        let rest = aliases.skip(1);
        lemma_alias_is_found(name, rest);
        if model_of_alias(name, rest) != name {
            let i = choose|i: int|
                0 <= i < rest.len() && (#[trigger] rest[i]).model@ == model_of_alias(name, rest);
            assert(aliases[i + 1] == rest[i]);
        }
    }
}

proof fn lemma_alias_is_missed(name: Seq<char>, aliases: Seq<ModelAlias>)
    requires
        forall|j: int| 0 <= j < aliases.len() ==> (#[trigger] aliases[j]).name@ != name,
    ensures
        model_of_alias(name, aliases) == name,
    decreases aliases.len(),
{
    if aliases.len() > 0 {
        let rest = aliases.skip(1);
        assert forall|j: int| 0 <= j < rest.len() implies (#[trigger] rest[j]).name@ != name by {
            assert(rest[j] == aliases[j + 1]);
        }
        lemma_alias_is_missed(name, rest);
    }
}

/// The model that the interactive loop starts with: the one that was asked for,
/// and where that is the default, the one of the environment or of the settings.
pub open spec fn repl_model(
    model: Seq<char>,
    default: Seq<char>,
    environment: Option<Seq<char>>,
    settings: Option<Seq<char>>,
    aliases: Seq<ModelAlias>,
) -> Seq<char> {
    if model != default {
        model
    } else {
        match (environment, settings) {
            (Some(named), _) if !text::is_blank(named) => model_of_alias(
                text::trimmed(named),
                aliases,
            ),
            (_, Some(named)) => model_of_alias(named, aliases),
            _ => model,
        }
    }
}

pub fn resolve_repl_model(
    model: String,
    default: &str,
    environment: Option<&str>,
    settings: Option<&str>,
    aliases: &Vec<ModelAlias>,
) -> (r: String)
    ensures
        r@ == repl_model(
            model@,
            default@,
            text::opt_str(environment),
            text::opt_str(settings),
            aliases@,
        ),
{
    if !text::str_eq(model.as_str(), default) {
        return model;
    }
    match environment {
        Some(named) => {
            proof {
                text::lemma_trimmed_empty_iff_blank(named@);
            }
            let trimmed = text::trim(named);
            if !trimmed.is_empty() {
                return resolve_model_alias(trimmed, aliases).to_string();
            }
        },
        None => {},
    }
    match settings {
        Some(named) => resolve_model_alias(named, aliases).to_string(),
        None => model,
    }
}

/// The provider that serves a model, by the name of the model.
pub open spec fn provider_name(model: Seq<char>) -> Seq<char> {
    if text::has_prefix(model, "grok"@) {
        "xai"@
    } else if text::has_prefix(model, "openai/"@) || text::has_prefix(model, "gpt-"@)
        || text::has_prefix(model, "qwen/"@) {
        "openai"@
    } else {
        "anthropic"@
    }
}

/// The line that tells of the model and its provider.
pub open spec fn connected_line(model: Seq<char>) -> Seq<char> {
    "Connected: "@ + model + " via "@ + provider_name(model)
}

pub fn format_connected_line(model: &str) -> (r: String)
    ensures
        r@ == connected_line(model@),
{
    let mut out = "Connected: ".to_string();
    out.append(model);
    out.append(" via ");
    let provider = if text::starts_with(model, "grok") {
        "xai"
    } else if text::starts_with(model, "openai/") || text::starts_with(model, "gpt-")
        || text::starts_with(model, "qwen/") {
        "openai"
    } else {
        "anthropic"
    };
    out.append(provider);
    out
}

// ---------------------------------------------------------------------------
// Export
// ---------------------------------------------------------------------------

/// What `export` is asked for.
#[derive(Debug, PartialEq, Eq)]
pub struct ExportRequest {
    pub session_reference: String,
    pub output_path: Option<String>,
    pub output_format: CliOutputFormat,
}

pub struct ExportView {
    pub session_reference: Seq<char>,
    pub output_path: Option<Seq<char>>,
    pub output_format: CliOutputFormat,
}

impl ExportRequest {
    pub open spec fn view(&self) -> ExportView {
        ExportView {
            session_reference: self.session_reference@,
            output_path: text::opt_text(self.output_path),
            output_format: self.output_format,
        }
    }
}

pub open spec fn export_view(r: Result<ExportRequest, String>) -> Result<ExportView, Seq<char>> {
    match r {
        Ok(request) => Ok(request.view()),
        Err(error) => Err(error@),
    }
}

/// What the arguments from position `at` on make of a request.
pub open spec fn export_from(args: Seq<Seq<char>>, at: int, request: ExportView) -> Result<
    ExportView,
    Seq<char>,
>
    decreases args.len() - at,
{
    if at < 0 || at >= args.len() {
        Ok(request)
    } else {
        let arg = args[at];
        if arg == "--session"@ || arg == "--output"@ || arg == "-o"@ {
            if at + 1 >= args.len() {
                Err("missing value for "@ + arg)
            } else if arg == "--session"@ {
                export_from(
                    args,
                    at + 2,
                    ExportView { session_reference: args[at + 1], ..request },
                )
            } else {
                export_from(args, at + 2, ExportView { output_path: Some(args[at + 1]), ..request })
            }
        } else if text::has_prefix(arg, "--session="@) {
            export_from(args, at + 1, ExportView { session_reference: arg.skip(10), ..request })
        } else if text::has_prefix(arg, "--output="@) {
            export_from(args, at + 1, ExportView { output_path: Some(arg.skip(9)), ..request })
        } else if text::has_prefix(arg, "-"@) {
            Err("unknown export option: "@ + arg)
        } else if request.output_path is None {
            export_from(args, at + 1, ExportView { output_path: Some(arg), ..request })
        } else {
            Err("unexpected export argument: "@ + arg)
        }
    }
}

/// The request of an `export` without arguments.
pub open spec fn plain_export(format: CliOutputFormat) -> ExportView {
    ExportView { session_reference: "latest"@, output_path: None, output_format: format }
}

fn refused(head: &str, arg: &str) -> (r: Result<ExportRequest, String>)
    ensures
        export_view(r) == Err::<ExportView, Seq<char>>(head@ + arg@),
{
    let mut message = head.to_string();
    message.append(arg);
    Err(message)
}

/// What `export` is asked for by its arguments: the last session is written to
/// the standard output where nothing else is asked for.
pub fn parse_export_args(args: &Vec<String>, output_format: CliOutputFormat) -> (r: Result<
    ExportRequest,
    String,
>)
    ensures
        export_view(r) == export_from(text::texts(args@), 0, plain_export(output_format)),
{
    let ghost all = text::texts(args@);
    let mut request = ExportRequest {
        session_reference: "latest".to_string(),
        output_path: None,
        output_format,
    };
    proof {
        reveal_strlit("--session=");
        reveal_strlit("--output=");
    }
    let mut at: usize = 0;
    while at < args.len()
        invariant
            at <= args@.len(),
            all == text::texts(args@),
            "--session="@.len() == 10,
            "--output="@.len() == 9,
            export_from(all, 0, plain_export(output_format)) == export_from(
                all,
                at as int,
                request.view(),
            ),
        decreases args.len() - at,
    {
        let arg = args[at].as_str();
        assert(all[at as int] == arg@);
        let is_session = text::str_eq(arg, "--session");
        if is_session || text::str_eq(arg, "--output") || text::str_eq(arg, "-o") {
            if at + 1 >= args.len() {
                return refused("missing value for ", arg);
            }
            assert(all[at + 1] == args@[at + 1]@);
            let value = args[at + 1].clone();
            if is_session {
                request.session_reference = value;
            } else {
                request.output_path = Some(value);
            }
            at += 2;
            continue ;
        }
        match text::strip_prefix(arg, "--session=") {
            Some(value) => {
                request.session_reference = value.to_string();
                at += 1;
                continue ;
            },
            None => {},
        }
        match text::strip_prefix(arg, "--output=") {
            Some(value) => {
                request.output_path = Some(value.to_string());
                at += 1;
                continue ;
            },
            None => {},
        }
        if text::starts_with(arg, "-") {
            return refused("unknown export option: ", arg);
        }
        if request.output_path.is_some() {
            return refused("unexpected export argument: ", arg);
        }
        request.output_path = Some(arg.to_string());
        at += 1;
    }
    Ok(request)
}

// ---------------------------------------------------------------------------
// Login
// ---------------------------------------------------------------------------

/// What is written where no browser could be opened for a login: the first part
/// to the standard output, the second to the standard error.
pub open spec fn browser_failure(format: CliOutputFormat, url: Seq<char>, error: Seq<char>) -> (
    Seq<char>,
    Seq<char>,
) {
    let warning = "warning: failed to open browser automatically: "@ + error + "\n"@;
    let manual = "Open this URL manually:\n"@ + url + "\n"@;
    match format {
        CliOutputFormat::Json => (Seq::empty(), warning + manual),
        CliOutputFormat::Text => (manual, warning),
    }
}

/// What is written where no browser could be opened for a login; where JSON is
/// asked for, the standard output is left to it.
pub fn emit_login_browser_open_failure(format: CliOutputFormat, url: &str, error: &str) -> (r: (
    String,
    String,
))
    ensures
        (r.0@, r.1@) == browser_failure(format, url@, error@),
{
    let mut warning = "warning: failed to open browser automatically: ".to_string();
    warning.append(error);
    warning.append("\n");
    let mut manual = "Open this URL manually:\n".to_string();
    manual.append(url);
    manual.append("\n");
    match format {
        CliOutputFormat::Json => {
            warning.append(manual.as_str());
            (String::new(), warning)
        },
        CliOutputFormat::Text => (manual, warning),
    }
}

} // verus!
