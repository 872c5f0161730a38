//! Sub-agents: what they are called and allowed, how their manifests move from
//! start to end, and how their failures are sorted.

use vstd::prelude::*;

use crate::json::{self, Json, JsonView};
use crate::provider::ToolDefinition;
use crate::stream;
use crate::text;

verus! {

// ---------------------------------------------------------------------------
// Inputs
// ---------------------------------------------------------------------------

/// The input of a call that starts a sub-agent.
#[derive(Debug, PartialEq, Eq)]
pub struct AgentInput {
    pub description: String,
    pub prompt: String,
    pub subagent_type: Option<String>,
    pub name: Option<String>,
    pub model: Option<String>,
    pub run_in_background: Option<bool>,
}

fn is_blank_str(s: &str) -> (r: bool)
    ensures
        r == text::is_blank(s@),
{
    proof {
        text::lemma_trimmed_empty_iff_blank(s@);
    }
    text::trim(s).is_empty()
}

/// What is wrong with an input, if anything.
pub open spec fn input_fault(input: AgentInput) -> Option<Seq<char>> {
    if text::is_blank(input.description@) {
        Some("description must not be empty"@)
    } else if text::is_blank(input.prompt@) {
        Some("prompt must not be empty"@)
    } else {
        None
    }
}

pub fn validate_agent_input(input: &AgentInput) -> (r: Result<(), String>)
    ensures
        match r {
            Ok(_) => input_fault(*input) is None,
            Err(message) => input_fault(*input) == Some(message@),
        },
{
    if is_blank_str(input.description.as_str()) {
        return Err("description must not be empty".to_string());
    }
    if is_blank_str(input.prompt.as_str()) {
        return Err("prompt must not be empty".to_string());
    }
    Ok(())
}

/// The model of a sub-agent: the one that was asked for, or the default.
pub open spec fn agent_model(model: Option<Seq<char>>, default: Seq<char>) -> Seq<char> {
    match model {
        Some(model) => if text::trimmed(model).len() > 0 {
            text::trimmed(model)
        } else {
            default
        },
        None => default,
    }
}

pub fn resolve_agent_model(model: Option<&str>, default: &str) -> (r: String)
    ensures
        r@ == agent_model(text::opt_str(model), default@),
{
    match model {
        Some(model) => {
            let model = text::trim(model);
            if model.is_empty() {
                default.to_string()
            } else {
                model.to_string()
            }
        },
        None => default.to_string(),
    }
}

/// The model of sub-agents where none is asked for.
pub open spec fn default_model_of(vendor: Seq<char>) -> Seq<char> {
    vendor + "-opus-4-6"@
}

/// The model of a sub-agent that asks for none, `vendor` being the name of who
/// makes it.
pub fn default_agent_model(vendor: &str) -> (r: String)
    ensures
        r@ == default_model_of(vendor@),
{
    let mut out = vendor.to_string();
    out.append("-opus-4-6");
    out
}

/// The type that a canonical token stands for; any other type is kept as it was
/// given.
pub open spec fn type_of_token(token: Seq<char>, given: Seq<char>) -> Seq<char> {
    if token == "general"@ || token == "generalpurpose"@ || token == "generalpurposeagent"@ {
        "general-purpose"@
    } else if token == "explore"@ || token == "explorer"@ || token == "exploreagent"@ {
        "Explore"@
    } else if token == "plan"@ || token == "planagent"@ {
        "Plan"@
    } else if token == "verification"@ || token == "verificationagent"@ || token == "verify"@
        || token == "verifier"@ {
        "Verification"@
    } else if token == "clawguide"@ || token == "clawguideagent"@ || token == "guide"@ {
        "claw-guide"@
    } else if token == "statusline"@ || token == "statuslinesetup"@ {
        "statusline-setup"@
    } else {
        given
    }
}

/// The type of a sub-agent that was asked for as `requested`.
pub open spec fn subagent_type(requested: Option<Seq<char>>, token: Seq<char>) -> Seq<char> {
    let given = match requested {
        Some(requested) => text::trimmed(requested),
        None => Seq::empty(),
    };
    if given.len() == 0 {
        "general-purpose"@
    } else {
        type_of_token(token, given)
    }
}

/// The type of a sub-agent. `token` is the canonical token of what was asked
/// for, as tool names are compared.
pub fn normalize_subagent_type(requested: Option<&str>, token: &str) -> (r: String)
    ensures
        r@ == subagent_type(text::opt_str(requested), token@),
{
    let given = match requested {
        Some(requested) => text::trim(requested).to_string(),
        None => String::new(),
    };
    if given.as_str().is_empty() {
        return "general-purpose".to_string();
    }
    if text::str_eq(token, "general") || text::str_eq(token, "generalpurpose") || text::str_eq(
        token,
        "generalpurposeagent",
    ) {
        "general-purpose".to_string()
    } else if text::str_eq(token, "explore") || text::str_eq(token, "explorer") || text::str_eq(
        token,
        "exploreagent",
    ) {
        "Explore".to_string()
    } else if text::str_eq(token, "plan") || text::str_eq(token, "planagent") {
        "Plan".to_string()
    } else if text::str_eq(token, "verification") || text::str_eq(token, "verificationagent")
        || text::str_eq(token, "verify") || text::str_eq(token, "verifier") {
        "Verification".to_string()
    } else if text::str_eq(token, "clawguide") || text::str_eq(token, "clawguideagent")
        || text::str_eq(token, "guide") {
        "claw-guide".to_string()
    } else if text::str_eq(token, "statusline") || text::str_eq(token, "statuslinesetup") {
        "statusline-setup".to_string()
    } else {
        given
    }
}

// ---------------------------------------------------------------------------
// Names
// ---------------------------------------------------------------------------

/// A character of a name: letters and digits in lower case, a dash for any
/// other.
pub open spec fn slug_char(c: char) -> char {
    if text::is_alphanumeric(c) {
        text::lower_char(c)
    } else {
        '-'
    }
}

pub open spec fn slug_chars(s: Seq<char>) -> Seq<char> {
    s.map_values(|c: char| slug_char(c))
}

/// A text with every run of dashes made one dash.
pub open spec fn single_dashes(s: Seq<char>) -> Seq<char>
    decreases s.len(),
{
    if s.len() == 0 {
        s
    } else {
        let front = single_dashes(s.drop_last());
        if s.last() == '-' && front.len() > 0 && front.last() == '-' {
            front
        } else {
            front.push(s.last())
        }
    }
}

/// A text without the dash that it starts with.
pub open spec fn without_leading_dashes(s: Seq<char>) -> Seq<char>
    decreases s.len(),
{
    if s.len() > 0 && s[0] == '-' {
        without_leading_dashes(s.skip(1))
    } else {
        s
    }
}

pub open spec fn without_trailing_dashes(s: Seq<char>) -> Seq<char>
    decreases s.len(),
{
    if s.len() > 0 && s.last() == '-' {
        without_trailing_dashes(s.drop_last())
    } else {
        s
    }
}

/// The name that a description gives a sub-agent: at most 32 characters.
pub open spec fn slug(description: Seq<char>) -> Seq<char> {
    text::prefix_of(
        without_trailing_dashes(without_leading_dashes(single_dashes(slug_chars(description)))),
        32,
    )
}

pub fn slugify_agent_name(description: &str) -> (r: String)
    ensures
        r@ == slug(description@),
{
    let mut squeezed: Vec<char> = Vec::new();
    let ghost mapped = slug_chars(description@);
    assert(mapped.take(0) =~= Seq::empty());
    for c in it: description.chars()
        invariant
            it.seq() == description@,
            mapped == slug_chars(description@),
            squeezed@ == single_dashes(mapped.take(it.index())),
    {
        let m: char = if text::char_is_alphanumeric(c) {
            text::char_lower(c)
        } else {
            '-'
        };
        proof {
            assert(mapped.take(it.index() + 1).drop_last() =~= mapped.take(it.index()));
            assert(mapped.take(it.index() + 1).last() == m);
        }
        if !(m == '-' && squeezed.len() > 0 && squeezed[squeezed.len() - 1] == '-') {
            squeezed.push(m);
        }
    }
    assert(mapped.take(mapped.len() as int) =~= mapped);
    let ghost all = squeezed@;
    let mut from: usize = 0;
    assert(all.skip(0) =~= all);
    while from < squeezed.len() && squeezed[from] == '-'
        invariant
            squeezed@ == all,
            from <= all.len(),
            without_leading_dashes(all) == without_leading_dashes(all.skip(from as int)),
        ensures
            from <= all.len(),
            without_leading_dashes(all) == all.skip(from as int),
        decreases squeezed.len() - from,
    {
        assert(all.skip(from as int).skip(1) =~= all.skip(from + 1));
        from += 1;
    }
    let ghost led = all.skip(from as int);
    let mut to: usize = squeezed.len();
    assert(all.subrange(from as int, to as int) =~= led);
    while to > from && squeezed[to - 1] == '-'
        invariant
            squeezed@ == all,
            from <= to <= all.len(),
            without_trailing_dashes(led) == without_trailing_dashes(
                all.subrange(from as int, to as int),
            ),
        ensures
            from <= to <= all.len(),
            without_trailing_dashes(led) == all.subrange(from as int, to as int),
        decreases to,
    {
        assert(all.subrange(from as int, to as int).drop_last() =~= all.subrange(
            from as int,
            to - 1,
        ));
        to -= 1;
    }
    let end: usize = if to - from > 32 {
        from + 32
    } else {
        to
    };
    proof {
        let core = all.subrange(from as int, to as int);
        assert(all.subrange(from as int, end as int) =~= text::prefix_of(core, 32));
    }
    text::string_of(&squeezed, from, end)
}

proof fn lemma_single_dashes(s: Seq<char>)
    ensures
        forall|i: int|
            0 <= i < single_dashes(s).len() - 1 ==> !(#[trigger] single_dashes(s)[i] == '-'
                && single_dashes(s)[i + 1] == '-'),
        forall|i: int| 0 <= i < single_dashes(s).len() ==> s.contains(#[trigger] single_dashes(s)[i]),
    decreases s.len(),
{
    if s.len() > 0 {
        let front = s.drop_last();
        lemma_single_dashes(front);
        assert forall|i: int| 0 <= i < single_dashes(s).len() implies s.contains(
            #[trigger] single_dashes(s)[i],
        ) by {
            if i < single_dashes(front).len() {
                let c = single_dashes(front)[i];
                assert(front.contains(c));
                let j = choose|j: int| 0 <= j < front.len() && front[j] == c;
                assert(s[j] == c);
            } else {
                assert(s[s.len() - 1] == s.last());
            }
        }
    }
}

/// Squeezing runs of dashes loses no other character.
proof fn lemma_single_dashes_keep(s: Seq<char>, at: int)
    requires
        0 <= at < s.len(),
        s[at] != '-',
    ensures
        single_dashes(s).contains(s[at]),
    decreases s.len(),
{
    let front = single_dashes(s.drop_last());
    if at == s.len() - 1 {
        assert(single_dashes(s)[front.len() as int] == s[at]);
    } else {
        lemma_single_dashes_keep(s.drop_last(), at);
        let j = choose|j: int| 0 <= j < front.len() && front[j] == s[at];
        assert(single_dashes(s)[j] == s[at]);
    }
}

/// Taking dashes off the front loses no other character.
proof fn lemma_leading_dashes_keep(s: Seq<char>, at: int)
    requires
        0 <= at < s.len(),
        s[at] != '-',
    ensures
        without_leading_dashes(s).contains(s[at]),
    decreases s.len(),
{
    if s[0] == '-' {
        assert(s.skip(1)[at - 1] == s[at]);
        lemma_leading_dashes_keep(s.skip(1), at - 1);
    }
}

/// Taking dashes off the end loses no other character, and leaves none there.
proof fn lemma_trailing_dashes_keep(s: Seq<char>)
    ensures
        without_trailing_dashes(s).len() > 0 ==> without_trailing_dashes(s).last() != '-',
        forall|at: int|
            0 <= at < s.len() && s[at] != '-' ==> without_trailing_dashes(s).contains(
                #[trigger] s[at],
            ),
    decreases s.len(),
{
    if s.len() > 0 && s.last() == '-' {
        let front = s.drop_last();
        lemma_trailing_dashes_keep(front);
        assert forall|at: int| 0 <= at < s.len() && s[at] != '-' implies without_trailing_dashes(
            s,
        ).contains(#[trigger] s[at]) by {
            assert(front[at] == s[at]);
        }
    }
}

proof fn lemma_leading_dashes(s: Seq<char>)
    ensures
        exists|n: int| 0 <= n <= s.len() && without_leading_dashes(s) == s.skip(n),
        without_leading_dashes(s).len() > 0 ==> without_leading_dashes(s)[0] != '-',
    decreases s.len(),
{
    if s.len() > 0 && s[0] == '-' {
        lemma_leading_dashes(s.skip(1));
        let n = choose|n: int|
            0 <= n <= s.skip(1).len() && without_leading_dashes(s.skip(1)) == s.skip(1).skip(n);
        assert(s.skip(1).skip(n) =~= s.skip(n + 1));
    } else {
        assert(s.skip(0) =~= s);
    }
}

proof fn lemma_trailing_dashes(s: Seq<char>)
    ensures
        exists|n: int| 0 <= n <= s.len() && without_trailing_dashes(s) == s.take(n),
    decreases s.len(),
{
    if s.len() > 0 && s.last() == '-' {
        lemma_trailing_dashes(s.drop_last());
        let n = choose|n: int|
            0 <= n <= s.drop_last().len() && without_trailing_dashes(s.drop_last())
                == s.drop_last().take(n);
        assert(s.drop_last().take(n) =~= s.take(n));
    } else {
        assert(s.take(s.len() as int) =~= s);
    }
}

/// The name of a sub-agent is at most 32 characters long, is made of lower-case
/// letters, digits and single dashes, and does not start with a dash.
pub proof fn law_agent_names_are_slugs(description: Seq<char>)
    ensures
        slug(description).len() <= 32,
        slug(description).len() > 0 ==> slug(description)[0] != '-',
        forall|i: int|
            0 <= i < slug(description).len() ==> {
                let c = #[trigger] slug(description)[i];
                c == '-' || text::is_digit(c) || 'a' <= c <= 'z'
            },
        forall|i: int|
            0 <= i < slug(description).len() - 1 ==> !(#[trigger] slug(description)[i] == '-'
                && slug(description)[i + 1] == '-'),
{
    let mapped = slug_chars(description);
    let squeezed = single_dashes(mapped);
    lemma_single_dashes(mapped);
    lemma_leading_dashes(squeezed);
    let led = without_leading_dashes(squeezed);
    let n = choose|n: int| 0 <= n <= squeezed.len() && led == squeezed.skip(n);
    lemma_trailing_dashes(led);
    let core = without_trailing_dashes(led);
    let m = choose|m: int| 0 <= m <= led.len() && core == led.take(m);
    let name = slug(description);
    assert forall|i: int| 0 <= i < name.len() implies {
        let c = #[trigger] name[i];
        c == '-' || text::is_digit(c) || 'a' <= c <= 'z'
    } by {
        assert(name[i] == squeezed[n + i]);
        assert(mapped.contains(squeezed[n + i]));
        let j = choose|j: int| 0 <= j < mapped.len() && mapped[j] == squeezed[n + i];
        assert(mapped[j] == slug_char(description[j]));
    }
    assert forall|i: int| 0 <= i < name.len() - 1 implies !(#[trigger] name[i] == '-' && name[i + 1]
        == '-') by {
        assert(name[i] == squeezed[n + i]);
        assert(name[i + 1] == squeezed[n + i + 1]);
    }
}

/// A name is cut off after a dash only where it is as long as it may be, and
/// there is none exactly where the description has no letter or digit.
pub proof fn law_agent_names_end_well(description: Seq<char>)
    ensures
        0 < slug(description).len() < 32 ==> slug(description).last() != '-',
        slug(description).len() == 0 <==> (forall|i: int|
            0 <= i < description.len() ==> !text::is_alphanumeric(#[trigger] description[i])),
{
    let mapped = slug_chars(description);
    let squeezed = single_dashes(mapped);
    let led = without_leading_dashes(squeezed);
    let core = without_trailing_dashes(led);
    lemma_single_dashes(mapped);
    lemma_leading_dashes(squeezed);
    lemma_trailing_dashes(led);
    lemma_trailing_dashes_keep(led);
    if forall|i: int|
        0 <= i < description.len() ==> !text::is_alphanumeric(#[trigger] description[i]) {
        if led.len() > 0 {
            let n = choose|n: int| 0 <= n <= squeezed.len() && led == squeezed.skip(n);
            assert(led[0] == squeezed[n]);
            assert(mapped.contains(squeezed[n]));
            let j = choose|j: int| 0 <= j < mapped.len() && mapped[j] == squeezed[n];
            assert(!text::is_alphanumeric(description[j]));
            assert(mapped[j] == '-');
        }
    } else {
        let i = choose|i: int|
            0 <= i < description.len() && text::is_alphanumeric(#[trigger] description[i]);
        assert(mapped[i] == slug_char(description[i]));
        assert(mapped[i] != '-');
        lemma_single_dashes_keep(mapped, i);
        let j = choose|j: int| 0 <= j < squeezed.len() && squeezed[j] == mapped[i];
        lemma_leading_dashes_keep(squeezed, j);
        let k = choose|k: int| 0 <= k < led.len() && led[k] == mapped[i];
        assert(core.contains(led[k]));
    }
}

/// The name of a sub-agent: the given one where it leaves anything, or else one
/// made of the description.
pub open spec fn agent_name(name: Option<Seq<char>>, description: Seq<char>) -> Seq<char> {
    match name {
        Some(name) => if slug(name).len() > 0 {
            slug(name)
        } else {
            slug(description)
        },
        None => slug(description),
    }
}

pub fn choose_agent_name(name: Option<&str>, description: &str) -> (r: String)
    ensures
        r@ == agent_name(text::opt_str(name), description@),
{
    match name {
        Some(name) => {
            let given = slugify_agent_name(name);
            if given.as_str().is_empty() {
                slugify_agent_name(description)
            } else {
                given
            }
        },
        None => slugify_agent_name(description),
    }
}

/// The id of a sub-agent that was started at a time.
pub open spec fn agent_id(nanos: nat) -> Seq<char> {
    "agent-"@ + text::decimal(nanos)
}

/// The identifier of a sub-agent, from the time of its start in nanoseconds.
pub fn make_agent_id(nanos: u128) -> (r: String)
    ensures
        r@ == agent_id(nanos as nat),
{
    let mut out = "agent-".to_string();
    out.append(text::decimal_of(nanos).as_str());
    out
}

/// The time stamp of a manifest, from the seconds since the epoch.
pub fn timestamp_text(seconds: u64) -> (r: String)
    ensures
        r@ == text::decimal(seconds as nat),
{
    text::decimal_u64(seconds)
}

// ---------------------------------------------------------------------------
// Tools
// ---------------------------------------------------------------------------

/// The tools that a sub-agent of a type may use.
pub open spec fn allowed_tools(subagent_type: Seq<char>) -> Seq<Seq<char>> {
    if subagent_type == "Explore"@ {
        seq![
            "read_file"@,
            "glob_search"@,
            "grep_search"@,
            "WebFetch"@,
            "WebSearch"@,
            "ToolSearch"@,
            "Skill"@,
            "StructuredOutput"@,
        ]
    } else if subagent_type == "Plan"@ {
        seq![
            "read_file"@,
            "glob_search"@,
            "grep_search"@,
            "WebFetch"@,
            "WebSearch"@,
            "ToolSearch"@,
            "Skill"@,
            "TodoWrite"@,
            "StructuredOutput"@,
            "SendUserMessage"@,
        ]
    } else if subagent_type == "Verification"@ {
        seq![
            "bash"@,
            "read_file"@,
            "glob_search"@,
            "grep_search"@,
            "WebFetch"@,
            "WebSearch"@,
            "ToolSearch"@,
            "TodoWrite"@,
            "StructuredOutput"@,
            "SendUserMessage"@,
            "PowerShell"@,
        ]
    } else if subagent_type == "claw-guide"@ {
        seq![
            "read_file"@,
            "glob_search"@,
            "grep_search"@,
            "WebFetch"@,
            "WebSearch"@,
            "ToolSearch"@,
            "Skill"@,
            "StructuredOutput"@,
            "SendUserMessage"@,
        ]
    } else if subagent_type == "statusline-setup"@ {
        seq![
            "bash"@,
            "read_file"@,
            "write_file"@,
            "edit_file"@,
            "glob_search"@,
            "grep_search"@,
            "ToolSearch"@,
        ]
    } else {
        seq![
            "bash"@,
            "read_file"@,
            "write_file"@,
            "edit_file"@,
            "glob_search"@,
            "grep_search"@,
            "WebFetch"@,
            "WebSearch"@,
            "TodoWrite"@,
            "Skill"@,
            "ToolSearch"@,
            "NotebookEdit"@,
            "Sleep"@,
            "SendUserMessage"@,
            "Config"@,
            "StructuredOutput"@,
            "REPL"@,
            "PowerShell"@,
        ]
    }
}

pub open spec fn str_texts(v: Seq<&str>) -> Seq<Seq<char>> {
    v.map_values(|s: &str| s@)
}

fn to_strings(names: Vec<&str>) -> (r: Vec<String>)
    ensures
        text::texts(r@) == str_texts(names@),
{
    let mut out: Vec<String> = Vec::new();
    let mut i: usize = 0;
    assert(text::texts(out@) =~= str_texts(names@).take(0));
    while i < names.len()
        invariant
            i <= names@.len(),
            text::texts(out@) == str_texts(names@).take(i as int),
        decreases names.len() - i,
    {
        let name = names[i].to_string();
        proof {
            text::lemma_texts_push(out@, name);
            assert(str_texts(names@).take(i + 1) =~= str_texts(names@).take(i as int).push(name@));
        }
        out.push(name);
        i += 1;
    }
    assert(str_texts(names@).take(i as int) =~= str_texts(names@));
    out
}

/// The tools that a sub-agent of a type may use, each once.
pub fn allowed_tools_for_subagent(subagent_type: &str) -> (r: Vec<String>)
    ensures
        text::texts(r@) == allowed_tools(subagent_type@),
{
    let names: Vec<&str> = if text::str_eq(subagent_type, "Explore") {
        vec![
            "read_file",
            "glob_search",
            "grep_search",
            "WebFetch",
            "WebSearch",
            "ToolSearch",
            "Skill",
            "StructuredOutput",
        ]
    } else if text::str_eq(subagent_type, "Plan") {
        vec![
            "read_file",
            "glob_search",
            "grep_search",
            "WebFetch",
            "WebSearch",
            "ToolSearch",
            "Skill",
            "TodoWrite",
            "StructuredOutput",
            "SendUserMessage",
        ]
    } else if text::str_eq(subagent_type, "Verification") {
        vec![
            "bash",
            "read_file",
            "glob_search",
            "grep_search",
            "WebFetch",
            "WebSearch",
            "ToolSearch",
            "TodoWrite",
            "StructuredOutput",
            "SendUserMessage",
            "PowerShell",
        ]
    } else if text::str_eq(subagent_type, "claw-guide") {
        vec![
            "read_file",
            "glob_search",
            "grep_search",
            "WebFetch",
            "WebSearch",
            "ToolSearch",
            "Skill",
            "StructuredOutput",
            "SendUserMessage",
        ]
    } else if text::str_eq(subagent_type, "statusline-setup") {
        vec![
            "bash",
            "read_file",
            "write_file",
            "edit_file",
            "glob_search",
            "grep_search",
            "ToolSearch",
        ]
    } else {
        vec![
            "bash",
            "read_file",
            "write_file",
            "edit_file",
            "glob_search",
            "grep_search",
            "WebFetch",
            "WebSearch",
            "TodoWrite",
            "Skill",
            "ToolSearch",
            "NotebookEdit",
            "Sleep",
            "SendUserMessage",
            "Config",
            "StructuredOutput",
            "REPL",
            "PowerShell",
        ]
    };
    assert(str_texts(names@) =~= allowed_tools(subagent_type@));
    to_strings(names)
}

/// A tool that could be offered.
#[derive(Debug)]
pub struct ToolSpec {
    pub name: String,
    pub description: String,
    pub input_schema: Json,
    /// Whether the tool works on background tasks.
    pub background_task: bool,
}

/// Whether a tool is offered: it is among the allowed ones, where these are
/// limited, and no background task tool while these are suppressed.
pub open spec fn is_offered(
    spec: ToolSpec,
    allowed: Option<Seq<Seq<char>>>,
    suppress_background_task_tools: bool,
) -> bool {
    &&& (match allowed {
        Some(allowed) => allowed.contains(spec.name@),
        None => true,
    })
    &&& !(suppress_background_task_tools && spec.background_task)
}

pub open spec fn opt_texts(allowed: Option<&Vec<String>>) -> Option<Seq<Seq<char>>> {
    match allowed {
        Some(allowed) => Some(text::texts(allowed@)),
        None => None,
    }
}

/// The tools that are offered, in their order.
pub open spec fn offered(
    specs: Seq<ToolSpec>,
    allowed: Option<Seq<Seq<char>>>,
    suppress_background_task_tools: bool,
) -> Seq<ToolSpec>
    decreases specs.len(),
{
    if specs.len() == 0 {
        Seq::empty()
    } else {
        let front = offered(specs.drop_last(), allowed, suppress_background_task_tools);
        if is_offered(specs.last(), allowed, suppress_background_task_tools) {
            front.push(specs.last())
        } else {
            front
        }
    }
}

pub fn tool_specs_for_allowed_tools(
    specs: Vec<ToolSpec>,
    allowed_tools: Option<&Vec<String>>,
    suppress_background_task_tools: bool,
) -> (r: Vec<ToolSpec>)
    ensures
        r@ == offered(specs@, opt_texts(allowed_tools), suppress_background_task_tools),
{
    let mut out: Vec<ToolSpec> = Vec::new();
    let ghost all = specs@;
    assert(all.take(0) =~= Seq::empty());
    for spec in it: specs
        invariant
            it.seq() == all,
            out@ == offered(
                all.take(it.index()),
                opt_texts(allowed_tools),
                suppress_background_task_tools,
            ),
    {
        proof {
            assert(all.take(it.index() + 1).drop_last() =~= all.take(it.index()));
            assert(all.take(it.index() + 1).last() == spec);
        }
        let listed = match allowed_tools {
            Some(allowed) => text::lists(allowed, spec.name.as_str()),
            None => true,
        };
        if listed && !(suppress_background_task_tools && spec.background_task) {
            out.push(spec);
        }
    }
    assert(all.take(all.len() as int) =~= all);
    out
}

/// A tool as a provider is told of it.
pub open spec fn is_definition_of(definition: ToolDefinition, spec: ToolSpec) -> bool {
    &&& definition.name == spec.name
    &&& definition.description == Some(spec.description)
    &&& definition.input_schema == spec.input_schema
    &&& definition.cache_control is None
}

pub fn tool_definitions_for_request_tools(
    specs: Vec<ToolSpec>,
    allowed_tools: &Vec<String>,
    suppress_background_task_tools: bool,
) -> (r: Vec<ToolDefinition>)
    ensures
        ({
            let offered = offered(
                specs@,
                Some(text::texts(allowed_tools@)),
                suppress_background_task_tools,
            );
            &&& r@.len() == offered.len()
            &&& forall|i: int|
                0 <= i < r@.len() ==> is_definition_of(#[trigger] r@[i], offered[i])
        }),
{
    let kept = tool_specs_for_allowed_tools(
        specs,
        Some(allowed_tools),
        suppress_background_task_tools,
    );
    let ghost all = kept@;
    let mut out: Vec<ToolDefinition> = Vec::new();
    for spec in it: kept
        invariant
            it.seq() == all,
            out@.len() == it.index(),
            forall|i: int| 0 <= i < out@.len() ==> is_definition_of(#[trigger] out@[i], all[i]),
    {
        out.push(
            ToolDefinition {
                name: spec.name,
                description: Some(spec.description),
                input_schema: spec.input_schema,
                cache_control: None,
            },
        );
    }
    out
}

/// The executor of a sub-agent's tool calls: it knows which tools are allowed.
#[derive(Debug, PartialEq, Eq)]
pub struct SubagentToolExecutor {
    pub allowed_tools: Vec<String>,
}

/// What becomes of a tool call of a sub-agent, where `parsed` is what parsing
/// its input gave.
pub open spec fn checked_call(
    allowed: Seq<Seq<char>>,
    tool_name: Seq<char>,
    parsed: Result<JsonView, Seq<char>>,
) -> Result<JsonView, Seq<char>> {
    if !allowed.contains(tool_name) {
        Err("tool `"@ + tool_name + "` is not enabled for this sub-agent"@)
    } else {
        match parsed {
            Ok(document) => Ok(document),
            Err(error) => Err("invalid tool input JSON: "@ + error),
        }
    }
}

pub open spec fn document_result(r: Result<Json, String>) -> Result<JsonView, Seq<char>> {
    match r {
        Ok(json) => Ok(json.view()),
        Err(message) => Err(message@),
    }
}

impl SubagentToolExecutor {
    pub fn new(allowed_tools: Vec<String>) -> (r: SubagentToolExecutor)
        ensures
            r.allowed_tools == allowed_tools,
    {
        SubagentToolExecutor { allowed_tools }
    }

    /// Checks a tool call whose input was parsed.
    pub fn check_call(&self, tool_name: &str, parsed: Result<Json, String>) -> (r: Result<
        Json,
        String,
    >)
        ensures
            document_result(r) == checked_call(
                text::texts(self.allowed_tools@),
                tool_name@,
                document_result(parsed),
            ),
    {
        if !text::lists(&self.allowed_tools, tool_name) {
            let mut message = "tool `".to_string();
            message.append(tool_name);
            message.append("` is not enabled for this sub-agent");
            return Err(message);
        }
        match parsed {
            Ok(document) => Ok(document),
            Err(error) => {
                let mut message = "invalid tool input JSON: ".to_string();
                message.append(error.as_str());
                Err(message)
            },
        }
    }

    /// The document with which a tool is to be run, or why it is not run.
    pub fn execute(&self, tool_name: &str, input: &str) -> (r: Result<Json, String>)
        ensures
            document_result(r) == checked_call(
                text::texts(self.allowed_tools@),
                tool_name@,
                json::json_parse(stream::normalized_input(input@)),
            ),
    {
        let parsed = json::parse_json(stream::normalize_tool_input_json(input));
        self.check_call(tool_name, parsed)
    }
}

// ---------------------------------------------------------------------------
// Failures
// ---------------------------------------------------------------------------

/// Where the work of a sub-agent got stuck.
#[derive(Debug, Clone, Copy, PartialEq, Eq, Structural)]
pub enum LaneFailureClass {
    PromptDelivery,
    TrustGate,
    BranchDivergence,
    Compile,
    Test,
    PluginStartup,
    McpStartup,
    McpHandshake,
    GatewayRouting,
    ToolRuntime,
    Infra,
}

/// Whether an error, in lower case, mentions `word`.
pub open spec fn mentions(error: Seq<char>, word: Seq<char>) -> bool {
    text::contains_text(text::lowered(error), word)
}

/// The class of a failure, by the words of its error.
pub open spec fn failure_class(error: Seq<char>) -> LaneFailureClass {
    if mentions(error, "prompt"@) && mentions(error, "deliver"@) {
        LaneFailureClass::PromptDelivery
    } else if mentions(error, "trust"@) {
        LaneFailureClass::TrustGate
    } else if mentions(error, "branch"@) && (mentions(error, "stale"@) || mentions(
        error,
        "diverg"@,
    )) {
        LaneFailureClass::BranchDivergence
    } else if mentions(error, "gateway"@) || mentions(error, "routing"@) {
        LaneFailureClass::GatewayRouting
    } else if mentions(error, "compile"@) || mentions(error, "build failed"@) || mentions(
        error,
        "cargo check"@,
    ) {
        LaneFailureClass::Compile
    } else if mentions(error, "test"@) {
        LaneFailureClass::Test
    } else if mentions(error, "tool failed"@) || mentions(error, "runtime tool"@) || mentions(
        error,
        "tool runtime"@,
    ) {
        LaneFailureClass::ToolRuntime
    } else if mentions(error, "plugin"@) {
        LaneFailureClass::PluginStartup
    } else if mentions(error, "mcp"@) && mentions(error, "handshake"@) {
        LaneFailureClass::McpHandshake
    } else if mentions(error, "mcp"@) {
        LaneFailureClass::McpStartup
    } else {
        LaneFailureClass::Infra
    }
}

pub fn classify_lane_failure(error: &str) -> (r: LaneFailureClass)
    ensures
        r == failure_class(error@),
{
    let normalized = text::to_lower(error);
    let n = normalized.as_str();
    if text::contains(n, "prompt") && text::contains(n, "deliver") {
        LaneFailureClass::PromptDelivery
    } else if text::contains(n, "trust") {
        LaneFailureClass::TrustGate
    } else if text::contains(n, "branch") && (text::contains(n, "stale") || text::contains(
        n,
        "diverg",
    )) {
        LaneFailureClass::BranchDivergence
    } else if text::contains(n, "gateway") || text::contains(n, "routing") {
        LaneFailureClass::GatewayRouting
    } else if text::contains(n, "compile") || text::contains(n, "build failed") || text::contains(
        n,
        "cargo check",
    ) {
        LaneFailureClass::Compile
    } else if text::contains(n, "test") {
        LaneFailureClass::Test
    } else if text::contains(n, "tool failed") || text::contains(n, "runtime tool")
        || text::contains(n, "tool runtime") {
        LaneFailureClass::ToolRuntime
    } else if text::contains(n, "plugin") {
        LaneFailureClass::PluginStartup
    } else if text::contains(n, "mcp") && text::contains(n, "handshake") {
        LaneFailureClass::McpHandshake
    } else if text::contains(n, "mcp") {
        LaneFailureClass::McpStartup
    } else {
        LaneFailureClass::Infra
    }
}

/// The place of a class among those that are tried in turn.
pub open spec fn class_rank(class: LaneFailureClass) -> int {
    match class {
        LaneFailureClass::PromptDelivery => 0,
        LaneFailureClass::TrustGate => 1,
        LaneFailureClass::BranchDivergence => 2,
        LaneFailureClass::GatewayRouting => 3,
        LaneFailureClass::Compile => 4,
        LaneFailureClass::Test => 5,
        LaneFailureClass::ToolRuntime => 6,
        LaneFailureClass::PluginStartup => 7,
        LaneFailureClass::McpHandshake => 8,
        LaneFailureClass::McpStartup => 9,
        LaneFailureClass::Infra => 10,
    }
}

proof fn lemma_mentions_in_more(before: Seq<char>, error: Seq<char>, after: Seq<char>)
    ensures
        forall|word: Seq<char>|
            mentions(error, word) ==> #[trigger] mentions(before + error + after, word),
{
    let longer = before + error + after;
    assert forall|word: Seq<char>| mentions(error, word) implies #[trigger] mentions(
        longer,
        word,
    ) by {
        let at = choose|at: int| text::occurs_at(text::lowered(error), word, at);
        assert(text::lowered(longer).subrange(
            before.len() + at,
            before.len() + at + word.len(),
        ) =~= text::lowered(error).subrange(at, at + word.len()));
        assert(text::occurs_at(text::lowered(longer), word, before.len() + at));
    }
}

/// Words around an error never move it to a class that is tried later, and the
/// case of its letters does not matter.
pub proof fn law_more_words_never_lower_a_class(
    before: Seq<char>,
    error: Seq<char>,
    after: Seq<char>,
)
    ensures
        class_rank(failure_class(before + error + after)) <= class_rank(failure_class(error)),
        failure_class(text::lowered(error)) == failure_class(error),
{
    lemma_mentions_in_more(before, error, after);
    assert(text::lowered(text::lowered(error)) =~= text::lowered(error));
}

/// What keeps a sub-agent from going on.
#[derive(Debug, PartialEq, Eq)]
pub struct LaneEventBlocker {
    pub failure_class: LaneFailureClass,
    pub detail: String,
}

pub struct BlockerView {
    pub failure_class: LaneFailureClass,
    pub detail: Seq<char>,
}

impl LaneEventBlocker {
    pub open spec fn view(&self) -> BlockerView {
        BlockerView { failure_class: self.failure_class, detail: self.detail@ }
    }
}

/// The blocker that an error tells of.
pub open spec fn blocker_of(error: Seq<char>) -> BlockerView {
    BlockerView { failure_class: failure_class(error), detail: text::trimmed(error) }
}

pub fn classify_lane_blocker(error: &str) -> (r: LaneEventBlocker)
    ensures
        r.view() == blocker_of(error@),
{
    LaneEventBlocker {
        failure_class: classify_lane_failure(error),
        detail: text::trim(error).to_string(),
    }
}

/// The state of a sub-agent as an overseer sees it.
pub open spec fn agent_state(
    status: Seq<char>,
    result: Option<Seq<char>>,
    error: Option<Seq<char>>,
) -> Seq<char> {
    let status = text::lowered(text::trimmed(status));
    let error = match error {
        Some(error) => error,
        None => Seq::empty(),
    };
    if status == "running"@ {
        "working"@
    } else if status == "completed"@ {
        if result matches Some(result) && !text::is_blank(result) {
            "finished_cleanable"@
        } else {
            "finished_pending_report"@
        }
    } else if mentions(error, "background"@) {
        "blocked_background_job"@
    } else if mentions(error, "merge conflict"@) || mentions(error, "cherry-pick"@) {
        "blocked_merge_conflict"@
    } else if mentions(error, "mcp"@) {
        "degraded_mcp"@
    } else if mentions(error, "transport"@) || mentions(error, "broken pipe"@) || mentions(
        error,
        "connection"@,
    ) || mentions(error, "interrupted"@) {
        "interrupted_transport"@
    } else {
        "truly_idle"@
    }
}

/// The state of a sub-agent as an overseer sees it. A blocker alone does not
/// change it.
pub fn derive_agent_state(
    status: &str,
    result: Option<&str>,
    error: Option<&str>,
    _blocker: Option<&LaneEventBlocker>,
) -> (r: &'static str)
    ensures
        r@ == agent_state(status@, text::opt_str(result), text::opt_str(error)),
{
    let normalized_status = text::to_lower(text::trim(status));
    let status = normalized_status.as_str();
    let given = match error {
        Some(error) => error.to_string(),
        None => String::new(),
    };
    let normalized_error = text::to_lower(given.as_str());
    let n = normalized_error.as_str();
    if text::str_eq(status, "running") {
        return "working";
    }
    if text::str_eq(status, "completed") {
        return match result {
            Some(result) => if is_blank_str(result) {
                "finished_pending_report"
            } else {
                "finished_cleanable"
            },
            None => "finished_pending_report",
        };
    }
    if text::contains(n, "background") {
        return "blocked_background_job";
    }
    if text::contains(n, "merge conflict") || text::contains(n, "cherry-pick") {
        return "blocked_merge_conflict";
    }
    if text::contains(n, "mcp") {
        return "degraded_mcp";
    }
    if text::contains(n, "transport") || text::contains(n, "broken pipe") || text::contains(
        n,
        "connection",
    ) || text::contains(n, "interrupted") {
        return "interrupted_transport";
    }
    "truly_idle"
}

// ---------------------------------------------------------------------------
// Commits
// ---------------------------------------------------------------------------

/// The end of the run of hexadecimal digits that starts at `from`.
pub open spec fn hex_run_end(s: Seq<char>, from: int) -> int
    decreases s.len() - from,
{
    if from < 0 || from >= s.len() || !text::is_hex_digit(s[from]) {
        from
    } else {
        hex_run_end(s, from + 1)
    }
}

proof fn lemma_hex_run_end(s: Seq<char>, from: int)
    requires
        0 <= from <= s.len(),
    ensures
        from <= hex_run_end(s, from) <= s.len(),
    decreases s.len() - from,
{
    if from < s.len() && text::is_hex_digit(s[from]) {
        lemma_hex_run_end(s, from + 1);
    }
}

/// The first run of 7 to 40 hexadecimal digits, between other characters, from
/// position `from` on.
pub open spec fn sha_from(s: Seq<char>, from: int) -> Option<Seq<char>>
    decreases s.len() - from,
{
    if from < 0 || from > s.len() {
        None
    } else {
        let end = hex_run_end(s, from);
        if 7 <= end - from <= 40 {
            Some(s.subrange(from, end))
        } else if from <= end < s.len() {
            sha_from(s, end + 1)
        } else {
            None
        }
    }
}

/// The first text in `result` that can be the hash of a commit.
pub fn extract_commit_sha(result: &str) -> (r: Option<String>)
    ensures
        text::opt_text(r) == sha_from(result@, 0),
{
    let chars = text::chars_of(result);
    let n: usize = chars.len();
    let mut from: usize = 0;
    loop
        invariant
            chars@ == result@,
            n == chars@.len(),
            from <= n,
            sha_from(result@, 0) == sha_from(result@, from as int),
        decreases n - from,
    {
        proof {
            lemma_hex_run_end(result@, from as int);
        }
        let mut end: usize = from;
        while end < n && text::char_is_hex_digit(chars[end])
            invariant
                chars@ == result@,
                n == chars@.len(),
                from <= end <= n,
                hex_run_end(result@, from as int) == hex_run_end(result@, end as int),
            ensures
                from <= end <= n,
                end == hex_run_end(result@, from as int),
            decreases n - end,
        {
            end += 1;
        }
        if 7 <= end - from && end - from <= 40 {
            return Some(text::string_of(&chars, from, end));
        }
        if end >= n {
            return None;
        }
        from = end + 1;
    }
}

/// Where a commit that a sub-agent reports came from.
#[derive(Debug, PartialEq, Eq)]
pub struct LaneCommitProvenance {
    pub commit: String,
    pub branch: String,
    pub worktree: Option<String>,
    pub canonical_commit: Option<String>,
    pub superseded_by: Option<String>,
    pub lineage: Vec<String>,
}

pub struct ProvenanceView {
    pub commit: Seq<char>,
    pub branch: Seq<char>,
    pub worktree: Option<Seq<char>>,
    pub canonical_commit: Option<Seq<char>>,
    pub superseded_by: Option<Seq<char>>,
    pub lineage: Seq<Seq<char>>,
}

impl LaneCommitProvenance {
    pub open spec fn view(&self) -> ProvenanceView {
        ProvenanceView {
            commit: self.commit@,
            branch: self.branch@,
            worktree: text::opt_text(self.worktree),
            canonical_commit: text::opt_text(self.canonical_commit),
            superseded_by: text::opt_text(self.superseded_by),
            lineage: text::texts(self.lineage@),
        }
    }
}

/// The commit that a result reports, where it reports one.
pub open spec fn provenance_of(
    result: Option<Seq<char>>,
    branch: Option<Seq<char>>,
    worktree: Option<Seq<char>>,
) -> Option<ProvenanceView> {
    match result {
        Some(result) => match sha_from(result, 0) {
            Some(commit) => Some(
                ProvenanceView {
                    commit,
                    branch: match branch {
                        Some(branch) => branch,
                        None => "unknown"@,
                    },
                    worktree,
                    canonical_commit: Some(commit),
                    superseded_by: None,
                    lineage: seq![commit],
                },
            ),
            None => None,
        },
        None => None,
    }
}

pub open spec fn opt_provenance(p: Option<LaneCommitProvenance>) -> Option<ProvenanceView> {
    match p {
        Some(p) => Some(p.view()),
        None => None,
    }
}

/// The branch that `git` told, where it could tell one.
pub open spec fn branch_told(succeeded: bool, stdout: Seq<char>) -> Option<Seq<char>> {
    if succeeded {
        Some(text::trimmed(stdout))
    } else {
        None
    }
}

/// The branch that is checked out, from what `git rev-parse --abbrev-ref HEAD`
/// printed and whether it succeeded.
pub fn current_git_branch(succeeded: bool, stdout: &str) -> (r: Option<String>)
    ensures
        text::opt_text(r) == branch_told(succeeded, stdout@),
{
    if succeeded {
        Some(text::trim(stdout).to_string())
    } else {
        None
    }
}

/// The commit that a result reports, on the current branch and in the current
/// directory.
pub fn maybe_commit_provenance(
    result: Option<&str>,
    branch: Option<&str>,
    worktree: Option<&str>,
) -> (r: Option<LaneCommitProvenance>)
    ensures
        opt_provenance(r) == provenance_of(
            text::opt_str(result),
            text::opt_str(branch),
            text::opt_str(worktree),
        ),
{
    let result = match result {
        Some(result) => result,
        None => {
            return None;
        },
    };
    let commit = match extract_commit_sha(result) {
        Some(commit) => commit,
        None => {
            return None;
        },
    };
    let branch = match branch {
        Some(branch) => branch.to_string(),
        None => "unknown".to_string(),
    };
    let mut lineage: Vec<String> = Vec::new();
    lineage.push(commit.clone());
    assert(text::texts(lineage@) =~= seq![commit@]);
    Some(
        LaneCommitProvenance {
            commit: commit.clone(),
            branch,
            worktree: text::opt_to_string(worktree),
            canonical_commit: Some(commit),
            superseded_by: None,
            lineage,
        },
    )
}

// ---------------------------------------------------------------------------
// Authorization
// ---------------------------------------------------------------------------

/// Where and as what an agent asks for authorization.
#[derive(Debug, PartialEq, Eq)]
pub struct OAuthConfig {
    pub client_id: String,
    pub authorize_url: String,
    pub token_url: String,
    pub callback_port: Option<u16>,
    pub manual_redirect_url: Option<String>,
    pub scopes: Vec<String>,
}

/// Whether this is how a sub-agent signs in where nothing is configured.
pub open spec fn is_default_oauth(host: Seq<char>, config: OAuthConfig) -> bool {
    &&& config.client_id@ == "9d1c250a-e61b-44d9-88ed-5944d1962f5e"@
    &&& config.authorize_url@ == "https://"@ + host + "/oauth/authorize"@
    &&& config.token_url@ == "https://"@ + host + "/v1/oauth/token"@
    &&& config.callback_port is None
    &&& config.manual_redirect_url is None
    &&& text::texts(config.scopes@) == seq![
        "user:profile"@,
        "user:inference"@,
        "user:sessions:claude_code"@,
    ]
}

/// Where an agent asks for authorization where the settings do not say so;
/// `host` is the host of the platform.
pub fn default_subagent_oauth_config(host: &str) -> (r: OAuthConfig)
    ensures
        is_default_oauth(host@, r),
{
    let mut scopes: Vec<String> = Vec::new();
    scopes.push("user:profile".to_string());
    scopes.push("user:inference".to_string());
    scopes.push("user:sessions:claude_code".to_string());
    assert(text::texts(scopes@) =~= seq![
        "user:profile"@,
        "user:inference"@,
        "user:sessions:claude_code"@,
    ]);
    let mut authorize_url = "https://".to_string();
    authorize_url.append(host);
    authorize_url.append("/oauth/authorize");
    let mut token_url = "https://".to_string();
    token_url.append(host);
    token_url.append("/v1/oauth/token");
    OAuthConfig {
        client_id: "9d1c250a-e61b-44d9-88ed-5944d1962f5e".to_string(),
        authorize_url,
        token_url,
        callback_port: None,
        manual_redirect_url: None,
        scopes,
    }
}

/// The host of a vendor's platform.
pub open spec fn host_of(vendor: Seq<char>) -> Seq<char> {
    "platform."@ + vendor + ".com"@
}

/// The host of the platform of a vendor.
pub fn platform_host(vendor: &str) -> (r: String)
    ensures
        r@ == host_of(vendor@),
{
    let mut out = "platform.".to_string();
    out.append(vendor);
    out.append(".com");
    out
}

/// Whether this is what loading the configuration comes to.
pub open spec fn comes_of_loading(
    loaded: Result<Option<OAuthConfig>, String>,
    r: Result<Option<OAuthConfig>, String>,
) -> bool {
    match loaded {
        Ok(configured) => r == Ok::<Option<OAuthConfig>, String>(configured),
        Err(error) => r is Err && r->Err_0@ == "failed to load runtime OAuth config: "@ + error@,
    }
}

/// What the settings say of authorization, from what came of loading them.
pub fn load_subagent_oauth_config_for(loaded: Result<Option<OAuthConfig>, String>) -> (r: Result<
    Option<OAuthConfig>,
    String,
>)
    ensures
        comes_of_loading(loaded, r),
{
    match loaded {
        Ok(configured) => Ok(configured),
        Err(error) => {
            let mut out = "failed to load runtime OAuth config: ".to_string();
            out.append(error.as_str());
            Err(out)
        },
    }
}

} // verus!
