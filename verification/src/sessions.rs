//! Managed sessions: their files, their order, and how they are listed.

use vstd::prelude::*;

use crate::text;

verus! {

pub const PRIMARY_SESSION_EXTENSION: &'static str = "jsonl";

pub const LEGACY_SESSION_EXTENSION: &'static str = "json";

pub const LATEST_SESSION_REFERENCE: &'static str = "latest";

// ---------------------------------------------------------------------------
// Identifiers
// ---------------------------------------------------------------------------

/// The time of creation and the counter in an identifier of the form
/// `session-<millis>-<counter>`.
pub open spec fn id_components(id: Seq<char>) -> Option<(nat, nat)> {
    let prefix = "session-"@;
    if !text::has_prefix(id, prefix) {
        None
    } else {
        let rest = id.skip(prefix.len() as int);
        match text::last_index_of(rest, '-', rest.len() as int) {
            Some(at) => match (
                text::number_in(rest.take(at), u64::MAX as nat),
                text::number_in(rest.skip(at + 1), u64::MAX as nat),
            ) {
                (Some(created), Some(counter)) => Some((created, counter)),
                _ => None,
            },
            None => None,
        }
    }
}

pub open spec fn pair_of(p: Option<(u64, u64)>) -> Option<(nat, nat)> {
    match p {
        Some((a, b)) => Some((a as nat, b as nat)),
        None => None,
    }
}

pub fn parse_session_id_components(session_id: &str) -> (r: Option<(u64, u64)>)
    ensures
        pair_of(r) == id_components(session_id@),
{
    let rest = match text::strip_prefix(session_id, "session-") {
        Some(rest) => rest,
        None => {
            return None;
        },
    };
    let (created, counter) = match text::split_at_last(rest, '-') {
        Some(parts) => parts,
        None => {
            return None;
        },
    };
    match (text::parse_u64(created), text::parse_u64(counter)) {
        (Some(created), Some(counter)) => Some((created, counter)),
        _ => None,
    }
}

/// The identifier of a session that was created at a time, with a counter.
pub open spec fn id_of(created: nat, counter: nat) -> Seq<char> {
    "session-"@ + text::decimal(created) + "-"@ + text::decimal(counter)
}

/// Reading an identifier made of two numbers gives those numbers.
pub proof fn law_identifiers_read_back(created: u64, counter: u64)
    ensures
        id_components(id_of(created as nat, counter as nat)) == Some(
            (created as nat, counter as nat),
        ),
{
    let a = text::decimal(created as nat);
    let b = text::decimal(counter as nat);
    let id = id_of(created as nat, counter as nat);
    reveal_strlit("session-");
    reveal_strlit("-");
    text::lemma_decimal_reads_back(created as nat, u64::MAX as nat);
    text::lemma_decimal_reads_back(counter as nat, u64::MAX as nat);
    let rest = id.skip("session-"@.len() as int);
    assert(id.take("session-"@.len() as int) =~= "session-"@);
    assert(rest =~= a + "-"@ + b);
    text::lemma_last_index_of(rest, '-', rest.len() as int);
    assert(rest[a.len() as int] == '-');
    assert forall|i: int| a.len() < i < rest.len() implies rest[i] != '-' by {
        assert(rest[i] == b[i - a.len() - 1]);
    }
    assert(rest.take(a.len() as int) =~= a);
    assert(rest.skip(a.len() as int + 1) =~= b);
}

/// The time of creation in an identifier.
pub open spec fn id_created_at(id: Seq<char>) -> Option<nat> {
    match id_components(id) {
        Some((created, _)) => Some(created),
        None => None,
    }
}

/// The counter in an identifier.
pub open spec fn id_counter(id: Seq<char>) -> Option<nat> {
    match id_components(id) {
        Some((_, counter)) => Some(counter),
        None => None,
    }
}

pub open spec fn opt_nat(n: Option<u64>) -> Option<nat> {
    match n {
        Some(n) => Some(n as nat),
        None => None,
    }
}

pub fn session_created_at_from_id(session_id: &str) -> (r: Option<u64>)
    ensures
        opt_nat(r) == id_created_at(session_id@),
{
    match parse_session_id_components(session_id) {
        Some((created, _)) => Some(created),
        None => None,
    }
}

pub fn session_counter_from_id(session_id: &str) -> (r: Option<u64>)
    ensures
        opt_nat(r) == id_counter(session_id@),
{
    match parse_session_id_components(session_id) {
        Some((_, counter)) => Some(counter),
        None => None,
    }
}

// ---------------------------------------------------------------------------
// Files
// ---------------------------------------------------------------------------

/// What follows the last dot of a file name that does not start the name.
pub open spec fn extension(file_name: Seq<char>) -> Option<Seq<char>> {
    match text::last_index_of(file_name, '.', file_name.len() as int) {
        Some(at) => if at > 0 {
            Some(file_name.skip(at + 1))
        } else {
            None
        },
        None => None,
    }
}

pub fn file_extension(file_name: &str) -> (r: Option<&str>)
    ensures
        text::opt_str(r) == extension(file_name@),
{
    proof {
        text::lemma_last_index_of(file_name@, '.', file_name@.len() as int);
    }
    match text::split_at_last(file_name, '.') {
        Some((stem, ext)) => if stem.is_empty() {
            None
        } else {
            Some(ext)
        },
        None => None,
    }
}

/// Whether a file of this name holds a managed session.
pub open spec fn names_session_file(file_name: Seq<char>) -> bool {
    extension(file_name) == Some("jsonl"@) || extension(file_name) == Some("json"@)
}

pub fn is_managed_session_file(file_name: &str) -> (r: bool)
    ensures
        r == names_session_file(file_name@),
{
    match file_extension(file_name) {
        Some(ext) => text::str_eq(ext, "jsonl") || text::str_eq(ext, "json"),
        None => false,
    }
}

/// The name of the file that a new managed session is kept in.
pub open spec fn file_name_of(session_id: Seq<char>) -> Seq<char> {
    session_id + ".jsonl"@
}

pub fn managed_session_file_name(session_id: &str) -> (r: String)
    ensures
        r@ == file_name_of(session_id@),
{
    let mut out = session_id.to_string();
    out.append(".jsonl");
    out
}

/// A session and the file that it is kept in.
#[derive(Debug, PartialEq, Eq)]
pub struct SessionHandle {
    pub id: String,
    pub path: String,
}

/// The handle of a new managed session in `directory`.
pub fn create_managed_session_handle(session_id: &str, directory: &str) -> (r: SessionHandle)
    ensures
        r.id@ == session_id@,
        r.path@ == text::joined_path(directory@, file_name_of(session_id@)),
{
    let path = text::join_path(directory, managed_session_file_name(session_id).as_str());
    SessionHandle { id: session_id.to_string(), path }
}

/// The name of the file that a cleared session is saved under.
pub open spec fn backup_name(file_name: Option<Seq<char>>, timestamp: nat) -> Seq<char> {
    (match file_name {
        Some(name) => name,
        None => "session.jsonl"@,
    }) + ".before-clear-"@ + text::decimal(timestamp) + ".bak"@
}

pub fn session_clear_backup_name(file_name: Option<&str>, timestamp: u128) -> (r: String)
    ensures
        r@ == backup_name(text::opt_str(file_name), timestamp as nat),
{
    let mut out = match file_name {
        Some(name) => name.to_string(),
        None => "session.jsonl".to_string(),
    };
    out.append(".before-clear-");
    out.append(text::decimal_of(timestamp).as_str());
    out.append(".bak");
    out
}

// ---------------------------------------------------------------------------
// References
// ---------------------------------------------------------------------------

/// Whether a reference asks for the session that was used last.
pub open spec fn is_latest_alias(reference: Seq<char>) -> bool {
    let lower = text::lowered(reference);
    lower == text::lowered("latest"@) || lower == text::lowered("last"@) || lower == text::lowered(
        "recent"@,
    )
}

pub fn refers_to_latest(reference: &str) -> (r: bool)
    ensures
        r == is_latest_alias(reference@),
{
    text::eq_ignore_case(reference, "latest") || text::eq_ignore_case(reference, "last")
        || text::eq_ignore_case(reference, "recent")
}

pub open spec fn missing_session(reference: Seq<char>) -> Seq<char> {
    "session not found: "@ + reference
        + "\nHint: managed sessions live in .claw/sessions/. Try `latest` for the most recent session or `/session list` in the REPL."@
}

pub fn format_missing_session_reference(reference: &str) -> (r: String)
    ensures
        r@ == missing_session(reference@),
{
    let mut out = "session not found: ".to_string();
    out.append(reference);
    out.append(
        "\nHint: managed sessions live in .claw/sessions/. Try `latest` for the most recent session or `/session list` in the REPL.",
    );
    out
}

/// What is said where there is no session.
pub open spec fn none_managed() -> Seq<char> {
    "no managed sessions found in .claw/sessions/\nStart `claw` to create a session, then rerun with `--resume latest`."@
}

pub fn format_no_managed_sessions() -> (r: String)
    ensures
        r@ == none_managed(),
{
    "no managed sessions found in .claw/sessions/\nStart `claw` to create a session, then rerun with `--resume latest`.".to_string()
}

/// Where a session that a reference names is looked for.
#[derive(Debug, PartialEq, Eq)]
pub enum SessionLookup {
    /// The session that was used last.
    Latest,
    /// The file at that path.
    File,
    /// The managed session with that identifier.
    Managed,
    /// Nowhere: the message says so.
    Missing(String),
}

/// Whether the session that a reference names is looked for at `lookup`.
pub open spec fn looked_for_at(
    reference: Seq<char>,
    on_disk: bool,
    has_extension: bool,
    component_count: nat,
    lookup: SessionLookup,
) -> bool {
    if is_latest_alias(reference) {
        lookup == SessionLookup::Latest
    } else if on_disk {
        lookup == SessionLookup::File
    } else if has_extension || component_count > 1 {
        lookup matches SessionLookup::Missing(message) && message@ == missing_session(reference)
    } else {
        lookup == SessionLookup::Managed
    }
}

/// Where the session that `reference` names is looked for. The reference is
/// also read as a path: `on_disk` says whether a file is there, and the other
/// two whether its last part has an extension and how many parts it has.
pub fn resolve_session_reference(
    reference: &str,
    on_disk: bool,
    has_extension: bool,
    component_count: usize,
) -> (r: SessionLookup)
    ensures
        looked_for_at(reference@, on_disk, has_extension, component_count as nat, r),
{
    if refers_to_latest(reference) {
        SessionLookup::Latest
    } else if on_disk {
        SessionLookup::File
    } else if has_extension || component_count > 1 {
        SessionLookup::Missing(format_missing_session_reference(reference))
    } else {
        SessionLookup::Managed
    }
}

/// The identifier of a session, from the name of its file; the reference where
/// the name is not that of a session file.
pub open spec fn id_of_file(file_name: Option<Seq<char>>, reference: Seq<char>) -> Seq<char> {
    match file_name {
        Some(name) => if text::has_suffix(name, ".jsonl"@) {
            name.take(name.len() - ".jsonl"@.len())
        } else if text::has_suffix(name, ".json"@) {
            name.take(name.len() - ".json"@.len())
        } else {
            reference
        },
        None => reference,
    }
}

pub fn session_id_of_file(file_name: Option<&str>, reference: &str) -> (r: String)
    ensures
        r@ == id_of_file(text::opt_str(file_name), reference@),
{
    match file_name {
        Some(name) => match text::strip_suffix(name, ".jsonl") {
            Some(id) => id.to_string(),
            None => match text::strip_suffix(name, ".json") {
                Some(id) => id.to_string(),
                None => reference.to_string(),
            },
        },
        None => reference.to_string(),
    }
}

/// A place where a managed session may be kept: a file of this name in the
/// session directory, or in the directory above it that older versions used.
#[derive(Debug, PartialEq, Eq)]
pub struct SessionCandidate {
    pub in_legacy_root: bool,
    pub file_name: String,
}

pub struct CandidateView {
    pub in_legacy_root: bool,
    pub file_name: Seq<char>,
}

impl SessionCandidate {
    pub open spec fn view(&self) -> CandidateView {
        CandidateView { in_legacy_root: self.in_legacy_root, file_name: self.file_name@ }
    }
}

pub open spec fn candidate_views(candidates: Seq<SessionCandidate>) -> Seq<CandidateView> {
    candidates.map_values(|c: SessionCandidate| c.view())
}

/// The places of a session in one directory.
pub open spec fn places_in(session_id: Seq<char>, in_legacy_root: bool) -> Seq<CandidateView> {
    seq![
        CandidateView { in_legacy_root, file_name: session_id + ".jsonl"@ },
        CandidateView { in_legacy_root, file_name: session_id + ".json"@ },
    ]
}

/// The places of a managed session, the likelier first. The directory above
/// the session directory is searched too where it is the root of all sessions.
pub open spec fn session_places(session_id: Seq<char>, has_legacy_root: bool) -> Seq<CandidateView> {
    if has_legacy_root {
        places_in(session_id, false) + places_in(session_id, true)
    } else {
        places_in(session_id, false)
    }
}

fn candidate(session_id: &str, suffix: &str, in_legacy_root: bool) -> (r: SessionCandidate)
    ensures
        r.view() == (CandidateView { in_legacy_root, file_name: session_id@ + suffix@ }),
{
    let mut file_name = session_id.to_string();
    file_name.append(suffix);
    SessionCandidate { in_legacy_root, file_name }
}

pub fn managed_session_candidates(session_id: &str, has_legacy_root: bool) -> (r: Vec<
    SessionCandidate,
>)
    ensures
        candidate_views(r@) == session_places(session_id@, has_legacy_root),
{
    let mut out: Vec<SessionCandidate> = Vec::new();
    out.push(candidate(session_id, ".jsonl", false));
    out.push(candidate(session_id, ".json", false));
    if has_legacy_root {
        out.push(candidate(session_id, ".jsonl", true));
        out.push(candidate(session_id, ".json", true));
    }
    assert(candidate_views(out@) =~= session_places(session_id@, has_legacy_root));
    out
}

/// Whether `place` is the first place at which a file was found.
pub open spec fn is_first_place(
    session_id: Seq<char>,
    found: Seq<bool>,
    place: Result<usize, String>,
) -> bool {
    match place {
        Ok(at) => at < found.len() && found[at as int] && forall|i: int| 0 <= i < at ==> !found[i],
        Err(message) => message@ == missing_session(session_id) && forall|i: int|
            0 <= i < found.len() ==> !found[i],
    }
}

/// The first place at which a file was found, or the message that there is
/// none.
pub fn resolve_managed_session_path(session_id: &str, found: &Vec<bool>) -> (r: Result<
    usize,
    String,
>)
    ensures
        is_first_place(session_id@, found@, r),
{
    let mut i: usize = 0;
    while i < found.len()
        invariant
            i <= found@.len(),
            forall|j: int| 0 <= j < i ==> !found@[j],
        decreases found.len() - i,
    {
        if found[i] {
            return Ok(i);
        }
        i += 1;
    }
    Err(format_missing_session_reference(session_id))
}

/// Whether sessions once lay right in a directory of this name.
pub open spec fn was_sessions_root(name: Option<Seq<char>>) -> bool {
    name == Some("sessions"@)
}

/// Whether the session directory lies below the root of all sessions, from the
/// name of the directory above it.
pub fn has_legacy_root(parent_name: Option<&str>) -> (r: bool)
    ensures
        r == was_sessions_root(text::opt_str(parent_name)),
{
    match parent_name {
        Some(name) => text::str_eq(name, "sessions"),
        None => false,
    }
}

/// Whether an answer is a yes.
pub open spec fn is_yes(answer: Seq<char>) -> bool {
    let answer = text::trimmed(answer);
    answer == "y"@ || answer == "Y"@ || answer == "yes"@ || answer == "Yes"@ || answer == "YES"@
}

/// Whether an answer to the question about a deletion is a yes.
pub fn deletion_confirmed(answer: &str) -> (r: bool)
    ensures
        r == is_yes(answer@),
{
    let answer = text::trim(answer);
    text::str_eq(answer, "y") || text::str_eq(answer, "Y") || text::str_eq(answer, "yes")
        || text::str_eq(answer, "Yes") || text::str_eq(answer, "YES")
}

// ---------------------------------------------------------------------------
// Summaries
// ---------------------------------------------------------------------------

#[derive(Debug, PartialEq, Eq)]
pub struct ManagedSessionSummary {
    pub id: String,
    pub path: String,
    pub modified_epoch_millis: u128,
    pub message_count: usize,
    pub parent_session_id: Option<String>,
    pub branch_name: Option<String>,
    pub created_at_ms: u64,
    pub session_counter: Option<u64>,
}

/// What a session file says of its session.
#[derive(Debug, PartialEq, Eq)]
pub struct LoadedSession {
    pub session_id: String,
    pub message_count: usize,
    pub parent_session_id: Option<String>,
    pub branch_name: Option<String>,
    pub updated_at_ms: u64,
    pub created_at_ms: u64,
}

/// The summary of a session whose file could be read. A branch belongs to the
/// session that it was forked from.
pub fn summarize_loaded_session(session: LoadedSession, path: String) -> (r: ManagedSessionSummary)
    ensures
        r.id == session.session_id,
        r.path == path,
        r.modified_epoch_millis == session.updated_at_ms,
        r.message_count == session.message_count,
        r.parent_session_id == session.parent_session_id,
        r.branch_name == session.branch_name,
        r.created_at_ms == session.created_at_ms,
        opt_nat(r.session_counter) == id_counter(session.session_id@),
{
    let session_counter = session_counter_from_id(session.session_id.as_str());
    ManagedSessionSummary {
        id: session.session_id,
        path,
        modified_epoch_millis: session.updated_at_ms as u128,
        message_count: session.message_count,
        parent_session_id: session.parent_session_id,
        branch_name: session.branch_name,
        created_at_ms: session.created_at_ms,
        session_counter,
    }
}

/// The time of creation of a session whose file could not be read: the one in
/// its identifier, or else that of the file's last change.
pub open spec fn assumed_created_at(id: Seq<char>, modified: u128) -> nat {
    match id_created_at(id) {
        Some(created) => created,
        None => if modified <= u64::MAX {
            modified as nat
        } else {
            u64::MAX as nat
        },
    }
}

/// The summary of a session whose file could not be read.
pub fn summarize_unreadable_session(
    file_stem: Option<&str>,
    path: String,
    modified_epoch_millis: u128,
) -> (r: ManagedSessionSummary)
    ensures
        r.id@ == (match text::opt_str(file_stem) {
            Some(stem) => stem,
            None => "unknown"@,
        }),
        r.path == path,
        r.modified_epoch_millis == modified_epoch_millis,
        r.message_count == 0,
        r.parent_session_id is None,
        r.branch_name is None,
        r.created_at_ms == assumed_created_at(r.id@, modified_epoch_millis),
        opt_nat(r.session_counter) == id_counter(r.id@),
{
    let id = match file_stem {
        Some(stem) => stem.to_string(),
        None => "unknown".to_string(),
    };
    let created_at_ms: u64 = match session_created_at_from_id(id.as_str()) {
        Some(created) => created,
        None => if modified_epoch_millis <= u64::MAX as u128 {
            modified_epoch_millis as u64
        } else {
            u64::MAX
        },
    };
    let session_counter = session_counter_from_id(id.as_str());
    ManagedSessionSummary {
        id,
        path,
        modified_epoch_millis,
        message_count: 0,
        parent_session_id: None,
        branch_name: None,
        created_at_ms,
        session_counter,
    }
}

/// A file in a session directory. The stem is missing where it is not text, and
/// the session where the file could not be read.
#[derive(Debug, PartialEq, Eq)]
pub struct SessionEntry {
    pub file_name: String,
    pub file_stem: Option<String>,
    pub path: String,
    pub modified_epoch_millis: u128,
    pub loaded: Option<LoadedSession>,
}

/// Whether a summary tells of the session in a file.
pub open spec fn tells_of(summary: ManagedSessionSummary, entry: SessionEntry) -> bool {
    &&& summary.path == entry.path
    &&& opt_nat(summary.session_counter) == id_counter(summary.id@)
    &&& match entry.loaded {
        Some(session) => {
            &&& summary.id == session.session_id
            &&& summary.modified_epoch_millis == session.updated_at_ms
            &&& summary.message_count == session.message_count
            &&& summary.parent_session_id == session.parent_session_id
            &&& summary.branch_name == session.branch_name
            &&& summary.created_at_ms == session.created_at_ms
        },
        None => {
            &&& summary.id@ == (match entry.file_stem {
                Some(stem) => stem@,
                None => "unknown"@,
            })
            &&& summary.modified_epoch_millis == entry.modified_epoch_millis
            &&& summary.message_count == 0
            &&& summary.parent_session_id is None
            &&& summary.branch_name is None
            &&& summary.created_at_ms == assumed_created_at(
                summary.id@,
                entry.modified_epoch_millis,
            )
        },
    }
}

/// The files of a directory that hold managed sessions.
pub open spec fn session_files(entries: Seq<SessionEntry>) -> Seq<SessionEntry> {
    entries.filter(|entry: SessionEntry| names_session_file(entry.file_name@))
}

/// Whether there is one summary for each file, in the order of the files.
pub open spec fn tell_of_all(
    summaries: Seq<ManagedSessionSummary>,
    files: Seq<SessionEntry>,
) -> bool {
    summaries.len() == files.len() && forall|i: int|
        0 <= i < files.len() ==> tells_of(#[trigger] summaries[i], files[i])
}

proof fn lemma_session_files_push(entries: Seq<SessionEntry>, entry: SessionEntry)
    ensures
        session_files(entries.push(entry)) == if names_session_file(entry.file_name@) {
            session_files(entries).push(entry)
        } else {
            session_files(entries)
        },
{
    reveal(Seq::filter);
    assert(entries.push(entry).drop_last() =~= entries);
}

/// Puts a summary of each session in a directory behind those collected before.
/// Other files are passed over.
pub fn collect_sessions_from_dir(
    entries: Vec<SessionEntry>,
    sessions: &mut Vec<ManagedSessionSummary>,
)
    ensures
        final(sessions)@.len() >= old(sessions)@.len(),
        final(sessions)@.take(old(sessions)@.len() as int) == old(sessions)@,
        tell_of_all(
            final(sessions)@.skip(old(sessions)@.len() as int),
            session_files(entries@),
        ),
{
    let ghost all = entries@;
    let ghost before = sessions@;
    let ghost mut added = Seq::<ManagedSessionSummary>::empty();
    proof {
        reveal(Seq::filter);
        assert(all.take(0) =~= Seq::empty());
    }
    for entry in it: entries
        invariant
            it.seq() == all,
            sessions@ == before + added,
            tell_of_all(added, session_files(all.take(it.index()))),
    {
        proof {
            assert(all.take(it.index() + 1) =~= all.take(it.index()).push(entry));
            lemma_session_files_push(all.take(it.index()), entry);
        }
        if is_managed_session_file(entry.file_name.as_str()) {
            let summary = match entry.loaded {
                Some(session) => summarize_loaded_session(session, entry.path),
                None => {
                    let stem = match &entry.file_stem {
                        Some(stem) => Some(stem.as_str()),
                        None => None,
                    };
                    summarize_unreadable_session(stem, entry.path, entry.modified_epoch_millis)
                },
            };
            assert(tells_of(summary, all[it.index()]));
            sessions.push(summary);
            proof {
                added = added.push(summary);
                assert(sessions@ =~= before + added);
            }
        }
    }
    assert(all.take(all.len() as int) =~= all);
    assert(sessions@.take(before.len() as int) =~= before);
    assert(sessions@.skip(before.len() as int) =~= added);
}

// ---------------------------------------------------------------------------
// Order
// ---------------------------------------------------------------------------

/// Whether the counter `a` is above `b`; a session without one is below all.
pub open spec fn counter_above(a: Option<u64>, b: Option<u64>) -> bool {
    match (a, b) {
        (Some(x), Some(y)) => x > y,
        (Some(_), None) => true,
        _ => false,
    }
}

/// Whether session `a` is listed before `b`: the one changed later, then the
/// one created later, then the one with the higher counter, then the one whose
/// identifier comes later.
pub open spec fn listed_before(a: ManagedSessionSummary, b: ManagedSessionSummary) -> bool {
    if a.modified_epoch_millis != b.modified_epoch_millis {
        a.modified_epoch_millis > b.modified_epoch_millis
    } else if a.created_at_ms != b.created_at_ms {
        a.created_at_ms > b.created_at_ms
    } else if a.session_counter != b.session_counter {
        counter_above(a.session_counter, b.session_counter)
    } else {
        text::comes_before(b.id@, a.id@)
    }
}

/// Whether nothing is listed before something that belongs in front of it.
pub open spec fn in_listing_order(sessions: Seq<ManagedSessionSummary>) -> bool {
    forall|i: int, j: int|
        0 <= i < j < sessions.len() ==> !listed_before(#[trigger] sessions[j], #[trigger] sessions[i])
}

/// Whether the order leaves two sessions open.
pub open spec fn tied(a: ManagedSessionSummary, b: ManagedSessionSummary) -> bool {
    !listed_before(a, b) && !listed_before(b, a)
}

/// The sessions that the order does not tell from `key`, in their order.
pub open spec fn ties_with(
    sessions: Seq<ManagedSessionSummary>,
    key: ManagedSessionSummary,
) -> Seq<ManagedSessionSummary> {
    sessions.filter(|s: ManagedSessionSummary| tied(s, key))
}

/// The listing order is a strict order, and two sessions are tied exactly where
/// they agree in all that it looks at.
pub proof fn law_listing_order_is_strict(
    a: ManagedSessionSummary,
    b: ManagedSessionSummary,
    c: ManagedSessionSummary,
)
    ensures
        !listed_before(a, a),
        listed_before(a, b) ==> !listed_before(b, a),
        listed_before(a, b) && listed_before(b, c) ==> listed_before(a, c),
        tied(a, b) <==> (a.modified_epoch_millis == b.modified_epoch_millis && a.created_at_ms
            == b.created_at_ms && a.session_counter == b.session_counter && a.id@ == b.id@),
{
    text::lemma_not_before_itself(a.id@);
    text::lemma_not_before_itself(b.id@);
    text::lemma_comes_before_is_an_order(a.id@, b.id@, a.id@);
    text::lemma_comes_before_is_an_order(c.id@, b.id@, a.id@);
    text::lemma_comes_before_is_an_order(b.id@, a.id@, b.id@);
}

fn is_listed_before(a: &ManagedSessionSummary, b: &ManagedSessionSummary) -> (r: bool)
    ensures
        r == listed_before(*a, *b),
{
    if a.modified_epoch_millis != b.modified_epoch_millis {
        return a.modified_epoch_millis > b.modified_epoch_millis;
    }
    if a.created_at_ms != b.created_at_ms {
        return a.created_at_ms > b.created_at_ms;
    }
    match (a.session_counter, b.session_counter) {
        (Some(x), Some(y)) => {
            if x != y {
                return x > y;
            }
        },
        (Some(_), None) => {
            return true;
        },
        (None, Some(_)) => {
            return false;
        },
        (None, None) => {},
    }
    text::str_before(b.id.as_str(), a.id.as_str())
}

/// Inserts a session behind those that are not listed after it.
fn insert_in_order(sessions: &mut Vec<ManagedSessionSummary>, session: ManagedSessionSummary)
    requires
        in_listing_order(old(sessions)@),
    ensures
        in_listing_order(final(sessions)@),
        final(sessions)@.to_multiset() == old(sessions)@.to_multiset().insert(session),
        forall|key: ManagedSessionSummary| #[trigger]
            ties_with(final(sessions)@, key) == ties_with(old(sessions)@.push(session), key),
{
    let ghost before = sessions@;
    let mut at: usize = sessions.len();
    while at > 0 && is_listed_before(&session, &sessions[at - 1])
        invariant
            sessions@ == before,
            at <= sessions@.len(),
            forall|i: int| at <= i < before.len() ==> listed_before(session, #[trigger] before[i]),
        ensures
            at <= sessions@.len(),
            at > 0 ==> !listed_before(session, before[at - 1]),
            forall|i: int| at <= i < before.len() ==> listed_before(session, #[trigger] before[i]),
        decreases at,
    {
        at -= 1;
    }
    sessions.insert(at, session);
    proof {
        let after = sessions@;
        assert(after =~= before.take(at as int).push(session) + before.skip(at as int));
        assert forall|i: int, j: int| 0 <= i < j < after.len() implies !listed_before(
            #[trigger] after[j],
            #[trigger] after[i],
        ) by {
            if i < at && j == at {
                if i < at - 1 {
                    law_listing_order_is_strict(session, before[i], before[at - 1]);
                    law_listing_order_is_strict(before[at - 1], before[i], session);
                    lemma_not_before_through(session, before[at - 1], before[i]);
                }
            } else if i == at {
                law_listing_order_is_strict(session, before[j - 1], session);
            } else if i < at && j > at {
                assert(!listed_before(before[j - 1], before[i]));
            } else if i > at {
                assert(!listed_before(before[j - 1], before[i - 1]));
            } else {
                assert(!listed_before(before[j], before[i]));
            }
        }
        lemma_insert_multiset(before, at as int, session);
        assert forall|key: ManagedSessionSummary| #[trigger]
            ties_with(after, key) == ties_with(before.push(session), key) by {
            lemma_insert_ties(before, at as int, session, key);
        }
    }
}

/// What is not listed before something is not listed before anything that the
/// latter does not follow.
proof fn lemma_not_before_through(
    a: ManagedSessionSummary,
    b: ManagedSessionSummary,
    c: ManagedSessionSummary,
)
    requires
        !listed_before(a, b),
        !listed_before(b, c),
    ensures
        !listed_before(a, c),
{
    law_listing_order_is_strict(a, b, c);
    law_listing_order_is_strict(b, c, a);
    law_listing_order_is_strict(c, b, a);
    text::lemma_comes_before_is_an_order(a.id@, b.id@, c.id@);
    text::lemma_comes_before_is_an_order(c.id@, b.id@, a.id@);
    text::lemma_comes_before_is_an_order(c.id@, a.id@, b.id@);
    text::lemma_comes_before_is_an_order(b.id@, c.id@, a.id@);
}

proof fn lemma_insert_multiset(
    before: Seq<ManagedSessionSummary>,
    at: int,
    session: ManagedSessionSummary,
)
    requires
        0 <= at <= before.len(),
    ensures
        before.insert(at, session).to_multiset() == before.to_multiset().insert(session),
{
    let inserted = before.insert(at, session);
    inserted.to_multiset_ensures();
    assert(inserted[at] == session);
    assert(inserted.remove(at) =~= before);
    assert(inserted.contains(session));
    assert(inserted.to_multiset() =~= before.to_multiset().insert(session));
}

proof fn lemma_insert_ties(
    before: Seq<ManagedSessionSummary>,
    at: int,
    session: ManagedSessionSummary,
    key: ManagedSessionSummary,
)
    requires
        0 <= at <= before.len(),
        forall|i: int| at <= i < before.len() ==> listed_before(session, #[trigger] before[i]),
    ensures
        ties_with(before.insert(at, session), key) == ties_with(before.push(session), key),
{
    let pred = |s: ManagedSessionSummary| tied(s, key);
    let front = before.take(at);
    let back = before.skip(at);
    assert(before =~= front + back);
    assert(before.insert(at, session) =~= front.push(session) + back);
    Seq::filter_distributes_over_add(front, back, pred);
    Seq::filter_distributes_over_add(front.push(session), back, pred);
    reveal(Seq::filter);
    assert(front.push(session).drop_last() =~= front);
    assert(before.push(session).drop_last() =~= before);
    if tied(session, key) {
        assert(back.filter(pred) =~= Seq::empty()) by {
            assert forall|i: int| 0 <= i < back.len() implies !pred(#[trigger] back[i]) by {
                assert(listed_before(session, before[at + i]));
                law_listing_order_is_strict(session, key, back[i]);
                law_listing_order_is_strict(back[i], key, session);
                law_listing_order_is_strict(session, back[i], key);
            }
            lemma_filter_none(back, key);
        }
    }
    assert(before.insert(at, session).filter(pred) =~= before.push(session).filter(pred));
}

proof fn lemma_filter_none(sessions: Seq<ManagedSessionSummary>, key: ManagedSessionSummary)
    requires
        forall|i: int| 0 <= i < sessions.len() ==> !tied(#[trigger] sessions[i], key),
    ensures
        ties_with(sessions, key).len() == 0,
    decreases sessions.len(),
{
    reveal(Seq::filter);
    if sessions.len() > 0 {
        lemma_filter_none(sessions.drop_last(), key);
    }
}

/// Puts sessions into the order in which they are listed. Sessions that the
/// order leaves open keep their order.
pub fn sort_managed_session_summaries(sessions: &mut Vec<ManagedSessionSummary>)
    ensures
        in_listing_order(final(sessions)@),
        final(sessions)@.to_multiset() == old(sessions)@.to_multiset(),
        forall|key: ManagedSessionSummary| #[trigger]
            ties_with(final(sessions)@, key) == ties_with(old(sessions)@, key),
{
    let ghost all = sessions@;
    let mut rest: Vec<ManagedSessionSummary> = Vec::new();
    rest.append(sessions);
    assert(rest@ =~= all);
    assert(all.take(0) =~= Seq::empty());
    assert(sessions@ =~= Seq::empty());
    for session in it: rest
        invariant
            it.seq() == all,
            in_listing_order(sessions@),
            sessions@.to_multiset() == all.take(it.index()).to_multiset(),
            forall|key: ManagedSessionSummary| #[trigger]
                ties_with(sessions@, key) == ties_with(all.take(it.index()), key),
    {
        let ghost before = sessions@;
        let ghost done = all.take(it.index());
        insert_in_order(sessions, session);
        proof {
            let next = all.take(it.index() + 1);
            assert(next =~= done.push(session));
            done.to_multiset_ensures();
            assert forall|key: ManagedSessionSummary| #[trigger]
                ties_with(sessions@, key) == ties_with(next, key) by {
                lemma_ties_push(before, session, key);
                lemma_ties_push(done, session, key);
                assert(ties_with(before, key) == ties_with(done, key));
            }
        }
    }
    assert(all.take(all.len() as int) =~= all);
}

proof fn lemma_ties_push(
    sessions: Seq<ManagedSessionSummary>,
    session: ManagedSessionSummary,
    key: ManagedSessionSummary,
)
    ensures
        ties_with(sessions.push(session), key) == if tied(session, key) {
            ties_with(sessions, key).push(session)
        } else {
            ties_with(sessions, key)
        },
{
    reveal(Seq::filter);
    assert(sessions.push(session).drop_last() =~= sessions);
}

/// Whether `listed` holds the sessions in `files`, in listing order. Sessions
/// that the order leaves open keep the order of their files.
pub open spec fn is_listing(
    listed: Seq<ManagedSessionSummary>,
    files: Seq<SessionEntry>,
) -> bool {
    exists|found: Seq<ManagedSessionSummary>| #[trigger]
        tell_of_all(found, files) && in_listing_order(listed) && listed.to_multiset()
            == found.to_multiset() && forall|key: ManagedSessionSummary| #[trigger]
            ties_with(listed, key) == ties_with(found, key)
}

/// The session files of the root of all sessions, if there is one.
pub open spec fn legacy_files(legacy: Option<Vec<SessionEntry>>) -> Seq<SessionEntry> {
    match legacy {
        Some(entries) => session_files(entries@),
        None => Seq::empty(),
    }
}

/// The managed sessions in their order, from the files of the session directory
/// and from those of the root of all sessions, where it lies above.
pub fn list_managed_sessions(
    primary: Vec<SessionEntry>,
    legacy: Option<Vec<SessionEntry>>,
) -> (r: Vec<ManagedSessionSummary>)
    ensures
        is_listing(
            r@,
            session_files(primary@) + legacy_files(legacy),
        ),
{
    let ghost files = session_files(primary@) + legacy_files(legacy);
    let mut sessions: Vec<ManagedSessionSummary> = Vec::new();
    collect_sessions_from_dir(primary, &mut sessions);
    let ghost first = sessions@;
    assert(first.skip(0) =~= first);
    match legacy {
        Some(entries) => collect_sessions_from_dir(entries, &mut sessions),
        None => {},
    }
    let ghost found = sessions@;
    proof {
        let rest = found.skip(first.len() as int);
        assert(found.take(first.len() as int) =~= first);
        assert forall|i: int| 0 <= i < files.len() implies tells_of(
            #[trigger] found[i],
            files[i],
        ) by {
            if i < first.len() {
                assert(found[i] == found.take(first.len() as int)[i]);
            } else {
                assert(found[i] == rest[i - first.len()]);
            }
        }
        assert(tell_of_all(found, files));
    }
    sort_managed_session_summaries(&mut sessions);
    sessions
}

/// Whether `latest` is the session that was used last, of sessions in listing
/// order.
pub open spec fn is_latest(
    sessions: Seq<ManagedSessionSummary>,
    latest: Result<ManagedSessionSummary, String>,
) -> bool {
    match latest {
        Ok(latest) => sessions.len() > 0 && latest == sessions[0],
        Err(message) => sessions.len() == 0 && message@
            == "no managed sessions found in .claw/sessions/\nStart `claw` to create a session, then rerun with `--resume latest`."@,
    }
}

/// The session that was used last, from the sessions in listing order.
pub fn latest_managed_session(sessions: Vec<ManagedSessionSummary>) -> (r: Result<
    ManagedSessionSummary,
    String,
>)
    ensures
        is_latest(sessions@, r),
{
    let mut sessions = sessions;
    if sessions.len() == 0 {
        Err(format_no_managed_sessions())
    } else {
        Ok(sessions.remove(0))
    }
}

/// The session in front of a listing is one that no other belongs before.
pub proof fn law_latest_session_has_no_newer(sessions: Seq<ManagedSessionSummary>, at: int)
    requires
        in_listing_order(sessions),
        0 <= at < sessions.len(),
    ensures
        !listed_before(sessions[at], sessions[0]),
        sessions[at].modified_epoch_millis <= sessions[0].modified_epoch_millis,
{
    if at == 0 {
        law_listing_order_is_strict(sessions[0], sessions[0], sessions[0]);
    }
}

// ---------------------------------------------------------------------------
// Listing
// ---------------------------------------------------------------------------

/// How long ago a session was changed, in whole units.
pub open spec fn age(modified: nat, now: nat) -> Seq<char> {
    let seconds = if now > modified {
        ((now - modified) as nat) / 1_000
    } else {
        0
    };
    if seconds <= 4 {
        "just-now"@
    } else if seconds <= 59 {
        text::decimal(seconds) + "s-ago"@
    } else if seconds <= 3_599 {
        text::decimal(seconds / 60) + "m-ago"@
    } else if seconds <= 86_399 {
        text::decimal(seconds / 3_600) + "h-ago"@
    } else {
        text::decimal(seconds / 86_400) + "d-ago"@
    }
}

pub fn format_session_modified_age(modified_epoch_millis: u128, now: u128) -> (r: String)
    ensures
        r@ == age(modified_epoch_millis as nat, now as nat),
{
    let delta_seconds: u128 = if now > modified_epoch_millis {
        (now - modified_epoch_millis) / 1_000
    } else {
        0
    };
    if delta_seconds <= 4 {
        "just-now".to_string()
    } else if delta_seconds <= 59 {
        let mut out = text::decimal_of(delta_seconds);
        out.append("s-ago");
        out
    } else if delta_seconds <= 3_599 {
        let mut out = text::decimal_of(delta_seconds / 60);
        out.append("m-ago");
        out
    } else if delta_seconds <= 86_399 {
        let mut out = text::decimal_of(delta_seconds / 3_600);
        out.append("h-ago");
        out
    } else {
        let mut out = text::decimal_of(delta_seconds / 86_400);
        out.append("d-ago");
        out
    }
}

/// Where a session was branched off.
pub open spec fn lineage(branch: Option<Seq<char>>, parent: Option<Seq<char>>) -> Seq<char> {
    match (branch, parent) {
        (Some(branch), Some(parent)) => " branch="@ + branch + " from="@ + parent,
        (None, Some(parent)) => " from="@ + parent,
        (Some(branch), None) => " branch="@ + branch,
        (None, None) => Seq::empty(),
    }
}

fn describe_lineage(branch: &Option<String>, parent: &Option<String>) -> (r: String)
    ensures
        r@ == lineage(text::opt_text(*branch), text::opt_text(*parent)),
{
    match (branch, parent) {
        (Some(branch), Some(parent)) => {
            let mut out = " branch=".to_string();
            out.append(branch.as_str());
            out.append(" from=");
            out.append(parent.as_str());
            out
        },
        (None, Some(parent)) => {
            let mut out = " from=".to_string();
            out.append(parent.as_str());
            out
        },
        (Some(branch), None) => {
            let mut out = " branch=".to_string();
            out.append(branch.as_str());
            out
        },
        (None, None) => String::new(),
    }
}

/// The line of a session in a listing.
pub open spec fn session_line(
    session: ManagedSessionSummary,
    active: Seq<char>,
    now: nat,
) -> Seq<char> {
    "  "@ + text::padded(session.id@, 20) + " "@ + text::padded(
        if session.id@ == active {
            "● current"@
        } else {
            "○ saved"@
        },
        10,
    ) + " msgs="@ + text::padded(text::decimal(session.message_count as nat), 4) + " modified="@
        + age(session.modified_epoch_millis as nat, now) + lineage(
        text::opt_text(session.branch_name),
        text::opt_text(session.parent_session_id),
    ) + " path="@ + session.path@
}

/// The lines of sessions, each on a new line.
pub open spec fn session_lines(
    sessions: Seq<ManagedSessionSummary>,
    active: Seq<char>,
    now: nat,
) -> Seq<char>
    decreases sessions.len(),
{
    if sessions.len() == 0 {
        Seq::empty()
    } else {
        session_lines(sessions.drop_last(), active, now) + "\n"@ + session_line(
            sessions.last(),
            active,
            now,
        )
    }
}

/// The listing of the managed sessions.
pub open spec fn session_listing(
    sessions: Seq<ManagedSessionSummary>,
    active: Seq<char>,
    directory: Seq<char>,
    now: nat,
) -> Seq<char> {
    let head = "Sessions\n  Directory         "@ + directory;
    if sessions.len() == 0 {
        head + "\n  No managed sessions saved yet."@
    } else {
        head + session_lines(sessions, active, now)
    }
}

fn write_session_line(session: &ManagedSessionSummary, active: &str, now: u128) -> (r: String)
    ensures
        r@ == session_line(*session, active@, now as nat),
{
    let marker = if text::str_eq(session.id.as_str(), active) {
        "● current"
    } else {
        "○ saved"
    };
    let mut out = "  ".to_string();
    out.append(text::pad_right(session.id.as_str(), 20).as_str());
    out.append(" ");
    out.append(text::pad_right(marker, 10).as_str());
    out.append(" msgs=");
    out.append(text::pad_right(text::decimal_usize(session.message_count).as_str(), 4).as_str());
    out.append(" modified=");
    out.append(format_session_modified_age(session.modified_epoch_millis, now).as_str());
    out.append(describe_lineage(&session.branch_name, &session.parent_session_id).as_str());
    out.append(" path=");
    out.append(session.path.as_str());
    out
}

/// The listing of the managed sessions, given in listing order.
pub fn render_session_list(
    active_session_id: &str,
    sessions: &Vec<ManagedSessionSummary>,
    directory: &str,
    now: u128,
) -> (r: String)
    ensures
        r@ == session_listing(sessions@, active_session_id@, directory@, now as nat),
{
    let mut out = "Sessions\n  Directory         ".to_string();
    out.append(directory);
    if sessions.len() == 0 {
        out.append("\n  No managed sessions saved yet.");
        return out;
    }
    let mut lines = String::new();
    let mut i: usize = 0;
    assert(sessions@.take(0) =~= Seq::empty());
    while i < sessions.len()
        invariant
            i <= sessions@.len(),
            lines@ == session_lines(sessions@.take(i as int), active_session_id@, now as nat),
        decreases sessions.len() - i,
    {
        assert(sessions@.take(i + 1).drop_last() =~= sessions@.take(i as int));
        lines.append("\n");
        lines.append(write_session_line(&sessions[i], active_session_id, now).as_str());
        i += 1;
    }
    assert(sessions@.take(i as int) =~= sessions@);
    out.append(lines.as_str());
    out
}

} // verus!
