//! What holds of all managed sessions.

use vstd::prelude::*;

use crate::sessions::{self, ManagedSessionSummary, SessionEntry, SessionLookup};
use crate::text;
use crate::text_laws;

verus! {

// ---------------------------------------------------------------------------
// Files
// ---------------------------------------------------------------------------

/// A session is found again by the name of its file, in the form of today and in
/// the older one; any other file leaves the reference as it is.
pub proof fn law_file_names_lead_back_to_their_session(
    session_id: Seq<char>,
    other: Seq<char>,
    reference: Seq<char>,
)
    ensures
        sessions::id_of_file(Some(sessions::file_name_of(session_id)), reference) == session_id,
        sessions::id_of_file(Some(session_id + ".jsonl"@), reference) == session_id,
        sessions::id_of_file(Some(session_id + ".json"@), reference) == session_id,
        !text::has_suffix(other, ".jsonl"@) && !text::has_suffix(other, ".json"@)
            ==> sessions::id_of_file(Some(other), reference) == reference,
        sessions::id_of_file(None, reference) == reference,
{
    reveal_strlit(".jsonl");
    reveal_strlit(".json");
    let today = session_id + ".jsonl"@;
    let older = session_id + ".json"@;
    assert(".jsonl"@.len() == 6 && ".json"@.len() == 5);
    assert(today.skip(today.len() - 6) =~= ".jsonl"@);
    assert(today.take(today.len() - 6) =~= session_id);
    assert(older.skip(older.len() - 5) =~= ".json"@);
    assert(older.take(older.len() - 5) =~= session_id);
    if text::has_suffix(older, ".jsonl"@) {
        assert(older.skip(older.len() - 6)[5] == older.last());
        assert(".jsonl"@[5] == 'l' && ".json"@[4] == 'n');
    }
}

/// The file of a session is taken for one, today's and the older form; a file
/// with another extension, or with none, is not.
pub proof fn law_session_files_are_told_by_their_extension(
    stem: Seq<char>,
    extension: Seq<char>,
)
    requires
        stem.len() > 0,
        !extension.contains('.'),
    ensures
        sessions::extension(stem + "."@ + extension) == Some(extension),
        sessions::names_session_file(stem + "."@ + extension) <==> extension == "jsonl"@
            || extension == "json"@,
        !extension.contains('.') ==> sessions::extension(extension) is None,
{
    reveal_strlit(".");
    let name = stem + "."@ + extension;
    let n = stem.len() as int;
    text::lemma_last_index_of(name, '.', name.len() as int);
    assert(name[n] == '.');
    assert forall|i: int| n < i < name.len() implies name[i] != '.' by {
        assert(name[i] == extension[i - n - 1]);
        assert(extension.contains(extension[i - n - 1]));
    }
    assert(name.skip(n + 1) =~= extension);
    text::lemma_last_index_of(extension, '.', extension.len() as int);
    if let Some(at) = text::last_index_of(extension, '.', extension.len() as int) {
        assert(extension.contains(extension[at]));
    }
}

/// A cleared session is kept under a name that begins with that of its file and
/// tells when it was cleared: at two times it is kept under two names.
pub proof fn law_backups_are_kept_apart(name: Seq<char>, first: nat, second: nat)
    ensures
        text::has_prefix(sessions::backup_name(Some(name), first), name),
        text::has_suffix(sessions::backup_name(Some(name), first), ".bak"@),
        text::contains_text(
            sessions::backup_name(Some(name), first),
            ".before-clear-"@ + text::decimal(first),
        ),
        first != second ==> sessions::backup_name(Some(name), first) != sessions::backup_name(
            Some(name),
            second,
        ),
        sessions::backup_name(None, first) == sessions::backup_name(Some("session.jsonl"@), first),
{
    let head = name + ".before-clear-"@;
    let tail = ".bak"@;
    let a = text::decimal(first);
    let b = text::decimal(second);
    let whole = sessions::backup_name(Some(name), first);
    assert(whole.take(name.len() as int) =~= name);
    text::lemma_contains_part(head + a, tail, Seq::empty());
    assert(whole =~= name + (".before-clear-"@ + a) + tail);
    text::lemma_contains_part(name, ".before-clear-"@ + a, tail);
    if whole == sessions::backup_name(Some(name), second) {
        assert(a =~= whole.subrange(head.len() as int, whole.len() - tail.len()));
        assert(b =~= whole.subrange(head.len() as int, whole.len() - tail.len()));
        text_laws::law_decimals_read_back(first, second, 0);
    }
}

/// Every place in which a session is looked for is that of a file of this
/// session; those in its directory come before those above it, today's form
/// before the older one.
pub proof fn law_places_are_of_the_session(session_id: Seq<char>, legacy: bool, at: int)
    ensures
        sessions::session_places(session_id, legacy).len() == (if legacy {
            4nat
        } else {
            2nat
        }),
        0 <= at < sessions::session_places(session_id, legacy).len() ==> {
            let place = sessions::session_places(session_id, legacy)[at];
            &&& sessions::id_of_file(Some(place.file_name), Seq::empty()) == session_id
            &&& place.in_legacy_root == (at >= 2)
            &&& text::has_suffix(place.file_name, ".jsonl"@) <==> at % 2 == 0
        },
{
    law_file_names_lead_back_to_their_session(session_id, Seq::empty(), Seq::empty());
    reveal_strlit(".jsonl");
    reveal_strlit(".json");
    let today = session_id + ".jsonl"@;
    let older = session_id + ".json"@;
    assert(".jsonl"@.len() == 6 && ".json"@.len() == 5);
    assert(today.skip(today.len() - 6) =~= ".jsonl"@);
    if text::has_suffix(older, ".jsonl"@) {
        assert(older.skip(older.len() - 6)[5] == older.last());
        assert(".jsonl"@[5] == 'l' && ".json"@[4] == 'n');
    }
}

/// The place that is taken is the first at which a file was found; only where
/// none was found is the session missing, and then it is named.
pub proof fn law_the_first_file_found_is_taken(
    session_id: Seq<char>,
    found: Seq<bool>,
    place: Result<usize, String>,
    at: int,
)
    requires
        sessions::is_first_place(session_id, found, place),
        0 <= at < found.len(),
        found[at],
    ensures
        place matches Ok(taken) && taken <= at && found[taken as int],
{
}

/// A missing session is named.
pub proof fn law_missing_sessions_are_named(session_id: Seq<char>)
    ensures
        text::has_prefix(
            sessions::missing_session(session_id),
            "session not found: "@ + session_id + "\n"@,
        ),
{
    reveal_strlit("\nHint: managed sessions live in .claw/sessions/. Try `latest` for the most recent session or `/session list` in the REPL.");
    reveal_strlit("\n");
    reveal_strlit("Hint: managed sessions live in .claw/sessions/. Try `latest` for the most recent session or `/session list` in the REPL.");
    assert("\nHint: managed sessions live in .claw/sessions/. Try `latest` for the most recent session or `/session list` in the REPL."@ =~= "\n"@ + "Hint: managed sessions live in .claw/sessions/. Try `latest` for the most recent session or `/session list` in the REPL."@);
    let head = "session not found: "@ + session_id + "\n"@;
    let tail =
        "Hint: managed sessions live in .claw/sessions/. Try `latest` for the most recent session or `/session list` in the REPL."@;
    assert(sessions::missing_session(session_id) =~= head + tail);
    text::lemma_contains_part(Seq::empty(), head, tail);
}

/// `latest`, `last` and `recent` ask for the session that was used last, in any
/// case, and no other reference does.
pub proof fn law_three_words_ask_for_the_latest(reference: Seq<char>)
    ensures
        sessions::is_latest_alias("latest"@),
        sessions::is_latest_alias("last"@),
        sessions::is_latest_alias("recent"@),
        sessions::is_latest_alias(reference) == sessions::is_latest_alias(text::lowered(reference)),
        sessions::is_latest_alias(reference) ==> text::lowered(reference) == "latest"@
            || text::lowered(reference) == "last"@ || text::lowered(reference) == "recent"@,
{
    reveal_strlit("latest");
    reveal_strlit("last");
    reveal_strlit("recent");
    assert(text::lowered("latest"@) =~= "latest"@);
    assert(text::lowered("last"@) =~= "last"@);
    assert(text::lowered("recent"@) =~= "recent"@);
    assert(text::lowered(text::lowered(reference)) =~= text::lowered(reference));
}

/// A reference is looked for as a file where there is one, among the managed
/// sessions where it is a plain name, and is missing where it is a path to
/// nothing.
pub proof fn law_references_are_looked_for(
    reference: Seq<char>,
    on_disk: bool,
    has_extension: bool,
    parts: nat,
    lookup: SessionLookup,
)
    requires
        sessions::looked_for_at(reference, on_disk, has_extension, parts, lookup),
        !sessions::is_latest_alias(reference),
    ensures
        lookup is File <==> on_disk,
        !on_disk && !has_extension && parts <= 1 ==> lookup is Managed,
        !on_disk && (has_extension || parts > 1) ==> (lookup matches SessionLookup::Missing(message)
            && message@ == sessions::missing_session(reference)),
        !(lookup is Latest),
{
}

/// The latest session is asked for by name whatever lies on the disk.
pub proof fn law_the_latest_is_asked_for_by_name(
    on_disk: bool,
    has_extension: bool,
    parts: nat,
    lookup: SessionLookup,
)
    requires
        sessions::looked_for_at("latest"@, on_disk, has_extension, parts, lookup),
    ensures
        lookup is Latest,
{
    law_three_words_ask_for_the_latest("latest"@);
}

/// Only a yes is a yes: an answer that is none, or does not begin with the
/// letter, is not.
pub proof fn law_only_a_yes_is_a_yes(answer: Seq<char>)
    ensures
        sessions::is_yes("y"@),
        sessions::is_yes("yes"@),
        sessions::is_yes("YES"@),
        sessions::is_yes(answer) ==> {
            let said = text::trimmed(answer);
            &&& said.len() == 1 || said.len() == 3
            &&& said[0] == 'y' || said[0] == 'Y'
            &&& said.len() == 3 ==> text::lowered(said) == "yes"@
        },
        text::is_blank(answer) ==> !sessions::is_yes(answer),
{
    reveal_strlit("y");
    reveal_strlit("Y");
    reveal_strlit("yes");
    reveal_strlit("Yes");
    reveal_strlit("YES");
    assert("y"@.len() == 1 && "Y"@.len() == 1);
    assert("yes"@.len() == 3 && "Yes"@.len() == 3 && "YES"@.len() == 3);
    assert("y"@[0] == 'y' && "Y"@[0] == 'Y');
    assert("yes"@[0] == 'y' && "Yes"@[0] == 'Y' && "YES"@[0] == 'Y');
    assert(text::lowered("yes"@) =~= "yes"@);
    assert(text::lowered("Yes"@) =~= "yes"@);
    assert(text::lowered("YES"@) =~= "yes"@);
    text_laws::law_trimmed_texts_stay("y"@);
    text_laws::law_trimmed_texts_stay("yes"@);
    text_laws::law_trimmed_texts_stay("YES"@);
    text::lemma_trimmed_empty_iff_blank(answer);
}

// ---------------------------------------------------------------------------
// Listing
// ---------------------------------------------------------------------------

/// A session that changed later is listed before one that changed earlier; of two
/// that changed at one time the one that was created later comes first, then the
/// one with the higher counter, then the one with the later name.
pub proof fn law_newer_sessions_come_first(a: ManagedSessionSummary, b: ManagedSessionSummary)
    ensures
        a.modified_epoch_millis > b.modified_epoch_millis ==> sessions::listed_before(a, b),
        a.modified_epoch_millis == b.modified_epoch_millis && a.created_at_ms > b.created_at_ms
            ==> sessions::listed_before(a, b),
        a.modified_epoch_millis == b.modified_epoch_millis && a.created_at_ms == b.created_at_ms ==> (
        match (a.session_counter, b.session_counter) {
            (Some(x), Some(y)) => (x > y ==> sessions::listed_before(a, b)) && (x == y
                && text::comes_before(b.id@, a.id@) ==> sessions::listed_before(a, b)),
            (Some(_), None) => sessions::listed_before(a, b),
            (None, Some(_)) => !sessions::listed_before(a, b),
            (None, None) => text::comes_before(b.id@, a.id@) ==> sessions::listed_before(a, b),
        }),
{
}

/// The latest session is one of the sessions, and none is newer; there is none
/// exactly where there are no sessions.
pub proof fn law_the_latest_is_the_newest(
    all: Seq<ManagedSessionSummary>,
    latest: Result<ManagedSessionSummary, String>,
    at: int,
)
    requires
        sessions::in_listing_order(all),
        sessions::is_latest(all, latest),
    ensures
        latest is Ok <==> all.len() > 0,
        latest matches Ok(session) ==> all.contains(session),
        0 <= at < all.len() ==> (latest matches Ok(session) && all[at].modified_epoch_millis
            <= session.modified_epoch_millis),
{
    if 0 <= at < all.len() {
        sessions::law_latest_session_has_no_newer(all, at);
    }
    if all.len() > 0 {
        assert(all.contains(all[0]));
    }
}

/// A summary tells what the file of the session tells: its identifier, its
/// messages, its times, and where it was branched off. A file that cannot be read
/// is told by its name and its change, without messages.
pub proof fn law_summaries_tell_what_files_tell(
    summary: ManagedSessionSummary,
    entry: SessionEntry,
)
    requires
        sessions::tells_of(summary, entry),
    ensures
        summary.path@ == entry.path@,
        entry.loaded matches Some(session) ==> {
            &&& summary.id@ == session.session_id@
            &&& summary.message_count == session.message_count
            &&& summary.modified_epoch_millis == session.updated_at_ms
            &&& summary.created_at_ms == session.created_at_ms
            &&& text::opt_text(summary.branch_name) == text::opt_text(session.branch_name)
            &&& text::opt_text(summary.parent_session_id) == text::opt_text(
                session.parent_session_id,
            )
        },
        entry.loaded is None ==> {
            &&& summary.message_count == 0
            &&& summary.modified_epoch_millis == entry.modified_epoch_millis
            &&& summary.branch_name is None
            &&& summary.parent_session_id is None
            &&& entry.file_stem matches Some(stem) ==> summary.id@ == stem@
            &&& entry.file_stem is None ==> summary.id@ == "unknown"@
        },
{
}

/// The time and the counter of a session are those in its identifier.
pub proof fn law_identifiers_tell_time_and_counter(
    summary: ManagedSessionSummary,
    entry: SessionEntry,
    created: u64,
    counter: u64,
)
    requires
        sessions::tells_of(summary, entry),
        summary.id@ == sessions::id_of(created as nat, counter as nat),
    ensures
        summary.session_counter == Some(counter),
        entry.loaded is None ==> summary.created_at_ms == created,
        sessions::id_created_at(summary.id@) == Some(created as nat),
        sessions::id_counter(summary.id@) == Some(counter as nat),
{
    sessions::law_identifiers_read_back(created, counter);
}

/// Of the files of a directory those are taken that hold sessions, and all of
/// them.
pub proof fn law_session_files_are_taken(entries: Seq<SessionEntry>, entry: SessionEntry)
    ensures
        sessions::session_files(entries).contains(entry) <==> entries.contains(entry)
            && sessions::names_session_file(entry.file_name@),
{
    let pred = |entry: SessionEntry| sessions::names_session_file(entry.file_name@);
    broadcast use vstd::seq_lib::group_filter_ensures;

    let taken = entries.filter(pred);
    if taken.contains(entry) {
        let i = choose|i: int| 0 <= i < taken.len() && taken[i] == entry;
        assert(pred(taken[i]));
        entries.lemma_filter_contains_rev(pred, entry);
    }
    if entries.contains(entry) && sessions::names_session_file(entry.file_name@) {
        let i = choose|i: int| 0 <= i < entries.len() && entries[i] == entry;
        assert(pred(entries[i]));
    }
}

/// An age is told in the largest unit that it fills, and in whole ones: the
/// number that is told is how often the unit goes into it.
pub proof fn law_ages_are_told_in_whole_units(modified: nat, now: nat, count: nat)
    requires
        now >= modified,
        count >= 1,
    ensures
        now - modified < 5_000 ==> sessions::age(modified, now) == "just-now"@,
        5 <= count <= 59 && count * 1_000 <= now - modified < (count + 1) * 1_000 ==> sessions::age(
            modified,
            now,
        ) == text::decimal(count) + "s-ago"@,
        count <= 59 && count * 60_000 <= now - modified < (count + 1) * 60_000 ==> sessions::age(
            modified,
            now,
        ) == text::decimal(count) + "m-ago"@,
        count <= 23 && count * 3_600_000 <= now - modified < (count + 1) * 3_600_000
            ==> sessions::age(modified, now) == text::decimal(count) + "h-ago"@,
        count * 86_400_000 <= now - modified < (count + 1) * 86_400_000 ==> sessions::age(
            modified,
            now,
        ) == text::decimal(count) + "d-ago"@,
        sessions::age(now, modified) == "just-now"@,
{
}

/// A branch is told with its name and the session that it came from.
pub proof fn law_branches_are_told_with_their_origin(branch: Seq<char>, parent: Seq<char>)
    ensures
        text::contains_text(sessions::lineage(Some(branch), Some(parent)), " branch="@ + branch + " "@),
        text::has_suffix(sessions::lineage(Some(branch), Some(parent)), " from="@ + parent),
        sessions::lineage(Some(branch), None) == " branch="@ + branch,
        sessions::lineage(None, Some(parent)) == " from="@ + parent,
        sessions::lineage(None, None).len() == 0,
{
    {
        reveal_strlit(" branch=");
        reveal_strlit(" from=");
        reveal_strlit(" ");
        reveal_strlit("from=");
        assert(" from="@ =~= " "@ + "from="@);
        let before = Seq::<char>::empty();
        let part = " branch="@ + branch + " "@;
        let after = "from="@ + parent;
        assert(sessions::lineage(Some(branch), Some(parent)) =~= before + part + after);
        text::lemma_contains_part(before, part, after);
    }
    {
        reveal_strlit(" from=");
        let before = " branch="@ + branch;
        let part = " from="@ + parent;
        let after = Seq::<char>::empty();
        assert(sessions::lineage(Some(branch), Some(parent)) =~= before + part + after);
        text::lemma_contains_part(before, part, after);
        assert(before + part + after =~= before + part);
    }
}

/// The line of a session begins with its identifier, marks the session in use,
/// and tells its messages, its age and its file.
pub proof fn law_session_lines_tell_of_the_session(
    session: ManagedSessionSummary,
    active: Seq<char>,
    now: nat,
)
    ensures
        ({
            let line = sessions::session_line(session, active, now);
            &&& text::has_prefix(line, "  "@ + session.id@)
            &&& session.id@ == active ==> text::contains_text(line, "● current"@)
            &&& session.id@ != active ==> text::contains_text(line, "○ saved"@)
            &&& text::contains_text(
                line,
                " msgs="@ + text::decimal(session.message_count as nat),
            )
            &&& text::contains_text(
                line,
                " modified="@ + sessions::age(session.modified_epoch_millis as nat, now),
            )
            &&& text::has_suffix(line, " path="@ + session.path@)
        }),
{
    let mark = if session.id@ == active {
        "● current"@
    } else {
        "○ saved"@
    };
    lemma_session_line(
        session.id@,
        mark,
        text::decimal(session.message_count as nat),
        sessions::age(session.modified_epoch_millis as nat, now),
        sessions::lineage(
            text::opt_text(session.branch_name),
            text::opt_text(session.parent_session_id),
        ),
        session.path@,
    );
}

proof fn lemma_session_line(
    id: Seq<char>,
    mark: Seq<char>,
    count: Seq<char>,
    age: Seq<char>,
    lineage: Seq<char>,
    path: Seq<char>,
)
    ensures
        ({
            let line = "  "@ + text::padded(id, 20) + " "@ + text::padded(mark, 10) + " msgs="@
                + text::padded(count, 4) + " modified="@ + age + lineage + " path="@ + path;
            &&& text::has_prefix(line, "  "@ + id)
            &&& text::contains_text(line, mark)
            &&& text::contains_text(line, " msgs="@ + count)
            &&& text::contains_text(line, " modified="@ + age)
            &&& text::has_suffix(line, " path="@ + path)
        }),
{
    let (a, b, c) = (text::padded(id, 20), text::padded(mark, 10), text::padded(count, 4));
    let (x, y, z) = (
        a.skip(id.len() as int),
        b.skip(mark.len() as int),
        c.skip(count.len() as int),
    );
    assert(a =~= id + x);
    assert(b =~= mark + y);
    assert(c =~= count + z);
    lemma_line_parts(id, x, mark, y, count, z, age, lineage, path);
}

proof fn lemma_line_parts(
    id: Seq<char>,
    x: Seq<char>,
    mark: Seq<char>,
    y: Seq<char>,
    count: Seq<char>,
    z: Seq<char>,
    age: Seq<char>,
    lineage: Seq<char>,
    path: Seq<char>,
)
    ensures
        ({
            let line = "  "@ + (id + x) + " "@ + (mark + y) + " msgs="@ + (count + z)
                + " modified="@ + age + lineage + " path="@ + path;
            &&& text::has_prefix(line, "  "@ + id)
            &&& text::contains_text(line, mark)
            &&& text::contains_text(line, " msgs="@ + count)
            &&& text::contains_text(line, " modified="@ + age)
            &&& text::has_suffix(line, " path="@ + path)
        }),
{
    let line = "  "@ + (id + x) + " "@ + (mark + y) + " msgs="@ + (count + z) + " modified="@ + age
        + lineage + " path="@ + path;
    let tail = " path="@ + path;
    let aged = " modified="@ + age;
    let counted = " msgs="@ + count;
    let named = "  "@ + id;
    assert(line =~= named + x + " "@ + mark + y + counted + z + aged + lineage + tail);
    lemma_parts_of_ten(named, x, " "@, mark, y, counted, z, aged, lineage, tail);
}

proof fn lemma_parts_of_ten(
    named: Seq<char>,
    x: Seq<char>,
    gap: Seq<char>,
    mark: Seq<char>,
    y: Seq<char>,
    counted: Seq<char>,
    z: Seq<char>,
    aged: Seq<char>,
    lineage: Seq<char>,
    tail: Seq<char>,
)
    ensures
        ({
            let line = named + x + gap + mark + y + counted + z + aged + lineage + tail;
            &&& text::has_prefix(line, named)
            &&& text::contains_text(line, mark)
            &&& text::contains_text(line, counted)
            &&& text::contains_text(line, aged)
            &&& text::has_suffix(line, tail)
        }),
{
    let line = named + x + gap + mark + y + counted + z + aged + lineage + tail;
    assert(text::has_prefix(line, named)) by {
        assert(line.take(named.len() as int) =~= named);
    }
    assert(text::contains_text(line, mark)) by {
        let at = (named + x + gap).len() as int;
        assert(line.subrange(at, at + mark.len()) =~= mark);
        assert(text::occurs_at(line, mark, at));
    }
    assert(text::contains_text(line, counted)) by {
        let at = (named + x + gap + mark + y).len() as int;
        assert(line.subrange(at, at + counted.len()) =~= counted);
        assert(text::occurs_at(line, counted, at));
    }
    assert(text::contains_text(line, aged)) by {
        let at = (named + x + gap + mark + y + counted + z).len() as int;
        assert(line.subrange(at, at + aged.len()) =~= aged);
        assert(text::occurs_at(line, aged, at));
    }
    assert(text::has_suffix(line, tail)) by {
        assert(line.skip(line.len() - tail.len()) =~= tail);
    }
}

/// The listing names the directory and has the line of every session, in their
/// order; without sessions it says so.
pub proof fn law_listings_have_every_session(
    front: Seq<ManagedSessionSummary>,
    session: ManagedSessionSummary,
    active: Seq<char>,
    directory: Seq<char>,
    now: nat,
)
    ensures
        text::has_prefix(
            sessions::session_listing(front, active, directory, now),
            "Sessions\n  Directory         "@ + directory + "\n"@,
        ),
        front.len() > 0 ==> sessions::session_listing(
            front.push(session),
            active,
            directory,
            now,
        ) == sessions::session_listing(front, active, directory, now) + "\n"@
            + sessions::session_line(session, active, now),
        text::has_suffix(
            sessions::session_listing(Seq::empty(), active, directory, now),
            "No managed sessions saved yet."@,
        ),
{
    assert(front.push(session).drop_last() =~= front);
    let head = "Sessions\n  Directory         "@ + directory;
    assert(sessions::session_listing(front.push(session), active, directory, now) =~= head
        + sessions::session_lines(front, active, now) + "\n"@ + sessions::session_line(
        session,
        active,
        now,
    ));
    reveal_strlit("\n  No managed sessions saved yet.");
    reveal_strlit("\n");
    reveal_strlit("  ");
    reveal_strlit("No managed sessions saved yet.");
    assert("\n  No managed sessions saved yet."@ =~= "\n"@ + "  "@ + "No managed sessions saved yet."@);
    text::lemma_contains_part(
        head + "\n"@ + "  "@,
        "No managed sessions saved yet."@,
        Seq::empty(),
    );
    assert(head + "\n  No managed sessions saved yet."@ =~= head + "\n"@ + "  "@
        + "No managed sessions saved yet."@);
    lemma_lines_begin(front, active, now);
    let listing = sessions::session_listing(front, active, directory, now);
    if front.len() == 0 {
        assert(listing =~= (head + "\n"@) + ("  "@ + "No managed sessions saved yet."@));
        text::lemma_contains_part(
            Seq::empty(),
            head + "\n"@,
            "  "@ + "No managed sessions saved yet."@,
        );
    } else {
        let lines = sessions::session_lines(front, active, now);
        assert(lines =~= "\n"@ + lines.skip(1));
        assert(listing =~= (head + "\n"@) + lines.skip(1));
        text::lemma_contains_part(Seq::empty(), head + "\n"@, lines.skip(1));
    }
}

proof fn lemma_lines_begin(all: Seq<ManagedSessionSummary>, active: Seq<char>, now: nat)
    ensures
        all.len() > 0 ==> sessions::session_lines(all, active, now).len() > 0
            && sessions::session_lines(all, active, now)[0] == '\n',
    decreases all.len(),
{
    reveal_strlit("\n");
    assert("\n"@.len() == 1 && "\n"@[0] == '\n');
    if all.len() > 0 {
        let before = sessions::session_lines(all.drop_last(), active, now);
        let line = sessions::session_line(all.last(), active, now);
        lemma_lines_begin(all.drop_last(), active, now);
        assert(sessions::session_lines(all, active, now) == before + "\n"@ + line);
        if all.len() == 1 {
            assert(before.len() == 0);
        }
    }
}

/// Where there is no session, it is told where sessions lie and how to come by one.
pub proof fn law_missing_sessions_are_told()
    ensures
        text::contains_text(sessions::none_managed(), ".claw/sessions/"@),
        text::contains_text(sessions::none_managed(), "`--resume latest`"@),
{
    let told = sessions::none_managed();
    reveal_strlit("no managed sessions found in .claw/sessions/\nStart `claw` to create a session, then rerun with `--resume latest`.");
    reveal_strlit("no managed sessions found in ");
    reveal_strlit(".claw/sessions/");
    reveal_strlit("\nStart `claw` to create a session, then rerun with ");
    reveal_strlit("`--resume latest`");
    reveal_strlit(".");
    let first = "no managed sessions found in "@;
    let middle = "\nStart `claw` to create a session, then rerun with "@;
    assert(told =~= first + ".claw/sessions/"@ + (middle + "`--resume latest`"@ + "."@));
    text::lemma_contains_part(first, ".claw/sessions/"@, middle + "`--resume latest`"@ + "."@);
    assert(told =~= first + ".claw/sessions/"@ + middle + "`--resume latest`"@ + "."@);
    text::lemma_contains_part(first + ".claw/sessions/"@ + middle, "`--resume latest`"@, "."@);
}

/// Sessions once lay in a directory of their own name, and in no other.
pub proof fn law_old_sessions_lay_under_their_name(name: Option<Seq<char>>)
    ensures
        sessions::was_sessions_root(name) <==> name is Some && name->0 == "sessions"@,
{
}

/// A counter stands above a smaller one, and above none; never above itself.
pub proof fn law_counters_are_compared_strictly(a: u64, b: u64)
    ensures
        sessions::counter_above(Some(a), Some(b)) <==> a > b,
        !sessions::counter_above(Some(a), Some(a)),
        sessions::counter_above(Some(a), None),
        !sessions::counter_above(None, Some(a)),
        !sessions::counter_above(None, None),
{
}

/// The lines of sessions have columns: the id in 20 characters, whether it is the
/// one in use in 10, and behind them the messages.
pub proof fn law_session_lines_have_columns(
    session: ManagedSessionSummary,
    active: Seq<char>,
    now: nat,
)
    requires
        session.id@.len() <= 20,
        session.message_count < 10,
    ensures
        ({
            let line = sessions::session_line(session, active, now);
            &&& line.subrange(2, 22) == text::padded(session.id@, 20)
            &&& line.subrange(23, 33) == text::padded(
                if session.id@ == active {
                    "● current"@
                } else {
                    "○ saved"@
                },
                10,
            )
            &&& line.subrange(33, 39) == " msgs="@
            &&& line.subrange(39, 43) == text::padded(
                text::decimal(session.message_count as nat),
                4,
            )
            &&& line.subrange(43, 53) == " modified="@
        }),
{
    reveal_strlit("  ");
    reveal_strlit(" ");
    reveal_strlit("● current");
    reveal_strlit("○ saved");
    reveal_strlit(" msgs=");
    reveal_strlit(" modified=");
    let line = sessions::session_line(session, active, now);
    let id = text::padded(session.id@, 20);
    let mark = text::padded(
        if session.id@ == active {
            "● current"@
        } else {
            "○ saved"@
        },
        10,
    );
    let count = text::padded(text::decimal(session.message_count as nat), 4);
    assert(id.len() == 20);
    assert(mark.len() == 10);
    assert(count.len() == 4);
    let rest = sessions::age(session.modified_epoch_millis as nat, now) + sessions::lineage(
        text::opt_text(session.branch_name),
        text::opt_text(session.parent_session_id),
    ) + " path="@ + session.path@;
    assert(line =~= "  "@ + id + " "@ + mark + " msgs="@ + count + " modified="@ + rest);
    lemma_columns(line, id, mark, count, rest);
}

proof fn lemma_columns(
    line: Seq<char>,
    id: Seq<char>,
    mark: Seq<char>,
    count: Seq<char>,
    rest: Seq<char>,
)
    requires
        line == "  "@ + id + " "@ + mark + " msgs="@ + count + " modified="@ + rest,
        id.len() == 20,
        mark.len() == 10,
        count.len() == 4,
    ensures
        line.subrange(2, 22) == id,
        line.subrange(23, 33) == mark,
        line.subrange(33, 39) == " msgs="@,
        line.subrange(39, 43) == count,
        line.subrange(43, 53) == " modified="@,
{
    reveal_strlit("  ");
    reveal_strlit(" ");
    reveal_strlit(" msgs=");
    reveal_strlit(" modified=");
    assert(line.subrange(2, 22) =~= id);
    assert(line.subrange(23, 33) =~= mark);
    assert(line.subrange(33, 39) =~= " msgs="@);
    assert(line.subrange(39, 43) =~= count);
    assert(line.subrange(43, 53) =~= " modified="@);
}

} // verus!
